use vstd::prelude::*;
use vstd::string::*;
use crate::key::{query_text, MetadataKey, MetadataQuery, QueryTarget};
use crate::path::{MetadataPath, ReadOnlyPaths};
use crate::schema::{shape_insert, TypeState};
use crate::value::{admits, is_bytes_only, kind_any, Kind, Value};

verus! {

/// Why a call could not be compiled.
#[derive(Clone, Debug, PartialEq, Eq)]
pub enum CompileError {
    /// The call writes at a path that the host has marked read-only.
    ReadOnlyMutation { context: String },
    /// An argument's static type is not the one the function needs.
    UnexpectedExpression { keyword: &'static str, expected: &'static str, expr: Kind },
}

/// The message of a rejected write at a read-only query.
pub open spec fn read_only_message(q: MetadataQuery) -> Seq<char> {
    query_text(q.target, q.path@) + " is read-only, and cannot be modified"@
}

/// The key is a query whose path the host has marked read-only.
pub open spec fn rejected_as_read_only(key: MetadataKey, policy: ReadOnlyPaths) -> bool {
    key matches MetadataKey::Query(q) && policy.forbids_spec(q.path@)
}

/// The key is a legacy secret name and the value is not statically a string.
pub open spec fn rejected_as_not_string(key: MetadataKey, value_kind: Kind) -> bool {
    key is Legacy && !is_bytes_only(value_kind)
}

/// The single write that one evaluation performs on the execution target.
#[derive(Clone, Debug, PartialEq, Eq)]
pub enum MetadataWrite {
    /// Store `secret` in the secret store under `name`.
    Secret { name: String, secret: Vec<u8> },
    /// Write `value` at `path` of the structured metadata.
    Metadata { path: MetadataPath, value: Value },
}

/// `w` is the write that setting `v` under `key` performs.
pub open spec fn is_write_for(w: MetadataWrite, key: MetadataKey, v: Value) -> bool {
    match key {
        MetadataKey::Legacy(n) => {
            &&& w matches MetadataWrite::Secret { name, secret }
            &&& name@ == n@
            &&& v matches Value::Bytes(b)
            &&& secret@ == b@
        },
        MetadataKey::Query(q) => {
            &&& w matches MetadataWrite::Metadata { path, value }
            &&& path@ == q.path@
            &&& value == v
        },
    }
}

/// What an evaluation returns once its write has been attempted.
pub open spec fn write_outcome_spec<E>(written: Result<(), E>) -> Result<Value, E> {
    match written {
        Ok(_) => Ok(Value::Null),
        Err(e) => Err(e),
    }
}

/// The write that setting `value` under `key` performs: a legacy key stores the string in
/// the secret store; a query writes the value at its path.
pub fn set_metadata_field(key: &MetadataKey, value: Value) -> (w: MetadataWrite)
    requires
        key is Legacy ==> value is Bytes,
    ensures
        is_write_for(w, *key, value),
{
    match key {
        MetadataKey::Legacy(name) => match value {
            Value::Bytes(bytes) => MetadataWrite::Secret { name: name.clone(), secret: bytes },
            _ => {
                proof {
                    assert(false);
                }
                MetadataWrite::Secret { name: name.clone(), secret: Vec::new() }
            },
        },
        MetadataKey::Query(query) => MetadataWrite::Metadata { path: query.path.duplicate(), value },
    }
}

/// The result of an evaluation, given how its write went: `null` on success, the write's
/// error unchanged on failure.
pub fn write_outcome<E>(written: Result<(), E>) -> (r: Result<Value, E>)
    ensures
        r == write_outcome_spec(written),
{
    match written {
        Ok(()) => Ok(Value::Null),
        Err(e) => Err(e),
    }
}

/// The static outcome of the call: the state after it, and the kind of its own value.
#[derive(Clone, Debug, PartialEq, Eq)]
pub struct TypeInfo {
    pub state: TypeState,
    pub result: Kind,
}

/// A compiled, validated call of `set_metadata_field`.
#[derive(Debug)]
pub struct SetMetadataFieldFn {
    key: MetadataKey,
    value_kind: Kind,
}

impl SetMetadataFieldFn {
    /// A legacy key is only ever compiled with a value that is statically a string.
    #[verifier::type_invariant]
    spec fn legacy_value_is_string(&self) -> bool {
        self.key is Legacy ==> is_bytes_only(self.value_kind)
    }

    pub closed spec fn key_spec(&self) -> MetadataKey {
        self.key
    }

    pub closed spec fn value_kind_spec(&self) -> Kind {
        self.value_kind
    }

    /// The resolved key.
    pub fn key(&self) -> (r: &MetadataKey)
        ensures
            *r == self.key_spec(),
    {
        &self.key
    }

    /// The static type of the value expression.
    pub fn value_kind(&self) -> (r: Kind)
        ensures
            r == self.value_kind_spec(),
    {
        self.value_kind
    }

    /// One evaluation: given what the value expression resolved to, the single write to
    /// perform, or the expression's error unchanged.
    pub fn resolve<E>(&self, value: Result<Value, E>) -> (r: Result<MetadataWrite, E>)
        requires
            value matches Ok(v) ==> admits(self.value_kind_spec(), v),
        ensures
            value matches Ok(v) ==> (r matches Ok(w) && is_write_for(w, self.key_spec(), v)),
            value matches Err(e) ==> r == Err::<MetadataWrite, E>(e),
    {
        proof {
            use_type_invariant(self);
        }
        match value {
            Ok(v) => Ok(set_metadata_field(&self.key, v)),
            Err(e) => Err(e),
        }
    }

    /// The node's static effect: its own value is `null`; a query inserts the value's kind
    /// at its path of the external metadata, and a legacy key leaves the state as it is.
    pub fn type_info(&self, state: &TypeState) -> (r: TypeInfo)
        requires
            self.key_spec() matches MetadataKey::Query(q) ==> q.target == QueryTarget::External,
        ensures
            r.result == Kind::null_spec(),
            self.key_spec() is Legacy ==> r.state@ == state@,
            self.key_spec() matches MetadataKey::Query(q) ==> r.state@ == shape_insert(
                state@,
                q.path@,
                self.value_kind_spec(),
            ),
    {
        let result = Kind::null();
        match &self.key {
            MetadataKey::Legacy(_) => {
                TypeInfo { state: TypeState::new(state.metadata_kind().duplicate()), result }
            },
            MetadataKey::Query(query) => match query.target {
                QueryTarget::External => {
                    let mut next = TypeState::new(state.metadata_kind().duplicate());
                    let updated = next.metadata_kind().insert(&query.path, self.value_kind);
                    next.update_metadata(updated);
                    TypeInfo { state: next, result }
                },
                _ => {
                    proof {
                        assert(false);
                    }
                    TypeInfo { state: TypeState::new(state.metadata_kind().duplicate()), result }
                },
            },
        }
    }
}

/// One parameter of a function's signature.
#[derive(Clone, Copy, Debug, PartialEq, Eq)]
pub struct Parameter {
    pub keyword: &'static str,
    pub kind: Kind,
    pub required: bool,
}

/// A documented call of a function and the value it gives.
#[derive(Clone, Copy, Debug, PartialEq, Eq)]
pub struct Example {
    pub title: &'static str,
    pub source: &'static str,
    pub result: &'static str,
}

/// The builtin that sets a metadata field.
#[derive(Clone, Copy, Debug, PartialEq, Eq)]
pub struct SetMetadataField;

impl SetMetadataField {
    /// The name under which the function is called.
    pub fn identifier(&self) -> (r: &'static str)
        ensures
            r@ == "set_metadata_field"@,
    {
        "set_metadata_field"
    }

    /// Two required parameters, `key` and `value`, each of any kind.
    pub fn parameters(&self) -> (r: Vec<Parameter>)
        ensures
            r@.len() == 2,
            r@[0].keyword@ == "key"@,
            r@[1].keyword@ == "value"@,
            forall|i: int| 0 <= i < 2 ==> #[trigger] r@[i].required && r@[i].kind == kind_any(),
    {
        let mut r: Vec<Parameter> = Vec::new();
        r.push(Parameter { keyword: "key", kind: Kind::any(), required: true });
        r.push(Parameter { keyword: "value", kind: Kind::any(), required: true });
        r
    }

    /// The documented example: setting the datadog api key gives `null`.
    pub fn examples(&self) -> (r: Vec<Example>)
        ensures
            r@.len() == 1,
            r@[0].title@ == "Sets the datadog api key"@,
            r@[0].source@ == "set_metadata_field(\"datadog_api_key\", \"abc123\")"@,
            r@[0].result@ == "null"@,
    {
        let mut r: Vec<Example> = Vec::new();
        r.push(
            Example {
                title: "Sets the datadog api key",
                source: "set_metadata_field(\"datadog_api_key\", \"abc123\")",
                result: "null",
            },
        );
        r
    }

    /// Validates a call whose key has been resolved to `key` and whose value expression has
    /// the static kind `value_kind`. A query at a read-only path is refused first; then a
    /// legacy key needs a value that is statically a string; any other call compiles.
    pub fn compile(&self, key: MetadataKey, value_kind: Kind, read_only: &ReadOnlyPaths) -> (r:
        Result<SetMetadataFieldFn, CompileError>)
        ensures
            rejected_as_read_only(key, *read_only) ==> (r matches Err(
                CompileError::ReadOnlyMutation { context },
            ) && context@ == read_only_message(key->Query_0)),
            !rejected_as_read_only(key, *read_only) && rejected_as_not_string(key, value_kind) ==> (
            r matches Err(CompileError::UnexpectedExpression { keyword, expected, expr })
                && keyword@ == "value"@ && expected@ == "string"@ && expr == value_kind),
            !rejected_as_read_only(key, *read_only) && !rejected_as_not_string(key, value_kind)
                ==> (r matches Ok(node) && node.key_spec() == key && node.value_kind_spec()
                == value_kind),
    {
        if let MetadataKey::Query(query) = &key {
            if read_only.is_read_only(&query.path) {
                let mut context = query.render();
                proof {
                    reveal_strlit(" is read-only, and cannot be modified");
                }
                context.append(" is read-only, and cannot be modified");
                return Err(CompileError::ReadOnlyMutation { context });
            }
        }
        let is_legacy = match &key {
            MetadataKey::Legacy(_) => true,
            MetadataKey::Query(_) => false,
        };
        if is_legacy && !value_kind.is_bytes() {
            return Err(CompileError::UnexpectedExpression { keyword: "value", expected: "string", expr: value_kind });
        }
        Ok(SetMetadataFieldFn { key, value_kind })
    }
}

/// A legacy key is never refused as read-only, and it compiles exactly when the value is
/// statically a string.
pub proof fn lemma_legacy_compiles_iff_string(name: String, value_kind: Kind, read_only: ReadOnlyPaths)
    ensures
        !rejected_as_read_only(MetadataKey::Legacy(name), read_only),
        rejected_as_not_string(MetadataKey::Legacy(name), value_kind) <==> !is_bytes_only(value_kind),
{
}

/// A query at a read-only path is refused as read-only, whatever the value's kind.
pub proof fn lemma_read_only_query_is_refused(q: MetadataQuery, value_kind: Kind, read_only: ReadOnlyPaths)
    requires
        read_only.forbids_spec(q.path@),
    ensures
        rejected_as_read_only(MetadataKey::Query(q), read_only),
{
}

/// A query at a writable path compiles with a value of any kind.
pub proof fn lemma_writable_query_accepts_any_kind(q: MetadataQuery, value_kind: Kind, read_only: ReadOnlyPaths)
    requires
        !read_only.forbids_spec(q.path@),
    ensures
        !rejected_as_read_only(MetadataKey::Query(q), read_only),
        !rejected_as_not_string(MetadataKey::Query(q), value_kind),
{
}

/// Evaluating a compiled legacy call on a value of its static kind performs one write, to
/// the secret store, of the name and the value's string, touches no structured metadata,
/// and returns `null`.
pub proof fn lemma_legacy_evaluation_writes_one_secret<E>(
    name: String,
    value_kind: Kind,
    v: Value,
    w: MetadataWrite,
)
    requires
        !rejected_as_not_string(MetadataKey::Legacy(name), value_kind),
        admits(value_kind, v),
        is_write_for(w, MetadataKey::Legacy(name), v),
    ensures
        v is Bytes,
        w !is Metadata,
        w matches MetadataWrite::Secret { name: n, secret } && n@ == name@ && secret@ == v->Bytes_0@,
        write_outcome_spec::<E>(Ok(())) == Ok::<Value, E>(Value::Null),
{
}

/// Evaluating a compiled query performs one write, of the value at the query's path; it
/// returns `null` when the write succeeds and the write's own error when it fails.
pub proof fn lemma_query_evaluation_writes_once<E>(q: MetadataQuery, v: Value, w: MetadataWrite, e: E)
    requires
        is_write_for(w, MetadataKey::Query(q), v),
    ensures
        w !is Secret,
        w matches MetadataWrite::Metadata { path, value } && path@ == q.path@ && value == v,
        write_outcome_spec::<E>(Ok(())) == Ok::<Value, E>(Value::Null),
        write_outcome_spec::<E>(Err(e)) == Err::<Value, E>(e),
{
}

} // verus!
