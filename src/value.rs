use vstd::prelude::*;

verus! {

/// A dynamically typed runtime value.
#[derive(Clone, Debug, PartialEq, Eq)]
pub enum Value {
    Null,
    Boolean(bool),
    Integer(i64),
    Bytes(Vec<u8>),
}

/// A static type: the set of runtime value variants an expression may produce.
#[derive(Clone, Copy, Debug, PartialEq, Eq, Structural)]
pub struct Kind {
    pub null: bool,
    pub boolean: bool,
    pub integer: bool,
    pub bytes: bool,
}

/// The kind holds exactly the byte/string variant and nothing else.
pub open spec fn is_bytes_only(k: Kind) -> bool {
    &&& k.bytes
    &&& !k.null
    &&& !k.boolean
    &&& !k.integer
}

/// The runtime value `v` is one that the static kind `k` allows.
pub open spec fn admits(k: Kind, v: Value) -> bool {
    match v {
        Value::Null => k.null,
        Value::Boolean(_) => k.boolean,
        Value::Integer(_) => k.integer,
        Value::Bytes(_) => k.bytes,
    }
}

pub open spec fn kind_none() -> Kind {
    Kind { null: false, boolean: false, integer: false, bytes: false }
}

pub open spec fn kind_any() -> Kind {
    Kind { null: true, boolean: true, integer: true, bytes: true }
}

impl Kind {
    /// The kind of no value at all.
    pub fn never() -> (r: Kind)
        ensures
            r == kind_none(),
    {
        Kind { null: false, boolean: false, integer: false, bytes: false }
    }

    /// The kind of every value.
    pub fn any() -> (r: Kind)
        ensures
            r == kind_any(),
    {
        Kind { null: true, boolean: true, integer: true, bytes: true }
    }

    pub open spec fn null_spec() -> Kind {
        Kind { null: true, ..kind_none() }
    }

    pub fn null() -> (r: Kind)
        ensures
            r == Kind::null_spec(),
    {
        Kind { null: true, ..Kind::never() }
    }

    pub fn boolean() -> (r: Kind)
        ensures
            r == (Kind { boolean: true, ..kind_none() }),
    {
        Kind { boolean: true, ..Kind::never() }
    }

    pub fn integer() -> (r: Kind)
        ensures
            r == (Kind { integer: true, ..kind_none() }),
    {
        Kind { integer: true, ..Kind::never() }
    }

    pub fn bytes() -> (r: Kind)
        ensures
            r == (Kind { bytes: true, ..kind_none() }),
            is_bytes_only(r),
    {
        Kind { bytes: true, ..Kind::never() }
    }

    /// The kind that allows every value either kind allows.
    pub fn union(&self, other: &Kind) -> (r: Kind)
        ensures
            forall|v: Value| admits(r, v) == (admits(*self, v) || admits(*other, v)),
    {
        Kind {
            null: self.null || other.null,
            boolean: self.boolean || other.boolean,
            integer: self.integer || other.integer,
            bytes: self.bytes || other.bytes,
        }
    }

    /// Whether every value of this kind is guaranteed to be a byte string.
    pub fn is_bytes(&self) -> (r: bool)
        ensures
            r == is_bytes_only(*self),
    {
        self.bytes && !self.null && !self.boolean && !self.integer
    }

    /// Whether this kind allows the given runtime value.
    pub fn contains(&self, v: &Value) -> (r: bool)
        ensures
            r == admits(*self, *v),
    {
        match v {
            Value::Null => self.null,
            Value::Boolean(_) => self.boolean,
            Value::Integer(_) => self.integer,
            Value::Bytes(_) => self.bytes,
        }
    }
}

/// A value admitted by a bytes-only kind is a byte string.
pub proof fn lemma_bytes_only_admits_only_bytes(k: Kind, v: Value)
    requires
        is_bytes_only(k),
        admits(k, v),
    ensures
        v is Bytes,
{
}

} // verus!
