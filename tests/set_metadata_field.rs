use vector_vrl_functions::key::{MetadataKey, MetadataQuery, QueryTarget};
use vector_vrl_functions::path::{MetadataPath, ReadOnlyPaths};
use vector_vrl_functions::schema::{MetadataSchema, TypeState};
use vector_vrl_functions::set_metadata_field::{
    set_metadata_field, write_outcome, CompileError, MetadataWrite, SetMetadataField,
};
use vector_vrl_functions::value::{Kind, Value};

fn path(fields: &[&str]) -> MetadataPath {
    MetadataPath::new(fields.iter().map(|f| f.to_string()).collect())
}

fn external(fields: &[&str]) -> MetadataKey {
    MetadataKey::Query(MetadataQuery::external(path(fields)))
}

fn legacy(name: &str) -> MetadataKey {
    MetadataKey::Legacy(name.to_string())
}

fn bytes(s: &str) -> Value {
    Value::Bytes(s.as_bytes().to_vec())
}

#[test]
fn legacy_string_compiles_and_writes_secret() {
    let node = SetMetadataField
        .compile(legacy("datadog_api_key"), Kind::bytes(), &ReadOnlyPaths::none())
        .expect("a string value compiles");
    let write: Result<MetadataWrite, String> = node.resolve(Ok(bytes("abc123")));
    assert_eq!(
        write,
        Ok(MetadataWrite::Secret {
            name: "datadog_api_key".to_string(),
            secret: b"abc123".to_vec()
        })
    );
    assert_eq!(write_outcome::<String>(Ok(())), Ok(Value::Null));
}

#[test]
fn legacy_integer_is_unexpected_expression() {
    let r = SetMetadataField.compile(legacy("x"), Kind::integer(), &ReadOnlyPaths::none());
    match r {
        Err(CompileError::UnexpectedExpression { keyword, expected, expr }) => {
            assert_eq!(keyword, "value");
            assert_eq!(expected, "string");
            assert_eq!(expr, Kind::integer());
        }
        other => panic!("expected an unexpected expression error, got {:?}", other.map(|_| ())),
    }
}

#[test]
fn legacy_maybe_string_is_refused() {
    let maybe = Kind::bytes().union(&Kind::null());
    let r = SetMetadataField.compile(legacy("x"), maybe, &ReadOnlyPaths::none());
    assert!(matches!(r, Err(CompileError::UnexpectedExpression { .. })));
}

#[test]
fn legacy_key_ignores_read_only_paths() {
    let mut ro = ReadOnlyPaths::none();
    ro.add(MetadataPath::root(), true);
    let r = SetMetadataField.compile(legacy("x"), Kind::bytes(), &ro);
    assert!(r.is_ok());
}

#[test]
fn read_only_query_is_refused() {
    let mut ro = ReadOnlyPaths::none();
    ro.add(path(&["a", "b"]), false);
    for kind in [Kind::integer(), Kind::bytes(), Kind::any(), Kind::never()] {
        let r = SetMetadataField.compile(external(&["a", "b"]), kind, &ro);
        match r {
            Err(CompileError::ReadOnlyMutation { context }) => {
                assert_eq!(context, "%a.b is read-only, and cannot be modified");
            }
            other => panic!("expected a read-only error, got {:?}", other.map(|_| ())),
        }
    }
}

#[test]
fn writing_above_a_read_only_path_is_refused() {
    let mut ro = ReadOnlyPaths::none();
    ro.add(path(&["a", "b"]), false);
    let r = SetMetadataField.compile(external(&["a"]), Kind::integer(), &ro);
    match r {
        Err(CompileError::ReadOnlyMutation { context }) => {
            assert_eq!(context, "%a is read-only, and cannot be modified");
        }
        other => panic!("expected a read-only error, got {:?}", other.map(|_| ())),
    }
}

#[test]
fn below_a_read_only_path_depends_on_recursion() {
    let mut flat = ReadOnlyPaths::none();
    flat.add(path(&["a"]), false);
    assert!(!flat.is_read_only(&path(&["a", "b"])));
    assert!(flat.is_read_only(&path(&["a"])));
    assert!(!flat.is_read_only(&path(&["b"])));
    let mut deep = ReadOnlyPaths::none();
    deep.add(path(&["a"]), true);
    assert!(deep.is_read_only(&path(&["a", "b"])));
    assert!(!deep.is_read_only(&path(&["ab"])));
}

#[test]
fn writable_query_accepts_any_kind() {
    let mut ro = ReadOnlyPaths::none();
    ro.add(path(&["c"]), true);
    for kind in [Kind::integer(), Kind::bytes(), Kind::any(), Kind::null(), Kind::boolean()] {
        let node = SetMetadataField
            .compile(external(&["a", "b"]), kind, &ro)
            .expect("a writable query compiles");
        assert_eq!(node.value_kind(), kind);
        assert_eq!(node.key(), &external(&["a", "b"]));
    }
}

#[test]
fn query_integer_updates_schema_and_writes_metadata() {
    let node = SetMetadataField
        .compile(external(&["a", "b"]), Kind::integer(), &ReadOnlyPaths::none())
        .expect("compiles");
    let state = TypeState::new(MetadataSchema::empty());
    let info = node.type_info(&state);
    assert_eq!(info.result, Kind::null());
    assert_eq!(
        info.state.metadata_kind().kind_at_path(&path(&["a", "b"])),
        Some(Kind::integer())
    );
    assert_eq!(state.metadata_kind().kind_at_path(&path(&["a", "b"])), None);
    let write: Result<MetadataWrite, String> = node.resolve(Ok(Value::Integer(5)));
    assert_eq!(
        write,
        Ok(MetadataWrite::Metadata { path: path(&["a", "b"]), value: Value::Integer(5) })
    );
}

#[test]
fn type_info_keeps_unrelated_paths_and_drops_overlapping_ones() {
    let schema = MetadataSchema::empty()
        .insert(&path(&["x"]), Kind::bytes())
        .insert(&path(&["a", "c"]), Kind::boolean())
        .insert(&path(&["a", "b", "c"]), Kind::null());
    assert_eq!(schema.kind_at_path(&path(&["a", "c"])), Some(Kind::boolean()));
    assert_eq!(schema.kind_at_path(&path(&["a", "b", "c"])), Some(Kind::null()));
    let state = TypeState::new(schema);
    let node = SetMetadataField
        .compile(external(&["a", "b"]), Kind::integer(), &ReadOnlyPaths::none())
        .expect("compiles");
    let next = node.type_info(&state).state;
    let m = next.metadata_kind();
    assert_eq!(m.kind_at_path(&path(&["x"])), Some(Kind::bytes()));
    assert_eq!(m.kind_at_path(&path(&["a", "b"])), Some(Kind::integer()));
    assert_eq!(m.kind_at_path(&path(&["a", "c"])), Some(Kind::boolean()));
    assert_eq!(m.kind_at_path(&path(&["a", "b", "c"])), None);
    // the input state is not changed
    assert_eq!(state.metadata_kind().kind_at_path(&path(&["a", "b", "c"])), Some(Kind::null()));
}

#[test]
fn legacy_type_info_leaves_state_alone() {
    let schema = MetadataSchema::empty()
        .insert(&path(&["a"]), Kind::integer())
        .insert(&path(&["a", "b"]), Kind::bytes());
    assert_eq!(schema.kind_at_path(&path(&["a"])), None);
    let state = TypeState::new(schema);
    let node = SetMetadataField
        .compile(legacy("k"), Kind::bytes(), &ReadOnlyPaths::none())
        .expect("compiles");
    let info = node.type_info(&state);
    assert_eq!(info.result, Kind::null());
    let m = info.state.metadata_kind();
    assert_eq!(m.kind_at_path(&path(&["a", "b"])), Some(Kind::bytes()));
    assert_eq!(m.kind_at_path(&path(&["a"])), None);
    assert_eq!(m.kind_at_path(&path(&["k"])), None);
}

#[test]
fn evaluation_error_is_passed_on() {
    let node = SetMetadataField
        .compile(external(&["a"]), Kind::any(), &ReadOnlyPaths::none())
        .expect("compiles");
    let r: Result<MetadataWrite, String> = node.resolve(Err("boom".to_string()));
    assert_eq!(r, Err("boom".to_string()));
}

#[test]
fn failed_metadata_write_is_returned() {
    let r = write_outcome::<String>(Err("conflict".to_string()));
    assert_eq!(r, Err("conflict".to_string()));
}

#[test]
fn set_metadata_field_picks_the_store() {
    assert_eq!(
        set_metadata_field(&legacy("k"), bytes("v")),
        MetadataWrite::Secret { name: "k".to_string(), secret: b"v".to_vec() }
    );
    assert_eq!(
        set_metadata_field(&external(&["m"]), Value::Boolean(true)),
        MetadataWrite::Metadata { path: path(&["m"]), value: Value::Boolean(true) }
    );
}

#[test]
fn descriptor() {
    let f = SetMetadataField;
    assert_eq!(f.identifier(), "set_metadata_field");
    let params = f.parameters();
    assert_eq!(params.len(), 2);
    assert_eq!(params[0].keyword, "key");
    assert_eq!(params[1].keyword, "value");
    assert!(params.iter().all(|p| p.required && p.kind == Kind::any()));
    let examples = f.examples();
    assert_eq!(examples.len(), 1);
    assert_eq!(examples[0].source, r#"set_metadata_field("datadog_api_key", "abc123")"#);
    assert_eq!(examples[0].result, "null");
}

#[test]
fn query_text_and_paths() {
    let q = MetadataQuery::external(path(&["a", "b", "c"]));
    assert_eq!(q.render(), "%a.b.c");
    let internal = MetadataQuery { path: path(&["v"]), target: QueryTarget::Internal };
    assert_eq!(internal.render(), "v");
    assert_eq!(MetadataPath::root().render(), "");
    let mut p = MetadataPath::root();
    p.push("a".to_string());
    p.push("b".to_string());
    assert!(p.same_as(&path(&["a", "b"])));
    assert!(p.starts_with(&path(&["a"])));
    assert!(!path(&["a"]).starts_with(&p));
    assert_eq!(p.duplicate(), p);
}

#[test]
fn kind_membership() {
    assert!(Kind::bytes().is_bytes());
    assert!(!Kind::any().is_bytes());
    assert!(!Kind::never().is_bytes());
    assert!(Kind::integer().contains(&Value::Integer(5)));
    assert!(!Kind::integer().contains(&bytes("5")));
    assert!(Kind::any().contains(&Value::Null));
}
