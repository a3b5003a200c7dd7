use ormx::attrs::{parse_attrs, PatchAttr, PatchFieldAttr, TableAttr, TableFieldAttr};
use ormx::backend::common::patch::impl_patch;
use ormx::backend::mysql::MySqlBackend;
use ormx::backend::postgres::PgBackend;
use ormx::error::{ParseError, RequiredAttr, SchemaError};
use ormx::input::{AttrBlock, FieldInput, RawAttr, RawValue, StructInput};
use ormx::patch::{Patch, PatchField};
use ormx::protocol::{
    delete_outcome, write_step, DeleteError, WriteAction, WriteEvent, WriteState,
};
use ormx::statement::Origin;
use ormx::table::{Table, TableField};
use ormx::text::{decimal_string, same_text};

fn raw(key: &str, value: Option<RawValue>, argument: Option<&str>) -> RawAttr {
    RawAttr {
        key: key.to_string(),
        outer: vec![],
        value,
        argument: argument.map(|a| a.to_string()),
    }
}

fn bare(key: &str) -> RawAttr {
    raw(key, None, None)
}

fn string(key: &str, value: &str) -> RawAttr {
    raw(key, Some(RawValue::Str(value.to_string())), None)
}

fn ident(key: &str, value: &str) -> RawAttr {
    raw(key, Some(RawValue::Ident(value.to_string())), None)
}

fn block(attrs: Vec<RawAttr>) -> Vec<AttrBlock> {
    vec![AttrBlock { path: "ormx".to_string(), attrs }]
}

fn field(name: &str, ty: &str, attrs: Vec<RawAttr>) -> FieldInput {
    FieldInput { ident: name.to_string(), ty: ty.to_string(), attrs: block(attrs) }
}

fn table(attrs: Vec<RawAttr>, fields: Vec<FieldInput>) -> StructInput {
    StructInput { ident: "Item".to_string(), vis: "pub".to_string(), attrs: block(attrs), fields }
}

fn build(input: &StructInput) -> Result<Table<MySqlBackend>, SchemaError> {
    Table::<MySqlBackend>::try_from(input)
}

fn failure(input: &StructInput) -> SchemaError {
    match build(input) {
        Ok(_) => panic!("the declaration was accepted"),
        Err(e) => e,
    }
}

fn field_failure(input: &FieldInput) -> SchemaError {
    match TableField::<MySqlBackend>::try_from(input) {
        Ok(_) => panic!("the member was accepted"),
        Err(e) => e,
    }
}

fn parse_failure(attr: RawAttr) -> ParseError {
    match parse_attrs::<TableFieldAttr>(&block(vec![attr])) {
        Ok(_) => panic!("the annotation was accepted"),
        Err(e) => e,
    }
}

fn table_parse_failure(attr: RawAttr) -> ParseError {
    match parse_attrs::<TableAttr>(&block(vec![attr])) {
        Ok(_) => panic!("the annotation was accepted"),
        Err(e) => e,
    }
}

#[test]
fn a_minimal_table_takes_its_defaults() {
    let input = table(
        vec![string("table", "items"), ident("id", "id")],
        vec![field("id", "i64", vec![bare("primary_key")]), field("label", "String", vec![])],
    );
    let t = build(&input).unwrap_or_else(|e| panic!("{:?}", e));
    assert_eq!(t.ident, "Item");
    assert_eq!(t.vis, "pub");
    assert_eq!(t.table, "items");
    assert_eq!(t.id.field, "id");
    assert!(t.insertable.is_none());
    assert!(!t.syncable);
    assert!(t.engine.is_none() && t.charset.is_none() && t.collation.is_none());
    assert_eq!(t.fields.len(), 2);
    let id = &t.fields[0];
    assert!(id.primary);
    assert!(!id.allow_null);
    assert!(!id.auto_increment);
    let label = &t.fields[1];
    assert_eq!(label.field, "label");
    assert_eq!(label.ty, "String");
    assert_eq!(label.column_name, "label");
    assert!(label.column_type.is_none());
    assert!(!label.primary);
    assert!(label.allow_null);
    assert!(label.unique.is_none());
    assert!(!label.custom_type);
    assert!(!label.reserved_ident);
    assert!(label.default.is_none());
    assert!(label.get_one.is_none() && label.get_optional.is_none() && label.get_many.is_none());
    assert!(label.set.is_none());
}

#[test]
fn allow_null_follows_the_primary_key_unless_it_is_set() {
    let input = table(
        vec![string("table", "items"), ident("id", "a")],
        vec![
            field("a", "i64", vec![bare("primary_key")]),
            field("b", "i64", vec![bare("primary_key"), raw("allow_null", Some(RawValue::Bool(true)), None)]),
            field("c", "i64", vec![raw("allow_null", Some(RawValue::Bool(false)), None)]),
            field("d", "i64", vec![]),
        ],
    );
    let t = build(&input).unwrap_or_else(|e| panic!("{:?}", e));
    let nulls: Vec<bool> = t.fields.iter().map(|f| f.allow_null).collect();
    assert_eq!(nulls, vec![false, true, false, true]);
}

#[test]
fn every_field_attribute_lands_in_its_slot() {
    let input = field(
        "name",
        "Name",
        vec![
            string("column", "full_name"),
            string("column_type", "TEXT"),
            bare("custom_type"),
            bare("auto_increment"),
            string("unique", "names"),
            string("default", "''"),
            raw("get_one", Some(RawValue::Ident("one".to_string())), Some("&str")),
            raw("get_many", None, Some("Vec<u8>")),
            bare("get_optional"),
            ident("set", "rename"),
        ],
    );
    let f = TableField::<PgBackend>::try_from(&input).unwrap_or_else(|e| panic!("{:?}", e));
    assert_eq!(f.column_name, "full_name");
    assert_eq!(f.column_type, Some("TEXT".to_string()));
    assert!(f.custom_type);
    assert!(f.auto_increment);
    assert!(!f.primary);
    assert!(f.allow_null);
    assert_eq!(f.unique, Some(Some("names".to_string())));
    assert_eq!(f.default, Some("''".to_string()));
    let one = f.get_one.as_ref().expect("get_one");
    assert_eq!(one.func, Some("one".to_string()));
    assert_eq!(one.arg_ty, Some("&str".to_string()));
    let many = f.get_many.as_ref().expect("get_many");
    assert_eq!(many.func, None);
    assert_eq!(many.arg_ty, Some("Vec<u8>".to_string()));
    let optional = f.get_optional.as_ref().expect("get_optional");
    assert_eq!(optional.func, None);
    assert_eq!(optional.arg_ty, None);
    assert_eq!(optional.or_fallback(&f), ("by_name".to_string(), "&Name".to_string()));
    assert_eq!(one.or_fallback(&f), ("one".to_string(), "&str".to_string()));
    assert_eq!(many.or_fallback(&f), ("by_name".to_string(), "Vec<u8>".to_string()));
    assert_eq!(f.set, Some("rename".to_string()));
    let copy = f.clone();
    assert_eq!(copy.column_name, "full_name");
    assert_eq!(copy.unique, f.unique);
    assert_eq!(copy.set, f.set);
}

#[test]
fn a_unique_field_without_a_name_and_a_setter_without_a_name() {
    let f = TableField::<MySqlBackend>::try_from(&field("email", "String", vec![bare("unique"), bare("set")]))
        .unwrap_or_else(|e| panic!("{:?}", e));
    assert_eq!(f.unique, Some(None));
    assert_eq!(f.index_name(), Some("email_uniq".to_string()));
    assert_eq!(f.set, Some("set_email".to_string()));
    let named = TableField::<MySqlBackend>::try_from(&field("a", "i32", vec![string("unique", "pair")]))
        .unwrap_or_else(|e| panic!("{:?}", e));
    assert_eq!(named.index_name(), Some("pair".to_string()));
    let plain = TableField::<MySqlBackend>::try_from(&field("a", "i32", vec![]))
        .unwrap_or_else(|e| panic!("{:?}", e));
    assert_eq!(plain.index_name(), None);
}

#[test]
fn insertable_without_a_name_is_called_after_the_structure() {
    let input = table(
        vec![string("table", "items"), ident("id", "id"), bare("insertable")],
        vec![field("id", "i64", vec![])],
    );
    let t = build(&input).unwrap_or_else(|e| panic!("{:?}", e));
    let insertable = t.insertable.expect("insertable");
    assert_eq!(insertable.ident, "InsertItem");
    assert!(insertable.attrs.is_empty());
}

#[test]
fn blocks_under_another_path_are_not_read() {
    let mut input = table(
        vec![string("table", "items"), ident("id", "id")],
        vec![field("id", "i64", vec![])],
    );
    input.attrs.insert(
        0,
        AttrBlock { path: "serde".to_string(), attrs: vec![bare("rename_all"), bare("table")] },
    );
    input.attrs.push(AttrBlock { path: "ormx".to_string(), attrs: vec![bare("syncable")] });
    input.fields[0].attrs.push(AttrBlock {
        path: "ormx".to_string(),
        attrs: vec![string("column_type", "BIGINT")],
    });
    let t = build(&input).unwrap_or_else(|e| panic!("{:?}", e));
    assert!(t.syncable);
    assert_eq!(t.fields[0].column_type, Some("BIGINT".to_string()));
}

#[test]
fn attributes_of_several_blocks_are_one_sequence() {
    let blocks = vec![
        AttrBlock { path: "ormx".to_string(), attrs: vec![string("column", "a")] },
        AttrBlock { path: "doc".to_string(), attrs: vec![bare("hidden")] },
        AttrBlock { path: "ormx".to_string(), attrs: vec![bare("primary_key"), bare("unique")] },
    ];
    let parsed = parse_attrs::<TableFieldAttr>(&blocks).unwrap_or_else(|e| panic!("{:?}", e));
    assert_eq!(parsed.len(), 3);
    assert!(matches!(&parsed[0], TableFieldAttr::Column(c) if c == "a"));
    assert!(matches!(&parsed[1], TableFieldAttr::PrimaryKey(())));
    assert!(matches!(&parsed[2], TableFieldAttr::Unique(None)));
    let split = vec![
        AttrBlock { path: "ormx".to_string(), attrs: vec![string("column", "a")] },
        AttrBlock { path: "ormx".to_string(), attrs: vec![string("column", "b")] },
    ];
    let input = FieldInput { ident: "x".to_string(), ty: "i32".to_string(), attrs: split };
    assert_eq!(field_failure(&input), SchemaError::DuplicateAttribute);
}

#[test]
fn missing_table_attribute() {
    let input = table(vec![ident("id", "id")], vec![field("id", "i64", vec![])]);
    assert_eq!(failure(&input), SchemaError::MissingAttribute(RequiredAttr::Table));
}

#[test]
fn missing_id_attribute() {
    let input = table(vec![string("table", "items")], vec![field("id", "i64", vec![])]);
    assert_eq!(failure(&input), SchemaError::MissingAttribute(RequiredAttr::Id));
    let input = table(vec![], vec![]);
    assert_eq!(failure(&input), SchemaError::MissingAttribute(RequiredAttr::Id));
}

#[test]
fn id_that_names_no_field() {
    let input = table(
        vec![string("table", "items"), ident("id", "key")],
        vec![field("id", "i64", vec![string("column", "key")])],
    );
    assert_eq!(failure(&input), SchemaError::UnknownIdField);
    let input = table(vec![string("table", "items"), ident("id", "id")], vec![]);
    assert_eq!(failure(&input), SchemaError::UnknownIdField);
}

#[test]
fn id_with_a_default() {
    let input = table(
        vec![string("table", "items"), ident("id", "id"), bare("insertable")],
        vec![field("id", "i64", vec![string("default", "0")])],
    );
    assert_eq!(failure(&input), SchemaError::InvalidIdDefault);
}

#[test]
fn default_without_insertable() {
    let input = table(
        vec![string("table", "items"), ident("id", "id")],
        vec![field("id", "i64", vec![]), field("n", "i32", vec![string("default", "0")])],
    );
    assert_eq!(failure(&input), SchemaError::DefaultWithoutInsertable);
    let mut accepted = input;
    accepted.attrs[0].attrs.push(bare("insertable"));
    assert!(build(&accepted).is_ok());
}

#[test]
fn duplicate_attribute_on_a_table_and_on_a_field() {
    let input = table(
        vec![string("table", "items"), ident("id", "id"), string("table", "items")],
        vec![field("id", "i64", vec![])],
    );
    assert_eq!(failure(&input), SchemaError::DuplicateAttribute);
    let input = table(
        vec![string("table", "items"), ident("id", "id"), bare("syncable"), bare("syncable")],
        vec![field("id", "i64", vec![string("column_type", "INT")])],
    );
    assert_eq!(failure(&input), SchemaError::DuplicateAttribute);
    for twice in [
        vec![bare("primary_key"), bare("primary_key")],
        vec![bare("unique"), string("unique", "u")],
        vec![bare("set"), ident("set", "s")],
        vec![bare("get_one"), bare("get_one")],
        vec![string("default", "1"), string("default", "2")],
    ] {
        assert_eq!(field_failure(&field("x", "i32", twice)), SchemaError::DuplicateAttribute);
    }
}

#[test]
fn syncable_table_with_an_untyped_column() {
    let input = table(
        vec![string("table", "items"), ident("id", "id"), bare("syncable")],
        vec![field("id", "i64", vec![string("column_type", "BIGINT")]), field("n", "i32", vec![])],
    );
    assert_eq!(failure(&input), SchemaError::MissingColumnType);
}

#[test]
fn the_first_failure_in_order_is_reported() {
    let input = table(
        vec![bare("nonsense")],
        vec![
            field("id", "i64", vec![]),
            field("a", "i32", vec![bare("unique"), bare("unique")]),
            field("b", "i32", vec![bare("what")]),
        ],
    );
    assert_eq!(failure(&input), SchemaError::DuplicateAttribute);
    let input = table(
        vec![bare("nonsense")],
        vec![field("b", "i32", vec![bare("unique"), bare("unique"), bare("what")])],
    );
    assert_eq!(failure(&input), SchemaError::Parse(ParseError::UnknownAttribute));
    let input = table(
        vec![string("table", "t"), string("table", "t"), string("id", "x")],
        vec![field("id", "i64", vec![])],
    );
    assert_eq!(failure(&input), SchemaError::Parse(ParseError::InvalidValue));
    let input = table(
        vec![ident("id", "nope")],
        vec![field("id", "i64", vec![string("default", "1")])],
    );
    assert_eq!(failure(&input), SchemaError::UnknownIdField);
    let input = table(
        vec![ident("id", "id")],
        vec![field("id", "i64", vec![string("default", "1")])],
    );
    assert_eq!(failure(&input), SchemaError::InvalidIdDefault);
    let input = table(
        vec![ident("id", "id"), bare("syncable")],
        vec![field("id", "i64", vec![]), field("n", "i64", vec![string("default", "1")])],
    );
    assert_eq!(failure(&input), SchemaError::DefaultWithoutInsertable);
    let input = table(
        vec![ident("id", "id"), bare("syncable")],
        vec![field("id", "i64", vec![])],
    );
    assert_eq!(failure(&input), SchemaError::MissingAttribute(RequiredAttr::Table));
}

#[test]
fn unknown_attribute() {
    assert_eq!(parse_failure(bare("colum")), ParseError::UnknownAttribute);
    assert_eq!(parse_failure(string("table", "t")), ParseError::UnknownAttribute);
    assert_eq!(table_parse_failure(string("column", "c")), ParseError::UnknownAttribute);
    assert_eq!(table_parse_failure(bare("")), ParseError::UnknownAttribute);
    assert!(parse_attrs::<PatchAttr>(&block(vec![bare("syncable")])).is_err());
    assert!(parse_attrs::<PatchFieldAttr>(&block(vec![bare("unique")])).is_err());
}

#[test]
fn missing_value() {
    assert_eq!(parse_failure(bare("column")), ParseError::MissingValue);
    assert_eq!(parse_failure(bare("allow_null")), ParseError::MissingValue);
    assert_eq!(parse_failure(raw("default", None, Some("i32"))), ParseError::MissingValue);
    assert_eq!(table_parse_failure(bare("id")), ParseError::MissingValue);
    assert_eq!(table_parse_failure(bare("engine")), ParseError::MissingValue);
}

#[test]
fn invalid_value() {
    assert_eq!(parse_failure(ident("column", "c")), ParseError::InvalidValue);
    assert_eq!(parse_failure(string("allow_null", "true")), ParseError::InvalidValue);
    assert_eq!(parse_failure(string("set", "s")), ParseError::InvalidValue);
    assert_eq!(parse_failure(string("get_one", "f")), ParseError::InvalidValue);
    assert_eq!(
        parse_failure(raw("unique", Some(RawValue::Bool(true)), None)),
        ParseError::InvalidValue
    );
    assert_eq!(table_parse_failure(string("id", "id")), ParseError::InvalidValue);
    assert_eq!(
        table_parse_failure(raw("id", Some(RawValue::Path("a::b".to_string())), None)),
        ParseError::InvalidValue
    );
    assert_eq!(table_parse_failure(string("insertable", "New")), ParseError::InvalidValue);
    let decorated = RawAttr {
        key: "table".to_string(),
        outer: vec!["#[x]".to_string()],
        value: Some(RawValue::Str("t".to_string())),
        argument: None,
    };
    assert_eq!(table_parse_failure(decorated), ParseError::InvalidValue);
}

#[test]
fn unexpected_tokens() {
    assert_eq!(parse_failure(string("primary_key", "yes")), ParseError::UnexpectedTokens);
    assert_eq!(parse_failure(raw("custom_type", None, Some("T"))), ParseError::UnexpectedTokens);
    assert_eq!(
        parse_failure(raw("column", Some(RawValue::Str("c".to_string())), Some("T"))),
        ParseError::UnexpectedTokens
    );
    assert_eq!(parse_failure(raw("unique", None, Some("T"))), ParseError::UnexpectedTokens);
    assert_eq!(table_parse_failure(ident("syncable", "x")), ParseError::UnexpectedTokens);
    assert_eq!(
        table_parse_failure(raw("insertable", Some(RawValue::Ident("N".to_string())), Some("T"))),
        ParseError::UnexpectedTokens
    );
    let decorated = RawAttr {
        key: "get_one".to_string(),
        outer: vec!["#[x]".to_string()],
        value: None,
        argument: None,
    };
    assert_eq!(parse_failure(decorated), ParseError::UnexpectedTokens);
}

#[test]
fn table_attributes_parse_into_their_variants() {
    let parsed = parse_attrs::<TableAttr>(&block(vec![
        string("table", "t"),
        ident("id", "k"),
        bare("insertable"),
        string("engine", "E"),
        string("charset", "C"),
        string("collation", "L"),
        bare("syncable"),
    ]))
    .unwrap_or_else(|e| panic!("{:?}", e));
    assert!(matches!(&parsed[0], TableAttr::Table(t) if t == "t"));
    assert!(matches!(&parsed[1], TableAttr::Id(k) if k == "k"));
    assert!(matches!(&parsed[2], TableAttr::Insertable(None)));
    assert!(matches!(&parsed[3], TableAttr::Engine(e) if e == "E"));
    assert!(matches!(&parsed[4], TableAttr::Charset(c) if c == "C"));
    assert!(matches!(&parsed[5], TableAttr::Collation(l) if l == "L"));
    assert!(matches!(&parsed[6], TableAttr::Syncable(())));
    assert_eq!(parsed.len(), 7);
}

fn update_name() -> StructInput {
    StructInput {
        ident: "UpdateName".to_string(),
        vis: "".to_string(),
        attrs: block(vec![
            string("table_name", "users"),
            raw("table", Some(RawValue::Path("crate::User".to_string())), None),
            string("id", "id"),
        ]),
        fields: vec![field("first_name", "String", vec![]), field("last_name", "String", vec![])],
    }
}

#[test]
fn patch_writes_exactly_its_columns_and_applies_exactly_its_members() {
    let patch = Patch::try_from(&update_name()).unwrap_or_else(|e| panic!("{:?}", e));
    assert_eq!(patch.ident, "UpdateName");
    assert_eq!(patch.table_name, "users");
    assert_eq!(patch.table, "crate::User");
    assert_eq!(patch.id, "id");
    let made = impl_patch::<MySqlBackend>(&patch);
    assert_eq!(made.patch_row.sql, "UPDATE users SET first_name=?, last_name=? WHERE id = ?");
    for untouched in ["email", "role", "last_login"] {
        assert!(!made.patch_row.sql.contains(untouched));
        assert!(!made.apply_to.iter().any(|m| m == untouched));
    }
    let bound: Vec<(&str, Origin)> =
        made.patch_row.args.iter().map(|a| (a.name.as_str(), a.origin)).collect();
    assert_eq!(
        bound,
        vec![
            ("first_name", Origin::Receiver),
            ("last_name", Origin::Receiver),
            ("id", Origin::Parameter),
        ]
    );
    assert_eq!(made.apply_to, vec!["first_name".to_string(), "last_name".to_string()]);
    assert_eq!(made.ident, "UpdateName");
    assert_eq!(made.table, "crate::User");
    let made = impl_patch::<PgBackend>(&patch);
    assert_eq!(made.patch_row.sql, "UPDATE users SET first_name=$1, last_name=$2 WHERE id = $3");
    let made = ormx::patch::derive::<PgBackend>(&update_name()).unwrap_or_else(|e| panic!("{:?}", e));
    assert_eq!(made.patch_row.args.len(), 3);
}

#[test]
fn patch_field_takes_a_column_override() {
    let f = PatchField::try_from(&field("disabled", "Option<String>", vec![string("column", "off")]))
        .unwrap_or_else(|e| panic!("{:?}", e));
    assert_eq!(f.ident, "disabled");
    assert_eq!(f.column, "off");
    let mut input = update_name();
    input.fields.push(field("disabled", "Option<String>", vec![string("column", "off")]));
    let patch = Patch::try_from(&input).unwrap_or_else(|e| panic!("{:?}", e));
    let made = impl_patch::<MySqlBackend>(&patch);
    assert_eq!(
        made.patch_row.sql,
        "UPDATE users SET first_name=?, last_name=?, off=? WHERE id = ?"
    );
    assert_eq!(made.apply_to[2], "disabled");
}

#[test]
fn patch_failures() {
    let fails = |input: &StructInput| match Patch::try_from(input) {
        Ok(_) => panic!("the patch was accepted"),
        Err(e) => e,
    };
    let mut input = update_name();
    input.attrs = block(vec![]);
    assert_eq!(fails(&input), SchemaError::MissingAttribute(RequiredAttr::TableName));
    input.attrs = block(vec![string("table_name", "users"), string("id", "id")]);
    assert_eq!(fails(&input), SchemaError::MissingAttribute(RequiredAttr::Table));
    input.attrs = block(vec![string("table_name", "users"), ident("table", "User")]);
    assert_eq!(fails(&input), SchemaError::MissingAttribute(RequiredAttr::Id));
    input.attrs = block(vec![string("id", "a"), string("id", "b")]);
    assert_eq!(fails(&input), SchemaError::DuplicateAttribute);
    input.attrs = block(vec![ident("id", "a")]);
    assert_eq!(fails(&input), SchemaError::Parse(ParseError::InvalidValue));
    input.attrs = block(vec![string("table", "User")]);
    assert_eq!(fails(&input), SchemaError::Parse(ParseError::InvalidValue));
    let mut input = update_name();
    input.fields[1] = field("last_name", "String", vec![string("column", "a"), string("column", "b")]);
    assert_eq!(fails(&input), SchemaError::DuplicateAttribute);
    input.fields[0] = field("first_name", "String", vec![bare("unique")]);
    assert_eq!(fails(&input), SchemaError::Parse(ParseError::UnknownAttribute));
}

#[test]
fn delete_of_no_row_is_a_failure() {
    assert!(matches!(delete_outcome::<String>(Ok(0)), Err(DeleteError::RowNotFound)));
    assert!(matches!(delete_outcome::<String>(Ok(1)), Ok(())));
    assert!(matches!(delete_outcome::<String>(Ok(u64::MAX)), Ok(())));
    assert!(matches!(
        delete_outcome(Err("connection lost".to_string())),
        Err(DeleteError::Storage(e)) if e == "connection lost"
    ));
}

#[test]
fn the_value_in_memory_is_set_only_after_the_statement_succeeded() {
    assert_eq!(
        write_step(WriteState::Idle, WriteEvent::Called),
        (WriteState::Persisting, WriteAction::Persist)
    );
    assert_eq!(
        write_step(WriteState::Persisting, WriteEvent::Persisted),
        (WriteState::Applied, WriteAction::Apply)
    );
    assert_eq!(
        write_step(WriteState::Persisting, WriteEvent::Rejected),
        (WriteState::Failed, WriteAction::Abort)
    );
    let states = [WriteState::Idle, WriteState::Persisting, WriteState::Applied, WriteState::Failed];
    let events = [WriteEvent::Called, WriteEvent::Persisted, WriteEvent::Rejected];
    for state in states {
        for event in events {
            let (next, action) = write_step(state, event);
            let applies = state == WriteState::Persisting && event == WriteEvent::Persisted;
            assert_eq!(action == WriteAction::Apply, applies);
            if action == WriteAction::Ignore {
                assert_eq!(next, state);
            }
        }
    }
}

#[test]
fn failures_have_their_messages() {
    assert_eq!(
        SchemaError::MissingAttribute(RequiredAttr::Table).message(),
        "missing #[ormx(table)] attribute"
    );
    assert_eq!(
        SchemaError::MissingAttribute(RequiredAttr::TableName).message(),
        "missing #[ormx(table_name)] attribute"
    );
    assert_eq!(SchemaError::MissingAttribute(RequiredAttr::Id).message(), "missing #[ormx(id)] attribute");
    assert_eq!(
        SchemaError::UnknownIdField.message(),
        "id does not refer to a field of the struct"
    );
    assert_eq!(
        SchemaError::InvalidIdDefault.message(),
        "id field cannot be annotated with #[ormx(default)]"
    );
    assert_eq!(
        SchemaError::DefaultWithoutInsertable.message(),
        "#[ormx(default)] has no effect without #[ormx(insertable = ..)]"
    );
    assert_eq!(SchemaError::DuplicateAttribute.message(), "duplicate attribute");
    assert_eq!(SchemaError::MissingColumnType.message(), "column_type is not set, cannot sync");
    assert_eq!(SchemaError::Parse(ParseError::UnknownAttribute).message(), "unknown attribute");
    assert_eq!(ParseError::MissingValue.message(), "expected `=` and a value");
    assert_eq!(ParseError::InvalidValue.message(), "unexpected kind of value");
    assert_eq!(ParseError::UnexpectedTokens.message(), "unexpected tokens");
    assert_eq!(RequiredAttr::Id.as_str(), "id");
}

#[test]
fn numbers_are_written_in_base_ten() {
    assert_eq!(decimal_string(0), "0");
    assert_eq!(decimal_string(7), "7");
    assert_eq!(decimal_string(10), "10");
    assert_eq!(decimal_string(1234567890), "1234567890");
    assert_eq!(decimal_string(u128::MAX), "340282366920938463463374607431768211455");
    assert!(same_text(&"abc".to_string(), "abc"));
    assert!(!same_text(&"abc".to_string(), "abd"));
}
