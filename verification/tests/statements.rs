use ormx::backend::common::accessors::{getters, setters, Cardinality};
use ormx::backend::common::insert::{impl_insert, insert_struct, FieldSource};
use ormx::backend::common::table::{
    delete, get, impl_table, stream_all, stream_all_paginated, sync_safe, update,
};
use ormx::backend::mysql::{MySqlBackend, MySqlBindings};
use ormx::backend::postgres::{PgBackend, PgBindings};
use ormx::backend::{Backend, Bindings};
use ormx::input::{AttrBlock, FieldInput, RawAttr, RawValue, StructInput};
use ormx::statement::Origin;
use ormx::table::Table;

fn bare(key: &str) -> RawAttr {
    RawAttr { key: key.to_string(), outer: vec![], value: None, argument: None }
}

fn string(key: &str, value: &str) -> RawAttr {
    RawAttr {
        key: key.to_string(),
        outer: vec![],
        value: Some(RawValue::Str(value.to_string())),
        argument: None,
    }
}

fn ident(key: &str, value: &str) -> RawAttr {
    RawAttr {
        key: key.to_string(),
        outer: vec![],
        value: Some(RawValue::Ident(value.to_string())),
        argument: None,
    }
}

fn boolean(key: &str, value: bool) -> RawAttr {
    RawAttr { key: key.to_string(), outer: vec![], value: Some(RawValue::Bool(value)), argument: None }
}

fn typed(key: &str, ty: &str) -> RawAttr {
    RawAttr { key: key.to_string(), outer: vec![], value: None, argument: Some(ty.to_string()) }
}

fn block(attrs: Vec<RawAttr>) -> Vec<AttrBlock> {
    vec![AttrBlock { path: "ormx".to_string(), attrs }]
}

fn field(name: &str, ty: &str, attrs: Vec<RawAttr>) -> FieldInput {
    FieldInput { ident: name.to_string(), ty: ty.to_string(), attrs: block(attrs) }
}

fn users() -> StructInput {
    StructInput {
        ident: "User".to_string(),
        vis: "pub".to_string(),
        attrs: block(vec![
            string("table", "users"),
            ident("id", "user_id"),
            bare("insertable"),
            bare("syncable"),
            string("engine", "InnoDB"),
            string("charset", "utf8mb4"),
            string("collation", "utf8mb4_general_ci"),
        ]),
        fields: vec![
            field(
                "user_id",
                "u32",
                vec![
                    string("column", "id"),
                    string("column_type", "INTEGER UNSIGNED"),
                    bare("primary_key"),
                    bare("auto_increment"),
                    ident("get_one", "get_by_user_id"),
                ],
            ),
            field(
                "first_name",
                "String",
                vec![string("column_type", "VARCHAR(255)"), boolean("allow_null", false)],
            ),
            field(
                "last_name",
                "String",
                vec![string("column_type", "VARCHAR(255)"), boolean("allow_null", false)],
            ),
            field(
                "email",
                "String",
                vec![
                    string("column_type", "VARCHAR(255)"),
                    bare("unique"),
                    boolean("allow_null", false),
                    typed("get_optional", "&str"),
                ],
            ),
            field(
                "role",
                "Role",
                vec![
                    string("column_type", "ENUM('user', 'admin')"),
                    boolean("allow_null", false),
                    string("default", "'user'"),
                    bare("custom_type"),
                ],
            ),
            field(
                "disabled",
                "Option<String>",
                vec![string("column_type", "VARCHAR(255)"), string("default", "NULL")],
            ),
            field(
                "last_login",
                "Option<NaiveDateTime>",
                vec![string("column_type", "DATETIME"), string("default", "NULL"), bare("set")],
            ),
        ],
    }
}

fn mysql_users() -> Table<MySqlBackend> {
    Table::<MySqlBackend>::try_from(&users()).unwrap_or_else(|e| panic!("{:?}", e))
}

fn pg_users() -> Table<PgBackend> {
    Table::<PgBackend>::try_from(&users()).unwrap_or_else(|e| panic!("{:?}", e))
}

const USER_COLUMNS: &str =
    "id AS \"user_id\", first_name, last_name, email, role AS \"role: _\", disabled, last_login";

#[test]
fn select_column_list_renders_every_field_in_declared_order() {
    let table = mysql_users();
    assert_eq!(table.select_column_list(), USER_COLUMNS);
    assert_eq!(pg_users().select_column_list(), USER_COLUMNS);
}

#[test]
fn only_custom_type_fields_carry_the_decode_alias() {
    let table = mysql_users();
    for f in table.fields.iter() {
        assert_eq!(f.fmt_for_select().ends_with(": _\""), f.custom_type);
        assert!(f.fmt_for_select().starts_with(&f.column()));
    }
    assert_eq!(table.fields[4].fmt_for_select(), "role AS \"role: _\"");
    assert_eq!(table.fields[0].fmt_for_select(), "id AS \"user_id\"");
    assert_eq!(table.fields[1].fmt_for_select(), "first_name");
}

#[test]
fn select_by_id_mysql() {
    let table = mysql_users();
    let s = get(&table, &table.select_column_list());
    assert_eq!(s.sql, format!("SELECT {} FROM `users` WHERE id = ?", USER_COLUMNS));
    assert_eq!(s.args.len(), 1);
    assert_eq!(s.args[0].name, "id");
    assert_eq!(s.args[0].origin, Origin::Parameter);
    assert_eq!(s.args[0].cast_to, None);
}

#[test]
fn select_by_id_postgres() {
    let table = pg_users();
    let s = get(&table, &table.select_column_list());
    assert_eq!(s.sql, format!("SELECT {} FROM \"users\" WHERE id = $1", USER_COLUMNS));
}

#[test]
fn select_all_has_no_where_and_binds_nothing() {
    let table = mysql_users();
    let s = stream_all(&table, &table.select_column_list());
    assert_eq!(s.sql, format!("SELECT {} FROM users", USER_COLUMNS));
    assert!(s.args.is_empty());
}

#[test]
fn select_paginated_binds_limit_then_offset() {
    let table = pg_users();
    let s = stream_all_paginated(&table, &table.select_column_list());
    assert_eq!(s.sql, format!("SELECT {} FROM users LIMIT $1 OFFSET $2", USER_COLUMNS));
    assert_eq!(s.args.len(), 2);
    assert_eq!(s.args[0].name, "limit");
    assert_eq!(s.args[1].name, "offset");
    let table = mysql_users();
    let s = stream_all_paginated(&table, &table.select_column_list());
    assert_eq!(s.sql, format!("SELECT {} FROM users LIMIT ? OFFSET ?", USER_COLUMNS));
}

#[test]
fn update_mysql_binds_every_field_and_the_id_last() {
    let table = mysql_users();
    let s = update(&table);
    assert_eq!(
        s.sql,
        "UPDATE users SET first_name=?, last_name=?, email=?, role=?, disabled=?, last_login=? \
         WHERE id = ?"
    );
    let names: Vec<&str> = s.args.iter().map(|a| a.name.as_str()).collect();
    assert_eq!(
        names,
        vec!["first_name", "last_name", "email", "role", "disabled", "last_login", "user_id"]
    );
    assert!(s.args.iter().all(|a| a.origin == Origin::Receiver));
    assert_eq!(s.args[3].cast_to, Some("Role".to_string()));
    assert_eq!(s.args[0].cast_to, None);
    assert_eq!(s.args[6].cast_to, None);
}

#[test]
fn update_postgres_numbers_the_markers_and_ends_with_the_id_marker() {
    let table = pg_users();
    let s = update(&table);
    assert_eq!(
        s.sql,
        "UPDATE users SET first_name=$1, last_name=$2, email=$3, role=$4, disabled=$5, \
         last_login=$6 WHERE id = $7"
    );
    assert_eq!(s.args.len(), table.fields_except_id().len() + 1);
    assert!(s.sql.ends_with("$7"));
    assert_eq!(s.args.last().map(|a| a.name.as_str()), Some("user_id"));
}

#[test]
fn update_of_a_table_with_only_an_id() {
    let input = StructInput {
        ident: "Tag".to_string(),
        vis: "".to_string(),
        attrs: block(vec![string("table", "tags"), ident("id", "id")]),
        fields: vec![field("id", "i64", vec![])],
    };
    let table = Table::<PgBackend>::try_from(&input).unwrap_or_else(|e| panic!("{:?}", e));
    let s = update(&table);
    assert_eq!(s.sql, "UPDATE tags SET  WHERE id = $1");
    assert_eq!(s.args.len(), 1);
    assert_eq!(table.select_column_list(), "id");
}

#[test]
fn delete_statement() {
    assert_eq!(delete(&mysql_users()).sql, "DELETE FROM users WHERE id = ?");
    let s = delete(&pg_users());
    assert_eq!(s.sql, "DELETE FROM users WHERE id = $1");
    assert_eq!(s.args.len(), 1);
    assert_eq!(s.args[0].name, "id");
}

#[test]
fn create_table_mysql() {
    let table = mysql_users();
    let s = sync_safe(&table).expect("the table is syncable");
    assert_eq!(
        s.sql,
        "CREATE TABLE IF NOT EXISTS `users` (\n\
         `id` INTEGER UNSIGNED NOT NULL PRIMARY KEY AUTO_INCREMENT,\n\
         `first_name` VARCHAR(255) NOT NULL,\n\
         `last_name` VARCHAR(255) NOT NULL,\n\
         `email` VARCHAR(255) NOT NULL,\n\
         `role` ENUM('user', 'admin') NOT NULL DEFAULT 'user',\n\
         `disabled` VARCHAR(255) DEFAULT NULL,\n\
         `last_login` DATETIME DEFAULT NULL,\n\
         UNIQUE (`email`)\n\
         ) ENGINE=InnoDB DEFAULT CHARSET=utf8mb4 DEFAULT COLLATE=utf8mb4_general_ci"
    );
    assert!(s.args.is_empty());
}

#[test]
fn create_table_postgres_leaves_the_table_options_out() {
    let table = pg_users();
    let s = sync_safe(&table).expect("the table is syncable");
    assert!(s.sql.starts_with("CREATE TABLE IF NOT EXISTS \"users\" (\n\"id\" INTEGER UNSIGNED"));
    assert!(s.sql.ends_with("UNIQUE (\"email\")\n)"));
}

#[test]
fn no_create_statement_for_a_table_that_is_not_syncable() {
    let input = StructInput {
        ident: "Tag".to_string(),
        vis: "".to_string(),
        attrs: block(vec![string("table", "tags"), ident("id", "id")]),
        fields: vec![field("id", "i64", vec![]), field("label", "String", vec![])],
    };
    let table = Table::<MySqlBackend>::try_from(&input).unwrap_or_else(|e| panic!("{:?}", e));
    assert!(sync_safe(&table).is_none());
    assert!(impl_table(&table).sync_safe.is_none());
    assert!(impl_insert(&table).is_none());
    assert!(insert_struct(&table).is_none());
}

#[test]
fn column_clause_of_each_shape() {
    let table = mysql_users();
    assert_eq!(
        table.fields[0].fmt_for_create(),
        "`id` INTEGER UNSIGNED NOT NULL PRIMARY KEY AUTO_INCREMENT"
    );
    assert_eq!(table.fields[5].fmt_for_create(), "`disabled` VARCHAR(255) DEFAULT NULL");
    let input = StructInput {
        ident: "Tag".to_string(),
        vis: "".to_string(),
        attrs: block(vec![string("table", "tags"), ident("id", "id"), bare("syncable")]),
        fields: vec![
            field("id", "i64", vec![string("column_type", "BIGINT"), bare("primary_key")]),
            field("label", "String", vec![string("column_type", "TEXT")]),
            field(
                "code",
                "i32",
                vec![
                    string("column_type", "INT"),
                    bare("primary_key"),
                    boolean("allow_null", true),
                    bare("auto_increment"),
                ],
            ),
            field("n", "i32", vec![string("column_type", "INT"), bare("auto_increment")]),
        ],
    };
    let table = Table::<PgBackend>::try_from(&input).unwrap_or_else(|e| panic!("{:?}", e));
    assert_eq!(table.fields[0].fmt_for_create(), "\"id\" BIGINT NOT NULL PRIMARY KEY");
    assert_eq!(table.fields[1].fmt_for_create(), "\"label\" TEXT");
    assert_eq!(table.fields[2].fmt_for_create(), "\"code\" INT PRIMARY KEY AUTO_INCREMENT");
    assert_eq!(table.fields[3].fmt_for_create(), "\"n\" INT");
    assert_eq!(
        table.create_column_list(),
        "\"id\" BIGINT NOT NULL PRIMARY KEY,\n\"label\" TEXT,\n\
         \"code\" INT PRIMARY KEY AUTO_INCREMENT,\n\"n\" INT"
    );
}

#[test]
fn unique_groups_form_one_clause_each_in_first_seen_order() {
    let input = StructInput {
        ident: "Seat".to_string(),
        vis: "".to_string(),
        attrs: block(vec![string("table", "seats"), ident("id", "id"), bare("syncable")]),
        fields: vec![
            field("id", "i64", vec![string("column_type", "BIGINT"), bare("primary_key")]),
            field("row", "i32", vec![string("column_type", "INT"), string("unique", "place")]),
            field("code", "String", vec![string("column_type", "TEXT"), bare("unique")]),
            field("hall", "i32", vec![string("column_type", "INT"), string("unique", "venue")]),
            field(
                "number",
                "i32",
                vec![
                    string("column_type", "INT"),
                    string("unique", "place"),
                    string("column", "seat_no"),
                ],
            ),
            field("label", "String", vec![string("column_type", "TEXT"), bare("unique")]),
            field("site", "i32", vec![string("column_type", "INT"), string("unique", "venue")]),
        ],
    };
    let table = Table::<MySqlBackend>::try_from(&input).unwrap_or_else(|e| panic!("{:?}", e));
    let list = table.create_column_list();
    let clauses: Vec<&str> = list.split(",\n").filter(|c| c.starts_with("UNIQUE")).collect();
    assert_eq!(
        clauses,
        vec![
            "UNIQUE (`row`, `seat_no`)",
            "UNIQUE (`code`)",
            "UNIQUE (`hall`, `site`)",
            "UNIQUE (`label`)",
        ]
    );
    let leading: Vec<usize> =
        (0..table.fields.len()).filter(|i| table.opens_unique_clause(*i)).collect();
    assert_eq!(leading, vec![1, 2, 3, 5]);
}

#[test]
fn a_derived_index_name_never_joins_an_explicit_one() {
    let input = StructInput {
        ident: "Pair".to_string(),
        vis: "".to_string(),
        attrs: block(vec![string("table", "pairs"), ident("id", "id"), bare("syncable")]),
        fields: vec![
            field("id", "i64", vec![string("column_type", "BIGINT")]),
            field("a", "i32", vec![string("column_type", "INT"), bare("unique")]),
            field("b", "i32", vec![string("column_type", "INT"), string("unique", "a_uniq")]),
        ],
    };
    let table = Table::<PgBackend>::try_from(&input).unwrap_or_else(|e| panic!("{:?}", e));
    assert!(table.create_column_list().ends_with("UNIQUE (\"a\"),\nUNIQUE (\"b\")"));
}

#[test]
fn insert_mysql_writes_then_reads_the_defaults_back() {
    let table = mysql_users();
    let plan = impl_insert(&table).expect("the table is insertable");
    assert_eq!(plan.insert_ident, "InsertUser");
    assert_eq!(plan.table_ident, "User");
    assert_eq!(plan.insert.sql, "INSERT INTO users (first_name, last_name, email) VALUES (?, ?, ?)");
    let names: Vec<&str> = plan.insert.args.iter().map(|a| a.name.as_str()).collect();
    assert_eq!(names, vec!["first_name", "last_name", "email"]);
    assert!(!plan.returning);
    let read_back = plan.query_default.expect("three fields are defaulted");
    assert_eq!(
        read_back.sql,
        "SELECT role AS \"role: _\", disabled, last_login FROM users WHERE id = ?"
    );
    assert_eq!(read_back.args.len(), 1);
    assert_eq!(read_back.args[0].name, "id");
    assert_eq!(
        plan.sources,
        vec![
            FieldSource::Id,
            FieldSource::Supplied,
            FieldSource::Supplied,
            FieldSource::Supplied,
            FieldSource::Stored,
            FieldSource::Stored,
            FieldSource::Stored,
        ]
    );
}

#[test]
fn insert_postgres_returns_the_id_and_the_defaults_in_one_statement() {
    let table = pg_users();
    let plan = impl_insert(&table).expect("the table is insertable");
    assert_eq!(
        plan.insert.sql,
        "INSERT INTO users (first_name, last_name, email) VALUES ($1, $2, $3) \
         RETURNING id AS \"user_id\", role AS \"role: _\", disabled, last_login"
    );
    assert!(plan.returning);
    assert!(plan.query_default.is_none());
    assert_eq!(plan.sources[0], FieldSource::Id);
    assert_eq!(plan.sources[4], FieldSource::Stored);
}

fn users_with_supplied_role() -> StructInput {
    let mut input = users();
    input.fields[4] = field(
        "role",
        "Role",
        vec![
            string("column_type", "ENUM('user', 'admin')"),
            boolean("allow_null", false),
            bare("custom_type"),
        ],
    );
    input
}

#[test]
fn insert_of_a_supplied_custom_type_binds_four_values() {
    let table = Table::<MySqlBackend>::try_from(&users_with_supplied_role())
        .unwrap_or_else(|e| panic!("{:?}", e));
    let plan = impl_insert(&table).expect("the table is insertable");
    assert_eq!(
        plan.insert.sql,
        "INSERT INTO users (first_name, last_name, email, role) VALUES (?, ?, ?, ?)"
    );
    assert_eq!(plan.insert.args.len(), 4);
    assert_eq!(plan.insert.args[3].name, "role");
    assert_eq!(plan.insert.args[3].cast_to, Some("Role".to_string()));
    assert_eq!(
        plan.query_default.expect("two fields are defaulted").sql,
        "SELECT disabled, last_login FROM users WHERE id = ?"
    );
    let table = Table::<PgBackend>::try_from(&users_with_supplied_role())
        .unwrap_or_else(|e| panic!("{:?}", e));
    let plan = impl_insert(&table).expect("the table is insertable");
    assert_eq!(
        plan.insert.sql,
        "INSERT INTO users (first_name, last_name, email, role) VALUES ($1, $2, $3, $4) \
         RETURNING id AS \"user_id\", disabled, last_login"
    );
}

#[test]
fn insert_without_defaults_needs_no_second_statement() {
    let input = StructInput {
        ident: "Tag".to_string(),
        vis: "pub(crate)".to_string(),
        attrs: block(vec![
            string("table", "tags"),
            ident("id", "id"),
            RawAttr {
                key: "insertable".to_string(),
                outer: vec!["#[derive(Debug)]".to_string()],
                value: Some(RawValue::Ident("NewTag".to_string())),
                argument: None,
            },
        ]),
        fields: vec![field("id", "i64", vec![]), field("label", "String", vec![])],
    };
    let table = Table::<MySqlBackend>::try_from(&input).unwrap_or_else(|e| panic!("{:?}", e));
    let plan = impl_insert(&table).expect("the table is insertable");
    assert_eq!(plan.insert_ident, "NewTag");
    assert_eq!(plan.insert.sql, "INSERT INTO tags (label) VALUES (?)");
    assert!(plan.query_default.is_none());
    let table = Table::<PgBackend>::try_from(&input).unwrap_or_else(|e| panic!("{:?}", e));
    let plan = impl_insert(&table).expect("the table is insertable");
    assert_eq!(plan.insert.sql, "INSERT INTO tags (label) VALUES ($1) RETURNING id");
    let made = insert_struct(&table).expect("the table is insertable");
    assert_eq!(made.ident, "NewTag");
    assert_eq!(made.vis, "pub(crate)");
    assert_eq!(made.attrs, vec!["#[derive(Debug)]".to_string()]);
    assert_eq!(made.fields.len(), 1);
    assert_eq!(made.fields[0].name, "label");
    assert_eq!(made.fields[0].ty, "String");
}

#[test]
fn insert_structure_holds_the_supplied_fields() {
    let made = insert_struct(&mysql_users()).expect("the table is insertable");
    assert_eq!(made.ident, "InsertUser");
    assert!(made.attrs.is_empty());
    let members: Vec<(&str, &str)> =
        made.fields.iter().map(|f| (f.name.as_str(), f.ty.as_str())).collect();
    assert_eq!(
        members,
        vec![("first_name", "String"), ("last_name", "String"), ("email", "String")]
    );
}

#[test]
fn field_projections() {
    let table = mysql_users();
    let names = |fields: Vec<&ormx::table::TableField<MySqlBackend>>| -> Vec<String> {
        fields.iter().map(|f| f.field.clone()).collect()
    };
    assert_eq!(
        names(table.fields_except_id()),
        vec!["first_name", "last_name", "email", "role", "disabled", "last_login"]
    );
    assert_eq!(names(table.insertable_fields()), vec!["first_name", "last_name", "email"]);
    assert_eq!(names(table.default_fields()), vec!["role", "disabled", "last_login"]);
    assert_eq!(names(table.all_fields()).len(), 7);
    assert_eq!(
        table.insertable_fields().len() + table.default_fields().len() + 1,
        table.fields.len()
    );
}

#[test]
fn getters_are_named_and_typed_with_their_defaults() {
    let table = mysql_users();
    let made = getters(&table);
    assert_eq!(made.len(), 2);
    assert_eq!(made[0].name, "get_by_user_id");
    assert_eq!(made[0].arg_ty, "&u32");
    assert_eq!(made[0].cardinality, Cardinality::One);
    assert_eq!(made[0].statement.sql, format!("SELECT {} FROM `users` WHERE id = ?", USER_COLUMNS));
    assert_eq!(made[0].statement.args.len(), 1);
    assert_eq!(made[0].statement.args[0].name, "by");
    assert_eq!(made[1].name, "by_email");
    assert_eq!(made[1].arg_ty, "&str");
    assert_eq!(made[1].cardinality, Cardinality::Optional);
    assert_eq!(
        made[1].statement.sql,
        format!("SELECT {} FROM `users` WHERE email = ?", USER_COLUMNS)
    );
}

#[test]
fn one_field_may_ask_for_all_three_lookups() {
    let input = StructInput {
        ident: "Tag".to_string(),
        vis: "".to_string(),
        attrs: block(vec![string("table", "tags"), ident("id", "id")]),
        fields: vec![
            field("id", "i64", vec![]),
            field(
                "label",
                "String",
                vec![
                    bare("get_many"),
                    RawAttr {
                        key: "get_one".to_string(),
                        outer: vec![],
                        value: Some(RawValue::Ident("the".to_string())),
                        argument: Some("&str".to_string()),
                    },
                    bare("get_optional"),
                ],
            ),
        ],
    };
    let table = Table::<PgBackend>::try_from(&input).unwrap_or_else(|e| panic!("{:?}", e));
    let made = getters(&table);
    let shape: Vec<(&str, &str, Cardinality)> =
        made.iter().map(|g| (g.name.as_str(), g.arg_ty.as_str(), g.cardinality)).collect();
    assert_eq!(
        shape,
        vec![
            ("the", "&str", Cardinality::One),
            ("by_label", "&String", Cardinality::Optional),
            ("by_label", "&String", Cardinality::Many),
        ]
    );
    assert_eq!(made[2].statement.sql, "SELECT id, label FROM \"tags\" WHERE label = $1");
}

#[test]
fn setters_write_one_column_by_id() {
    let table = mysql_users();
    let made = setters(&table);
    assert_eq!(made.len(), 1);
    assert_eq!(made[0].name, "set_last_login");
    assert_eq!(made[0].field, "last_login");
    assert_eq!(made[0].ty, "Option<NaiveDateTime>");
    assert_eq!(made[0].statement.sql, "UPDATE users SET last_login=? WHERE id = ?");
    assert_eq!(made[0].statement.args.len(), 2);
    assert_eq!(made[0].statement.args[0].name, "value");
    assert_eq!(made[0].statement.args[0].origin, Origin::Parameter);
    assert_eq!(made[0].statement.args[1].name, "user_id");
    assert_eq!(made[0].statement.args[1].origin, Origin::Receiver);
    let made = setters(&pg_users());
    assert_eq!(made[0].statement.sql, "UPDATE users SET last_login=$1 WHERE id = $2");
}

#[test]
fn setter_of_a_custom_type_casts_the_value() {
    let input = StructInput {
        ident: "Tag".to_string(),
        vis: "".to_string(),
        attrs: block(vec![string("table", "tags"), ident("id", "id")]),
        fields: vec![
            field("id", "i64", vec![]),
            field("kind", "Kind", vec![bare("custom_type"), ident("set", "change_kind")]),
        ],
    };
    let table = Table::<MySqlBackend>::try_from(&input).unwrap_or_else(|e| panic!("{:?}", e));
    let made = setters(&table);
    assert_eq!(made[0].name, "change_kind");
    assert_eq!(made[0].statement.args[0].cast_to, Some("Kind".to_string()));
}

#[test]
fn reserved_columns_are_quoted_everywhere() {
    let input = StructInput {
        ident: "Entry".to_string(),
        vis: "".to_string(),
        attrs: block(vec![string("table", "entries"), ident("id", "id"), bare("insertable")]),
        fields: vec![
            field("id", "i64", vec![]),
            field("select", "String", vec![]),
            field("kind", "String", vec![string("column", "Order")]),
            field("plain", "String", vec![]),
        ],
    };
    let table = Table::<PgBackend>::try_from(&input).unwrap_or_else(|e| panic!("{:?}", e));
    assert!(!table.fields[0].reserved_ident);
    assert!(table.fields[1].reserved_ident);
    assert!(table.fields[2].reserved_ident);
    assert!(!table.fields[3].reserved_ident);
    assert_eq!(table.fields[1].column(), "\"select\"");
    assert_eq!(table.reserved_fields(), vec!["select".to_string(), "kind".to_string()]);
    assert_eq!(table.select_column_list(), "id, \"select\", \"Order\" AS \"kind\", plain");
    assert_eq!(
        update(&table).sql,
        "UPDATE entries SET \"select\"=$1, \"Order\"=$2, plain=$3 WHERE id = $4"
    );
    assert_eq!(
        impl_insert(&table).expect("insertable").insert.sql,
        "INSERT INTO entries (\"select\", \"Order\", plain) VALUES ($1, $2, $3) RETURNING id"
    );
    let table = Table::<MySqlBackend>::try_from(&input).unwrap_or_else(|e| panic!("{:?}", e));
    assert!(table.reserved_fields().is_empty());
    assert_eq!(table.select_column_list(), "id, select, Order AS \"kind\", plain");
}

#[test]
fn reserved_words_are_looked_up_in_upper_case() {
    assert!(PgBackend::is_reserved("SELECT"));
    assert!(PgBackend::is_reserved("ALL"));
    assert!(PgBackend::is_reserved("WITH"));
    assert!(!PgBackend::is_reserved("select"));
    assert!(!PgBackend::is_reserved("SELECTS"));
    assert!(!PgBackend::is_reserved(""));
    assert!(!MySqlBackend::is_reserved("SELECT"));
    assert_eq!(PgBackend::quote(), "\"");
    assert_eq!(MySqlBackend::quote(), "`");
    assert!(PgBackend::supports_returning());
    assert!(!MySqlBackend::supports_returning());
    assert!(MySqlBackend::supports_table_options());
    assert!(!PgBackend::supports_table_options());
}

#[test]
fn markers_are_handed_out_in_order() {
    let mut pg = PgBindings::start();
    let made: Vec<String> = (0..12).map(|_| pg.next().expect("a marker")).collect();
    assert_eq!(
        made,
        vec!["$1", "$2", "$3", "$4", "$5", "$6", "$7", "$8", "$9", "$10", "$11", "$12"]
    );
    let mut my = MySqlBindings::default();
    assert_eq!(my.next(), Some("?".to_string()));
    assert_eq!(my.next(), Some("?".to_string()));
    let mut pg = PgBindings::default();
    assert_eq!(pg.next(), Some("$1".to_string()));
}

#[test]
fn a_wide_table_numbers_its_markers_past_nine() {
    let mut fields = vec![field("id", "i64", vec![])];
    for i in 0..11 {
        fields.push(field(&format!("c{}", i), "i32", vec![]));
    }
    let input = StructInput {
        ident: "Wide".to_string(),
        vis: "".to_string(),
        attrs: block(vec![string("table", "wide"), ident("id", "id")]),
        fields,
    };
    let table = Table::<PgBackend>::try_from(&input).unwrap_or_else(|e| panic!("{:?}", e));
    assert_eq!(
        update(&table).sql,
        "UPDATE wide SET c0=$1, c1=$2, c2=$3, c3=$4, c4=$5, c5=$6, c6=$7, c7=$8, c8=$9, c9=$10, \
         c10=$11 WHERE id = $12"
    );
}

#[test]
fn derive_generates_everything_at_once() {
    let made = ormx::table::derive::derive::<MySqlBackend>(&users()).unwrap_or_else(|e| panic!("{:?}", e));
    assert_eq!(made.impl_table.table_ident, "User");
    assert_eq!(made.impl_table.id_ident, "user_id");
    assert_eq!(made.impl_table.id_ty, "u32");
    assert_eq!(made.impl_table.delete.sql, "DELETE FROM users WHERE id = ?");
    assert_eq!(
        made.impl_table.get.sql,
        format!("SELECT {} FROM `users` WHERE id = ?", USER_COLUMNS)
    );
    assert!(made.impl_table.sync_safe.is_some());
    assert!(made.insert_struct.is_some());
    assert!(made.impl_insert.is_some());
    assert_eq!(made.getters.len(), 2);
    assert_eq!(made.setters.len(), 1);
    assert!(made.reserved.is_empty());
}

#[test]
fn update_binds_one_marker_more_than_there_are_fields_besides_the_id() {
    let table = mysql_users();
    let n = table.fields_except_id().len();
    assert_eq!(n + 1, table.fields.len());
    let s = update(&table);
    assert_eq!(s.sql.matches('?').count(), n + 1);
    assert_eq!(s.args.len(), n + 1);
    let table = pg_users();
    let s = update(&table);
    assert_eq!(s.sql.matches('$').count(), n + 1);
    for (k, arg) in s.args.iter().take(n).enumerate() {
        assert!(s.sql.contains(&format!("{}=${}", table.fields_except_id()[k].column(), k + 1)));
        assert_eq!(arg.name, table.fields_except_id()[k].field);
    }
    assert!(s.sql.ends_with(&format!(" = ${}", n + 1)));
}

#[test]
fn create_table_is_conditional() {
    for sql in [
        sync_safe(&mysql_users()).expect("syncable").sql,
        sync_safe(&pg_users()).expect("syncable").sql,
    ] {
        assert!(sql.starts_with("CREATE TABLE IF NOT EXISTS "));
    }
}
