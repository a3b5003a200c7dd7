//! What holds of every schema and of every statement rendered from it.

use vstd::prelude::*;
use crate::backend::{Backend, marker};
use crate::backend::common::patch::{patch_arguments, patch_assignments, patch_members};
use crate::backend::common::table::{assignments, field_arguments};
use crate::backend::common::insert::FieldSource;
use crate::attrs::{
    ParseAttr, PatchAttr, PatchAttrView, PatchFieldAttr, PatchFieldAttrView, TableAttr,
    TableAttrView, TableFieldAttr, TableFieldAttrView, parse_all,
};
use crate::error::ParseError;
use crate::input::RawAttrView;
use crate::error::SchemaError;
use crate::input::{StructInputView, collect};
use crate::patch::PatchView;
use crate::sequence::{all_ok, begins_with, ends_with, lemma_all_ok_values, try_fold};
use crate::statement::{Origin, member, parameter};
use crate::table::{
    TableFieldView, TableView, defaulted, lemma_filter_step, not_named, select_items, supplied,
};
use crate::table::parse::{
    TableSlotsView, any_default, any_untyped, field_from, field_results, flag, lemma_position,
    position, table_from, table_step,
};
use crate::table::unique::{group_of, in_group, leaders, leads, unique_clause, unique_clauses};
use crate::text::join;

verus! {

/// A name without a blank and without a double quote, as every identifier is.
pub open spec fn plain(name: Seq<char>) -> bool {
    forall|i: int| 0 <= i < name.len() ==> name[i] != ' ' && name[i] != '"'
}

/// No two fields are called the same.
pub open spec fn distinct_members(fields: Seq<TableFieldView>) -> bool {
    forall|i: int, j: int|
        0 <= i < j < fields.len() ==> (#[trigger] fields[i]).field != (#[trigger] fields[j]).field
}

/// The positions rise from left to right.
pub open spec fn strictly_increasing(s: Seq<int>) -> bool {
    forall|a: int, b: int| 0 <= a < b < s.len() ==> s[a] < s[b]
}

/// The entry of a field in the select list begins with the field's column,
/// and ends with the decode alias `: _"` exactly when the field has a custom
/// type.
pub proof fn lemma_select_entry<B: Backend>(field: TableFieldView)
    requires
        plain(field.field),
    ensures
        begins_with(field.select_text::<B>(), field.column_text::<B>()),
        ends_with(field.select_text::<B>(), ": _\""@) <==> field.custom_type,
{
    reveal_strlit(": _\"");
    reveal_strlit(" AS \"");
    reveal_strlit("\"");
    let text = field.select_text::<B>();
    let column = field.column_text::<B>();
    let suffix = ": _\""@;
    let name = field.field;
    assert(suffix =~= seq![':', ' ', '_', '"']);
    assert(text.take(column.len() as int) =~= column);
    if field.custom_type {
        assert(text.subrange(text.len() - 4, text.len() as int) =~= suffix);
    } else if ends_with(text, suffix) {
        let tail = text.subrange(text.len() - 4, text.len() as int);
        assert(tail[0] == ':' && tail[1] == ' ' && tail[2] == '_' && tail[3] == '"');
        assert(tail[3] == text[text.len() - 1]);
        assert(tail[2] == text[text.len() - 2]);
        assert(tail[1] == text[text.len() - 3]);
        assert(tail[0] == text[text.len() - 4]);
        if field.field == field.column_name {
            if field.reserved_ident {
                assert(text.len() == name.len() + 2);
                assert(text[text.len() - 3] == name[name.len() - 2]);
            } else {
                assert(text[text.len() - 1] == name[name.len() - 1]);
            }
        } else {
            assert(text.len() == column.len() + 5 + name.len() + 1);
            if name.len() >= 2 {
                assert(text[text.len() - 3] == name[name.len() - 2]);
            } else if name.len() == 1 {
                assert(text[text.len() - 3] == '"');
            } else {
                assert(text[text.len() - 2] == '"');
            }
        }
    }
}

/// The select list renders every field exactly once, in declared order: it
/// is the entries of the fields, joined; and only the entries of fields with
/// a custom type carry the decode alias.
pub proof fn lemma_select_column_list<B: Backend>(table: TableView)
    requires
        forall|i: int| 0 <= i < table.fields.len() ==> plain((#[trigger] table.fields[i]).field),
    ensures
        table.select_column_list::<B>() == join(select_items::<B>(table.fields), ", "@),
        select_items::<B>(table.fields).len() == table.fields.len(),
        forall|i: int|
            0 <= i < table.fields.len() ==> begins_with(
                #[trigger] select_items::<B>(table.fields)[i],
                table.fields[i].column_text::<B>(),
            ),
        forall|i: int|
            0 <= i < table.fields.len() ==> (ends_with(
                #[trigger] select_items::<B>(table.fields)[i],
                ": _\""@,
            ) <==> table.fields[i].custom_type),
{
    assert forall|i: int| 0 <= i < table.fields.len() implies begins_with(
        #[trigger] select_items::<B>(table.fields)[i],
        table.fields[i].column_text::<B>(),
    ) && (ends_with(select_items::<B>(table.fields)[i], ": _\""@)
        <==> table.fields[i].custom_type) by {
        lemma_select_entry::<B>(table.fields[i]);
    }
}

/// The update statement of a table with `n` fields besides the id binds
/// `n + 1` values: the fields in declared order, each to the marker of its
/// position, and the id last, to the marker that ends the statement.
pub proof fn lemma_update_binds_id_last<B: Backend>(table: TableView)
    ensures
        table.update::<B>().args.len() == table.fields_except_id().len() + 1,
        table.update::<B>().args.last() == member(table.id.field),
        forall|k: int|
            0 <= k < table.fields_except_id().len() ==> (#[trigger] table.update::<B>().args[k]).name
                == table.fields_except_id()[k].field && table.update::<B>().args[k].origin
                == Origin::Receiver,
        assignments::<B>(table.fields_except_id()).len() == table.fields_except_id().len(),
        forall|k: int|
            0 <= k < table.fields_except_id().len() ==> ends_with(
                #[trigger] assignments::<B>(table.fields_except_id())[k],
                marker::<B>(k as nat),
            ),
        ends_with(table.update::<B>().sql, marker::<B>(table.fields_except_id().len())),
{
    let fields = table.fields_except_id();
    let sql = table.update::<B>().sql;
    let last = marker::<B>(fields.len());
    assert(sql.subrange(sql.len() - last.len(), sql.len() as int) =~= last);
    assert forall|k: int| 0 <= k < fields.len() implies ends_with(
        #[trigger] assignments::<B>(fields)[k],
        marker::<B>(k as nat),
    ) by {
        let a = assignments::<B>(fields)[k];
        let m = marker::<B>(k as nat);
        assert(a.subrange(a.len() - m.len(), a.len() as int) =~= m);
    }
}

/// The positions that open a `UNIQUE` clause, among the first `n`: they rise
/// from left to right, each of them leads, and none that leads is missing.
pub proof fn lemma_leaders(fields: Seq<TableFieldView>, n: int)
    requires
        0 <= n <= fields.len(),
    ensures
        strictly_increasing(leaders(fields, n)),
        forall|k: int|
            0 <= k < leaders(fields, n).len() ==> 0 <= #[trigger] leaders(fields, n)[k] < n
                && leads(fields, leaders(fields, n)[k]),
        forall|i: int| 0 <= i < n && leads(fields, i) ==> leaders(fields, n).contains(i),
    decreases n,
{
    if n > 0 {
        lemma_leaders(fields, n - 1);
        let before = leaders(fields, n - 1);
        let now = leaders(fields, n);
        assert forall|i: int| 0 <= i < n && leads(fields, i) implies now.contains(i) by {
            if i < n - 1 {
                let k = choose|k: int| 0 <= k < before.len() && before[k] == i;
                assert(now[k] == i);
            } else {
                assert(now[now.len() - 1] == i);
            }
        }
    }
}

/// The first field of a group leads it.
pub proof fn lemma_group_has_leader(fields: Seq<TableFieldView>, name: Seq<char>, i: int) -> (j:
    int)
    requires
        0 <= i < fields.len(),
        fields[i].unique == Some(Some(name)),
    ensures
        0 <= j <= i,
        leads(fields, j),
        fields[j].unique == Some(Some(name)),
    decreases i,
{
    if leads(fields, i) {
        i
    } else {
        let k = choose|k: int| 0 <= k < i && fields[k].unique == Some(Some(name));
        lemma_group_has_leader(fields, name, k)
    }
}

/// Fields that share an explicit index name form exactly one `UNIQUE`
/// clause: one position leads the group, and its clause lists all fields of
/// the group, in declared order. A field that is unique under a derived name
/// forms a clause of its own.
pub proof fn lemma_unique_groups(fields: Seq<TableFieldView>, i: int)
    requires
        0 <= i < fields.len(),
        fields[i].unique is Some,
    ensures
        match fields[i].unique->0 {
            None => leads(fields, i) && group_of(fields, i) == seq![fields[i]],
            Some(name) => exists|j: int|
                0 <= j <= i && #[trigger] leads(fields, j) && fields[j].unique == Some(Some(name))
                    && group_of(fields, j) == fields.filter(in_group(name)) && forall|k: int|
                    0 <= k < fields.len() && #[trigger] leads(fields, k) && fields[k].unique
                        == Some(Some(name)) ==> k == j,
        },
        fields[i].unique->0 matches Some(name) ==> fields.filter(in_group(name)).contains(
            fields[i],
        ),
{
    match fields[i].unique->0 {
        None => {},
        Some(name) => {
            let j = lemma_group_has_leader(fields, name, i);
            assert forall|k: int|
                0 <= k < fields.len() && #[trigger] leads(fields, k) && fields[k].unique == Some(
                    Some(name),
                ) implies k == j by {
                if k < j {
                    assert(fields[k].unique == Some(Some(name)));
                } else if j < k {
                    assert(fields[j].unique == Some(Some(name)));
                }
            }
            assert(leads(fields, j));
            fields.lemma_filter_contains(in_group(name), i);
        },
    }
}

/// The `UNIQUE` clauses are the clauses of the leading positions, from left
/// to right: the order in which the index names are first seen.
pub proof fn lemma_unique_clauses<B: Backend>(fields: Seq<TableFieldView>)
    ensures
        unique_clauses::<B>(fields).len() == leaders(fields, fields.len() as int).len(),
        forall|k: int|
            0 <= k < unique_clauses::<B>(fields).len() ==> #[trigger] unique_clauses::<B>(fields)[k]
                == unique_clause::<B>(fields, leaders(fields, fields.len() as int)[k]),
        strictly_increasing(leaders(fields, fields.len() as int)),
        forall|i: int|
            0 <= i < fields.len() ==> (leads(fields, i) <==> leaders(
                fields,
                fields.len() as int,
            ).contains(i)),
{
    lemma_leaders(fields, fields.len() as int);
    let opening = leaders(fields, fields.len() as int);
    assert forall|i: int| 0 <= i < fields.len() && opening.contains(i) implies leads(fields, i) by {
        let k = choose|k: int| 0 <= k < opening.len() && opening[k] == i;
        assert(leads(fields, opening[k]));
    }
}

/// Among the first `n` fields of a valid table with distinct members, all
/// but the id are kept by `not_named`, and each of those is either supplied
/// by the caller or defaulted, never both.
proof fn lemma_split_prefix(table: TableView, k: int, n: int)
    requires
        table.valid(),
        distinct_members(table.fields),
        0 <= k < table.fields.len(),
        table.fields[k] == table.id,
        0 <= n <= table.fields.len(),
    ensures
        table.fields.take(n).filter(not_named(table.id.field)).len() == if n <= k {
            n
        } else {
            n - 1
        },
        table.fields.take(n).filter(supplied(table.id.field)).len() + table.fields.take(n).filter(
            defaulted(),
        ).len() == table.fields.take(n).filter(not_named(table.id.field)).len(),
    decreases n,
{
    reveal(Seq::filter);
    if n > 0 {
        lemma_split_prefix(table, k, n - 1);
        lemma_filter_step(table.fields, not_named(table.id.field), n - 1);
        lemma_filter_step(table.fields, supplied(table.id.field), n - 1);
        lemma_filter_step(table.fields, defaulted(), n - 1);
        let f = table.fields[n - 1];
        if n - 1 == k {
            assert(f.default is None);
        } else {
            if n - 1 < k {
                assert(table.fields[n - 1].field != table.fields[k].field);
            } else {
                assert(table.fields[k].field != table.fields[n - 1].field);
            }
        }
    }
}

/// In a valid table with distinct members every field has exactly one
/// source after an insert: the id is the one field that the insert makes
/// known, and every other field is either supplied by the caller or read
/// back from the database, according to whether it has a default.
pub proof fn lemma_insert_sources(table: TableView)
    requires
        table.valid(),
        distinct_members(table.fields),
    ensures
        table.sources().len() == table.fields.len(),
        forall|i: int|
            0 <= i < table.fields.len() ==> (#[trigger] table.sources()[i] == FieldSource::Id
                <==> table.fields[i] == table.id),
        forall|i: int|
            0 <= i < table.fields.len() ==> (#[trigger] table.sources()[i] == FieldSource::Stored
                <==> table.fields[i].default is Some),
        table.fields_except_id().len() + 1 == table.fields.len(),
        table.insertable_fields().len() + table.default_fields().len()
            == table.fields_except_id().len(),
{
    let k = choose|k: int| 0 <= k < table.fields.len() && table.fields[k] == table.id;
    lemma_split_prefix(table, k, table.fields.len() as int);
    assert(table.fields.take(table.fields.len() as int) =~= table.fields);
    assert forall|i: int| 0 <= i < table.fields.len() implies (#[trigger] table.sources()[i]
        == FieldSource::Id <==> table.fields[i] == table.id) && (table.sources()[i]
        == FieldSource::Stored <==> table.fields[i].default is Some) by {
        if table.fields[i].field == table.id.field {
            if i < k {
                assert(table.fields[i].field != table.fields[k].field);
            } else if k < i {
                assert(table.fields[k].field != table.fields[i].field);
            }
        }
    }
}

impl TableAttrView {
    /// The key under which the attribute is written.
    pub open spec fn key(self) -> Seq<char> {
        match self {
            TableAttrView::Table(_) => "table"@,
            TableAttrView::Id(_) => "id"@,
            TableAttrView::Insertable(_) => "insertable"@,
            TableAttrView::Engine(_) => "engine"@,
            TableAttrView::Charset(_) => "charset"@,
            TableAttrView::Collation(_) => "collation"@,
            TableAttrView::Syncable(_) => "syncable"@,
        }
    }
}

impl TableFieldAttrView {
    /// The key under which the attribute is written.
    pub open spec fn key(self) -> Seq<char> {
        match self {
            TableFieldAttrView::Column(_) => "column"@,
            TableFieldAttrView::ColumnType(_) => "column_type"@,
            TableFieldAttrView::CustomType(_) => "custom_type"@,
            TableFieldAttrView::PrimaryKey(_) => "primary_key"@,
            TableFieldAttrView::AutoIncrement(_) => "auto_increment"@,
            TableFieldAttrView::AllowNull(_) => "allow_null"@,
            TableFieldAttrView::Unique(_) => "unique"@,
            TableFieldAttrView::Default(_) => "default"@,
            TableFieldAttrView::GetOne(_) => "get_one"@,
            TableFieldAttrView::GetOptional(_) => "get_optional"@,
            TableFieldAttrView::GetMany(_) => "get_many"@,
            TableFieldAttrView::Setter(_) => "set"@,
        }
    }
}

impl PatchAttrView {
    /// The key under which the attribute is written.
    pub open spec fn key(self) -> Seq<char> {
        match self {
            PatchAttrView::TableName(_) => "table_name"@,
            PatchAttrView::Table(_) => "table"@,
            PatchAttrView::Id(_) => "id"@,
        }
    }
}

/// The keys of the attributes of a table.
pub open spec fn table_keys() -> Seq<Seq<char>> {
    seq!["table"@, "id"@, "insertable"@, "engine"@, "charset"@, "collation"@, "syncable"@]
}

/// The keys of the attributes of a field.
pub open spec fn field_keys() -> Seq<Seq<char>> {
    seq![
        "column"@,
        "column_type"@,
        "get_one"@,
        "get_optional"@,
        "get_many"@,
        "set"@,
        "custom_type"@,
        "primary_key"@,
        "allow_null"@,
        "auto_increment"@,
        "unique"@,
        "default"@,
    ]
}

/// Every key of a table maps to exactly one variant: an annotation that is
/// read gives the attribute written under its key, and it is refused as
/// unknown exactly when its key is none of the table's keys.
pub proof fn lemma_table_attr_key(raw: RawAttrView)
    ensures
        TableAttr::parsed(raw) matches Ok(attr) ==> attr.key() == raw.key,
        TableAttr::parsed(raw) == Err::<TableAttrView, ParseError>(ParseError::UnknownAttribute)
            <==> !table_keys().contains(raw.key),
{
    let keys = table_keys();
    assert(keys[0] == "table"@ && keys[1] == "id"@ && keys[2] == "insertable"@ && keys[3]
        == "engine"@ && keys[4] == "charset"@ && keys[5] == "collation"@ && keys[6]
        == "syncable"@);
}

/// Every key of a field maps to exactly one variant: an annotation that is
/// read gives the attribute written under its key, and it is refused as
/// unknown exactly when its key is none of the field's keys.
pub proof fn lemma_field_attr_key(raw: RawAttrView)
    ensures
        TableFieldAttr::parsed(raw) matches Ok(attr) ==> attr.key() == raw.key,
        TableFieldAttr::parsed(raw) == Err::<TableFieldAttrView, ParseError>(
            ParseError::UnknownAttribute,
        ) <==> !field_keys().contains(raw.key),
{
    let keys = field_keys();
    assert(keys[0] == "column"@ && keys[1] == "column_type"@ && keys[2] == "get_one"@ && keys[3]
        == "get_optional"@ && keys[4] == "get_many"@ && keys[5] == "set"@ && keys[6]
        == "custom_type"@ && keys[7] == "primary_key"@ && keys[8] == "allow_null"@ && keys[9]
        == "auto_increment"@ && keys[10] == "unique"@ && keys[11] == "default"@);
}

/// The keys of a patch and of its fields map to exactly one variant each.
pub proof fn lemma_patch_attr_key(raw: RawAttrView)
    ensures
        PatchAttr::parsed(raw) matches Ok(attr) ==> attr.key() == raw.key,
        PatchAttr::parsed(raw) == Err::<PatchAttrView, ParseError>(ParseError::UnknownAttribute)
            <==> (raw.key != "table"@ && raw.key != "table_name"@ && raw.key != "id"@),
        PatchFieldAttr::parsed(raw) matches Ok(attr) ==> raw.key == "column"@,
        PatchFieldAttr::parsed(raw) == Err::<PatchFieldAttrView, ParseError>(
            ParseError::UnknownAttribute,
        ) <==> raw.key != "column"@,
{
}

/// A declaration that is accepted gives a valid table: its fields are the
/// fields of the members, one for one and in declared order, and its id is
/// one of them.
pub proof fn lemma_built_table<B: Backend>(input: StructInputView)
    ensures
        table_from::<B>(input) matches Ok(table) ==> {
            &&& table.valid()
            &&& table.ident == input.ident
            &&& table.fields.len() == input.fields.len()
            &&& forall|i: int|
                0 <= i < input.fields.len() ==> field_from::<B>(input.fields[i]) == Ok::<
                    TableFieldView,
                    SchemaError,
                >(#[trigger] table.fields[i])
            &&& forall|i: int|
                0 <= i < input.fields.len() ==> (#[trigger] table.fields[i]).field
                    == input.fields[i].ident
        },
{
    match table_from::<B>(input) {
        Ok(table) => {
            let results = field_results::<B>(input.fields);
            lemma_all_ok_values(results);
            let fields = all_ok(results)->Ok_0;
            let attrs = parse_all::<TableAttr>(collect(input.attrs))->Ok_0;
            let slots = try_fold(attrs, TableSlotsView::empty(), table_step(input.ident))->Some_0;
            let id = slots.id->Some_0;
            lemma_position(fields, id);
            let k = position(fields, id)->Some_0;
            assert(table.fields == fields);
            assert(table.id == fields[k]);
            assert(!(slots.insertable is None && any_default(fields)));
            assert(!(flag(slots.syncable) && any_untyped(fields)));
            assert forall|i: int| 0 <= i < input.fields.len() implies field_from::<B>(
                input.fields[i],
            ) == Ok::<TableFieldView, SchemaError>(#[trigger] table.fields[i]) by {
                assert(results[i] == field_from::<B>(input.fields[i]));
            }
            assert forall|i: int| 0 <= i < input.fields.len() implies (
            #[trigger] table.fields[i]).field == input.fields[i].ident by {
                assert(results[i] == field_from::<B>(input.fields[i]));
            }
        },
        Err(_) => {},
    }
}

/// The statement that creates a table creates it only if it does not exist.
pub proof fn lemma_create_if_not_exists<B: Backend>(table: TableView)
    requires
        table.syncable,
    ensures
        table.sync_safe::<B>() is Some,
        begins_with(table.sync_safe::<B>()->0.sql, "CREATE TABLE IF NOT EXISTS "@),
{
    let sql = table.sync_safe::<B>()->0.sql;
    let head = "CREATE TABLE IF NOT EXISTS "@;
    assert(sql.take(head.len() as int) =~= head);
}

/// The statement of a patch assigns exactly the columns of the patch, in
/// declared order, and binds the id last; the members that are applied in
/// memory are the members of the patch.
pub proof fn lemma_patch_covers_its_fields<B: Backend>(patch: PatchView)
    ensures
        patch_assignments::<B>(patch.fields).len() == patch.fields.len(),
        forall|k: int|
            0 <= k < patch.fields.len() ==> begins_with(
                #[trigger] patch_assignments::<B>(patch.fields)[k],
                patch.fields[k].column,
            ),
        patch.patch_row::<B>().args.len() == patch.fields.len() + 1,
        patch.patch_row::<B>().args.last() == parameter("id"@),
        forall|k: int|
            0 <= k < patch.fields.len() ==> #[trigger] patch.patch_row::<B>().args[k] == member(
                patch.fields[k].ident,
            ),
        patch.impl_patch::<B>().apply_to.len() == patch.fields.len(),
        forall|k: int|
            0 <= k < patch.fields.len() ==> #[trigger] patch.impl_patch::<B>().apply_to[k]
                == patch.fields[k].ident,
        ends_with(patch.patch_row::<B>().sql, marker::<B>(patch.fields.len())),
{
    let sql = patch.patch_row::<B>().sql;
    let last = marker::<B>(patch.fields.len());
    assert(sql.subrange(sql.len() - last.len(), sql.len() as int) =~= last);
    assert forall|k: int| 0 <= k < patch.fields.len() implies begins_with(
        #[trigger] patch_assignments::<B>(patch.fields)[k],
        patch.fields[k].column,
    ) by {
        let a = patch_assignments::<B>(patch.fields)[k];
        assert(a.take(patch.fields[k].column.len() as int) =~= patch.fields[k].column);
    }
}

} // verus!
