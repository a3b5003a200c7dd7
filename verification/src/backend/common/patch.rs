//! The operations of a patch: the statement that writes its columns, and
//! the members it then sets on the entity in memory.

use vstd::prelude::*;
use vstd::string::StringExecFns;
use crate::backend::{Backend, Bindings, marker};
use crate::backend::common::table::next_marker;
use crate::patch::{Patch, PatchFieldView, PatchView};
use crate::statement::{Argument, ArgumentView, Statement, StatementView, member, parameter};
use crate::text::{join, join_strings};

verus! {

/// The operations of a patch.
pub struct PatchImpl {
    pub ident: String,
    /// The entity that the patch applies to.
    pub table: String,
    /// The statement that writes the columns of the patch to one row.
    pub patch_row: Statement,
    /// The members that `apply_to` copies from the patch to the entity.
    pub apply_to: Vec<String>,
}

pub struct PatchImplView {
    pub ident: Seq<char>,
    pub table: Seq<char>,
    pub patch_row: StatementView,
    pub apply_to: Seq<Seq<char>>,
}

impl DeepView for PatchImpl {
    type V = PatchImplView;

    open spec fn deep_view(&self) -> PatchImplView {
        PatchImplView {
            ident: self.ident@,
            table: self.table@,
            patch_row: self.patch_row@,
            apply_to: self.apply_to.deep_view(),
        }
    }
}

impl View for PatchImpl {
    type V = PatchImplView;

    open spec fn view(&self) -> PatchImplView {
        self.deep_view()
    }
}

/// `column=marker` for every field of the patch.
pub open spec fn patch_assignments<B: Backend>(fields: Seq<PatchFieldView>) -> Seq<Seq<char>> {
    Seq::new(fields.len(), |k: int| fields[k].column + "="@ + marker::<B>(k as nat))
}

/// The members of the patch, as bound values.
pub open spec fn patch_arguments(fields: Seq<PatchFieldView>) -> Seq<ArgumentView> {
    Seq::new(fields.len(), |k: int| member(fields[k].ident))
}

/// The members of the patch, by name.
pub open spec fn patch_members(fields: Seq<PatchFieldView>) -> Seq<Seq<char>> {
    Seq::new(fields.len(), |k: int| fields[k].ident)
}

impl PatchView {
    /// The statement that writes the patch: exactly the columns of the
    /// patch are assigned, in declared order, and the id is bound last.
    pub open spec fn patch_row<B: Backend>(self) -> StatementView {
        StatementView {
            sql: "UPDATE "@ + self.table_name + " SET "@ + join(
                patch_assignments::<B>(self.fields),
                ", "@,
            ) + " WHERE "@ + self.id + " = "@ + marker::<B>(self.fields.len()),
            args: patch_arguments(self.fields).push(parameter("id"@)),
        }
    }

    /// The operations of the patch.
    pub open spec fn impl_patch<B: Backend>(self) -> PatchImplView {
        PatchImplView {
            ident: self.ident,
            table: self.table,
            patch_row: self.patch_row::<B>(),
            apply_to: patch_members(self.fields),
        }
    }
}

/// The operations of a patch: the statement that writes exactly its columns
/// to the row of an id, and the members that are then copied onto the entity.
pub fn impl_patch<B: Backend>(patch: &Patch) -> (out: PatchImpl)
    ensures
        out@ == patch@.impl_patch::<B>(),
{
    let ghost views = patch@.fields;
    let mut bindings = B::Bindings::start();
    let mut fragments: Vec<String> = Vec::new();
    let mut args: Vec<Argument> = Vec::new();
    let mut members: Vec<String> = Vec::new();
    let mut k: usize = 0;
    while k < patch.fields.len()
        invariant
            k <= patch.fields.len(),
            views == patch@.fields,
            bindings.issued() == k,
            fragments.len() == k,
            args.len() == k,
            members.len() == k,
            forall|j: int|
                0 <= j < k ==> fragments[j]@ == views[j].column + "="@ + marker::<B>(j as nat),
            forall|j: int| 0 <= j < k ==> args[j]@ == member(views[j].ident),
            forall|j: int| 0 <= j < k ==> members[j]@ == views[j].ident,
        decreases patch.fields.len() - k,
    {
        assert(views[k as int] == patch.fields[k as int]@);
        let mut fragment = patch.fields[k].column.clone();
        fragment.append("=");
        fragment.append(next_marker(&mut bindings).as_str());
        fragments.push(fragment);
        args.push(Argument::member(patch.fields[k].ident.as_str()));
        members.push(patch.fields[k].ident.clone());
        k += 1;
    }
    assert(fragments.deep_view() =~= patch_assignments::<B>(views));
    assert(members.deep_view() =~= patch_members(views));
    let ghost bound = args.deep_view();
    assert(bound =~= patch_arguments(views));
    proof {
        reveal_strlit(", ");
    }
    let mut sql = String::from_str("UPDATE ");
    sql.append(patch.table_name.as_str());
    sql.append(" SET ");
    sql.append(join_strings(&fragments, ", ").as_str());
    sql.append(" WHERE ");
    sql.append(patch.id.as_str());
    sql.append(" = ");
    sql.append(next_marker(&mut bindings).as_str());
    args.push(Argument::parameter("id"));
    assert(args.deep_view() =~= bound.push(parameter("id"@)));
    assert(sql@ =~= patch@.patch_row::<B>().sql);
    PatchImpl {
        ident: patch.ident.clone(),
        table: patch.table.clone(),
        patch_row: Statement { sql, args },
        apply_to: members,
    }
}

} // verus!
