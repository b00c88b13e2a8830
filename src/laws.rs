//! What holds of every extraction: absence collapse, precedence of data errors,
//! skipped fields, strict promotion and column addressing.
use vstd::prelude::*;
use crate::row::{find_cell, default_of, type_of, Cell, Row, ValueType};
use crate::schema::{describes, FieldDecl, FieldDescriptor, FieldKind, TargetSchema};
use crate::extract::{
    field_outcome, field_outcomes, first_absent, first_failure, nested_prefix, nullable, read_column,
    slot_of, some_absent, strict, DataErrorView, FieldOutcome, Outcome, SlotView,
};

verus! {

/// Whether `row` holds no value under column `col`: the column is missing or null.
pub open spec fn column_absent(row: Row, col: Seq<char>) -> bool {
    !(find_cell(row, col) matches Some(Cell::Present(_)))
}

/// Whether `row` holds a value of type `ty` under column `col`.
pub open spec fn column_holds(row: Row, col: Seq<char>, ty: ValueType) -> bool {
    find_cell(row, col) matches Some(Cell::Present(v)) && type_of(v@) == ty
}

proof fn lemma_no_failure(outs: Seq<FieldOutcome>)
    requires
        forall|i: int| 0 <= i < outs.len() ==> !(#[trigger] outs[i] is Failed),
    ensures
        first_failure(outs) is None,
    decreases outs.len(),
{
    if outs.len() > 0 {
        lemma_no_failure(outs.drop_last());
    }
}

proof fn lemma_first_failure_at(outs: Seq<FieldOutcome>, k: int)
    requires
        0 <= k < outs.len(),
        outs[k] is Failed,
        forall|j: int| 0 <= j < k ==> !(#[trigger] outs[j] is Failed),
    ensures
        first_failure(outs) == Some(outs[k]->Failed_0),
    decreases outs.len(),
{
    if k == outs.len() - 1 {
        lemma_no_failure(outs.drop_last());
    } else {
        lemma_first_failure_at(outs.drop_last(), k);
    }
}

proof fn lemma_no_absent(outs: Seq<FieldOutcome>)
    requires
        forall|i: int| 0 <= i < outs.len() ==> !(#[trigger] outs[i] is Absent),
    ensures
        first_absent(outs) is None,
    decreases outs.len(),
{
    if outs.len() > 0 {
        lemma_no_absent(outs.drop_last());
    }
}

proof fn lemma_first_absent_at(outs: Seq<FieldOutcome>, k: int)
    requires
        0 <= k < outs.len(),
        outs[k] is Absent,
        forall|j: int| 0 <= j < k ==> !(#[trigger] outs[j] is Absent),
    ensures
        first_absent(outs) == Some(k),
    decreases outs.len(),
{
    if k == outs.len() - 1 {
        lemma_no_absent(outs.drop_last());
    } else {
        lemma_first_absent_at(outs.drop_last(), k);
    }
}

/// A structure whose fields that are not skipped are all absent, and at least
/// one, is absent as a whole: each such field is read from a column that the row
/// lacks or holds null, or is a nested structure that is itself absent.
pub proof fn lemma_uniform_absence(s: TargetSchema, row: Row, pre: Seq<char>)
    requires
        exists|i: int| 0 <= i < s.fields@.len() && !(#[trigger] s.fields@[i].kind is Skip),
        forall|i: int|
            0 <= i < s.fields@.len() ==> match (#[trigger] s.fields@[i]).kind {
                FieldKind::Direct { column, ty } => column_absent(row, pre + column@),
                FieldKind::Nested(sub) => nullable(sub, row, nested_prefix(pre, s.fields@[i].name@))
                    is Null,
                FieldKind::Skip { ty } => true,
                FieldKind::Computed { expr, ty } => false,
            },
    ensures
        nullable(s, row, pre) == Outcome::Null,
{
    let outs = field_outcomes(s, row, pre);
    assert forall|i: int| 0 <= i < outs.len() implies !(#[trigger] outs[i] is Failed) && !(
    outs[i] is Resolved) by {
        assert(outs[i] == field_outcome(s.fields@[i], row, pre));
    }
    lemma_no_failure(outs);
    let k = choose|i: int| 0 <= i < s.fields@.len() && !(#[trigger] s.fields@[i].kind is Skip);
    assert(outs[k] == field_outcome(s.fields@[k], row, pre));
    assert(outs[k] is Absent || outs[k] is AbsentNested);
}

/// A structure of directly read fields, where some column holds its value and
/// some column is absent, is a data error naming the first absent field.
pub proof fn lemma_partial_absence(s: TargetSchema, row: Row, pre: Seq<char>, p: int, k: int)
    requires
        forall|i: int| 0 <= i < s.fields@.len() ==> (#[trigger] s.fields@[i]).kind is Direct,
        forall|i: int|
            0 <= i < s.fields@.len() ==> column_absent(row, pre + (#[trigger] s.fields@[i]).kind->column@)
                || column_holds(row, pre + s.fields@[i].kind->column@, s.fields@[i].kind->Direct_ty),
        0 <= p < s.fields@.len(),
        !column_absent(row, pre + s.fields@[p].kind->column@),
        0 <= k < s.fields@.len(),
        column_absent(row, pre + s.fields@[k].kind->column@),
        forall|j: int| 0 <= j < k ==> !column_absent(row, pre + (#[trigger] s.fields@[j]).kind->column@),
    ensures
        nullable(s, row, pre) == Outcome::Error(DataErrorView::PartialAbsence(s.fields@[k].name@)),
{
    let outs = field_outcomes(s, row, pre);
    assert forall|i: int| 0 <= i < outs.len() implies (#[trigger] outs[i] is Resolved || outs[i] is Absent)
        && (outs[i] is Absent <==> column_absent(row, pre + s.fields@[i].kind->column@)) by {
        assert(outs[i] == field_outcome(s.fields@[i], row, pre));
    }
    lemma_no_failure(outs);
    assert(outs[p] is Resolved);
    lemma_first_absent_at(outs, k);
}

/// A structure whose directly read fields all hold values, and at least one,
/// succeeds even where some nested structures are absent: each absent nested
/// structure becomes `None`, each read field its column's value.
pub proof fn lemma_nested_absence_absorbed(s: TargetSchema, row: Row, pre: Seq<char>)
    requires
        exists|i: int| 0 <= i < s.fields@.len() && (#[trigger] s.fields@[i]).kind is Direct,
        forall|i: int|
            0 <= i < s.fields@.len() ==> match (#[trigger] s.fields@[i]).kind {
                FieldKind::Direct { column, ty } => column_holds(row, pre + column@, ty),
                FieldKind::Nested(sub) => {
                    let o = nullable(sub, row, nested_prefix(pre, s.fields@[i].name@));
                    o is Value || o is Null
                },
                FieldKind::Skip { ty } => true,
                FieldKind::Computed { expr, ty } => false,
            },
    ensures
        nullable(s, row, pre) matches Outcome::Value(slots) && slots.len() == s.fields@.len() && forall|
            i: int,
        |
            0 <= i < s.fields@.len() ==> match (#[trigger] s.fields@[i]).kind {
                FieldKind::Direct { column, ty } => find_cell(row, pre + column@) matches Some(
                    Cell::Present(v),
                ) && slots[i] == SlotView::Scalar(v@),
                FieldKind::Nested(sub) => match nullable(
                    sub,
                    row,
                    nested_prefix(pre, s.fields@[i].name@),
                ) {
                    Outcome::Value(inner) => slots[i] == SlotView::Nested(Some(inner)),
                    _ => slots[i] == SlotView::Nested(None),
                },
                FieldKind::Skip { ty } => slots[i] == SlotView::Scalar(default_of(ty)),
                FieldKind::Computed { expr, ty } => true,
            },
{
    let outs = field_outcomes(s, row, pre);
    assert forall|i: int| 0 <= i < outs.len() implies !(#[trigger] outs[i] is Failed) && !(
    outs[i] is Absent) by {
        assert(outs[i] == field_outcome(s.fields@[i], row, pre));
    }
    lemma_no_failure(outs);
    lemma_no_absent(outs);
    let k = choose|i: int| 0 <= i < s.fields@.len() && (#[trigger] s.fields@[i]).kind is Direct;
    assert(outs[k] == field_outcome(s.fields@[k], row, pre));
    assert(outs[k] is Resolved);
    assert forall|i: int| 0 <= i < s.fields@.len() implies #[trigger] outs[i] == field_outcome(
        s.fields@[i],
        row,
        pre,
    ) by {}
}

/// The first field that fails decides: its data error is the structure's
/// outcome, whatever fields around it are absent.
pub proof fn lemma_data_error_precedence(s: TargetSchema, row: Row, pre: Seq<char>, k: int)
    requires
        0 <= k < s.fields@.len(),
        field_outcome(s.fields@[k], row, pre) is Failed,
        forall|j: int| 0 <= j < k ==> !(field_outcome(#[trigger] s.fields@[j], row, pre) is Failed),
    ensures
        nullable(s, row, pre) == Outcome::Error(field_outcome(s.fields@[k], row, pre)->Failed_0),
        strict(s, row, pre) == Outcome::Error(field_outcome(s.fields@[k], row, pre)->Failed_0),
{
    let outs = field_outcomes(s, row, pre);
    assert forall|j: int| 0 <= j < k implies !(#[trigger] outs[j] is Failed) by {
        assert(outs[j] == field_outcome(s.fields@[j], row, pre));
    }
    lemma_first_failure_at(outs, k);
}

/// A skipped field yields its type's default on every row, whatever the row holds.
pub proof fn lemma_skip_defaults(s: TargetSchema, row: Row, pre: Seq<char>)
    requires
        forall|i: int| 0 <= i < s.fields@.len() ==> (#[trigger] s.fields@[i]).kind is Skip,
    ensures
        nullable(s, row, pre) == Outcome::Value(
            Seq::new(s.fields@.len() as nat, |i: int| SlotView::Scalar(default_of(s.fields@[i].kind->Skip_ty))),
        ),
        strict(s, row, pre) == nullable(s, row, pre),
{
    let outs = field_outcomes(s, row, pre);
    assert forall|i: int| 0 <= i < outs.len() implies #[trigger] outs[i] == FieldOutcome::Defaulted(
        default_of(s.fields@[i].kind->Skip_ty),
    ) by {
        assert(outs[i] == field_outcome(s.fields@[i], row, pre));
    }
    lemma_no_failure(outs);
    lemma_no_absent(outs);
    assert(!some_absent(outs));
    assert(outs.map_values(|o: FieldOutcome| slot_of(o)) =~= Seq::new(
        s.fields@.len() as nat,
        |i: int| SlotView::Scalar(default_of(s.fields@[i].kind->Skip_ty)),
    ));
}

/// Strict extraction never reports absence: where nullable extraction finds the
/// structure absent, strict extraction fails with `UnexpectedNull`, and it agrees
/// with nullable extraction otherwise.
pub proof fn lemma_strict_promotion(s: TargetSchema, row: Row, pre: Seq<char>)
    ensures
        !(strict(s, row, pre) is Null),
        nullable(s, row, pre) is Null ==> strict(s, row, pre) == Outcome::Error(DataErrorView::UnexpectedNull),
        !(nullable(s, row, pre) is Null) ==> strict(s, row, pre) == nullable(s, row, pre),
{
}

/// A field declared with an explicit column is read from that column under the
/// prefix, and from no other: its outcome is fixed by the cell at `pre + alias`.
pub proof fn lemma_alias_addressing(d: FieldDecl, f: FieldDescriptor, row: Row, other: Row, pre: Seq<char>)
    requires
        describes(d, f),
        !d.skip,
        d.nested is None,
        d.from_expr is None,
        d.from_alias is Some,
        find_cell(row, pre + d.from_alias->0@) == find_cell(other, pre + d.from_alias->0@),
    ensures
        f.kind is Direct,
        field_outcome(f, row, pre) == field_outcome(f, other, pre),
        field_outcome(f, row, pre) == match read_column(row, pre + d.from_alias->0@, d.ty) {
            Err(e) => FieldOutcome::Failed(e),
            Ok(None) => FieldOutcome::Absent,
            Ok(Some(v)) => FieldOutcome::Resolved(SlotView::Scalar(v)),
        },
{
}

} // verus!
