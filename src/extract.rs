//! The extraction engine: reads a structure out of a row by following its schema,
//! with absence kept apart from data errors until an optional boundary decides.
use vstd::prelude::*;
use crate::row::{find_cell, type_of, default_of, Cell, Row, Value, ValueType, ValueView};
use crate::schema::{Expr, FieldDescriptor, FieldKind, TargetSchema};

verus! {

broadcast use vstd::std_specs::vec::axiom_vec_decreases_to_view, vstd::seq::axiom_seq_index_decreases;

/// A failure that no enclosing optional field may absorb.
#[derive(Debug, PartialEq)]
pub enum DataError {
    /// The column, or the computed field under its prefixed name, holds a value of another type.
    TypeMismatch(String),
    /// An expression compared values of different types.
    Incomparable,
    /// The named field was absent while another field of its structure was present.
    PartialAbsence(String),
    /// A structure was absent where nothing could absorb its absence.
    UnexpectedNull,
}

/// A failure of nullable extraction: absence, or a data error.
#[derive(Debug, PartialEq)]
pub enum TryGetError {
    Null,
    DbErr(DataError),
}

/// One extracted field.
#[derive(Debug, PartialEq)]
pub enum Slot {
    Scalar(Value),
    /// A nested structure, or `None` where all of its fields were absent.
    Nested(Option<Record>),
}

/// An extracted structure: one slot per field of its schema, in order.
#[derive(Debug, PartialEq)]
pub struct Record {
    pub slots: Vec<Slot>,
}

/// A data error as a mathematical object.
pub enum DataErrorView {
    TypeMismatch(Seq<char>),
    Incomparable,
    PartialAbsence(Seq<char>),
    UnexpectedNull,
}

/// An extracted field as a mathematical object; a nested structure is its slots.
pub enum SlotView {
    Scalar(ValueView),
    Nested(Option<Seq<SlotView>>),
}

/// What extracting a structure gives: its slots, absence, or a data error.
pub enum Outcome {
    Value(Seq<SlotView>),
    Null,
    Error(DataErrorView),
}

/// What extracting one field gives.
pub enum FieldOutcome {
    Resolved(SlotView),
    /// A skipped field's default; it neither counts as present nor as absent.
    Defaulted(ValueView),
    Absent,
    /// A nested structure all of whose fields were absent.
    AbsentNested,
    Failed(DataErrorView),
}

impl View for DataError {
    type V = DataErrorView;

    open spec fn view(&self) -> DataErrorView {
        match self {
            DataError::TypeMismatch(c) => DataErrorView::TypeMismatch(c@),
            DataError::Incomparable => DataErrorView::Incomparable,
            DataError::PartialAbsence(n) => DataErrorView::PartialAbsence(n@),
            DataError::UnexpectedNull => DataErrorView::UnexpectedNull,
        }
    }
}

/// The mathematical object an extracted field stands for.
pub open spec fn slot_view(s: Slot) -> SlotView
    decreases s,
    via slot_view_decreases
{
    match s {
        Slot::Scalar(v) => SlotView::Scalar(v@),
        Slot::Nested(None) => SlotView::Nested(None),
        Slot::Nested(Some(r)) => SlotView::Nested(
            Some(
                Seq::new(
                    r.slots@.len(),
                    |i: int|
                        if 0 <= i < r.slots@.len() {
                            slot_view(r.slots@[i])
                        } else {
                            SlotView::Nested(None)
                        },
                ),
            ),
        ),
    }
}

#[via_fn]
proof fn slot_view_decreases(s: Slot) {
    match s {
        Slot::Nested(Some(r)) => {
            assert forall|i: int| 0 <= i < r.slots@.len() implies decreases_to!(s => r.slots@[i]) by {
                assert(decreases_to!(r.slots => r.slots@));
            }
        },
        _ => {},
    }
}

impl View for Slot {
    type V = SlotView;

    open spec fn view(&self) -> SlotView {
        slot_view(*self)
    }
}

impl View for Record {
    type V = Seq<SlotView>;

    open spec fn view(&self) -> Seq<SlotView> {
        Seq::new(
            self.slots@.len(),
            |i: int|
                if 0 <= i < self.slots@.len() {
                    slot_view(self.slots@[i])
                } else {
                    SlotView::Nested(None)
                },
        )
    }
}

/// Outcome of a nullable extraction's result.
pub open spec fn nullable_outcome(r: Result<Record, TryGetError>) -> Outcome {
    match r {
        Ok(rec) => Outcome::Value(rec@),
        Err(TryGetError::Null) => Outcome::Null,
        Err(TryGetError::DbErr(e)) => Outcome::Error(e@),
    }
}

/// Outcome of a strict extraction's result.
pub open spec fn strict_outcome(r: Result<Record, DataError>) -> Outcome {
    match r {
        Ok(rec) => Outcome::Value(rec@),
        Err(e) => Outcome::Error(e@),
    }
}

/// Reads column `col` expecting type `ty`: a value, `None` where the column is
/// missing or null, or a type mismatch.
pub open spec fn read_column(row: Row, col: Seq<char>, ty: ValueType) -> Result<Option<ValueView>, DataErrorView> {
    match find_cell(row, col) {
        Some(Cell::Present(v)) => if type_of(v@) == ty {
            Ok(Some(v@))
        } else {
            Err(DataErrorView::TypeMismatch(col))
        },
        _ => Ok(None),
    }
}

/// Evaluates an expression against a row under a prefix: a value, `None` for
/// null, or a data error. The left operand's error comes first.
pub open spec fn eval(e: Expr, row: Row, pre: Seq<char>) -> Result<Option<ValueView>, DataErrorView>
    decreases e,
{
    match e {
        Expr::Column(c) => match find_cell(row, pre + c@) {
            Some(Cell::Present(v)) => Ok(Some(v@)),
            _ => Ok(None),
        },
        Expr::Literal(v) => Ok(Some(v@)),
        Expr::Equals(a, b) => match eval(*a, row, pre) {
            Err(x) => Err(x),
            Ok(x) => match eval(*b, row, pre) {
                Err(y) => Err(y),
                Ok(y) => if x is Some && y is Some {
                    if type_of(x->0) == type_of(y->0) {
                        Ok(Some(ValueView::Bool(x->0 == y->0)))
                    } else {
                        Err(DataErrorView::Incomparable)
                    }
                } else {
                    Ok(None)
                },
            },
        },
    }
}

/// The prefix under which a nested field's columns are read.
pub open spec fn nested_prefix(pre: Seq<char>, name: Seq<char>) -> Seq<char> {
    pre + name + seq!['_']
}

/// What one field yields from a row under a prefix.
pub open spec fn field_outcome(f: FieldDescriptor, row: Row, pre: Seq<char>) -> FieldOutcome
    decreases f, 2int,
{
    match f.kind {
        FieldKind::Direct { column, ty } => match read_column(row, pre + column@, ty) {
            Err(e) => FieldOutcome::Failed(e),
            Ok(None) => FieldOutcome::Absent,
            Ok(Some(v)) => FieldOutcome::Resolved(SlotView::Scalar(v)),
        },
        FieldKind::Computed { expr, ty } => match eval(expr, row, pre) {
            Err(e) => FieldOutcome::Failed(e),
            Ok(None) => FieldOutcome::Absent,
            Ok(Some(v)) => if type_of(v) == ty {
                FieldOutcome::Resolved(SlotView::Scalar(v))
            } else {
                FieldOutcome::Failed(DataErrorView::TypeMismatch(pre + f.name@))
            },
        },
        FieldKind::Skip { ty } => FieldOutcome::Defaulted(default_of(ty)),
        FieldKind::Nested(s) => match nullable(s, row, nested_prefix(pre, f.name@)) {
            Outcome::Value(slots) => FieldOutcome::Resolved(SlotView::Nested(Some(slots))),
            Outcome::Null => FieldOutcome::AbsentNested,
            Outcome::Error(e) => FieldOutcome::Failed(e),
        },
    }
}

/// What each field of a schema yields, in order.
pub open spec fn field_outcomes(s: TargetSchema, row: Row, pre: Seq<char>) -> Seq<FieldOutcome>
    decreases s, 0int,
    via field_outcomes_decreases
{
    Seq::new(
        s.fields@.len(),
        |i: int|
            if 0 <= i < s.fields@.len() {
                field_outcome(s.fields@[i], row, pre)
            } else {
                FieldOutcome::Absent
            },
    )
}

#[via_fn]
proof fn field_outcomes_decreases(s: TargetSchema, row: Row, pre: Seq<char>) {
    assert forall|i: int| 0 <= i < s.fields@.len() implies decreases_to!(s => s.fields@[i]) by {
        assert(decreases_to!(s.fields => s.fields@));
    }
}

/// The error of the first failed field, if any.
pub open spec fn first_failure(outs: Seq<FieldOutcome>) -> Option<DataErrorView>
    decreases outs.len(),
{
    if outs.len() == 0 {
        None
    } else {
        match first_failure(outs.drop_last()) {
            Some(e) => Some(e),
            None => match outs.last() {
                FieldOutcome::Failed(e) => Some(e),
                _ => None,
            },
        }
    }
}

/// The index of the first absent field that is not a nested structure, if any.
pub open spec fn first_absent(outs: Seq<FieldOutcome>) -> Option<int>
    decreases outs.len(),
{
    if outs.len() == 0 {
        None
    } else {
        match first_absent(outs.drop_last()) {
            Some(i) => Some(i),
            None => if outs.last() is Absent {
                Some(outs.len() - 1)
            } else {
                None
            },
        }
    }
}

/// Whether some field resolved to a value.
pub open spec fn some_resolved(outs: Seq<FieldOutcome>) -> bool {
    exists|i: int| 0 <= i < outs.len() && #[trigger] outs[i] is Resolved
}

/// Whether some field, direct or nested, was absent.
pub open spec fn some_absent(outs: Seq<FieldOutcome>) -> bool {
    exists|i: int| 0 <= i < outs.len() && (#[trigger] outs[i] is Absent || outs[i] is AbsentNested)
}

/// The slot that a field contributes once its structure is assembled.
pub open spec fn slot_of(o: FieldOutcome) -> SlotView {
    match o {
        FieldOutcome::Resolved(v) => v,
        FieldOutcome::Defaulted(v) => SlotView::Scalar(v),
        _ => SlotView::Nested(None),
    }
}

/// Combines the fields' outcomes: the first data error wins; a structure whose
/// fields that are not skipped are all absent, and at least one, is absent itself;
/// a structure with a present field and an absent one, other than an absent
/// nested structure, is a data error; else the structure is assembled.
pub open spec fn aggregate(fields: Seq<FieldDescriptor>, outs: Seq<FieldOutcome>) -> Outcome {
    match first_failure(outs) {
        Some(e) => Outcome::Error(e),
        None => if !some_resolved(outs) && some_absent(outs) {
            Outcome::Null
        } else {
            match first_absent(outs) {
                Some(i) => Outcome::Error(DataErrorView::PartialAbsence(fields[i].name@)),
                None => Outcome::Value(outs.map_values(|o: FieldOutcome| slot_of(o))),
            }
        },
    }
}

/// What nullable extraction of a structure yields from a row under a prefix.
pub open spec fn nullable(s: TargetSchema, row: Row, pre: Seq<char>) -> Outcome
    decreases s, 1int,
{
    aggregate(s.fields@, field_outcomes(s, row, pre))
}

/// What strict extraction yields: absence becomes a data error.
pub open spec fn strict(s: TargetSchema, row: Row, pre: Seq<char>) -> Outcome {
    match nullable(s, row, pre) {
        Outcome::Null => Outcome::Error(DataErrorView::UnexpectedNull),
        o => o,
    }
}

/// A value read from a row, as a mathematical object.
pub open spec fn value_result_view(r: Result<Option<Value>, DataError>) -> Result<Option<ValueView>, DataErrorView> {
    match r {
        Ok(Some(v)) => Ok(Some(v@)),
        Ok(None) => Ok(None),
        Err(e) => Err(e@),
    }
}

/// Reads column `col` of `row`, expecting a value of type `ty`.
fn read_value(row: &Row, col: &String, ty: ValueType) -> (r: Result<Option<Value>, DataError>)
    ensures
        value_result_view(r) == read_column(*row, col@, ty),
{
    match row.lookup(col) {
        Some(Cell::Present(v)) => {
            if v.value_type() == ty {
                Ok(Some(v.duplicate()))
            } else {
                Err(DataError::TypeMismatch(col.clone()))
            }
        },
        _ => Ok(None),
    }
}

/// Evaluates `e` against `row` under prefix `pre`.
fn evaluate(e: &Expr, row: &Row, pre: &String) -> (r: Result<Option<Value>, DataError>)
    ensures
        value_result_view(r) == eval(*e, *row, pre@),
    decreases e,
{
    match e {
        Expr::Column(c) => {
            let col = pre.clone().concat(c.as_str());
            match row.lookup(&col) {
                Some(Cell::Present(v)) => Ok(Some(v.duplicate())),
                _ => Ok(None),
            }
        },
        Expr::Literal(v) => Ok(Some(v.duplicate())),
        Expr::Equals(a, b) => {
            let x = match evaluate(a, row, pre) {
                Err(err) => return Err(err),
                Ok(x) => x,
            };
            let y = match evaluate(b, row, pre) {
                Err(err) => return Err(err),
                Ok(y) => y,
            };
            match (x, y) {
                (Some(x), Some(y)) => {
                    if x.value_type() == y.value_type() {
                        Ok(Some(Value::Bool(x.same_as(&y))))
                    } else {
                        Err(DataError::Incomparable)
                    }
                },
                _ => Ok(None),
            }
        },
    }
}

/// What extracting one field gave, before its structure is assembled.
enum FieldResult {
    Resolved(Slot),
    Defaulted(Value),
    Absent,
    AbsentNested,
    Failed(DataError),
}

spec fn field_result_view(r: FieldResult) -> FieldOutcome {
    match r {
        FieldResult::Resolved(s) => FieldOutcome::Resolved(slot_view(s)),
        FieldResult::Defaulted(v) => FieldOutcome::Defaulted(v@),
        FieldResult::Absent => FieldOutcome::Absent,
        FieldResult::AbsentNested => FieldOutcome::AbsentNested,
        FieldResult::Failed(e) => FieldOutcome::Failed(e@),
    }
}

/// Extracts one field of a structure from `row` under prefix `pre`.
fn extract_field(f: &FieldDescriptor, row: &Row, pre: &String) -> (r: FieldResult)
    ensures
        field_result_view(r) == field_outcome(*f, *row, pre@),
    decreases f,
{
    match &f.kind {
        FieldKind::Direct { column, ty } => {
            let col = pre.clone().concat(column.as_str());
            match read_value(row, &col, *ty) {
                Err(e) => FieldResult::Failed(e),
                Ok(None) => FieldResult::Absent,
                Ok(Some(v)) => FieldResult::Resolved(Slot::Scalar(v)),
            }
        },
        FieldKind::Computed { expr, ty } => match evaluate(expr, row, pre) {
            Err(e) => FieldResult::Failed(e),
            Ok(None) => FieldResult::Absent,
            Ok(Some(v)) => {
                if v.value_type() == *ty {
                    FieldResult::Resolved(Slot::Scalar(v))
                } else {
                    FieldResult::Failed(DataError::TypeMismatch(pre.clone().concat(f.name.as_str())))
                }
            },
        },
        FieldKind::Skip { ty } => FieldResult::Defaulted(Value::default_for(*ty)),
        FieldKind::Nested(s) => {
            let sub = pre.clone().concat(f.name.as_str()).concat("_");
            proof {
                reveal_strlit("_");
                assert(sub@ == nested_prefix(pre@, f.name@));
            }
            match s.nullable_at(row, &sub) {
                Ok(rec) => {
                    proof {
                        lemma_nested_slot_view(rec);
                    }
                    FieldResult::Resolved(Slot::Nested(Some(rec)))
                },
                Err(TryGetError::Null) => FieldResult::AbsentNested,
                Err(TryGetError::DbErr(e)) => FieldResult::Failed(e),
            }
        },
    }
}

proof fn lemma_nested_slot_view(rec: Record)
    ensures
        slot_view(Slot::Nested(Some(rec))) == SlotView::Nested(Some(rec@)),
{
    let s = Slot::Nested(Some(rec));
    if let SlotView::Nested(Some(v)) = slot_view(s) {
        assert(v =~= rec@);
    }
}

proof fn lemma_first_failure_prefix(outs: Seq<FieldOutcome>, k: int)
    requires
        0 <= k <= outs.len(),
        first_failure(outs.take(k)) is Some,
    ensures
        first_failure(outs) == first_failure(outs.take(k)),
    decreases outs.len(),
{
    if k == outs.len() {
        assert(outs.take(k) =~= outs);
    } else {
        assert(outs.drop_last().take(k) =~= outs.take(k));
        lemma_first_failure_prefix(outs.drop_last(), k);
    }
}

impl TargetSchema {
    /// Nullable extraction under prefix `pre`: the structure, `Null` where it is
    /// absent as a whole, or the data error that decides.
    pub fn from_query_result_nullable(&self, row: &Row, pre: &str) -> (r: Result<Record, TryGetError>)
        ensures
            nullable_outcome(r) == nullable(*self, *row, pre@),
    {
        let p = String::from_str(pre);
        self.nullable_at(row, &p)
    }

    /// Strict extraction under prefix `pre`: the structure, or a data error; a
    /// structure that is absent as a whole is `UnexpectedNull`.
    pub fn from_query_result(&self, row: &Row, pre: &str) -> (r: Result<Record, DataError>)
        ensures
            strict_outcome(r) == strict(*self, *row, pre@),
    {
        match self.from_query_result_nullable(row, pre) {
            Ok(rec) => Ok(rec),
            Err(TryGetError::Null) => Err(DataError::UnexpectedNull),
            Err(TryGetError::DbErr(e)) => Err(e),
        }
    }

    /// Extraction into an optional container under prefix `pre`: `None` where the
    /// structure is absent as a whole; data errors still surface.
    pub fn from_query_result_optional(&self, row: &Row, pre: &str) -> (r: Result<Option<Record>, DataError>)
        ensures
            match nullable(*self, *row, pre@) {
                Outcome::Value(v) => r matches Ok(Some(rec)) && rec@ == v,
                Outcome::Null => r matches Ok(None),
                Outcome::Error(e) => r matches Err(x) && x@ == e,
            },
    {
        match self.from_query_result_nullable(row, pre) {
            Ok(rec) => Ok(Some(rec)),
            Err(TryGetError::Null) => Ok(None),
            Err(TryGetError::DbErr(e)) => Err(e),
        }
    }

    fn nullable_at(&self, row: &Row, pre: &String) -> (r: Result<Record, TryGetError>)
        ensures
            nullable_outcome(r) == nullable(*self, *row, pre@),
        decreases *self,
    {
        let ghost outs = field_outcomes(*self, *row, pre@);
        let n = self.fields.len();
        let mut slots: Vec<Slot> = Vec::new();
        let mut found_resolved = false;
        let mut found_absent = false;
        let mut first_abs: Option<usize> = None;
        let mut i: usize = 0;
        assert(outs.take(0) =~= Seq::<FieldOutcome>::empty());
        while i < n
            invariant
                n == self.fields@.len(),
                outs == field_outcomes(*self, *row, pre@),
                i <= n,
                slots@.len() == i,
                forall|j: int| 0 <= j < i ==> slot_view(#[trigger] slots@[j]) == slot_of(outs[j]),
                first_failure(outs.take(i as int)) is None,
                found_resolved == exists|j: int| 0 <= j < i && #[trigger] outs[j] is Resolved,
                found_absent == exists|j: int|
                    0 <= j < i && (#[trigger] outs[j] is Absent || outs[j] is AbsentNested),
                first_abs matches Some(k) ==> k < i,
                first_absent(outs.take(i as int)) == match first_abs {
                    Some(k) => Some(k as int),
                    None => None::<int>,
                },
            decreases n - i,
        {
            assert(outs.take(i + 1).drop_last() =~= outs.take(i as int));
            proof {
                assert(decreases_to!(self.fields => self.fields@));
                assert(decreases_to!(*self => self.fields@[i as int]));
            }
            let o = extract_field(&self.fields[i], row, pre);
            match o {
                FieldResult::Failed(e) => {
                    proof {
                        lemma_first_failure_prefix(outs, i + 1);
                    }
                    return Err(TryGetError::DbErr(e));
                },
                FieldResult::Resolved(slot) => {
                    found_resolved = true;
                    slots.push(slot);
                },
                FieldResult::Defaulted(v) => {
                    slots.push(Slot::Scalar(v));
                },
                FieldResult::Absent => {
                    found_absent = true;
                    if first_abs.is_none() {
                        first_abs = Some(i);
                    }
                    slots.push(Slot::Nested(None));
                },
                FieldResult::AbsentNested => {
                    found_absent = true;
                    slots.push(Slot::Nested(None));
                },
            }
            i = i + 1;
        }
        assert(outs.take(n as int) =~= outs);
        assert(some_resolved(outs) == found_resolved);
        assert(some_absent(outs) == found_absent);
        if !found_resolved && found_absent {
            return Err(TryGetError::Null);
        }
        match first_abs {
            Some(k) => Err(TryGetError::DbErr(DataError::PartialAbsence(self.fields[k].name.clone()))),
            None => {
                let rec = Record { slots };
                assert(rec@ =~= outs.map_values(|o: FieldOutcome| slot_of(o)));
                Ok(rec)
            },
        }
    }
}

} // verus!
