//! Values, cells and rows: the tabular query result that projections read from.
use vstd::prelude::*;

verus! {

/// The type a field of a target structure expects from its column.
#[derive(PartialEq, Eq, Structural, Clone, Copy, Debug)]
pub enum ValueType {
    Int,
    Text,
    Bool,
}

/// A decoded, non-null value stored in a row.
#[derive(Debug, PartialEq)]
pub enum Value {
    Int(i64),
    Text(String),
    Bool(bool),
}

/// A value as a mathematical object.
pub enum ValueView {
    Int(i64),
    Text(Seq<char>),
    Bool(bool),
}

impl View for Value {
    type V = ValueView;

    open spec fn view(&self) -> ValueView {
        match self {
            Value::Int(i) => ValueView::Int(*i),
            Value::Text(s) => ValueView::Text(s@),
            Value::Bool(b) => ValueView::Bool(*b),
        }
    }
}

/// What a row holds under a column name.
#[derive(Debug, PartialEq)]
pub enum Cell {
    Null,
    Present(Value),
}

/// One named column of a row.
#[derive(Debug, PartialEq)]
pub struct Column {
    pub name: String,
    pub cell: Cell,
}

/// One record of a tabular result: columns in the order the query produced them.
#[derive(Debug, PartialEq)]
pub struct Row {
    pub columns: Vec<Column>,
}

/// Type of a value.
pub open spec fn type_of(v: ValueView) -> ValueType {
    match v {
        ValueView::Int(_) => ValueType::Int,
        ValueView::Text(_) => ValueType::Text,
        ValueView::Bool(_) => ValueType::Bool,
    }
}

/// The default value of each type: zero, the empty text, false.
pub open spec fn default_of(t: ValueType) -> ValueView {
    match t {
        ValueType::Int => ValueView::Int(0),
        ValueType::Text => ValueView::Text(Seq::empty()),
        ValueType::Bool => ValueView::Bool(false),
    }
}

/// Cell of the first column named `name` among `cols`, if any.
pub open spec fn find_in(cols: Seq<Column>, name: Seq<char>) -> Option<Cell>
    decreases cols.len(),
{
    if cols.len() == 0 {
        None
    } else if cols[0].name@ == name {
        Some(cols[0].cell)
    } else {
        find_in(cols.drop_first(), name)
    }
}

/// Cell that `row` holds under column `name`: the first column of that name.
pub open spec fn find_cell(row: Row, name: Seq<char>) -> Option<Cell> {
    find_in(row.columns@, name)
}

impl Row {
    /// The cell of the first column named `name`, if the row has one.
    pub fn lookup(&self, name: &String) -> (r: Option<&Cell>)
        ensures
            match r {
                Some(c) => find_cell(*self, name@) == Some(*c),
                None => find_cell(*self, name@) is None,
            },
    {
        let n = self.columns.len();
        let mut i: usize = 0;
        assert(self.columns@.subrange(0, n as int) =~= self.columns@);
        while i < n
            invariant
                n == self.columns@.len(),
                i <= n,
                find_cell(*self, name@) == find_in(self.columns@.subrange(i as int, n as int), name@),
            decreases n - i,
        {
            let ghost rest = self.columns@.subrange(i as int, n as int);
            assert(rest.drop_first() =~= self.columns@.subrange(i + 1, n as int));
            if self.columns[i].name == *name {
                return Some(&self.columns[i].cell);
            }
            i = i + 1;
        }
        None
    }
}

impl Value {
    /// An equal copy of the value.
    pub fn duplicate(&self) -> (r: Value)
        ensures
            r@ == self@,
    {
        match self {
            Value::Int(i) => Value::Int(*i),
            Value::Text(s) => Value::Text(s.clone()),
            Value::Bool(b) => Value::Bool(*b),
        }
    }

    /// Whether two values of one type are equal.
    pub fn same_as(&self, other: &Value) -> (r: bool)
        requires
            type_of(self@) == type_of(other@),
        ensures
            r == (self@ == other@),
    {
        match (self, other) {
            (Value::Int(a), Value::Int(b)) => *a == *b,
            (Value::Text(a), Value::Text(b)) => *a == *b,
            (Value::Bool(a), Value::Bool(b)) => *a == *b,
            _ => false,
        }
    }

    /// Type of the value.
    pub fn value_type(&self) -> (r: ValueType)
        ensures
            r == type_of(self@),
    {
        match self {
            Value::Int(_) => ValueType::Int,
            Value::Text(_) => ValueType::Text,
            Value::Bool(_) => ValueType::Bool,
        }
    }

    /// The default value of type `t`.
    pub fn default_for(t: ValueType) -> (r: Value)
        ensures
            r@ == default_of(t),
    {
        match t {
            ValueType::Int => Value::Int(0),
            ValueType::Text => Value::Text(String::new()),
            ValueType::Bool => Value::Bool(false),
        }
    }
}

} // verus!
