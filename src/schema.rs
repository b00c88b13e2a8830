//! Target schemas: how each field of a structure is obtained from a row, and the
//! builder that turns a field declaration list into a schema.
use vstd::prelude::*;
use crate::row::{Value, ValueType};

verus! {

/// An expression computed from the columns of a row.
#[derive(Debug)]
pub enum Expr {
    /// The value of a column, addressed under the current prefix.
    Column(String),
    /// A constant.
    Literal(Value),
    /// Whether two values are equal; null if either side is null.
    Equals(Box<Expr>, Box<Expr>),
}

/// How a field obtains its value.
#[derive(Debug)]
pub enum FieldKind {
    /// Read from one column: the prefix followed by `column`.
    Direct { column: String, ty: ValueType },
    /// Computed from an expression over the row.
    Computed { expr: Expr, ty: ValueType },
    /// Never read: the default value of `ty`.
    Skip { ty: ValueType },
    /// A nested structure, read under the prefix extended by the field's name and `_`.
    Nested(TargetSchema),
}

/// One field of a target structure.
#[derive(Debug)]
pub struct FieldDescriptor {
    pub name: String,
    pub kind: FieldKind,
}

/// The fields of a target structure, in declaration order.
#[derive(Debug)]
pub struct TargetSchema {
    pub ident: String,
    pub fields: Vec<FieldDescriptor>,
}

/// A field as declared, with its modifiers.
#[derive(Debug)]
pub struct FieldDecl {
    pub name: String,
    pub ty: ValueType,
    pub skip: bool,
    /// The schema of the field's structure type, for a nested field.
    pub nested: Option<TargetSchema>,
    /// An explicit source column, in place of the field's name.
    pub from_alias: Option<String>,
    /// An expression that computes the field.
    pub from_expr: Option<Expr>,
}

/// The shape of a declared type.
#[derive(Debug)]
pub enum Data {
    Struct(Vec<FieldDecl>),
    TupleStruct,
    UnitStruct,
    Enum,
    Union,
}

/// A type declaration that a schema is built from.
#[derive(Debug)]
pub struct DeriveInput {
    pub ident: String,
    pub data: Data,
}

/// Why a declaration has no schema.
#[derive(Debug, PartialEq, Eq, Structural)]
pub enum SchemaError {
    /// The declaration is not a structure with named fields.
    InputNotStruct,
}

impl SchemaError {
    /// The diagnostic shown for the error.
    pub fn message(&self) -> (r: String)
        ensures
            r@ == schema_error_message(),
    {
        String::from_str("you can only derive `FromQueryResult` on named struct")
    }
}

/// Text of the diagnostic for a declaration that is not a structure with named fields.
pub open spec fn schema_error_message() -> Seq<char> {
    "you can only derive `FromQueryResult` on named struct"@
}

/// A field's name as a column name: a raw identifier loses its `r#` marker.
pub open spec fn unraw_name(s: Seq<char>) -> Seq<char> {
    if s.len() >= 2 && s[0] == 'r' && s[1] == '#' {
        s.subrange(2, s.len() as int)
    } else {
        s
    }
}

/// The column name for a field name: the name without a raw identifier's `r#` marker.
pub fn unraw(name: &String) -> (r: String)
    ensures
        r@ == unraw_name(name@),
{
    let s = name.as_str();
    let n = s.unicode_len();
    if n >= 2 && s.get_char(0) == 'r' && s.get_char(1) == '#' {
        String::from_str(s.substring_char(2, n))
    } else {
        name.clone()
    }
}

/// Whether `f` is the descriptor that the declared field `d` yields. `skip` takes precedence over
/// `nested`, and `nested` over an expression; a field with none of them is read
/// from the column given by `from_alias`, or else from the column of its own
/// name, unmarked if it is a raw identifier.
pub open spec fn describes(d: FieldDecl, f: FieldDescriptor) -> bool {
    &&& f.name == d.name
    &&& if d.skip {
        f.kind == (FieldKind::Skip { ty: d.ty })
    } else if d.nested is Some {
        f.kind == FieldKind::Nested(d.nested->0)
    } else if d.from_expr is Some {
        f.kind == (FieldKind::Computed { expr: d.from_expr->0, ty: d.ty })
    } else {
        &&& f.kind is Direct
        &&& f.kind->Direct_ty == d.ty
        &&& f.kind->column@ == if d.from_alias is Some {
            d.from_alias->0@
        } else {
            unraw_name(d.name@)
        }
    }
}

/// Builds the descriptor of one declared field.
fn build_field(d: FieldDecl) -> (r: FieldDescriptor)
    ensures
        describes(d, r),
{
    let FieldDecl { name, ty, skip, nested, from_alias, from_expr } = d;
    if skip {
        FieldDescriptor { name, kind: FieldKind::Skip { ty } }
    } else if let Some(s) = nested {
        FieldDescriptor { name, kind: FieldKind::Nested(s) }
    } else if let Some(expr) = from_expr {
        FieldDescriptor { name, kind: FieldKind::Computed { expr, ty } }
    } else {
        let column = match from_alias {
            Some(a) => a,
            None => unraw(&name),
        };
        FieldDescriptor { name, kind: FieldKind::Direct { column, ty } }
    }
}

/// Builds the schema of a declaration: one descriptor per named field, in order.
/// Fails exactly when the declaration is not a structure with named fields.
pub fn expand_derive_from_query_result(input: DeriveInput) -> (r: Result<TargetSchema, SchemaError>)
    ensures
        match input.data {
            Data::Struct(decls) => r matches Ok(s) && s.ident == input.ident
                && s.fields@.len() == decls@.len()
                && forall|i: int| 0 <= i < decls@.len() ==> describes(
                #[trigger] decls@[i],
                s.fields@[i],
            ),
            _ => r == Err::<TargetSchema, SchemaError>(SchemaError::InputNotStruct),
        },
{
    let DeriveInput { ident, data } = input;
    let mut decls = match data {
        Data::Struct(decls) => decls,
        _ => return Err(SchemaError::InputNotStruct),
    };
    let ghost orig = decls@;
    let mut fields: Vec<FieldDescriptor> = Vec::new();
    while decls.len() > 0
        invariant
            fields@.len() + decls@.len() == orig.len(),
            decls@ == orig.subrange(fields@.len() as int, orig.len() as int),
            forall|i: int| 0 <= i < fields@.len() ==> describes(#[trigger] orig[i], fields@[i]),
        decreases decls@.len(),
    {
        let d = decls.remove(0);
        fields.push(build_field(d));
    }
    Ok(TargetSchema { ident, fields })
}

} // verus!
