use row_projection::extract::{DataError, Record, Slot, TryGetError};
use row_projection::row::{Cell, Column, Row, Value, ValueType};
use row_projection::schema::{
    expand_derive_from_query_result, unraw, Data, DeriveInput, Expr, FieldDecl, FieldKind, SchemaError,
    TargetSchema,
};

fn decl(name: &str, ty: ValueType) -> FieldDecl {
    FieldDecl {
        name: name.to_string(),
        ty,
        skip: false,
        nested: None,
        from_alias: None,
        from_expr: None,
    }
}

fn aliased(name: &str, ty: ValueType, column: &str) -> FieldDecl {
    FieldDecl { from_alias: Some(column.to_string()), ..decl(name, ty) }
}

fn skipped(name: &str, ty: ValueType) -> FieldDecl {
    FieldDecl { skip: true, ..decl(name, ty) }
}

fn nested(name: &str, schema: TargetSchema) -> FieldDecl {
    FieldDecl { nested: Some(schema), ..decl(name, ValueType::Int) }
}

fn computed(name: &str, ty: ValueType, expr: Expr) -> FieldDecl {
    FieldDecl { from_expr: Some(expr), ..decl(name, ty) }
}

fn schema(ident: &str, fields: Vec<FieldDecl>) -> TargetSchema {
    expand_derive_from_query_result(DeriveInput {
        ident: ident.to_string(),
        data: Data::Struct(fields),
    })
    .unwrap()
}

fn row(cells: Vec<(&str, Cell)>) -> Row {
    Row {
        columns: cells
            .into_iter()
            .map(|(name, cell)| Column { name: name.to_string(), cell })
            .collect(),
    }
}

fn int_cell(i: i64) -> Cell {
    Cell::Present(Value::Int(i))
}

fn text_cell(s: &str) -> Cell {
    Cell::Present(Value::Text(s.to_string()))
}

fn int_slot(i: i64) -> Slot {
    Slot::Scalar(Value::Int(i))
}

fn text_slot(s: &str) -> Slot {
    Slot::Scalar(Value::Text(s.to_string()))
}

fn bakery() -> TargetSchema {
    schema("Bakery", vec![decl("id", ValueType::Int), aliased("title", ValueType::Text, "Name")])
}

fn cake() -> TargetSchema {
    schema(
        "Cake",
        vec![
            decl("id", ValueType::Int),
            decl("name", ValueType::Text),
            nested("bakery", bakery()),
            skipped("ignore", ValueType::Int),
        ],
    )
}

fn cake_factory() -> TargetSchema {
    let factory = schema(
        "Factory",
        vec![decl("id", ValueType::Int), aliased("plant", ValueType::Text, "Name")],
    );
    schema(
        "CakeFactory",
        vec![decl("id", ValueType::Int), decl("name", ValueType::Text), nested("bakery", factory)],
    )
}

fn two_direct() -> TargetSchema {
    schema("Pair", vec![decl("a", ValueType::Int), decl("b", ValueType::Int)])
}

#[test]
fn partial_model_left_join_does_not_exist() {
    let r = row(vec![
        ("id", int_cell(13)),
        ("name", text_cell("Test Cake")),
        ("bakery_id", Cell::Null),
        ("bakery_Name", Cell::Null),
    ]);
    let cake = cake().from_query_result(&r, "").expect("succeeds to get the result");
    assert_eq!(cake.slots[0], int_slot(13));
    assert_eq!(cake.slots[1], text_slot("Test Cake"));
    assert_eq!(cake.slots[2], Slot::Nested(None));
    assert_eq!(cake.slots[3], int_slot(0));
}

#[test]
fn partial_model_left_join_exists() {
    let r = row(vec![
        ("id", int_cell(13)),
        ("name", text_cell("Test Cake")),
        ("bakery_id", int_cell(42)),
        ("bakery_Name", text_cell("cool little bakery")),
    ]);
    let cake = cake().from_query_result(&r, "").expect("succeeds to get the result");
    assert_eq!(cake.slots[0], int_slot(13));
    assert_eq!(cake.slots[1], text_slot("Test Cake"));
    let bakery = Record { slots: vec![int_slot(42), text_slot("cool little bakery")] };
    assert_eq!(cake.slots[2], Slot::Nested(Some(bakery)));
}

#[test]
fn partial_model_left_join_alias() {
    let r = row(vec![
        ("id", int_cell(13)),
        ("name", text_cell("Test Cake")),
        ("bakery_id", int_cell(42)),
        ("bakery_Name", text_cell("cool little bakery")),
    ]);
    let cake = cake_factory().from_query_result(&r, "").expect("succeeds to get the result");
    assert_eq!(cake.slots[0], int_slot(13));
    assert_eq!(cake.slots[1], text_slot("Test Cake"));
    let factory = Record { slots: vec![int_slot(42), text_slot("cool little bakery")] };
    assert_eq!(cake.slots[2], Slot::Nested(Some(factory)));
}

#[test]
fn partial_model_flat() {
    let r = row(vec![("id", int_cell(42)), ("Name", text_cell("cool little bakery"))]);
    let bakery = bakery().from_query_result(&r, "").expect("succeeds to get the result");
    assert_eq!(bakery.slots[0], int_slot(42));
    assert_eq!(bakery.slots[1], text_slot("cool little bakery"));
}

#[test]
fn nested_structure_with_computed_field() {
    let details = schema(
        "BakeryDetails",
        vec![
            nested("basics", bakery()),
            computed("profit", ValueType::Int, Expr::Column("profit_margin".to_string())),
        ],
    );
    let r = row(vec![
        ("basics_id", int_cell(42)),
        ("basics_Name", text_cell("cool little bakery")),
        ("profit_margin", int_cell(41)),
    ]);
    let rec = details.from_query_result(&r, "").expect("succeeds to get the result");
    let basics = Record { slots: vec![int_slot(42), text_slot("cool little bakery")] };
    assert_eq!(rec.slots, vec![Slot::Nested(Some(basics)), int_slot(41)]);
}

#[test]
fn end_to_end_present_and_partial() {
    let s = schema("Bakery", vec![decl("id", ValueType::Int), aliased("title", ValueType::Text, "Name")]);
    let full = row(vec![("id", int_cell(42)), ("Name", text_cell("Acme"))]);
    let rec = s.from_query_result(&full, "").unwrap();
    assert_eq!(rec.slots, vec![int_slot(42), text_slot("Acme")]);
    let partial = row(vec![("id", int_cell(42))]);
    assert_eq!(
        s.from_query_result_nullable(&partial, ""),
        Err(TryGetError::DbErr(DataError::PartialAbsence("title".to_string())))
    );
    assert_eq!(
        s.from_query_result(&partial, ""),
        Err(DataError::PartialAbsence("title".to_string()))
    );
}

#[test]
fn uniform_absence_collapses_to_null() {
    let empty = row(vec![]);
    assert_eq!(two_direct().from_query_result_nullable(&empty, ""), Err(TryGetError::Null));
    let nulls = row(vec![("a", Cell::Null), ("b", Cell::Null)]);
    assert_eq!(two_direct().from_query_result_nullable(&nulls, ""), Err(TryGetError::Null));
}

#[test]
fn partial_absence_is_data_error() {
    let r = row(vec![("a", int_cell(1))]);
    assert_eq!(
        two_direct().from_query_result_nullable(&r, ""),
        Err(TryGetError::DbErr(DataError::PartialAbsence("b".to_string())))
    );
    let r = row(vec![("b", int_cell(1))]);
    assert_eq!(
        two_direct().from_query_result_nullable(&r, ""),
        Err(TryGetError::DbErr(DataError::PartialAbsence("a".to_string())))
    );
}

#[test]
fn nested_absence_is_absorbed() {
    let child = schema("Child", vec![decl("x", ValueType::Int), decl("y", ValueType::Text)]);
    let parent = schema("Parent", vec![decl("id", ValueType::Int), nested("child", child)]);
    let r = row(vec![("id", int_cell(7))]);
    let rec = parent.from_query_result_nullable(&r, "").unwrap();
    assert_eq!(rec.slots, vec![int_slot(7), Slot::Nested(None)]);
    let nothing = row(vec![]);
    assert_eq!(parent.from_query_result_nullable(&nothing, ""), Err(TryGetError::Null));
    let half = row(vec![("id", int_cell(7)), ("child_x", int_cell(1))]);
    assert_eq!(
        parent.from_query_result_nullable(&half, ""),
        Err(TryGetError::DbErr(DataError::PartialAbsence("y".to_string())))
    );
}

#[test]
fn data_error_wins_over_absence() {
    let r = row(vec![("b", text_cell("not a number"))]);
    assert_eq!(
        two_direct().from_query_result_nullable(&r, ""),
        Err(TryGetError::DbErr(DataError::TypeMismatch("b".to_string())))
    );
    let reversed = schema("Pair", vec![decl("b", ValueType::Int), decl("a", ValueType::Int)]);
    assert_eq!(
        reversed.from_query_result_nullable(&r, ""),
        Err(TryGetError::DbErr(DataError::TypeMismatch("b".to_string())))
    );
}

#[test]
fn first_data_error_in_declaration_order() {
    let r = row(vec![("a", text_cell("x")), ("b", Cell::Present(Value::Bool(true)))]);
    assert_eq!(
        two_direct().from_query_result(&r, ""),
        Err(DataError::TypeMismatch("a".to_string()))
    );
}

#[test]
fn skip_fields_never_fail() {
    let s = schema(
        "Defaults",
        vec![
            skipped("n", ValueType::Int),
            skipped("t", ValueType::Text),
            skipped("b", ValueType::Bool),
        ],
    );
    let empty = row(vec![]);
    let rec = s.from_query_result(&empty, "").unwrap();
    assert_eq!(
        rec.slots,
        vec![int_slot(0), text_slot(""), Slot::Scalar(Value::Bool(false))]
    );
    let noisy = row(vec![("n", text_cell("x")), ("t", int_cell(3))]);
    assert_eq!(s.from_query_result(&noisy, "").unwrap(), rec);
}

#[test]
fn strict_promotes_absence() {
    let empty = row(vec![]);
    assert_eq!(two_direct().from_query_result(&empty, ""), Err(DataError::UnexpectedNull));
}

#[test]
fn alias_is_read_under_prefix() {
    let r = row(vec![
        ("Name", text_cell("wrong")),
        ("basics_name", text_cell("also wrong")),
        ("basics_Name", text_cell("right")),
        ("basics_id", int_cell(1)),
    ]);
    let rec = bakery().from_query_result(&r, "basics_").unwrap();
    assert_eq!(rec.slots, vec![int_slot(1), text_slot("right")]);
    let without = row(vec![("Name", text_cell("wrong")), ("basics_name", text_cell("also wrong"))]);
    assert_eq!(bakery().from_query_result_nullable(&without, "basics_"), Err(TryGetError::Null));
}

#[test]
fn first_column_of_a_name_is_read() {
    let r = row(vec![("a", int_cell(1)), ("b", int_cell(2)), ("a", int_cell(3))]);
    let rec = two_direct().from_query_result(&r, "").unwrap();
    assert_eq!(rec.slots, vec![int_slot(1), int_slot(2)]);
}

#[test]
fn computed_equality() {
    let eq = || {
        Expr::Equals(
            Box::new(Expr::Column("id".to_string())),
            Box::new(Expr::Column("foo".to_string())),
        )
    };
    let s = schema("Check", vec![computed("same", ValueType::Bool, eq())]);
    let r = row(vec![("p_id", int_cell(5)), ("p_foo", int_cell(5))]);
    assert_eq!(s.from_query_result(&r, "p_").unwrap().slots, vec![Slot::Scalar(Value::Bool(true))]);
    let r = row(vec![("id", int_cell(5)), ("foo", int_cell(6))]);
    assert_eq!(s.from_query_result(&r, "").unwrap().slots, vec![Slot::Scalar(Value::Bool(false))]);
    let r = row(vec![("id", int_cell(5))]);
    assert_eq!(s.from_query_result_nullable(&r, ""), Err(TryGetError::Null));
    let r = row(vec![("id", int_cell(5)), ("foo", text_cell("5"))]);
    assert_eq!(s.from_query_result(&r, ""), Err(DataError::Incomparable));
    let wrong = schema("Check", vec![computed("same", ValueType::Int, eq())]);
    let r = row(vec![("id", int_cell(5)), ("foo", int_cell(5))]);
    assert_eq!(
        wrong.from_query_result(&r, "p_"),
        Err(DataError::UnexpectedNull)
    );
    assert_eq!(
        wrong.from_query_result(&r, ""),
        Err(DataError::TypeMismatch("same".to_string()))
    );
}

#[test]
fn computed_literal() {
    let s = schema(
        "Lit",
        vec![decl("id", ValueType::Int), computed("tag", ValueType::Text, Expr::Literal(Value::Text("k".to_string())))],
    );
    let r = row(vec![("id", int_cell(2))]);
    assert_eq!(s.from_query_result(&r, "").unwrap().slots, vec![int_slot(2), text_slot("k")]);
}

#[test]
fn builder_rejects_non_struct() {
    for data in [Data::Enum, Data::Union, Data::TupleStruct, Data::UnitStruct] {
        let r = expand_derive_from_query_result(DeriveInput { ident: "E".to_string(), data });
        assert_eq!(r.unwrap_err(), SchemaError::InputNotStruct);
    }
    assert_eq!(
        SchemaError::InputNotStruct.message(),
        "you can only derive `FromQueryResult` on named struct"
    );
}

#[test]
fn builder_resolves_field_kinds() {
    let both = FieldDecl { skip: true, nested: Some(bakery()), ..decl("x", ValueType::Bool) };
    let s = schema(
        "Kinds",
        vec![
            decl("plain", ValueType::Int),
            aliased("named", ValueType::Text, "Other"),
            both,
            nested("inner", bakery()),
            computed("c", ValueType::Int, Expr::Literal(Value::Int(1))),
        ],
    );
    assert_eq!(s.ident, "Kinds");
    assert_eq!(s.fields.len(), 5);
    assert!(matches!(&s.fields[0].kind, FieldKind::Direct { column, ty: ValueType::Int } if column == "plain"));
    assert!(matches!(&s.fields[1].kind, FieldKind::Direct { column, ty: ValueType::Text } if column == "Other"));
    assert!(matches!(&s.fields[2].kind, FieldKind::Skip { ty: ValueType::Bool }));
    assert!(matches!(&s.fields[3].kind, FieldKind::Nested(inner) if inner.ident == "Bakery"));
    assert!(matches!(&s.fields[4].kind, FieldKind::Computed { ty: ValueType::Int, .. }));
    assert_eq!(s.fields[1].name, "named");
}

#[test]
fn raw_identifier_reads_plain_column() {
    assert_eq!(unraw(&"r#type".to_string()), "type");
    assert_eq!(unraw(&"kind".to_string()), "kind");
    assert_eq!(unraw(&"r".to_string()), "r");
    let s = schema("Raw", vec![decl("r#type", ValueType::Text), aliased("r#ref", ValueType::Int, "r#ref")]);
    assert!(matches!(&s.fields[0].kind, FieldKind::Direct { column, .. } if column == "type"));
    let r = row(vec![("type", text_cell("t")), ("r#ref", int_cell(3))]);
    let rec = s.from_query_result(&r, "").unwrap();
    assert_eq!(rec.slots, vec![text_slot("t"), int_slot(3)]);
}

#[test]
fn optional_container_absorbs_absence_only() {
    let empty = row(vec![]);
    assert_eq!(two_direct().from_query_result_optional(&empty, ""), Ok(None));
    let full = row(vec![("a", int_cell(1)), ("b", int_cell(2))]);
    assert_eq!(
        two_direct().from_query_result_optional(&full, ""),
        Ok(Some(Record { slots: vec![int_slot(1), int_slot(2)] }))
    );
    let bad = row(vec![("a", text_cell("x"))]);
    assert_eq!(
        two_direct().from_query_result_optional(&bad, ""),
        Err(DataError::TypeMismatch("a".to_string()))
    );
}
