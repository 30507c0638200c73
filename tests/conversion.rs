use queryer::ast::{
    Expression, Offset, Operation, Order, Projection, Query, Select, SetExpr, Source, Statement,
    TableFactor, TableWithJoins, Value,
};
use queryer::{plan_statements, ConversionError, Expr, LiteralValue, Operator, Sql};

fn ident(name: &str) -> Expression {
    Expression::Identifier(name.to_string())
}

fn number(text: &str) -> Expression {
    Expression::Value(Value::Number(text.to_string()))
}

fn binary(left: Expression, op: Operation, right: Expression) -> Expression {
    Expression::BinaryOp { left: Box::new(left), op, right: Box::new(right) }
}

fn table(name: &str) -> TableWithJoins {
    TableWithJoins { relation: TableFactor::Table(name.to_string()), joins: 0 }
}

fn select(projection: Vec<Projection>, tables: Vec<TableWithJoins>, selection: Option<Expression>) -> Select {
    Select { projection, from: Source { tables }, selection }
}

fn query(s: Select, order_by: Vec<Order>, limit: Option<Expression>, offset: Option<Expression>) -> Statement {
    Statement::Query(Query {
        body: SetExpr::Select(s),
        order_by,
        limit,
        offset: offset.map(|value| Offset { value }),
    })
}

fn simple(projection: Vec<Projection>, from: &str) -> Statement {
    query(select(projection, vec![table(from)], None), vec![], None, None)
}

fn column(name: &str) -> Projection {
    Projection::Unnamed(ident(name))
}

fn col(name: &str) -> Expr {
    Expr::Identifier(name.to_string())
}

#[test]
fn supported_operators_map_to_plan_operators() {
    let cases = vec![
        (Operation::Plus, Operator::Plus),
        (Operation::Minus, Operator::Minus),
        (Operation::Multiply, Operator::Multiply),
        (Operation::Divide, Operator::Divide),
        (Operation::Modulo, Operator::Modulus),
        (Operation::Gt, Operator::Gt),
        (Operation::Lt, Operator::Lt),
        (Operation::GtEq, Operator::GtEq),
        (Operation::LtEq, Operator::LtEq),
        (Operation::Eq, Operator::Eq),
        (Operation::NotEq, Operator::NotEq),
        (Operation::And, Operator::And),
        (Operation::Or, Operator::Or),
    ];
    for (token, op) in cases {
        assert_eq!(token.to_operator(), Ok(op));
    }
}

#[test]
fn unsupported_operators_are_named() {
    for name in ["LIKE", "||", "&", "<<"] {
        assert_eq!(
            Operation::Other(name.to_string()).to_operator(),
            Err(ConversionError::UnsupportedOperator(name.to_string()))
        );
    }
}

#[test]
fn literals_map_to_their_kinds() {
    assert_eq!(Value::Number("42".to_string()).to_literal(), Ok(LiteralValue::Int64(42)));
    assert_eq!(
        Value::Number("9223372036854775807".to_string()).to_literal(),
        Ok(LiteralValue::Int64(i64::MAX))
    );
    assert_eq!(
        Value::Number("1.5".to_string()).to_literal(),
        Ok(LiteralValue::Float64("1.5".to_string()))
    );
    assert_eq!(
        Value::Number("2.5e-3".to_string()).to_literal(),
        Ok(LiteralValue::Float64("2.5e-3".to_string()))
    );
    assert_eq!(
        Value::SingleQuotedString("abc".to_string()).to_literal(),
        Ok(LiteralValue::String("abc".to_string()))
    );
    assert_eq!(
        Value::DoubleQuotedString("x y".to_string()).to_literal(),
        Ok(LiteralValue::String("x y".to_string()))
    );
    assert_eq!(Value::Boolean(true).to_literal(), Ok(LiteralValue::Boolean(true)));
    assert_eq!(Value::Null.to_literal(), Ok(LiteralValue::Null));
}

#[test]
fn float_literal_text_reads_as_the_same_number() {
    let lit = Value::Number("0.125".to_string()).to_literal().unwrap();
    match lit {
        LiteralValue::Float64(text) => assert_eq!(text.parse::<f64>().unwrap(), 0.125f64),
        other => panic!("unexpected literal {:?}", other),
    }
}

#[test]
fn bad_numbers_fail_with_numeric_parse() {
    for text in ["1.2.3", "9223372036854775808", "1e5", "12abc", ".", "1.5e"] {
        assert_eq!(
            Value::Number(text.to_string()).to_literal(),
            Err(ConversionError::NumericParse),
            "{}",
            text
        );
    }
}

#[test]
fn unsupported_literal_kinds_are_named() {
    assert_eq!(
        Value::Other("HexStringLiteral".to_string()).to_literal(),
        Err(ConversionError::UnsupportedLiteral("HexStringLiteral".to_string()))
    );
}

#[test]
fn overlong_string_literal_is_refused() {
    let long = "a".repeat(1usize << 30);
    assert_eq!(
        Value::SingleQuotedString(long).to_literal(),
        Err(ConversionError::StringTooLong)
    );
}

#[test]
fn expressions_convert_recursively() {
    let e = binary(
        binary(ident("a"), Operation::Plus, number("1")),
        Operation::Gt,
        Expression::IsNull(Box::new(ident("b"))),
    );
    let expected = Expr::BinaryOp {
        left: Box::new(Expr::BinaryOp {
            left: Box::new(col("a")),
            op: Operator::Plus,
            right: Box::new(Expr::Literal(LiteralValue::Int64(1))),
        }),
        op: Operator::Gt,
        right: Box::new(Expr::IsNull(Box::new(col("b")))),
    };
    assert_eq!(e.to_expr(), Ok(expected));
    assert_eq!(Expression::Wildcard.to_expr(), Ok(Expr::Wildcard));
}

#[test]
fn left_operand_fails_first() {
    let e = binary(
        Expression::Other("f(x)".to_string()),
        Operation::Other("LIKE".to_string()),
        Expression::Value(Value::Other("Placeholder".to_string())),
    );
    assert_eq!(e.to_expr(), Err(ConversionError::UnsupportedExpression("f(x)".to_string())));
    let e = binary(
        ident("a"),
        Operation::Other("LIKE".to_string()),
        Expression::Value(Value::Other("Placeholder".to_string())),
    );
    assert_eq!(e.to_expr(), Err(ConversionError::UnsupportedLiteral("Placeholder".to_string())));
}

#[test]
fn wildcard_with_modifiers_is_refused() {
    let stmt = simple(vec![Projection::Wildcard(Some("* EXCLUDE (a)".to_string()))], "t");
    assert_eq!(
        Sql::from_statement(&stmt),
        Err(ConversionError::UnsupportedExpression("* EXCLUDE (a)".to_string()))
    );
    let stmt = simple(vec![Projection::Other("t.*".to_string())], "t");
    assert_eq!(
        Sql::from_statement(&stmt),
        Err(ConversionError::UnsupportedExpression("t.*".to_string()))
    );
}

#[test]
fn first_failing_clause_decides() {
    let bad_where = Some(Expression::Other("EXISTS (SELECT 1)".to_string()));
    let bad_order = vec![Order { expr: binary(ident("a"), Operation::Plus, number("1")), asc: None }];
    let s = select(vec![Projection::Other("t.*".to_string())], vec![table("t")], bad_where);
    let stmt = query(s, bad_order, Some(ident("n")), None);
    assert_eq!(
        Sql::from_statement(&stmt),
        Err(ConversionError::UnsupportedExpression("t.*".to_string()))
    );

    let bad_where = Some(Expression::Other("EXISTS (SELECT 1)".to_string()));
    let bad_order = vec![Order { expr: binary(ident("a"), Operation::Plus, number("1")), asc: None }];
    let s = select(vec![column("a")], vec![table("t")], bad_where);
    let stmt = query(s, bad_order, Some(ident("n")), None);
    assert_eq!(
        Sql::from_statement(&stmt),
        Err(ConversionError::UnsupportedExpression("EXISTS (SELECT 1)".to_string()))
    );

    let bad_order = vec![Order { expr: binary(ident("a"), Operation::Plus, number("1")), asc: None }];
    let s = select(vec![column("a")], vec![table("t")], None);
    let stmt = query(s, bad_order, Some(ident("n")), None);
    assert_eq!(Sql::from_statement(&stmt), Err(ConversionError::UnsupportedOrderBy));

    let s = select(vec![column("a")], vec![table("t1"), table("t2")], None);
    let stmt = query(s, vec![], Some(ident("n")), None);
    assert_eq!(Sql::from_statement(&stmt), Err(ConversionError::UnsupportedSource));
}

#[test]
fn first_failing_projection_decides_the_error() {
    let stmt = simple(
        vec![
            column("a"),
            Projection::Unnamed(Expression::Other("count(*)".to_string())),
            Projection::Other("t.*".to_string()),
        ],
        "t",
    );
    assert_eq!(
        Sql::from_statement(&stmt),
        Err(ConversionError::UnsupportedExpression("count(*)".to_string()))
    );
}

#[test]
fn two_tables_or_a_join_fail_with_unsupported_source() {
    let s = select(vec![column("a")], vec![table("t1"), table("t2")], None);
    assert_eq!(
        Sql::from_statement(&query(s, vec![], None, None)),
        Err(ConversionError::UnsupportedSource)
    );
    let joined = TableWithJoins { relation: TableFactor::Table("t1".to_string()), joins: 1 };
    let s = select(vec![column("a")], vec![joined], None);
    assert_eq!(
        Sql::from_statement(&query(s, vec![], None, None)),
        Err(ConversionError::UnsupportedSource)
    );
    let s = select(vec![column("a")], vec![], None);
    assert_eq!(
        Sql::from_statement(&query(s, vec![], None, None)),
        Err(ConversionError::UnsupportedSource)
    );
    let derived = TableWithJoins { relation: TableFactor::Other("(SELECT 1)".to_string()), joins: 0 };
    let s = select(vec![column("a")], vec![derived], None);
    assert_eq!(
        Sql::from_statement(&query(s, vec![], None, None)),
        Err(ConversionError::UnsupportedSource)
    );
}

#[test]
fn one_table_without_joins_is_the_source() {
    let plan = Sql::from_statement(&simple(vec![column("a")], "data.csv")).unwrap();
    assert_eq!(plan.source, "data.csv");
}

#[test]
fn order_by_defaults_to_ascending() {
    let s = select(vec![column("a")], vec![table("t")], None);
    let order_by = vec![
        Order { expr: ident("a"), asc: None },
        Order { expr: ident("b"), asc: Some(false) },
        Order { expr: ident("c"), asc: Some(true) },
    ];
    let plan = Sql::from_statement(&query(s, order_by, None, None)).unwrap();
    assert_eq!(
        plan.order_by,
        vec![("a".to_string(), true), ("b".to_string(), false), ("c".to_string(), true)]
    );
}

#[test]
fn non_numeric_offset_becomes_zero() {
    let s = select(vec![column("a")], vec![table("t")], None);
    let plan = Sql::from_statement(&query(s, vec![], None, Some(ident("x")))).unwrap();
    assert_eq!(plan.offset, Some(0));
    let s = select(vec![column("a")], vec![table("t")], None);
    let plan = Sql::from_statement(&query(s, vec![], None, Some(number("1.5")))).unwrap();
    assert_eq!(plan.offset, Some(0));
    let s = select(vec![column("a")], vec![table("t")], None);
    let plan = Sql::from_statement(&query(s, vec![], None, Some(number("7")))).unwrap();
    assert_eq!(plan.offset, Some(7));
}

#[test]
fn non_numeric_limit_fails() {
    let s = select(vec![column("a")], vec![table("t")], None);
    assert_eq!(
        Sql::from_statement(&query(s, vec![], Some(ident("x")), None)),
        Err(ConversionError::InvalidLimit)
    );
    let s = select(vec![column("a")], vec![table("t")], None);
    assert_eq!(
        Sql::from_statement(&query(s, vec![], Some(number("2.5")), None)),
        Err(ConversionError::InvalidLimit)
    );
    let s = select(vec![column("a")], vec![table("t")], None);
    let plan = Sql::from_statement(&query(s, vec![], Some(number("3")), None)).unwrap();
    assert_eq!(plan.limit, Some(3));
}

#[test]
fn only_plain_selects_are_converted() {
    assert_eq!(
        Sql::from_statement(&Statement::Other("INSERT INTO t VALUES (1)".to_string())),
        Err(ConversionError::UnsupportedStatement)
    );
    let union = Statement::Query(Query {
        body: SetExpr::Other("SELECT 1 UNION SELECT 2".to_string()),
        order_by: vec![],
        limit: None,
        offset: None,
    });
    assert_eq!(Sql::from_statement(&union), Err(ConversionError::UnsupportedStatement));
}

#[test]
fn exactly_one_statement_is_required() {
    assert_eq!(plan_statements(&vec![]), Err(ConversionError::MultipleStatements));
    let two = vec![simple(vec![column("a")], "t"), simple(vec![column("b")], "t")];
    assert_eq!(plan_statements(&two), Err(ConversionError::MultipleStatements));
    let one = vec![simple(vec![column("a")], "t")];
    assert_eq!(plan_statements(&one).unwrap().selection, vec![col("a")]);
}

#[test]
fn covid_query_plan() {
    // SELECT location name, new_cases FROM data.csv WHERE new_deaths >= 500
    // ORDER BY new_cases DESC LIMIT 6 OFFSET 5
    let s = select(
        vec![
            Projection::Aliased { expr: ident("location"), alias: "name".to_string() },
            column("new_cases"),
        ],
        vec![table("data.csv")],
        Some(binary(ident("new_deaths"), Operation::GtEq, number("500"))),
    );
    let stmt = query(
        s,
        vec![Order { expr: ident("new_cases"), asc: Some(false) }],
        Some(number("6")),
        Some(number("5")),
    );
    let plan = plan_statements(&vec![stmt]).unwrap();
    assert_eq!(
        plan,
        Sql {
            selection: vec![
                Expr::Alias(Box::new(col("location")), "name".to_string()),
                col("new_cases"),
            ],
            condition: Some(Expr::BinaryOp {
                left: Box::new(col("new_deaths")),
                op: Operator::GtEq,
                right: Box::new(Expr::Literal(LiteralValue::Int64(500))),
            }),
            source: "data.csv".to_string(),
            order_by: vec![("new_cases".to_string(), false)],
            offset: Some(5),
            limit: Some(6),
        }
    );
}

#[test]
fn select_star_plan() {
    let plan = plan_statements(&vec![simple(vec![Projection::Wildcard(None)], "data.csv")]).unwrap();
    assert_eq!(plan.selection, vec![Expr::Wildcard]);
    assert_eq!(plan.condition, None);
    assert!(plan.order_by.is_empty());
    assert_eq!(plan.offset, None);
    assert_eq!(plan.limit, None);
}

#[test]
fn select_from_two_tables_fails() {
    let s = select(vec![column("a"), column("b")], vec![table("t1"), table("t2")], None);
    assert_eq!(
        plan_statements(&vec![query(s, vec![], None, None)]),
        Err(ConversionError::UnsupportedSource)
    );
}

#[test]
fn like_fails_naming_the_operator() {
    let cond = binary(
        ident("a"),
        Operation::Other("LIKE".to_string()),
        Expression::Value(Value::SingleQuotedString("x%".to_string())),
    );
    let s = select(vec![column("a")], vec![table("t")], Some(cond));
    assert_eq!(
        plan_statements(&vec![query(s, vec![], None, None)]),
        Err(ConversionError::UnsupportedOperator("LIKE".to_string()))
    );
}
