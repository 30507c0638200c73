use queryer::engine::classify_source;
use queryer::{DataSource, Execution, Expr, LiteralValue, Operator, Sql, Step};

fn col(name: &str) -> Expr {
    Expr::Identifier(name.to_string())
}

fn plan(order_by: Vec<(&str, bool)>, offset: Option<u64>, limit: Option<u64>) -> Sql {
    Sql {
        selection: vec![Expr::Wildcard],
        condition: None,
        source: "data.csv".to_string(),
        order_by: order_by.into_iter().map(|(c, a)| (c.to_string(), a)).collect(),
        offset,
        limit,
    }
}

#[test]
fn http_sources_are_remote() {
    assert_eq!(
        classify_source("https://example.com/data.csv".to_string()),
        DataSource::RemoteHttp("https://example.com/data.csv".to_string())
    );
    assert_eq!(
        classify_source("http://h/x.csv".to_string()),
        DataSource::RemoteHttp("http://h/x.csv".to_string())
    );
}

#[test]
fn other_sources_are_local_files() {
    for s in ["data.csv", "/tmp/http.csv", "htt", ""] {
        assert_eq!(classify_source(s.to_string()), DataSource::LocalFile(s.to_string()));
    }
}

#[test]
fn each_sort_key_is_a_separate_sort_in_order() {
    let exec = Execution::of_plan(plan(vec![("a", true), ("b", false)], None, None));
    assert_eq!(
        exec.steps,
        vec![
            Step::Select(vec![Expr::Wildcard]),
            Step::Sort { column: "a".to_string(), ascending: true },
            Step::Sort { column: "b".to_string(), ascending: false },
        ]
    );
}

#[test]
fn steps_run_filter_select_sort_skip_take() {
    let cond = Expr::BinaryOp {
        left: Box::new(col("new_deaths")),
        op: Operator::GtEq,
        right: Box::new(Expr::Literal(LiteralValue::Int64(500))),
    };
    let p = Sql {
        selection: vec![Expr::Alias(Box::new(col("location")), "name".to_string()), col("new_cases")],
        condition: Some(cond),
        source: "data.csv".to_string(),
        order_by: vec![("new_cases".to_string(), false)],
        offset: Some(5),
        limit: Some(6),
    };
    let exec = Execution::of_plan(p);
    assert_eq!(exec.source, DataSource::LocalFile("data.csv".to_string()));
    assert_eq!(
        exec.steps,
        vec![
            Step::Filter(Expr::BinaryOp {
                left: Box::new(col("new_deaths")),
                op: Operator::GtEq,
                right: Box::new(Expr::Literal(LiteralValue::Int64(500))),
            }),
            Step::Select(vec![
                Expr::Alias(Box::new(col("location")), "name".to_string()),
                col("new_cases"),
            ]),
            Step::Sort { column: "new_cases".to_string(), ascending: false },
            Step::Skip(5),
            Step::Take(6),
        ]
    );
}

#[test]
fn select_star_keeps_the_table_as_it_is() {
    let exec = Execution::of_plan(plan(vec![], None, None));
    assert_eq!(exec.steps, vec![Step::Select(vec![Expr::Wildcard])]);
}

#[test]
fn offset_and_limit_steps_follow_the_sorts() {
    let exec = Execution::of_plan(plan(vec![("a", true)], Some(0), Some(0)));
    assert_eq!(
        exec.steps,
        vec![
            Step::Select(vec![Expr::Wildcard]),
            Step::Sort { column: "a".to_string(), ascending: true },
            Step::Skip(0),
            Step::Take(0),
        ]
    );
}
