use sql_schema::analyzer::SQLAnalyzer;
use sql_schema::ast::{ColumnDef, ColumnOption, DataType, Statement};
use std::cell::RefCell;

fn table(name: &str, columns: &[(&str, bool)]) -> Statement {
    Statement::CreateTable {
        name: name.to_string(),
        columns: columns
            .iter()
            .map(|(column, primary)| ColumnDef {
                name: column.to_string(),
                data_type: DataType::Int(None),
                options: if *primary {
                    vec![ColumnOption::Unique { is_primary: true, has_characteristics: false }]
                } else {
                    vec![]
                },
            })
            .collect(),
        constraints: vec![],
    }
}

fn word_grammar(text: &str) -> Option<Vec<Statement>> {
    match text {
        "users" => Some(vec![table("users", &[("id", true)])]),
        "posts" => Some(vec![table("posts", &[("id", true), ("user_id", false)])]),
        "both" => Some(vec![table("x", &[("id", true)]), table("y", &[("x_id", false)])]),
        "nothing" => Some(vec![]),
        _ => None,
    }
}

#[test]
fn grammar_is_asked_for_each_segment_in_order() {
    let seen = RefCell::new(Vec::new());
    let schema = SQLAnalyzer::new().parse_sql("  one ; two;; 'th;ree' ;four", |text: &str| {
        seen.borrow_mut().push(text.to_string());
        None
    });
    assert_eq!(
        seen.into_inner(),
        vec!["one".to_string(), "two".to_string(), "'th;ree'".to_string(), "four".to_string()]
    );
    assert!(schema.tables.is_empty());
    assert!(schema.relationships.is_empty());
}

#[test]
fn answers_are_applied_in_order_and_inference_runs_last() {
    let schema = SQLAnalyzer::new().parse_sql("posts; rejected; users; nothing", word_grammar);
    let names: Vec<&str> = schema.tables.iter().map(|t| t.name.as_str()).collect();
    assert_eq!(names, vec!["posts", "users"]);
    assert_eq!(schema.relationships.len(), 1);
    assert_eq!(schema.relationships[0].from_table, "posts");
    assert_eq!(schema.relationships[0].from_column, "user_id");
    assert_eq!(schema.relationships[0].to_table, "users");
    assert_eq!(schema.relationships[0].to_column, "id");
    assert_eq!(schema.relationships[0].relationship_type, "INFERRED_FK");
}

#[test]
fn a_segment_may_hold_several_statements() {
    let schema = SQLAnalyzer::new().parse_sql("both", word_grammar);
    assert_eq!(schema.tables.len(), 2);
    assert_eq!(schema.relationships.len(), 1);
    assert_eq!(schema.relationships[0].from_table, "y");
    assert_eq!(schema.relationships[0].to_table, "x");
}

#[test]
fn each_run_starts_from_an_empty_schema() {
    let analyzer = SQLAnalyzer::new();
    let first = analyzer.parse_sql("users", word_grammar);
    let second = analyzer.parse_sql("posts", word_grammar);
    assert_eq!(first.tables.len(), 1);
    assert_eq!(second.tables.len(), 1);
    assert_eq!(second.tables[0].name, "posts");
    assert!(second.relationships.is_empty());
}
