use sql_schema::analyzer::SQLAnalyzer;
use sql_schema::ast::{ColumnDef, ColumnOption, DataType, Statement, TableConstraint};
use sql_schema::model::ParsedSchema;

fn col(name: &str, primary: bool) -> ColumnDef {
    let options = if primary {
        vec![ColumnOption::Unique { is_primary: true, has_characteristics: false }]
    } else {
        vec![]
    };
    ColumnDef { name: name.to_string(), data_type: DataType::Int(None), options }
}

fn table(name: &str, columns: Vec<ColumnDef>) -> Statement {
    Statement::CreateTable { name: name.to_string(), columns, constraints: vec![] }
}

fn inferred(statements: Vec<Statement>) -> ParsedSchema {
    let analyzer = SQLAnalyzer::new();
    let mut schema = ParsedSchema::new();
    analyzer.process_statements(&statements, &mut schema);
    analyzer.infer_relationships(&mut schema);
    schema
}

fn edges(schema: &ParsedSchema) -> Vec<(String, String, String, String, String)> {
    schema
        .relationships
        .iter()
        .map(|r| {
            (
                r.from_table.clone(),
                r.from_column.clone(),
                r.to_table.clone(),
                r.to_column.clone(),
                r.relationship_type.clone(),
            )
        })
        .collect()
}

fn edge(from_table: &str, from_column: &str, to_table: &str, to_column: &str) -> (String, String, String, String, String) {
    (
        from_table.to_string(),
        from_column.to_string(),
        to_table.to_string(),
        to_column.to_string(),
        "INFERRED_FK".to_string(),
    )
}

#[test]
fn inference_suffix_matching() {
    let schema = inferred(vec![
        table("user", vec![col("id", true)]),
        table("orders", vec![col("id", true)]),
        table("orders_comment", vec![col("user_id", false), col("body", false)]),
    ]);
    assert_eq!(edges(&schema), vec![edge("orders_comment", "user_id", "user", "id")]);
    let without = inferred(vec![
        table("orders", vec![col("id", true)]),
        table("orders_comment", vec![col("user_id", false)]),
    ]);
    assert!(without.relationships.is_empty());
}

#[test]
fn inference_matches_plurals() {
    let schema = inferred(vec![
        table("users", vec![col("id", true)]),
        table("boxes", vec![col("box_key", true)]),
        table("t", vec![col("user_id", false), col("box_id", false), col("thing_id", false)]),
    ]);
    assert_eq!(edges(&schema), vec![edge("t", "user_id", "users", "id"), edge("t", "box_id", "boxes", "box_key")]);
}

#[test]
fn inference_ignores_case() {
    let schema = inferred(vec![
        table("USERS", vec![col("ID", true)]),
        table("t", vec![col("User_id", false), col("user_ID", false)]),
    ]);
    assert_eq!(edges(&schema), vec![edge("t", "User_id", "USERS", "ID")]);
}

#[test]
fn inference_needs_a_primary_key() {
    let schema = inferred(vec![
        table("users", vec![col("id", false)]),
        table("t", vec![col("user_id", false)]),
    ]);
    assert!(schema.relationships.is_empty());
}

#[test]
fn inference_passes_over_a_match_without_primary_key() {
    let schema = inferred(vec![
        table("user", vec![col("id", false)]),
        table("users", vec![col("name", false), col("uid", true), col("other", true)]),
        table("t", vec![col("user_id", false)]),
    ]);
    assert_eq!(edges(&schema), vec![edge("t", "user_id", "users", "uid")]);
}

#[test]
fn inference_takes_the_first_table_that_fits() {
    let schema = inferred(vec![
        table("users", vec![col("a", true)]),
        table("user", vec![col("b", true)]),
        table("useres", vec![col("c", true)]),
        table("t", vec![col("user_id", false)]),
    ]);
    assert_eq!(edges(&schema), vec![edge("t", "user_id", "users", "a")]);
}

#[test]
fn inference_follows_the_order_of_tables_and_columns() {
    let schema = inferred(vec![
        table("t", vec![col("b_id", false), col("a_id", false)]),
        table("a", vec![col("id", true), col("b_id", false)]),
        table("b", vec![col("id", true)]),
    ]);
    assert_eq!(
        edges(&schema),
        vec![edge("t", "b_id", "b", "id"), edge("t", "a_id", "a", "id"), edge("a", "b_id", "b", "id")]
    );
}

#[test]
fn inference_can_point_at_the_same_table() {
    let schema = inferred(vec![table("nodes", vec![col("id", true), col("node_id", false)])]);
    assert_eq!(edges(&schema), vec![edge("nodes", "node_id", "nodes", "id")]);
}

#[test]
fn inference_skips_explicit_foreign_keys_and_sets_no_flag() {
    let analyzer = SQLAnalyzer::new();
    let mut schema = ParsedSchema::new();
    analyzer.process_statements(
        &vec![
            table("a", vec![col("id", true)]),
            Statement::CreateTable {
                name: "b".to_string(),
                columns: vec![col("a_id", false)],
                constraints: vec![TableConstraint::ForeignKey {
                    name: None,
                    columns: vec!["a_id".to_string()],
                    foreign_table: "a".to_string(),
                    referred_columns: vec!["id".to_string()],
                    on_delete: None,
                    on_update: None,
                }],
            },
            table("c", vec![col("a_id", false)]),
        ],
        &mut schema,
    );
    analyzer.infer_relationships(&mut schema);
    assert_eq!(schema.relationships.len(), 2);
    assert_eq!(schema.relationships[0].relationship_type, "FOREIGN_KEY");
    assert_eq!(schema.relationships[0].from_table, "b");
    assert_eq!(schema.relationships[1].relationship_type, "INFERRED_FK");
    assert_eq!(schema.relationships[1].from_table, "c");
    let c = &schema.columns.get("c").unwrap()[0];
    assert!(!c.is_foreign_key);
    assert_eq!(c.references, None);
    assert_eq!(schema.constraints.len(), 1);
}

#[test]
fn inference_needs_the_exact_suffix() {
    let schema = inferred(vec![
        table("user", vec![col("id", true)]),
        table("", vec![col("k", true)]),
        table("t", vec![col("user_ID", false), col("userid", false), col("id", false), col("user_id_", false)]),
    ]);
    assert!(schema.relationships.is_empty());
}

#[test]
fn inference_with_nothing_before_the_suffix() {
    let schema = inferred(vec![
        table("s", vec![col("k", true)]),
        table("t", vec![col("_id", false)]),
    ]);
    assert_eq!(edges(&schema), vec![edge("t", "_id", "s", "k")]);
}

#[test]
fn inference_reads_views_as_tables() {
    let schema = inferred(vec![
        table("users", vec![col("id", true)]),
        Statement::CreateView { name: "v".to_string(), columns: vec!["user_id".to_string()], materialized: false },
    ]);
    assert_eq!(edges(&schema), vec![edge("v", "user_id", "users", "id")]);
}

#[test]
fn inference_repeats_for_a_table_listed_twice() {
    let schema = inferred(vec![
        table("users", vec![col("id", true)]),
        table("t", vec![col("x", false)]),
        table("t", vec![col("user_id", false)]),
    ]);
    assert_eq!(edges(&schema), vec![edge("t", "user_id", "users", "id"), edge("t", "user_id", "users", "id")]);
}
