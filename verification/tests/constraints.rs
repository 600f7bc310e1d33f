use sql_schema::analyzer::SQLAnalyzer;
use sql_schema::ast::{ColumnDef, DataType, Expr, Statement, TableConstraint};
use sql_schema::model::ParsedSchema;

type Snapshot = (
    Vec<sql_schema::model::TableInfo>,
    Vec<(String, Vec<sql_schema::model::ColumnInfo>)>,
    Vec<sql_schema::model::Relationship>,
    Vec<sql_schema::model::IndexInfo>,
    Vec<sql_schema::model::ConstraintInfo>,
);

fn snapshot(s: &ParsedSchema) -> Snapshot {
    let mut names = s.columns.table_names();
    names.sort();
    let columns = names
        .into_iter()
        .map(|name| {
            let list = s.columns.get(&name).unwrap().clone();
            (name, list)
        })
        .collect();
    (s.tables.clone(), columns, s.relationships.clone(), s.indexes.clone(), s.constraints.clone())
}

fn texts(names: &[&str]) -> Vec<String> {
    names.iter().map(|n| n.to_string()).collect()
}

fn table_with(name: &str, columns: &[&str]) -> Statement {
    Statement::CreateTable {
        name: name.to_string(),
        columns: columns
            .iter()
            .map(|c| ColumnDef { name: c.to_string(), data_type: DataType::Int(None), options: vec![] })
            .collect(),
        constraints: vec![],
    }
}

fn schema_with(name: &str, columns: &[&str]) -> ParsedSchema {
    let mut schema = ParsedSchema::new();
    SQLAnalyzer::new().process_statement(&table_with(name, columns), &mut schema);
    schema
}

fn foreign_key(
    name: Option<&str>,
    columns: &[&str],
    foreign_table: &str,
    referred: &[&str],
    on_delete: Option<&str>,
    on_update: Option<&str>,
) -> TableConstraint {
    TableConstraint::ForeignKey {
        name: name.map(|n| n.to_string()),
        columns: texts(columns),
        foreign_table: foreign_table.to_string(),
        referred_columns: texts(referred),
        on_delete: on_delete.map(|a| a.to_string()),
        on_update: on_update.map(|a| a.to_string()),
    }
}

fn ident(name: &str) -> Expr {
    Expr::Identifier(name.to_string())
}

fn binary(left: Expr, right: Expr) -> Expr {
    Expr::BinaryOp { left: Box::new(left), right: Box::new(right) }
}

#[test]
fn foreign_key_records_constraint_relationship_and_flags() {
    let mut schema = schema_with("b", &["id", "a_id"]);
    let fk = foreign_key(Some("fk_b_a"), &["a_id"], "a", &["id"], None, None);
    SQLAnalyzer::new().process_table_constraint(&fk, "b", &mut schema);
    assert_eq!(schema.constraints.len(), 1);
    let c = &schema.constraints[0];
    assert_eq!(c.name, "fk_b_a");
    assert_eq!(c.table, "b");
    assert_eq!(c.constraint_type, "FOREIGN KEY");
    assert_eq!(c.columns, texts(&["a_id"]));
    assert_eq!(c.reference_table, Some("a".to_string()));
    assert_eq!(c.reference_columns, Some(texts(&["id"])));
    assert_eq!(schema.relationships.len(), 1);
    let r = &schema.relationships[0];
    assert_eq!(r.from_table, "b");
    assert_eq!(r.from_column, "a_id");
    assert_eq!(r.to_table, "a");
    assert_eq!(r.to_column, "id");
    assert_eq!(r.relationship_type, "FOREIGN_KEY");
    let cols = schema.columns.get("b").unwrap();
    assert!(!cols[0].is_foreign_key);
    assert_eq!(cols[0].references, None);
    assert!(cols[1].is_foreign_key);
    assert_eq!(cols[1].references, Some("a.id".to_string()));
    assert!(!cols[1].is_primary_key);
}

#[test]
fn foreign_key_type_carries_its_actions() {
    let analyzer = SQLAnalyzer::new();
    let mut schema = ParsedSchema::new();
    analyzer.process_table_constraint(
        &foreign_key(None, &["x"], "p", &["y"], Some("CASCADE"), Some("SET NULL")),
        "t",
        &mut schema,
    );
    analyzer.process_table_constraint(
        &foreign_key(None, &["x"], "p", &["y"], Some("NO ACTION"), None),
        "t",
        &mut schema,
    );
    analyzer.process_table_constraint(
        &foreign_key(None, &["x"], "p", &["y"], None, Some("RESTRICT")),
        "t",
        &mut schema,
    );
    assert_eq!(schema.constraints[0].constraint_type, "FOREIGN KEY ON DELETE CASCADE ON UPDATE SET NULL");
    assert_eq!(schema.constraints[1].constraint_type, "FOREIGN KEY ON DELETE NO ACTION");
    assert_eq!(schema.constraints[2].constraint_type, "FOREIGN KEY ON UPDATE RESTRICT");
}

#[test]
fn composite_foreign_key_pairs_columns_by_place() {
    let mut schema = schema_with("t", &["a", "b", "c", "d"]);
    let fk = foreign_key(None, &["a", "b", "c"], "p", &["x", "y"], None, None);
    SQLAnalyzer::new().process_table_constraint(&fk, "t", &mut schema);
    assert_eq!(schema.relationships.len(), 2);
    assert_eq!(schema.relationships[0].from_column, "a");
    assert_eq!(schema.relationships[0].to_column, "x");
    assert_eq!(schema.relationships[1].from_column, "b");
    assert_eq!(schema.relationships[1].to_column, "y");
    let cols = schema.columns.get("t").unwrap();
    for i in 0..3 {
        assert!(cols[i].is_foreign_key);
        assert_eq!(cols[i].references, Some("p.x".to_string()));
    }
    assert!(!cols[3].is_foreign_key);
    assert_eq!(schema.constraints[0].columns, texts(&["a", "b", "c"]));
    assert_eq!(schema.constraints[0].reference_columns, Some(texts(&["x", "y"])));
}

#[test]
fn foreign_key_with_more_referenced_columns_is_cut_short() {
    let mut schema = schema_with("t", &["a"]);
    let fk = foreign_key(None, &["a"], "p", &["x", "y", "z"], None, None);
    SQLAnalyzer::new().process_table_constraint(&fk, "t", &mut schema);
    assert_eq!(schema.relationships.len(), 1);
    assert_eq!(schema.relationships[0].to_column, "x");
}

#[test]
fn foreign_key_without_referenced_columns() {
    let mut schema = schema_with("t", &["a"]);
    let fk = foreign_key(None, &["a"], "p", &[], None, None);
    SQLAnalyzer::new().process_table_constraint(&fk, "t", &mut schema);
    assert!(schema.relationships.is_empty());
    assert_eq!(schema.columns.get("t").unwrap()[0].references, Some("p.".to_string()));
    assert_eq!(schema.constraints[0].reference_columns, Some(vec![]));
}

#[test]
fn foreign_key_on_unknown_table_is_still_recorded() {
    let mut schema = schema_with("t", &["a"]);
    let fk = foreign_key(None, &["a"], "p", &["x"], None, None);
    SQLAnalyzer::new().process_table_constraint(&fk, "missing", &mut schema);
    assert_eq!(schema.constraints.len(), 1);
    assert_eq!(schema.constraints[0].table, "missing");
    assert_eq!(schema.relationships.len(), 1);
    assert!(schema.columns.get("missing").is_none());
    assert!(!schema.columns.get("t").unwrap()[0].is_foreign_key);
}

#[test]
fn unnamed_entity_defaults() {
    let analyzer = SQLAnalyzer::new();
    let mut schema = ParsedSchema::new();
    analyzer.process_table_constraint(&foreign_key(None, &["a"], "p", &["x"], None, None), "t", &mut schema);
    analyzer.process_table_constraint(
        &TableConstraint::Unique { name: None, columns: texts(&["a"]), is_primary: true },
        "t",
        &mut schema,
    );
    analyzer.process_table_constraint(
        &TableConstraint::Unique { name: None, columns: texts(&["a"]), is_primary: false },
        "t",
        &mut schema,
    );
    analyzer.process_table_constraint(
        &TableConstraint::Check { name: None, expr: ident("a") },
        "t",
        &mut schema,
    );
    let names: Vec<&str> = schema.constraints.iter().map(|c| c.name.as_str()).collect();
    assert_eq!(names, vec!["unnamed_fk", "unnamed_pk", "unnamed_unique", "unnamed_check"]);
    analyzer.process_statement(
        &Statement::CreateIndex { name: None, table_name: "t".to_string(), columns: texts(&["a"]), unique: false },
        &mut schema,
    );
    assert_eq!(schema.indexes[0].name, "unnamed_index");
}

#[test]
fn primary_key_flags_its_columns() {
    let mut schema = schema_with("t", &["a", "b", "c"]);
    let pk = TableConstraint::Unique { name: Some("pk_t".to_string()), columns: texts(&["a", "c"]), is_primary: true };
    SQLAnalyzer::new().process_table_constraint(&pk, "t", &mut schema);
    let c = &schema.constraints[0];
    assert_eq!(c.name, "pk_t");
    assert_eq!(c.constraint_type, "PRIMARY KEY");
    assert_eq!(c.columns, texts(&["a", "c"]));
    assert_eq!(c.reference_table, None);
    assert_eq!(c.reference_columns, None);
    let cols = schema.columns.get("t").unwrap();
    assert!(cols[0].is_primary_key);
    assert!(!cols[1].is_primary_key);
    assert!(cols[2].is_primary_key);
    assert!(schema.relationships.is_empty());
}

#[test]
fn unique_flags_nothing() {
    let mut schema = schema_with("t", &["a"]);
    let unique = TableConstraint::Unique { name: Some("u".to_string()), columns: texts(&["a"]), is_primary: false };
    SQLAnalyzer::new().process_table_constraint(&unique, "t", &mut schema);
    assert_eq!(schema.constraints[0].constraint_type, "UNIQUE");
    assert!(!schema.columns.get("t").unwrap()[0].is_primary_key);
}

#[test]
fn check_lists_the_columns_of_its_expression() {
    let mut schema = schema_with("t", &["price", "qty"]);
    let expr = binary(
        binary(ident("price"), Expr::Other),
        Expr::Nested(Box::new(binary(
            Expr::CompoundIdentifier(texts(&["t", "qty"])),
            Expr::Function,
        ))),
    );
    let check = TableConstraint::Check { name: Some("positive".to_string()), expr };
    SQLAnalyzer::new().process_table_constraint(&check, "t", &mut schema);
    let c = &schema.constraints[0];
    assert_eq!(c.name, "positive");
    assert_eq!(c.constraint_type, "CHECK");
    assert_eq!(c.columns, texts(&["price", "qty"]));
    assert_eq!(c.reference_table, None);
    assert_eq!(c.reference_columns, None);
    assert!(schema.relationships.is_empty());
    assert_eq!(snapshot(&schema).1, snapshot(&schema_with("t", &["price", "qty"])).1);
}

#[test]
fn check_without_columns_has_an_empty_list() {
    let mut schema = ParsedSchema::new();
    let check = TableConstraint::Check { name: None, expr: binary(Expr::Function, Expr::Other) };
    SQLAnalyzer::new().process_table_constraint(&check, "t", &mut schema);
    assert_eq!(schema.constraints[0].columns, Vec::<String>::new());
}

#[test]
fn other_constraints_are_passed_over() {
    let mut schema = schema_with("t", &["a"]);
    SQLAnalyzer::new().process_table_constraint(&TableConstraint::Other, "t", &mut schema);
    assert_eq!(snapshot(&schema), snapshot(&schema_with("t", &["a"])));
}

#[test]
fn extract_columns_walks_operators_and_parentheses() {
    let analyzer = SQLAnalyzer::new();
    assert_eq!(analyzer.extract_columns_from_expr(&ident("a")), Some(texts(&["a"])));
    assert_eq!(
        analyzer.extract_columns_from_expr(&Expr::CompoundIdentifier(texts(&["s", "t", "c"]))),
        Some(texts(&["c"]))
    );
    assert_eq!(analyzer.extract_columns_from_expr(&Expr::CompoundIdentifier(vec![])), None);
    assert_eq!(analyzer.extract_columns_from_expr(&Expr::Function), None);
    assert_eq!(analyzer.extract_columns_from_expr(&Expr::Other), None);
    assert_eq!(analyzer.extract_columns_from_expr(&Expr::Nested(Box::new(Expr::Other))), None);
    assert_eq!(
        analyzer.extract_columns_from_expr(&binary(
            binary(ident("a"), ident("b")),
            Expr::Nested(Box::new(binary(ident("a"), ident("c")))),
        )),
        Some(texts(&["a", "b", "a", "c"]))
    );
    assert_eq!(
        analyzer.extract_columns_from_expr(&binary(Expr::Other, ident("z"))),
        Some(texts(&["z"]))
    );
}
