use sql_schema::analyzer::SQLAnalyzer;
use sql_schema::ast::{
    AlterColumnOperation, AlterTableOperation, CharacterLength, ColumnDef, ColumnOption, DataType, ObjectType,
    Statement, TableConstraint,
};
use sql_schema::model::ParsedSchema;

type Snapshot = (
    Vec<sql_schema::model::TableInfo>,
    Vec<(String, Vec<sql_schema::model::ColumnInfo>)>,
    Vec<sql_schema::model::Relationship>,
    Vec<sql_schema::model::IndexInfo>,
    Vec<sql_schema::model::ConstraintInfo>,
);

fn snapshot(s: &ParsedSchema) -> Snapshot {
    let mut names = s.columns.table_names();
    names.sort();
    let columns = names
        .into_iter()
        .map(|name| {
            let list = s.columns.get(&name).unwrap().clone();
            (name, list)
        })
        .collect();
    (s.tables.clone(), columns, s.relationships.clone(), s.indexes.clone(), s.constraints.clone())
}

fn texts(names: &[&str]) -> Vec<String> {
    names.iter().map(|n| n.to_string()).collect()
}

fn col(name: &str, options: Vec<ColumnOption>) -> ColumnDef {
    ColumnDef { name: name.to_string(), data_type: DataType::Int(None), options }
}

fn foreign_key(name: &str, columns: &[&str], to: &str, referred: &[&str], on_delete: Option<&str>) -> TableConstraint {
    TableConstraint::ForeignKey {
        name: Some(name.to_string()),
        columns: texts(columns),
        foreign_table: to.to_string(),
        referred_columns: texts(referred),
        on_delete: on_delete.map(|a| a.to_string()),
        on_update: None,
    }
}

fn base() -> ParsedSchema {
    let statements = vec![
        Statement::CreateTable {
            name: "a".to_string(),
            columns: vec![col(
                "id",
                vec![ColumnOption::Unique { is_primary: true, has_characteristics: false }],
            )],
            constraints: vec![],
        },
        Statement::CreateTable {
            name: "b".to_string(),
            columns: vec![col("id", vec![]), col("a_id", vec![ColumnOption::NotNull]), col("n", vec![])],
            constraints: vec![
                TableConstraint::Unique { name: Some("pk_b".to_string()), columns: texts(&["id"]), is_primary: true },
                foreign_key("fk_b_a", &["a_id"], "a", &["id"], None),
                TableConstraint::Unique { name: Some("u_b".to_string()), columns: texts(&["a_id", "n"]), is_primary: false },
            ],
        },
        Statement::CreateTable {
            name: "c".to_string(),
            columns: vec![col("a_id", vec![]), col("b_a_id", vec![])],
            constraints: vec![
                foreign_key("fk_c_b", &["b_a_id"], "b", &["a_id"], None),
                foreign_key("fk_c_a", &["a_id"], "a", &["id"], None),
            ],
        },
        Statement::CreateIndex {
            name: Some("idx_b".to_string()),
            table_name: "b".to_string(),
            columns: texts(&["n", "a_id"]),
            unique: false,
        },
        Statement::CreateIndex {
            name: Some("idx_c".to_string()),
            table_name: "c".to_string(),
            columns: texts(&["a_id"]),
            unique: false,
        },
    ];
    let mut schema = ParsedSchema::new();
    SQLAnalyzer::new().process_statements(&statements, &mut schema);
    schema
}

fn alter(schema: &mut ParsedSchema, table: &str, operations: Vec<AlterTableOperation>) {
    SQLAnalyzer::new().process_alter_table(table, &operations, schema);
}

fn rename(old_name: &str, new_name: &str) -> AlterTableOperation {
    AlterTableOperation::RenameColumn {
        old_column_name: old_name.to_string(),
        new_column_name: new_name.to_string(),
    }
}

#[test]
fn add_column_appends_to_a_known_table() {
    let mut schema = base();
    alter(
        &mut schema,
        "a",
        vec![AlterTableOperation::AddColumn {
            column_def: ColumnDef {
                name: "label".to_string(),
                data_type: DataType::Varchar(Some(CharacterLength::IntegerLength { length: 20, unit: None })),
                options: vec![ColumnOption::NotNull, ColumnOption::Default("'none'".to_string())],
            },
        }],
    );
    let cols = schema.columns.get("a").unwrap();
    assert_eq!(cols.len(), 2);
    assert_eq!(cols[1].name, "label");
    assert_eq!(cols[1].data_type, "VARCHAR(20)");
    assert!(!cols[1].nullable);
    assert_eq!(cols[1].default_value, Some("'none'".to_string()));
    assert!(!cols[1].is_primary_key);
    assert!(!cols[1].is_foreign_key);
}

#[test]
fn operations_on_an_unknown_table_change_nothing() {
    let mut schema = base();
    alter(
        &mut schema,
        "missing",
        vec![
            AlterTableOperation::AddColumn { column_def: col("x", vec![]) },
            AlterTableOperation::DropColumn { column_name: "a_id".to_string() },
            rename("a_id", "z"),
            AlterTableOperation::AlterColumn { column_name: "a_id".to_string(), op: AlterColumnOperation::SetNotNull },
            AlterTableOperation::DropConstraint { name: "fk_b_a".to_string() },
            AlterTableOperation::AddConstraint(foreign_key("fk_late", &["a_id"], "a", &["id"], None)),
            AlterTableOperation::AddConstraint(TableConstraint::Unique {
                name: None,
                columns: texts(&["id"]),
                is_primary: false,
            }),
            AlterTableOperation::Other,
        ],
    );
    assert_eq!(snapshot(&schema), snapshot(&base()));
}

#[test]
fn operations_on_an_unknown_column_change_nothing() {
    let mut schema = base();
    alter(
        &mut schema,
        "b",
        vec![
            AlterTableOperation::DropColumn { column_name: "missing".to_string() },
            rename("missing", "z"),
            AlterTableOperation::AlterColumn { column_name: "missing".to_string(), op: AlterColumnOperation::SetNotNull },
        ],
    );
    assert_eq!(snapshot(&schema), snapshot(&base()));
}

#[test]
fn alters_after_a_drop_change_nothing() {
    let mut schema = base();
    SQLAnalyzer::new().process_statement(
        &Statement::Drop { object_type: ObjectType::Table, names: texts(&["b"]) },
        &mut schema,
    );
    let dropped = snapshot(&schema);
    alter(
        &mut schema,
        "b",
        vec![
            AlterTableOperation::AddColumn { column_def: col("x", vec![]) },
            AlterTableOperation::DropColumn { column_name: "a_id".to_string() },
            rename("a_id", "z"),
            AlterTableOperation::AlterColumn { column_name: "a_id".to_string(), op: AlterColumnOperation::DropNotNull },
            AlterTableOperation::DropConstraint { name: "fk_b_a".to_string() },
        ],
    );
    assert_eq!(snapshot(&schema), dropped);
    alter(
        &mut schema,
        "b",
        vec![
            AlterTableOperation::AddConstraint(TableConstraint::Unique {
                name: None,
                columns: texts(&["id"]),
                is_primary: true,
            }),
            AlterTableOperation::AddConstraint(foreign_key("fk_late", &["a_id"], "a", &["id"], None)),
        ],
    );
    assert_eq!(snapshot(&schema), dropped);
    assert!(schema.columns.get("b").is_none());
}

#[test]
fn a_column_that_only_an_index_or_constraint_names_is_unknown() {
    let analyzer = SQLAnalyzer::new();
    let mut schema = base();
    analyzer.process_statement(
        &Statement::CreateIndex {
            name: Some("idx_ghost".to_string()),
            table_name: "b".to_string(),
            columns: texts(&["ghost"]),
            unique: false,
        },
        &mut schema,
    );
    analyzer.process_table_constraint(
        &TableConstraint::Unique { name: Some("u_ghost".to_string()), columns: texts(&["ghost"]), is_primary: false },
        "b",
        &mut schema,
    );
    let before = snapshot(&schema);
    alter(
        &mut schema,
        "b",
        vec![
            rename("ghost", "spirit"),
            AlterTableOperation::DropColumn { column_name: "ghost".to_string() },
            AlterTableOperation::AlterColumn { column_name: "ghost".to_string(), op: AlterColumnOperation::SetNotNull },
        ],
    );
    assert_eq!(snapshot(&schema), before);
    assert_eq!(schema.indexes.last().unwrap().columns, texts(&["ghost"]));
}

#[test]
fn add_constraint_through_alter() {
    let mut schema = base();
    alter(
        &mut schema,
        "c",
        vec![AlterTableOperation::AddConstraint(TableConstraint::Unique {
            name: None,
            columns: texts(&["a_id", "b_a_id"]),
            is_primary: true,
        })],
    );
    assert_eq!(schema.constraints.last().unwrap().name, "unnamed_pk");
    let cols = schema.columns.get("c").unwrap();
    assert!(cols[0].is_primary_key && cols[1].is_primary_key);
}

#[test]
fn drop_column_takes_what_names_it() {
    let mut schema = base();
    alter(&mut schema, "b", vec![AlterTableOperation::DropColumn { column_name: "a_id".to_string() }]);
    let cols: Vec<&str> = schema.columns.get("b").unwrap().iter().map(|c| c.name.as_str()).collect();
    assert_eq!(cols, vec!["id", "n"]);
    let constraints: Vec<&str> = schema.constraints.iter().map(|c| c.name.as_str()).collect();
    assert_eq!(constraints, vec!["pk_b", "fk_c_b", "fk_c_a"]);
    let relationships: Vec<(&str, &str)> =
        schema.relationships.iter().map(|r| (r.from_table.as_str(), r.from_column.as_str())).collect();
    assert_eq!(relationships, vec![("c", "a_id")]);
    let indexes: Vec<&str> = schema.indexes.iter().map(|i| i.name.as_str()).collect();
    assert_eq!(indexes, vec!["idx_c"]);
    assert_eq!(schema.columns.get("c").unwrap().len(), 2);
    assert_eq!(schema.tables.len(), 3);
}

#[test]
fn drop_column_takes_every_column_of_the_name() {
    let mut schema = base();
    alter(
        &mut schema,
        "a",
        vec![
            AlterTableOperation::AddColumn { column_def: col("x", vec![]) },
            AlterTableOperation::AddColumn { column_def: col("y", vec![]) },
            AlterTableOperation::AddColumn { column_def: col("x", vec![]) },
            AlterTableOperation::DropColumn { column_name: "x".to_string() },
        ],
    );
    let cols: Vec<&str> = schema.columns.get("a").unwrap().iter().map(|c| c.name.as_str()).collect();
    assert_eq!(cols, vec!["id", "y"]);
}

#[test]
fn rename_propagation() {
    let mut schema = base();
    alter(&mut schema, "b", vec![rename("a_id", "parent_id")]);
    let cols = schema.columns.get("b").unwrap();
    assert_eq!(cols[1].name, "parent_id");
    assert!(cols[1].is_foreign_key);
    assert_eq!(cols[1].references, Some("a.id".to_string()));
    assert!(!cols[1].nullable);
    assert!(cols.iter().all(|c| c.name != "a_id"));
    for c in schema.constraints.iter().filter(|c| c.table == "b") {
        assert!(!c.columns.contains(&"a_id".to_string()));
    }
    assert_eq!(schema.constraints[1].columns, texts(&["parent_id"]));
    assert_eq!(schema.constraints[2].columns, texts(&["parent_id", "n"]));
    assert_eq!(schema.relationships[0].from_column, "parent_id");
    assert_eq!(schema.relationships[1].to_column, "parent_id");
    assert_eq!(schema.relationships[1].from_column, "b_a_id");
    assert_eq!(schema.relationships[2].from_column, "a_id");
    assert!(schema
        .relationships
        .iter()
        .all(|r| !(r.from_table == "b" && r.from_column == "a_id") && !(r.to_table == "b" && r.to_column == "a_id")));
    assert_eq!(schema.indexes[0].columns, texts(&["n", "parent_id"]));
    assert_eq!(schema.indexes[1].columns, texts(&["a_id"]));
    assert_eq!(schema.columns.get("c").unwrap()[0].name, "a_id");
    assert_eq!(schema.constraints[4].columns, texts(&["a_id"]));
    assert_eq!(schema.constraints[3].reference_columns, Some(texts(&["a_id"])));
}

#[test]
fn rename_changes_the_first_column_of_the_name_only() {
    let mut schema = base();
    alter(
        &mut schema,
        "a",
        vec![
            AlterTableOperation::AddColumn { column_def: col("x", vec![]) },
            AlterTableOperation::AddColumn { column_def: col("x", vec![]) },
            rename("x", "y"),
        ],
    );
    let cols: Vec<&str> = schema.columns.get("a").unwrap().iter().map(|c| c.name.as_str()).collect();
    assert_eq!(cols, vec!["id", "y", "x"]);
}

#[test]
fn alter_column_changes_nullability_and_default() {
    let mut schema = base();
    let change = |op: AlterColumnOperation| AlterTableOperation::AlterColumn { column_name: "n".to_string(), op };
    alter(&mut schema, "b", vec![change(AlterColumnOperation::SetNotNull)]);
    assert!(!schema.columns.get("b").unwrap()[2].nullable);
    alter(&mut schema, "b", vec![change(AlterColumnOperation::SetDefault { value: "7".to_string() })]);
    assert_eq!(schema.columns.get("b").unwrap()[2].default_value, Some("7".to_string()));
    alter(&mut schema, "b", vec![change(AlterColumnOperation::Other)]);
    assert_eq!(schema.columns.get("b").unwrap()[2].default_value, Some("7".to_string()));
    assert!(!schema.columns.get("b").unwrap()[2].nullable);
    alter(
        &mut schema,
        "b",
        vec![change(AlterColumnOperation::DropNotNull), change(AlterColumnOperation::DropDefault)],
    );
    assert!(schema.columns.get("b").unwrap()[2].nullable);
    assert_eq!(schema.columns.get("b").unwrap()[2].default_value, None);
    assert_eq!(schema.columns.get("b").unwrap()[1], base().columns.get("b").unwrap()[1]);
}

#[test]
fn drop_constraint_resets_the_flags_it_gave() {
    let mut schema = base();
    alter(&mut schema, "b", vec![AlterTableOperation::DropConstraint { name: "fk_b_a".to_string() }]);
    let names: Vec<&str> = schema.constraints.iter().map(|c| c.name.as_str()).collect();
    assert_eq!(names, vec!["pk_b", "u_b", "fk_c_b", "fk_c_a"]);
    let cols = schema.columns.get("b").unwrap();
    assert!(!cols[1].is_foreign_key);
    assert_eq!(cols[1].references, None);
    assert!(cols[0].is_primary_key);
    assert_eq!(schema.relationships.len(), 3);
    alter(&mut schema, "b", vec![AlterTableOperation::DropConstraint { name: "pk_b".to_string() }]);
    assert!(!schema.columns.get("b").unwrap()[0].is_primary_key);
}

#[test]
fn drop_constraint_keeps_flags_that_another_key_gives() {
    let mut schema = base();
    alter(
        &mut schema,
        "b",
        vec![
            AlterTableOperation::AddConstraint(foreign_key("fk_again", &["a_id"], "a", &["id"], Some("CASCADE"))),
            AlterTableOperation::AddConstraint(TableConstraint::Unique {
                name: Some("pk_again".to_string()),
                columns: texts(&["id"]),
                is_primary: true,
            }),
            AlterTableOperation::DropConstraint { name: "fk_b_a".to_string() },
            AlterTableOperation::DropConstraint { name: "pk_b".to_string() },
        ],
    );
    let cols = schema.columns.get("b").unwrap();
    assert!(cols[1].is_foreign_key);
    assert_eq!(cols[1].references, Some("a.id".to_string()));
    assert!(cols[0].is_primary_key);
}

#[test]
fn drop_constraint_matches_table_and_name() {
    let mut schema = base();
    alter(&mut schema, "c", vec![AlterTableOperation::DropConstraint { name: "fk_b_a".to_string() }]);
    assert_eq!(schema.constraints.len(), 5);
    alter(&mut schema, "b", vec![AlterTableOperation::DropConstraint { name: "missing".to_string() }]);
    assert_eq!(schema.constraints.len(), 5);
    assert!(schema.columns.get("b").unwrap()[1].is_foreign_key);
}

#[test]
fn drop_constraint_takes_a_primary_key_flag_that_no_constraint_gives() {
    let mut schema = base();
    assert!(schema.columns.get("a").unwrap()[0].is_primary_key);
    alter(&mut schema, "a", vec![AlterTableOperation::DropConstraint { name: "anything".to_string() }]);
    assert!(!schema.columns.get("a").unwrap()[0].is_primary_key);
}

#[test]
fn apply_alter_operation_applies_one() {
    let mut schema = base();
    SQLAnalyzer::new().apply_alter_operation("b", &rename("n", "m"), &mut schema);
    assert_eq!(schema.columns.get("b").unwrap()[2].name, "m");
    assert_eq!(schema.indexes[0].columns, texts(&["m", "a_id"]));
}
