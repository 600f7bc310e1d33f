use sql_schema::model::{ColumnInfo, ColumnStore, ParsedSchema};

fn column(name: &str) -> ColumnInfo {
    ColumnInfo {
        name: name.to_string(),
        data_type: "INT(11)".to_string(),
        nullable: true,
        default_value: None,
        is_primary_key: false,
        is_foreign_key: false,
        references: None,
    }
}

#[test]
fn new_schema_is_empty() {
    let schema = ParsedSchema::new();
    assert!(schema.tables.is_empty());
    assert!(schema.relationships.is_empty());
    assert!(schema.indexes.is_empty());
    assert!(schema.constraints.is_empty());
    assert!(schema.columns.table_names().is_empty());
    assert!(schema.columns.get("a").is_none());
}

#[test]
fn store_keeps_one_list_per_name() {
    let mut store = ColumnStore::new();
    assert!(!store.contains("a"));
    store.insert("a".to_string(), vec![column("x")]);
    store.insert("b".to_string(), vec![column("y"), column("z")]);
    assert!(store.contains("a"));
    assert_eq!(store.get("a").unwrap().len(), 1);
    assert_eq!(store.get("b").unwrap()[1].name, "z");
    store.insert("a".to_string(), vec![column("p"), column("q")]);
    assert_eq!(store.get("a").unwrap()[0].name, "p");
    let mut names = store.table_names();
    names.sort();
    assert_eq!(names, vec!["a".to_string(), "b".to_string()]);
}

#[test]
fn store_remove_and_take() {
    let mut store = ColumnStore::new();
    store.insert("a".to_string(), vec![column("x")]);
    store.insert("b".to_string(), vec![column("y")]);
    store.remove("a");
    assert!(store.get("a").is_none());
    assert!(store.contains("b"));
    store.remove("missing");
    assert!(store.contains("b"));
    let taken = store.take("b");
    assert_eq!(taken.unwrap()[0].name, "y");
    assert!(!store.contains("b"));
    assert!(store.take("b").is_none());
}
