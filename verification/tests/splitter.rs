use sql_schema::analyzer::SQLAnalyzer;

fn split(sql: &str) -> Vec<String> {
    SQLAnalyzer::new().split_statements(sql)
}

#[test]
fn splits_at_plain_semicolons() {
    assert_eq!(
        split("CREATE TABLE a (x INT); CREATE TABLE b (y INT);"),
        vec!["CREATE TABLE a (x INT)".to_string(), "CREATE TABLE b (y INT)".to_string()]
    );
}

#[test]
fn last_statement_needs_no_semicolon() {
    assert_eq!(split("a; b"), vec!["a".to_string(), "b".to_string()]);
    assert_eq!(split("only one"), vec!["only one".to_string()]);
}

#[test]
fn empty_statements_are_dropped() {
    assert_eq!(split("  a  ;  ; ;b;;"), vec!["a".to_string(), "b".to_string()]);
    assert_eq!(split(""), Vec::<String>::new());
    assert_eq!(split("  \n\t ; ;"), Vec::<String>::new());
}

#[test]
fn white_space_is_trimmed_at_both_ends() {
    assert_eq!(split("\n  a b \t;"), vec!["a b".to_string()]);
    assert_eq!(split("\u{a0}a\u{2003};"), vec!["a".to_string()]);
    assert_eq!(split("  ; a"), vec!["a".to_string()]);
}

#[test]
fn semicolon_in_single_quotes_does_not_split() {
    let parts = split("INSERT INTO t VALUES ('a;b'); CREATE TABLE b (y INT);");
    assert_eq!(parts.len(), 2);
    assert_eq!(parts[0], "INSERT INTO t VALUES ('a;b')");
    assert_eq!(split("SELECT 'a;b'"), vec!["SELECT 'a;b'".to_string()]);
    assert_eq!(parts[1], "CREATE TABLE b (y INT)");
}

#[test]
fn semicolon_in_backticks_does_not_split() {
    assert_eq!(
        split("SELECT `a;b` FROM t; x"),
        vec!["SELECT `a;b` FROM t".to_string(), "x".to_string()]
    );
}

#[test]
fn splitter_quoting() {
    let parts = split("CREATE TABLE a (x INT); -- ;-- \\\"; CREATE TABLE b (y INT);");
    assert_eq!(
        parts,
        vec![
            "CREATE TABLE a (x INT)".to_string(),
            "--".to_string(),
            "-- \\\"".to_string(),
            "CREATE TABLE b (y INT)".to_string(),
        ]
    );
    let quoted = split("CREATE TABLE a (x INT); SELECT ';-- \\'; '; CREATE TABLE b (y INT);");
    assert_eq!(quoted.len(), 3);
    assert_eq!(quoted[1], "SELECT ';-- '; '");
}

#[test]
fn escaped_semicolon_is_kept_with_its_backslash() {
    assert_eq!(split("a\\;b;c"), vec!["a\\;b".to_string(), "c".to_string()]);
}

#[test]
fn escaped_quote_and_backslash_lose_their_backslash() {
    assert_eq!(split("a\\'b;c"), vec!["a'b".to_string(), "c".to_string()]);
    assert_eq!(split("a\\\\b;c"), vec!["a\\b".to_string(), "c".to_string()]);
}

#[test]
fn other_escaped_characters_keep_their_backslash() {
    assert_eq!(split("a\\nb"), vec!["a\\nb".to_string()]);
    assert_eq!(split("a\\`b;c"), vec!["a\\`b".to_string(), "c".to_string()]);
}

#[test]
fn unbalanced_quote_flushes_the_rest() {
    assert_eq!(split("a 'b; c"), vec!["a 'b; c".to_string()]);
    assert_eq!(split("'"), vec!["'".to_string()]);
    assert_eq!(split("x; `y; z"), vec!["x".to_string(), "`y; z".to_string()]);
}

#[test]
fn single_quote_inside_backticks_is_gathered() {
    assert_eq!(split("`a'b`;c"), vec!["`a'b`".to_string(), "c".to_string()]);
}

#[test]
fn trailing_backslash_is_dropped() {
    assert_eq!(split("a\\"), vec!["a".to_string()]);
}
