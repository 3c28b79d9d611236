use sqlite::Connection;
use sqlite_cleaner::database::{
    clean_tables, cleaning_commands, execute_sql, get_all_tables, maintenance_commands,
    open_connection, process_db_cleaning, table_names, Database,
};
use std::path::Path;

/// Brings the database file at `db_name` to a known state: present on disk
/// and without the tables that the tests create.
fn setup(db_name: &str) {
    let conn = Connection::open(db_name).unwrap();
    conn.execute("DROP TABLE IF EXISTS users; DROP TABLE IF EXISTS posts; PRAGMA user_version = 1;")
        .unwrap();
}

/// Drops what the tests may have left in the database file at `db_name`.
fn teardown(db_name: &str) {
    let conn = Connection::open(db_name).unwrap();
    conn.execute("DROP TABLE IF EXISTS users; DROP TABLE IF EXISTS posts; VACUUM;")
        .unwrap();
}

fn create_table(db: &mut Database, table_name: &str) {
    if let Err(e) = execute_sql(db, &format!(
        "CREATE TABLE {table_name} (id INTEGER PRIMARY KEY, name TEXT);"
    )) {
        println!("Error: {e:?}");
    }
}

fn drop_table(db: &mut Database, table_name: &str) {
    if let Err(e) = execute_sql(db, &format!("DROP TABLE IF EXISTS {table_name};")) {
        println!("Error: {e:?}");
    }
}

#[test]
fn tests_test_get_all_tables() {
    const DB_PATH: &str = "/tmp/get_all_tables.db";
    setup(DB_PATH);
    let mut db: Database = open_connection(DB_PATH).unwrap();
    let tables: Vec<String> = get_all_tables(&mut db).unwrap();
    assert_eq!(tables.len(), 0);

    create_table(&mut db, "users");
    create_table(&mut db, "posts");

    let tables: Vec<String> = get_all_tables(&mut db).unwrap();
    assert_eq!(tables.len(), 2);

    assert!(tables.contains(&"users".to_string()));
    assert!(tables.contains(&"posts".to_string()));

    drop_table(&mut db, "users");
    drop_table(&mut db, "posts");

    let tables: Vec<String> = get_all_tables(&mut db).unwrap();
    assert_eq!(tables.len(), 0);

    teardown(DB_PATH);
}

#[test]
fn test_test_get_all_tables() {
    const DB_PATH: &str = "/tmp/for_test_get_all_tables.db";
    setup(DB_PATH);
    let mut db: Database = open_connection(DB_PATH).unwrap();
    let tables: Vec<String> = get_all_tables(&mut db).unwrap();
    assert_eq!(tables.len(), 0);

    create_table(&mut db, "users");
    create_table(&mut db, "posts");

    let tables: Vec<String> = get_all_tables(&mut db).unwrap();
    assert_eq!(tables.len(), 2);

    assert!(tables.contains(&"users".to_string()));
    assert!(tables.contains(&"posts".to_string()));

    drop_table(&mut db, "users");
    drop_table(&mut db, "posts");

    let tables: Vec<String> = get_all_tables(&mut db).unwrap();
    assert_eq!(tables.len(), 0);

    teardown(DB_PATH);
}

#[test]
fn tests_test_execute_sql() {
    const DB_PATH: &str = "/tmp/execute_sql.db";
    setup(DB_PATH);
    let mut db: Database = Database::new(Connection::open(DB_PATH).unwrap());

    assert!(Path::new(DB_PATH).exists());

    let sql: &str = "CREATE TABLE users (id INTEGER PRIMARY KEY, name TEXT);";
    execute_sql(&mut db, sql).unwrap();
    let tables: Vec<String> = get_all_tables(&mut db).unwrap();
    assert_eq!(tables.len(), 1);
    assert!(tables.contains(&"users".to_string()));

    let sql: &str = "DROP TABLE IF EXISTS users;";
    execute_sql(&mut db, sql).unwrap();
    let tables: Vec<String> = get_all_tables(&mut db).unwrap();
    assert_eq!(tables.len(), 0);

    teardown(DB_PATH);
}

#[test]
fn test_test_execute_sql() {
    const DB_PATH: &str = "/tmp/for_test_execute_sql.db";
    setup(DB_PATH);
    let mut db: Database = Database::new(Connection::open(DB_PATH).unwrap());

    assert!(Path::new(DB_PATH).exists());

    let sql: &str = "CREATE TABLE users (id INTEGER PRIMARY KEY, name TEXT);";
    execute_sql(&mut db, sql).unwrap();
    let tables: Vec<String> = get_all_tables(&mut db).unwrap();
    assert_eq!(tables.len(), 1);
    assert!(tables.contains(&"users".to_string()));

    let sql: &str = "DROP TABLE IF EXISTS users;";
    execute_sql(&mut db, sql).unwrap();
    let tables: Vec<String> = get_all_tables(&mut db).unwrap();
    assert_eq!(tables.len(), 0);

    teardown(DB_PATH);
}

#[test]
fn execute_sql_reports_an_error_for_bad_sql() {
    let mut db: Database = open_connection(":memory:").unwrap();
    let err = execute_sql(&mut db, "CREATE TABLE;").unwrap_err();
    assert!(err.code.is_some());
    assert!(err.message.is_some());
}

#[test]
fn get_all_tables_skips_sqlite_tables() {
    let mut db: Database = open_connection(":memory:").unwrap();
    execute_sql(&mut db, "CREATE TABLE users (id INTEGER PRIMARY KEY AUTOINCREMENT, name TEXT);")
        .unwrap();
    execute_sql(&mut db, "INSERT INTO users (name) VALUES ('a');").unwrap();
    let tables = get_all_tables(&mut db).unwrap();
    assert_eq!(tables, vec!["users".to_string()]);
}

#[test]
fn table_names_keep_values_in_order_and_skip_nulls() {
    let cells = vec![
        Some("users".to_string()),
        None,
        Some("posts".to_string()),
        None,
    ];
    assert_eq!(table_names(&cells), vec!["users".to_string(), "posts".to_string()]);
    assert!(table_names(&Vec::new()).is_empty());
}

#[test]
fn maintenance_commands_quote_the_table() {
    assert_eq!(
        maintenance_commands("users"),
        vec![
            "VACUUM 'users';".to_string(),
            "REINDEX 'users';".to_string(),
            "ANALYZE 'users';".to_string(),
        ]
    );
}

#[test]
fn cleaning_commands_go_table_by_table() {
    let tables = vec!["a".to_string(), "b".to_string()];
    assert_eq!(
        cleaning_commands(&tables),
        vec![
            "VACUUM 'a';".to_string(),
            "REINDEX 'a';".to_string(),
            "ANALYZE 'a';".to_string(),
            "VACUUM 'b';".to_string(),
            "REINDEX 'b';".to_string(),
            "ANALYZE 'b';".to_string(),
        ]
    );
    assert!(cleaning_commands(&Vec::new()).is_empty());
}

#[test]
fn process_db_cleaning_runs_every_statement() {
    let mut db: Database = open_connection(":memory:").unwrap();
    execute_sql(&mut db, "CREATE TABLE users (id INTEGER PRIMARY KEY, name TEXT);").unwrap();
    execute_sql(&mut db, "CREATE TABLE posts (id INTEGER PRIMARY KEY, body TEXT);").unwrap();
    let report = process_db_cleaning(&mut db).unwrap();
    assert_eq!(report.tables.len(), 2);
    let sql: Vec<String> = report.steps.iter().map(|s| s.sql.clone()).collect();
    assert_eq!(sql, cleaning_commands(&report.tables));
    // ANALYZE of a table succeeds; VACUUM takes a schema name, so a table name fails there.
    assert!(report.steps[2].error.is_none());
    assert!(report.steps[0].error.is_some());
}

#[test]
fn process_db_cleaning_of_an_empty_database_does_nothing() {
    let mut db: Database = open_connection(":memory:").unwrap();
    let report = process_db_cleaning(&mut db).unwrap();
    assert!(report.tables.is_empty());
    assert!(report.steps.is_empty());
}

#[test]
fn clean_tables_sends_every_statement_despite_failures() {
    let mut db: Database = open_connection(":memory:").unwrap();
    execute_sql(&mut db, "CREATE TABLE users (id INTEGER PRIMARY KEY, name TEXT);").unwrap();
    let tables = vec!["users".to_string(), "missing".to_string()];
    let steps = clean_tables(&mut db, &tables);
    let sql: Vec<String> = steps.iter().map(|s| s.sql.clone()).collect();
    assert_eq!(sql, cleaning_commands(&tables));
    // The table that does not exist fails on every statement, and the run goes on.
    assert!(steps[3..].iter().all(|s| s.error.is_some()));
    assert!(steps[2].error.is_none());
}

#[test]
fn open_connection_reports_an_error_for_a_missing_directory() {
    let err = open_connection("/nonexistent-directory/x.db").err().unwrap();
    assert!(err.code.is_some() || err.message.is_some());
}
