use bear_query::query::{NotesQuery, Queryable, SearchQuery};
use bear_query::schema::{discover_metadata, generate_normalizing_cte, TableInfo};
use bear_query::table::{rows_to_table, ColumnData, ColumnValue, Table};
use rusqlite::types::ValueRef;
use rusqlite::Connection;
use std::collections::BTreeSet;

const SCHEMA: &str = r"
  CREATE TABLE ZSFNOTE (
    Z_PK INTEGER PRIMARY KEY,
    ZUNIQUEIDENTIFIER TEXT,
    ZTITLE TEXT,
    ZTEXT TEXT,
    ZMODIFICATIONDATE REAL,
    ZCREATIONDATE REAL,
    ZPINNED INTEGER,
    ZTRASHED INTEGER,
    ZARCHIVED INTEGER
  );
  CREATE TABLE ZSFNOTETAG (
    Z_PK INTEGER PRIMARY KEY,
    ZTITLE TEXT,
    ZMODIFICATIONDATE REAL
  );
  CREATE TABLE ZSFNOTEBACKLINK (
    ZLINKEDBY INTEGER,
    ZLINKINGTO INTEGER
  );
  INSERT INTO ZSFNOTE (Z_PK, ZUNIQUEIDENTIFIER, ZTITLE, ZTEXT, ZMODIFICATIONDATE, ZCREATIONDATE, ZPINNED, ZTRASHED, ZARCHIVED)
  VALUES
    (1, 'note-uuid-1', 'First Note', 'Content of first note', 0, 0, 0, 0, 0),
    (2, 'note-uuid-2', 'Second Note', 'Content of second note', 31536000, 31536000, 1, 0, 0),
    (3, 'note-uuid-3', 'Trashed Note', 'This is trashed', 0, 0, 0, 1, 0);
  INSERT INTO ZSFNOTETAG (Z_PK, ZTITLE, ZMODIFICATIONDATE)
  VALUES (1, 'work', 0), (2, 'personal', 0);
  INSERT INTO ZSFNOTEBACKLINK (ZLINKEDBY, ZLINKINGTO) VALUES (1, 2);
";

fn create_db(junction: &str, notes_col: &str, tags_col: &str, pairs: &[(i64, i64)]) -> Connection {
    let conn = Connection::open_in_memory().unwrap();
    conn.execute_batch(SCHEMA).unwrap();
    conn.execute_batch(&format!("CREATE TABLE {} ({} INTEGER, {} INTEGER);", junction, notes_col, tags_col))
        .unwrap();
    for (n, t) in pairs {
        conn.execute(&format!("INSERT INTO {} ({}, {}) VALUES (?1, ?2)", junction, notes_col, tags_col), [n, t])
            .unwrap();
    }
    conn
}

fn create_test_db() -> Connection {
    create_db("Z_5TAGS", "Z_5NOTES", "Z_13TAGS", &[(1, 1), (2, 2)])
}

fn catalog(conn: &Connection) -> Vec<TableInfo> {
    let mut stmt = conn.prepare("SELECT name FROM sqlite_master WHERE type = 'table' ORDER BY rowid").unwrap();
    let names: Vec<String> = stmt.query_map([], |row| row.get(0)).unwrap().map(|r| r.unwrap()).collect();
    names
        .into_iter()
        .map(|name| {
            let mut info = conn.prepare(&format!("PRAGMA table_info({})", name)).unwrap();
            let columns: Vec<String> =
                info.query_map([], |row| row.get::<_, String>("name")).unwrap().map(|r| r.unwrap()).collect();
            TableInfo { name, columns }
        })
        .collect()
}

fn cte_for(conn: &Connection) -> String {
    generate_normalizing_cte(&discover_metadata(&catalog(conn)).unwrap())
}

fn cell(value: ValueRef<'_>) -> ColumnValue {
    match value {
        ValueRef::Null => ColumnValue::Null,
        ValueRef::Integer(i) => ColumnValue::Integer(i),
        ValueRef::Real(f) => ColumnValue::Real(f.to_bits()),
        ValueRef::Text(s) => ColumnValue::Text(String::from_utf8_lossy(s).to_string()),
        ValueRef::Blob(b) => ColumnValue::Blob(b.to_vec()),
    }
}

fn run(conn: &Connection, cte: &str, sql: &str, params: &[String]) -> Table {
    let queryable = Queryable::new(cte);
    let mut stmt = conn.prepare(&queryable.prepare(sql)).unwrap();
    let names: Vec<String> = stmt.column_names().into_iter().map(|s| s.to_string()).collect();
    let width = names.len();
    let rows: Vec<Vec<ColumnValue>> = stmt
        .query_map(rusqlite::params_from_iter(params.iter()), |row| {
            Ok((0..width).map(|i| cell(row.get_ref(i).unwrap())).collect())
        })
        .unwrap()
        .map(|r| r.unwrap())
        .collect();
    rows_to_table(names, rows).unwrap()
}

fn query_to_table(conn: &Connection, sql: &str) -> Table {
    run(conn, &cte_for(conn), sql, &[])
}

fn text_column(table: &Table, name: &str) -> Vec<Option<String>> {
    let column = table.column(name).unwrap();
    match &column.data {
        ColumnData::Text(values) => values.clone(),
        other => panic!("expected a text column, got {:?}", other),
    }
}

fn int_pairs(table: &Table) -> BTreeSet<(i64, i64)> {
    let columns = table.columns();
    match (&columns[0].data, &columns[1].data) {
        (ColumnData::Int(a), ColumnData::Int(b)) => a.iter().zip(b).map(|(x, y)| (x.unwrap(), y.unwrap())).collect(),
        other => panic!("expected integer columns, got {:?}", other),
    }
}

#[test]
fn test_simple_query() {
    let conn = create_test_db();
    let table = query_to_table(&conn, "SELECT id, title FROM notes");
    assert_eq!(table.height(), 3);
    assert_eq!(table.width(), 2);
    let columns = table.columns();
    assert_eq!(columns.len(), 2);
    assert_eq!(columns[0].name, "id");
    assert_eq!(columns[1].name, "title");
}

#[test]
fn test_filtered_query() {
    let conn = create_test_db();
    let table = query_to_table(&conn, "SELECT title FROM notes WHERE is_trashed = 0");
    assert_eq!(table.height(), 2);
}

#[test]
fn test_join_query() {
    let conn = create_test_db();
    let table = query_to_table(
        &conn,
        r"
      SELECT n.title, t.name as tag_name
      FROM notes n
      JOIN note_tags nt ON n.id = nt.note_id
      JOIN tags t ON nt.tag_id = t.id
    ",
    );
    assert_eq!(table.height(), 2);
    assert_eq!(table.width(), 2);
}

#[test]
fn test_empty_result() {
    let conn = create_test_db();
    let table = query_to_table(&conn, "SELECT * FROM notes WHERE id = 999");
    assert_eq!(table.height(), 0);
    assert_eq!(table.width(), 9);
}

#[test]
fn test_aggregation() {
    let conn = create_test_db();
    let table = query_to_table(&conn, "SELECT COUNT(*) as count FROM notes");
    assert_eq!(table.height(), 1);
    assert_eq!(table.width(), 1);
    match &table.columns()[0].data {
        ColumnData::Int(values) => assert_eq!(values, &vec![Some(3)]),
        other => panic!("expected an integer column, got {:?}", other),
    }
}

#[test]
fn test_timestamp_conversion() {
    let conn = create_test_db();
    let table = query_to_table(&conn, "SELECT modified FROM notes WHERE id = 1");
    assert_eq!(table.height(), 1);
    let value = text_column(&table, "modified")[0].clone().unwrap();
    assert!(value.starts_with("2001-01-01"), "Expected timestamp to start with 2001-01-01, got: {}", value);
}

#[test]
fn test_null_values() {
    let conn = create_test_db();
    conn.execute(
        "INSERT INTO ZSFNOTE (Z_PK, ZUNIQUEIDENTIFIER, ZTITLE, ZTEXT, ZMODIFICATIONDATE, ZCREATIONDATE, ZPINNED, ZTRASHED, ZARCHIVED)
       VALUES (4, 'note-uuid-4', NULL, 'Content', 0, 0, 0, 0, 0)",
        [],
    )
    .unwrap();
    let table = query_to_table(&conn, "SELECT id, title FROM notes WHERE id = 4");
    assert_eq!(table.height(), 1);
    assert_eq!(text_column(&table, "title"), vec![None]);
}

#[test]
fn first_note_title_is_the_only_untrashed_match() {
    let conn = create_test_db();
    let table = query_to_table(&conn, "SELECT title FROM notes WHERE is_trashed = 0 AND id = 1");
    assert_eq!(table.width(), 1);
    assert_eq!(table.height(), 1);
    assert_eq!(text_column(&table, "title"), vec![Some("First Note".to_string())]);
}

#[test]
fn junction_pairs_read_back_through_note_tags_for_any_version() {
    let pairs = [(1, 2), (2, 1), (3, 2)];
    let expected: BTreeSet<(i64, i64)> = pairs.iter().copied().collect();
    for (junction, notes_col, tags_col) in
        [("Z_5TAGS", "Z_5NOTES", "Z_13TAGS"), ("Z_7TAGS", "Z_7NOTES", "Z_15TAGS"), ("Z_12TAGS", "Z_12NOTES", "Z_130TAGS")]
    {
        let conn = create_db(junction, notes_col, tags_col, &pairs);
        let table = query_to_table(&conn, "SELECT note_id, tag_id FROM note_tags");
        assert_eq!(int_pairs(&table), expected);
    }
}

#[test]
fn typed_statements_run_against_the_normalized_surface() {
    let conn = create_test_db();
    let cte = cte_for(&conn);
    let notes = NotesQuery::new().to_statement();
    assert_eq!(run(&conn, &cte, &notes.sql, &notes.params).height(), 2);
    let all = NotesQuery::new().include_all().no_limit().to_statement();
    assert_eq!(run(&conn, &cte, &all.sql, &all.params).height(), 3);
    let search = SearchQuery::new("FIRST").to_statement().unwrap();
    assert_eq!(run(&conn, &cte, &search.sql, &search.params).height(), 1);
    let exact = SearchQuery::new("FIRST").case_sensitive().to_statement().unwrap();
    assert_eq!(run(&conn, &cte, &exact.sql, &exact.params).height(), 0);
}

#[test]
fn single_untrashed_note_gives_a_one_by_one_table() {
    let conn = Connection::open_in_memory().unwrap();
    conn.execute_batch(
        r"
      CREATE TABLE ZSFNOTE (
        Z_PK INTEGER PRIMARY KEY, ZUNIQUEIDENTIFIER TEXT, ZTITLE TEXT, ZTEXT TEXT,
        ZMODIFICATIONDATE REAL, ZCREATIONDATE REAL, ZPINNED INTEGER, ZTRASHED INTEGER, ZARCHIVED INTEGER
      );
      CREATE TABLE ZSFNOTETAG (Z_PK INTEGER PRIMARY KEY, ZTITLE TEXT, ZMODIFICATIONDATE REAL);
      CREATE TABLE Z_5TAGS (Z_5NOTES INTEGER, Z_13TAGS INTEGER);
      CREATE TABLE ZSFNOTEBACKLINK (ZLINKEDBY INTEGER, ZLINKINGTO INTEGER);
      INSERT INTO ZSFNOTE (Z_PK, ZUNIQUEIDENTIFIER, ZTITLE, ZTEXT, ZMODIFICATIONDATE, ZCREATIONDATE, ZPINNED, ZTRASHED, ZARCHIVED)
      VALUES (1, 'note-uuid-1', 'First Note', 'Content', 0, 0, 0, 0, 0);
    ",
    )
    .unwrap();
    let table = query_to_table(&conn, "SELECT title FROM notes WHERE is_trashed = 0");
    assert_eq!(table.width(), 1);
    assert_eq!(table.height(), 1);
    assert_eq!(text_column(&table, "title"), vec![Some("First Note".to_string())]);
}

#[test]
fn a_database_without_junction_table_is_not_discovered() {
    let conn = Connection::open_in_memory().unwrap();
    conn.execute_batch(SCHEMA).unwrap();
    assert_eq!(
        discover_metadata(&catalog(&conn)).unwrap_err(),
        bear_query::SchemaDiscoveryError::NoJunctionTable
    );
}
