use rusqlite::Connection;
use sqlite_cli::{
    count_string, create_exec, create_table, create_table_statement, decimal_string,
    delete_statement, display_rows, drop_table, drop_table_statement, format_row, insert_exec,
    insert_statement, is_valid_table_name, load_data_from_csv, parse_i64_text,
    people_from_records, query_exec, read_exec, record_with_defaults, select_all_statement,
    update_exec, update_statement, CliError, Person, SqlParam, UpdateFields, MAX_DISPLAY_ROWS,
};

fn person(id: i64, name: &str, gender: &str, city: &str) -> Person {
    Person {
        id,
        name: name.to_string(),
        gender: gender.to_string(),
        city: city.to_string(),
    }
}

fn row_of(conn: &Connection, id: i64) -> Vec<(i64, String, String, String)> {
    let mut stmt = conn
        .prepare("SELECT id, name, gender, city FROM people WHERE id = ?1")
        .unwrap();
    let rows = stmt
        .query_map([id], |row| Ok((row.get(0)?, row.get(1)?, row.get(2)?, row.get(3)?)))
        .unwrap();
    rows.filter_map(Result::ok).collect()
}

fn count_rows(conn: &Connection) -> i64 {
    conn.query_row("SELECT COUNT(*) FROM people", [], |row| row.get(0))
        .unwrap()
}

fn fresh() -> Connection {
    let conn = Connection::open_in_memory().unwrap();
    create_table(&conn, "people").unwrap();
    conn
}

fn strings(v: &[&str]) -> Vec<String> {
    v.iter().map(|s| s.to_string()).collect()
}

#[test]
fn parse_accepts_signs_and_digits() {
    assert_eq!(parse_i64_text("42"), Some(42));
    assert_eq!(parse_i64_text("-42"), Some(-42));
    assert_eq!(parse_i64_text("+7"), Some(7));
    assert_eq!(parse_i64_text("007"), Some(7));
    assert_eq!(parse_i64_text("9223372036854775807"), Some(i64::MAX));
    assert_eq!(parse_i64_text("-9223372036854775808"), Some(i64::MIN));
}

#[test]
fn parse_refuses_other_text() {
    assert_eq!(parse_i64_text(""), None);
    assert_eq!(parse_i64_text("-"), None);
    assert_eq!(parse_i64_text("12a"), None);
    assert_eq!(parse_i64_text(" 1"), None);
    assert_eq!(parse_i64_text("1.5"), None);
    assert_eq!(parse_i64_text("9223372036854775808"), None);
    assert_eq!(parse_i64_text("-9223372036854775809"), None);
    assert_eq!(parse_i64_text("99999999999999999999999"), None);
}

#[test]
fn decimal_text_of_integers() {
    assert_eq!(decimal_string(0), "0");
    assert_eq!(decimal_string(-120), "-120");
    assert_eq!(decimal_string(i64::MIN), "-9223372036854775808");
    assert_eq!(decimal_string(i64::MAX), "9223372036854775807");
    assert_eq!(count_string(1005), "1005");
}

#[test]
fn table_names_are_checked() {
    assert!(is_valid_table_name("test_table"));
    assert!(is_valid_table_name("_t2"));
    assert!(!is_valid_table_name(""));
    assert!(!is_valid_table_name("2t"));
    assert!(!is_valid_table_name("t; DROP TABLE x"));
    let conn = Connection::open_in_memory().unwrap();
    assert!(matches!(
        create_table(&conn, "people; DROP TABLE x"),
        Err(CliError::InvalidTableName)
    ));
    assert!(matches!(drop_table(&conn, "a b"), Err(CliError::InvalidTableName)));
    assert!(matches!(
        read_exec(&conn, "x--"),
        Err(CliError::InvalidTableName)
    ));
    assert!(matches!(
        update_exec(&conn, "", 1, Some("Ann"), None, None),
        Err(CliError::InvalidTableName)
    ));
}

#[test]
fn statement_texts() {
    let c = create_table_statement("people");
    assert_eq!(
        c.sql,
        "CREATE TABLE IF NOT EXISTS people (id INTEGER PRIMARY KEY, name TEXT NOT NULL, gender TEXT NOT NULL, city TEXT NOT NULL)"
    );
    assert!(c.params.is_empty());
    assert_eq!(drop_table_statement("people").sql, "DROP TABLE IF EXISTS people");
    assert_eq!(select_all_statement("people").sql, "SELECT * FROM people");
    let i = insert_statement("people", 3, "Ann", "female", "Oslo");
    assert_eq!(
        i.sql,
        "INSERT INTO people (id, name, gender, city) VALUES (?, ?, ?, ?)"
    );
    assert_eq!(
        i.params,
        vec![
            SqlParam::Integer(3),
            SqlParam::Text("Ann".to_string()),
            SqlParam::Text("female".to_string()),
            SqlParam::Text("Oslo".to_string()),
        ]
    );
    let d = delete_statement("people", 9);
    assert_eq!(d.sql, "DELETE FROM people WHERE id = ?");
    assert_eq!(d.params, vec![SqlParam::Integer(9)]);
}

#[test]
fn update_statement_lists_only_supplied_fields() {
    let f = UpdateFields {
        new_name: Some("Doe"),
        new_gender: None,
        new_city: Some("San Francisco"),
    };
    let s = update_statement("people", 4, &f).unwrap();
    assert_eq!(s.sql, "UPDATE people SET name = ?, city = ? WHERE id = ?");
    assert_eq!(
        s.params,
        vec![
            SqlParam::Text("Doe".to_string()),
            SqlParam::Text("San Francisco".to_string()),
            SqlParam::Integer(4),
        ]
    );
    let g = UpdateFields {
        new_name: None,
        new_gender: Some("male"),
        new_city: None,
    };
    let s = update_statement("people", 5, &g).unwrap();
    assert_eq!(s.sql, "UPDATE people SET gender = ? WHERE id = ?");
    let none = UpdateFields {
        new_name: None,
        new_gender: None,
        new_city: None,
    };
    assert!(update_statement("people", 5, &none).is_none());
}

#[test]
fn partial_update_keeps_other_fields() {
    let conn = fresh();
    insert_exec(&conn, "people", 1, "Ann", "female", "Oslo").unwrap();
    assert_eq!(
        update_exec(&conn, "people", 1, None, None, Some("Bergen")).unwrap(),
        1
    );
    assert_eq!(
        row_of(&conn, 1),
        vec![(1, "Ann".to_string(), "female".to_string(), "Bergen".to_string())]
    );
}

#[test]
fn update_with_no_fields_changes_nothing() {
    let conn = fresh();
    insert_exec(&conn, "people", 1, "Ann", "female", "Oslo").unwrap();
    assert_eq!(update_exec(&conn, "people", 1, None, None, None).unwrap(), 0);
    assert_eq!(
        row_of(&conn, 1),
        vec![(1, "Ann".to_string(), "female".to_string(), "Oslo".to_string())]
    );
}

#[test]
fn update_with_no_fields_needs_no_valid_name() {
    let conn = Connection::open_in_memory().unwrap();
    assert_eq!(update_exec(&conn, "", 1, None, None, None).unwrap(), 0);
    assert_eq!(update_exec(&conn, "no such; table", 1, None, None, None).unwrap(), 0);
}

#[test]
fn insert_then_read_by_id() {
    let conn = fresh();
    insert_exec(&conn, "people", 7, "Kim", "female", "Lyon").unwrap();
    assert_eq!(
        row_of(&conn, 7),
        vec![(7, "Kim".to_string(), "female".to_string(), "Lyon".to_string())]
    );
}

#[test]
fn delete_then_read_finds_nothing() {
    let conn = fresh();
    insert_exec(&conn, "people", 7, "Kim", "female", "Lyon").unwrap();
    sqlite_cli::delete_exec(&conn, "people", 7).unwrap();
    assert!(row_of(&conn, 7).is_empty());
}

#[test]
fn create_and_drop_twice_are_no_errors() {
    let conn = Connection::open_in_memory().unwrap();
    assert!(create_table(&conn, "people").is_ok());
    assert!(create_table(&conn, "people").is_ok());
    assert!(drop_table(&conn, "people").is_ok());
    assert!(drop_table(&conn, "people").is_ok());
}

#[test]
fn duplicate_id_is_a_database_error() {
    let conn = fresh();
    insert_exec(&conn, "people", 1, "Ann", "female", "Oslo").unwrap();
    assert!(matches!(
        insert_exec(&conn, "people", 1, "Bo", "male", "Rome"),
        Err(CliError::Database(_))
    ));
}

#[test]
fn missing_table_is_a_database_error() {
    let conn = Connection::open_in_memory().unwrap();
    assert!(matches!(read_exec(&conn, "nowhere"), Err(CliError::Database(_))));
}

#[test]
fn create_exec_fills_unknown() {
    let p = record_with_defaults(3, Some("Ann"), None, None);
    assert_eq!(p, person(3, "Ann", "Unknown", "Unknown"));
    let conn = fresh();
    create_exec(&conn, "people", 2, None, Some("male"), None).unwrap();
    assert_eq!(
        row_of(&conn, 2),
        vec![(2, "Unknown".to_string(), "male".to_string(), "Unknown".to_string())]
    );
}

#[test]
fn row_line_format() {
    assert_eq!(
        format_row(&person(-3, "Jo", "male", "New York")),
        "ID: -3, Name: Jo, Gender: male, City: New York"
    );
}

#[test]
fn display_of_ten_rows_shows_all() {
    let rows: Vec<Person> = (1..=10).map(|i| person(i, "P", "x", "C")).collect();
    let lines = display_rows(&rows);
    assert_eq!(lines.len(), 10);
    assert_eq!(lines[9], "ID: 10, Name: P, Gender: x, City: C");
    assert!(display_rows(&Vec::new()).is_empty());
}

#[test]
fn display_of_more_rows_is_truncated() {
    let rows: Vec<Person> = (1..=12).map(|i| person(i, "P", "x", "C")).collect();
    let lines = display_rows(&rows);
    assert_eq!(lines.len(), MAX_DISPLAY_ROWS + 2);
    assert_eq!(lines[0], "ID: 1, Name: P, Gender: x, City: C");
    assert_eq!(lines[9], "ID: 10, Name: P, Gender: x, City: C");
    assert_eq!(lines[10], "...");
    assert_eq!(lines[11], "and 2 more rows not shown");
}

#[test]
fn read_and_query_show_rows() {
    let conn = fresh();
    for i in 1..=11 {
        insert_exec(&conn, "people", i, "P", "x", "C").unwrap();
    }
    let lines = read_exec(&conn, "people").unwrap();
    assert_eq!(lines.len(), 12);
    assert_eq!(lines[11], "and 1 more rows not shown");
    let lines = query_exec(&conn, "SELECT id, name, gender, city FROM people WHERE id > 9").unwrap();
    assert_eq!(
        lines,
        strings(&[
            "ID: 10, Name: P, Gender: x, City: C",
            "ID: 11, Name: P, Gender: x, City: C",
        ])
    );
}

#[test]
fn records_become_people() {
    let recs = vec![
        strings(&["1", "Alice", "female", "New York"]),
        strings(&["-2", "Bob", "male", "Boston"]),
    ];
    let people = people_from_records(&recs).unwrap();
    assert_eq!(
        people,
        vec![
            person(1, "Alice", "female", "New York"),
            person(-2, "Bob", "male", "Boston"),
        ]
    );
    assert!(people_from_records(&Vec::new()).unwrap().is_empty());
}

#[test]
fn records_errors_name_the_first_bad_row() {
    let recs = vec![
        strings(&["1", "Alice", "female", "New York"]),
        strings(&["x", "Bob", "male", "Boston"]),
        strings(&["3", "Cy"]),
    ];
    assert!(matches!(
        people_from_records(&recs),
        Err(CliError::InvalidId { row: 2 })
    ));
    let recs = vec![strings(&["1", "Alice", "female"])];
    assert!(matches!(
        people_from_records(&recs),
        Err(CliError::FieldCount { row: 1, found: 3 })
    ));
}

#[test]
fn csv_load_counts_rows_and_keeps_the_last_line() {
    let conn = fresh();
    let n = load_data_from_csv(&conn, "people", "id,name,gender,city\n5,Eve,female,Paris\n6,Finn,male,Cork\n").unwrap();
    assert_eq!(n, 2);
    assert_eq!(count_rows(&conn), 2);
    assert_eq!(
        row_of(&conn, 6),
        vec![(6, "Finn".to_string(), "male".to_string(), "Cork".to_string())]
    );
}

#[test]
fn csv_header_only_loads_nothing() {
    let conn = fresh();
    assert_eq!(load_data_from_csv(&conn, "people", "id,name,gender,city\n").unwrap(), 0);
    assert_eq!(count_rows(&conn), 0);
}

#[test]
fn csv_ragged_row_is_a_csv_error() {
    let conn = fresh();
    let r = load_data_from_csv(&conn, "people", "id,name,gender,city\n1,Ann,female\n");
    assert!(matches!(r, Err(CliError::Csv(_))));
    assert_eq!(count_rows(&conn), 0);
}

#[test]
fn csv_bad_id_stops_before_any_insert() {
    let conn = fresh();
    let r = load_data_from_csv(
        &conn,
        "people",
        "id,name,gender,city\n1,Ann,female,Oslo\none,Bo,male,Rome\n",
    );
    assert!(matches!(r, Err(CliError::InvalidId { row: 2 })));
    assert_eq!(count_rows(&conn), 0);
}

#[test]
fn csv_three_columns_everywhere_is_a_field_count_error() {
    let conn = fresh();
    let r = load_data_from_csv(&conn, "people", "name,gender,city\nAnn,female,Oslo\n");
    assert!(matches!(r, Err(CliError::FieldCount { row: 1, found: 3 })));
}
