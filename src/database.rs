//! The operations on a person table of an open SQLite connection.
//!
//! Each operation checks the table name, builds its statement and runs it;
//! what the database then does is the engine's, so each contract says what
//! holds of every answer it may give.

use vstd::prelude::*;
use vstd::string::StringExecFns;
use crate::error::CliError;
use crate::csv_input::{csv_records_of, read_csv_records};
use crate::person::{
    all_records_ok, display_rows, display_text, is_first_bad, people_from_records, people_view,
    lemma_display_truncates, record_error, shows_first_ten, strings_view, Person, PersonView,
};
use crate::statement::{
    create_table_statement, delete_statement, drop_table_statement, insert_statement,
    is_safe_table_name, is_valid_table_name, select_all_statement, update_columns,
    update_statement, SqlParam, SqlStatement, UpdateFields,
};

verus! {

#[verifier::external_type_specification]
#[verifier::external_body]
pub struct ExConnection(rusqlite::Connection);

#[verifier::external_type_specification]
#[verifier::external_body]
pub struct ExSqlError(rusqlite::Error);

/// Relies on `rusqlite::Connection::execute` with the values bound in order
/// through `rusqlite::params_from_iter`: it runs one statement and returns
/// the number of rows changed, or the database's error.
#[verifier::external_body]
fn run_statement(conn: &rusqlite::Connection, stmt: &SqlStatement) -> (r: Result<
    usize,
    rusqlite::Error,
>) {
    let values = stmt.params.iter().map(
        |p| match p {
            SqlParam::Integer(i) => rusqlite::types::Value::Integer(*i),
            SqlParam::Text(s) => rusqlite::types::Value::Text(s.clone()),
        },
    );
    conn.execute(stmt.sql.as_str(), rusqlite::params_from_iter(values))
}

/// Relies on `rusqlite::Connection::prepare` and `Statement::query_map`: runs
/// a query with no parameters and reads columns 0 to 3 of every row as an
/// integer and three texts, or returns the database's error (also where a
/// row lacks such a column or holds another type there).
#[verifier::external_body]
fn query_rows(conn: &rusqlite::Connection, sql: &str) -> (r: Result<
    Vec<(i64, String, String, String)>,
    rusqlite::Error,
>) {
    let mut stmt = conn.prepare(sql)?;
    let rows = stmt.query_map([], |row| Ok((row.get(0)?, row.get(1)?, row.get(2)?, row.get(3)?)))?;
    rows.collect()
}

/// The outcome of one statement run on a checked table name: `Ok` or the
/// database's error.
pub open spec fn ran(r: Result<(), CliError>) -> bool {
    r is Ok || r matches Err(CliError::Database(_))
}

/// What holds of a statement on `table`: a name that is not a plain
/// identifier is refused before anything runs; any other is run.
pub open spec fn checked_then_ran(table: Seq<char>, r: Result<(), CliError>) -> bool {
    if is_safe_table_name(table) {
        ran(r)
    } else {
        r matches Err(CliError::InvalidTableName)
    }
}

fn run(conn: &rusqlite::Connection, stmt: &SqlStatement) -> (r: Result<(), CliError>)
    ensures
        ran(r),
{
    match run_statement(conn, stmt) {
        Ok(_) => Ok(()),
        Err(e) => Err(CliError::Database(e)),
    }
}

/// Creates the person table `table` unless it exists: running it a second
/// time changes nothing.
pub fn create_table(conn: &rusqlite::Connection, table: &str) -> (r: Result<(), CliError>)
    ensures
        checked_then_ran(table@, r),
{
    if !is_valid_table_name(table) {
        return Err(CliError::InvalidTableName);
    }
    run(conn, &create_table_statement(table))
}

/// Drops the table `table` if it exists: dropping an absent table is no
/// error.
pub fn drop_table(conn: &rusqlite::Connection, table: &str) -> (r: Result<(), CliError>)
    ensures
        checked_then_ran(table@, r),
{
    if !is_valid_table_name(table) {
        return Err(CliError::InvalidTableName);
    }
    run(conn, &drop_table_statement(table))
}

/// Inserts one person with the given id.
pub fn insert_exec(
    conn: &rusqlite::Connection,
    table: &str,
    id: i64,
    name: &str,
    gender: &str,
    city: &str,
) -> (r: Result<(), CliError>)
    ensures
        checked_then_ran(table@, r),
{
    if !is_valid_table_name(table) {
        return Err(CliError::InvalidTableName);
    }
    run(conn, &insert_statement(table, id, name, gender, city))
}

/// The text that stands for a field left out of an insert.
pub open spec fn unknown_text() -> Seq<char> {
    "Unknown"@
}

pub open spec fn or_unknown(o: Option<&str>) -> Seq<char> {
    match o {
        Some(s) => s@,
        None => unknown_text(),
    }
}

fn text_or_unknown(o: Option<&str>) -> (r: String)
    ensures
        r@ == or_unknown(o),
{
    match o {
        Some(s) => String::from_str(s),
        None => String::from_str("Unknown"),
    }
}

/// The record that an insert with optional fields writes: each field left
/// out is `Unknown`.
pub fn record_with_defaults(
    id: i64,
    name: Option<&str>,
    gender: Option<&str>,
    city: Option<&str>,
) -> (r: Person)
    ensures
        r@ == (PersonView {
            id,
            name: or_unknown(name),
            gender: or_unknown(gender),
            city: or_unknown(city),
        }),
{
    Person {
        id,
        name: text_or_unknown(name),
        gender: text_or_unknown(gender),
        city: text_or_unknown(city),
    }
}

/// Inserts one person whose omitted fields are `Unknown`, as
/// [`record_with_defaults`] builds it.
pub fn create_exec(
    conn: &rusqlite::Connection,
    table: &str,
    id: i64,
    name: Option<&str>,
    gender: Option<&str>,
    city: Option<&str>,
) -> (r: Result<(), CliError>)
    ensures
        checked_then_ran(table@, r),
{
    let p = record_with_defaults(id, name, gender, city);
    insert_exec(conn, table, p.id, p.name.as_str(), p.gender.as_str(), p.city.as_str())
}

/// Deletes the row with the given id, if there is one.
pub fn delete_exec(conn: &rusqlite::Connection, table: &str, id: i64) -> (r: Result<(), CliError>)
    ensures
        checked_then_ran(table@, r),
{
    if !is_valid_table_name(table) {
        return Err(CliError::InvalidTableName);
    }
    run(conn, &delete_statement(table, id))
}

/// Sets the supplied fields of the row with the given id and leaves the
/// others as they are. Returns how many fields were supplied; with none,
/// nothing is run and the answer is `Ok(0)`, whatever the table name (no
/// SQL text is built then, so the name is checked only when one is).
pub fn update_exec(
    conn: &rusqlite::Connection,
    table: &str,
    id: i64,
    new_name: Option<&str>,
    new_gender: Option<&str>,
    new_city: Option<&str>,
) -> (r: Result<usize, CliError>)
    ensures
        ({
            let n = update_columns(
                UpdateFields { new_name, new_gender, new_city },
            ).len();
            if n == 0 {
                r matches Ok(0usize)
            } else if !is_safe_table_name(table@) {
                r matches Err(CliError::InvalidTableName)
            } else {
                r matches Ok(k) && k == n || r matches Err(CliError::Database(_))
            }
        }),
{
    let fields = UpdateFields { new_name, new_gender, new_city };
    let stmt = match update_statement(table, id, &fields) {
        None => return Ok(0),
        Some(stmt) => stmt,
    };
    if !is_valid_table_name(table) {
        return Err(CliError::InvalidTableName);
    }
    match run(conn, &stmt) {
        Ok(()) => Ok(stmt.params.len() - 1),
        Err(e) => Err(e),
    }
}


fn people_from_rows(rows: &Vec<(i64, String, String, String)>) -> (r: Vec<Person>)
    ensures
        r@.len() == rows@.len(),
        forall|i: int|
            0 <= i < rows@.len() ==> (#[trigger] r@[i])@ == (PersonView {
                id: rows@[i].0,
                name: rows@[i].1@,
                gender: rows@[i].2@,
                city: rows@[i].3@,
            }),
{
    let mut people: Vec<Person> = Vec::new();
    let mut i: usize = 0;
    while i < rows.len()
        invariant
            i <= rows@.len(),
            people@.len() == i,
            forall|j: int|
                0 <= j < i ==> (#[trigger] people@[j])@ == (PersonView {
                    id: rows@[j].0,
                    name: rows@[j].1@,
                    gender: rows@[j].2@,
                    city: rows@[j].3@,
                }),
        decreases rows@.len() - i,
    {
        let row = &rows[i];
        people.push(
            Person { id: row.0, name: row.1.clone(), gender: row.2.clone(), city: row.3.clone() },
        );
        i = i + 1;
    }
    people
}

/// The lines shown of a query's answer: those of `display_text` for the
/// rows that the database returned, that is the first ten rows and the
/// count of the others, or the database's error.
pub open spec fn shown(r: Result<Vec<String>, CliError>) -> bool {
    match r {
        Ok(lines) => exists|rows: Seq<PersonView>|
            strings_view(lines@) == #[trigger] display_text(rows) && shows_first_ten(
                strings_view(lines@),
                rows,
            ),
        Err(e) => e is Database,
    }
}

fn show_query(conn: &rusqlite::Connection, sql: &str) -> (r: Result<Vec<String>, CliError>)
    ensures
        shown(r),
{
    match query_rows(conn, sql) {
        Ok(rows) => {
            let people = people_from_rows(&rows);
            let lines = display_rows(&people);
            proof {
                lemma_display_truncates(people_view(people@));
            }
            assert(strings_view(lines@) == display_text(people_view(people@)));
            Ok(lines)
        },
        Err(e) => Err(CliError::Database(e)),
    }
}

/// Reads every row of the person table `table` and returns the lines that
/// show them: at most ten rows, then a count of the others.
pub fn read_exec(conn: &rusqlite::Connection, table: &str) -> (r: Result<Vec<String>, CliError>)
    ensures
        if is_safe_table_name(table@) {
            shown(r)
        } else {
            r matches Err(CliError::InvalidTableName)
        },
{
    if !is_valid_table_name(table) {
        return Err(CliError::InvalidTableName);
    }
    let stmt = select_all_statement(table);
    show_query(conn, stmt.sql.as_str())
}

/// Runs the query text exactly as given, unchecked, and returns the lines
/// that show its rows, read as `id, name, gender, city`. The text is
/// trusted: it is meant for local use by the database's owner.
pub fn query_exec(conn: &rusqlite::Connection, query: &str) -> (r: Result<Vec<String>, CliError>)
    ensures
        shown(r),
{
    show_query(conn, query)
}

/// Loads the data records of CSV text (a header line, then one person per
/// line as `id, name, gender, city`) into the table `table`, and returns
/// how many rows were inserted. Every record is read and checked before the
/// first insert; the inserts are then run one by one, without a
/// transaction, so rows inserted before a failing one stay.
pub fn load_data_from_csv(conn: &rusqlite::Connection, table: &str, text: &str) -> (r: Result<
    usize,
    CliError,
>)
    ensures
        !is_safe_table_name(table@) ==> r matches Err(CliError::InvalidTableName),
        is_safe_table_name(table@) ==> (csv_records_of(text@) matches Some(recs) && recs.len()
            == 0 ==> r matches Ok(0usize)),
        is_safe_table_name(table@) ==> match csv_records_of(text@) {
            None => r matches Err(CliError::Csv(_)),
            Some(recs) => if all_records_ok(recs) {
                r matches Ok(n) && n == recs.len() || r matches Err(CliError::Database(_))
            } else {
                r matches Err(e) && exists|k: int|
                    is_first_bad(recs, k) && e == record_error(k, #[trigger] recs[k])
            },
        },
{
    if !is_valid_table_name(table) {
        return Err(CliError::InvalidTableName);
    }
    let records = match read_csv_records(text) {
        Ok(v) => v,
        Err(e) => return Err(CliError::Csv(e)),
    };
    let people = match people_from_records(&records) {
        Ok(v) => v,
        Err(e) => return Err(e),
    };
    let ghost recs = records.deep_view();
    assert(people_view(people@).len() == recs.len());
    let mut i: usize = 0;
    while i < people.len()
        invariant
            i <= people@.len(),
            people@.len() == recs.len(),
            is_safe_table_name(table@),
            csv_records_of(text@) == Some(recs),
            all_records_ok(recs),
        decreases people@.len() - i,
    {
        let p = &people[i];
        let stmt = insert_statement(table, p.id, p.name.as_str(), p.gender.as_str(), p.city.as_str());
        match run(conn, &stmt) {
            Ok(()) => {},
            Err(e) => return Err(e),
        }
        i = i + 1;
    }
    Ok(people.len())
}

} // verus!
