//! A small data-access layer over an embedded SQLite database: statement
//! builders for a fixed person schema (`id, name, gender, city`), CSV
//! ingestion, and the console display of query results.

pub mod csv_input;
pub mod database;
pub mod decimal;
pub mod error;
pub mod person;
pub mod statement;

pub use database::{
    create_exec, create_table, delete_exec, drop_table, insert_exec, load_data_from_csv,
    query_exec, read_exec, record_with_defaults, update_exec,
};
pub use decimal::{count_string, decimal_string, parse_i64_text};
pub use error::CliError;
pub use person::{display_rows, format_row, people_from_records, Person, MAX_DISPLAY_ROWS};
pub use statement::{
    create_table_statement, delete_statement, drop_table_statement, insert_statement,
    is_valid_table_name, select_all_statement, update_statement, SqlParam, SqlStatement,
    UpdateFields,
};
