//! SQL text and bound parameters for each operation on a person table.
//!
//! Values are always bound as parameters. The table name cannot be bound in
//! SQL: it is written into the text, so callers check it with
//! [`is_valid_table_name`] first.

use vstd::prelude::*;
use vstd::string::StringExecFns;
use crate::person::PersonView;

verus! {

/// A value bound to one `?` of a statement.
#[derive(Debug, PartialEq, Eq)]
pub enum SqlParam {
    Integer(i64),
    Text(String),
}

/// What a bound value is, in specifications.
pub ghost enum SqlValue {
    Integer(i64),
    Text(Seq<char>),
}

impl View for SqlParam {
    type V = SqlValue;

    open spec fn view(&self) -> SqlValue {
        match self {
            SqlParam::Integer(i) => SqlValue::Integer(*i),
            SqlParam::Text(s) => SqlValue::Text(s@),
        }
    }
}

/// A statement's text and the values bound to its placeholders, in order.
pub struct SqlStatement {
    pub sql: String,
    pub params: Vec<SqlParam>,
}

pub ghost struct StatementView {
    pub sql: Seq<char>,
    pub params: Seq<SqlValue>,
}

impl View for SqlStatement {
    type V = StatementView;

    open spec fn view(&self) -> StatementView {
        StatementView { sql: self.sql@, params: self.params@.map_values(|p: SqlParam| p@) }
    }
}

/// The fields of a partial update: `None` leaves a column as it is.
pub struct UpdateFields<'a> {
    pub new_name: Option<&'a str>,
    pub new_gender: Option<&'a str>,
    pub new_city: Option<&'a str>,
}

pub open spec fn is_ident_start(c: char) -> bool {
    ('a' <= c && c <= 'z') || ('A' <= c && c <= 'Z') || c == '_'
}

pub open spec fn is_ident_char(c: char) -> bool {
    is_ident_start(c) || ('0' <= c && c <= '9')
}

/// A table name that is safe to write into SQL text: a letter or `_`, then
/// letters, digits and `_`.
pub open spec fn is_safe_table_name(s: Seq<char>) -> bool {
    &&& s.len() > 0
    &&& is_ident_start(s[0])
    &&& forall|i: int| 0 <= i < s.len() ==> is_ident_char(#[trigger] s[i])
}

pub open spec fn create_table_sql(table: Seq<char>) -> Seq<char> {
    "CREATE TABLE IF NOT EXISTS "@ + table
        + " (id INTEGER PRIMARY KEY, name TEXT NOT NULL, gender TEXT NOT NULL, city TEXT NOT NULL)"@
}

pub open spec fn drop_table_sql(table: Seq<char>) -> Seq<char> {
    "DROP TABLE IF EXISTS "@ + table
}

pub open spec fn insert_sql(table: Seq<char>) -> Seq<char> {
    "INSERT INTO "@ + table + " (id, name, gender, city) VALUES (?, ?, ?, ?)"@
}

pub open spec fn delete_sql(table: Seq<char>) -> Seq<char> {
    "DELETE FROM "@ + table + " WHERE id = ?"@
}

pub open spec fn select_all_sql(table: Seq<char>) -> Seq<char> {
    "SELECT * FROM "@ + table
}

/// `col1 = ?, col2 = ?, ...` for the columns in order.
pub open spec fn set_clause(cols: Seq<Seq<char>>) -> Seq<char>
    decreases cols.len(),
{
    if cols.len() == 0 {
        Seq::empty()
    } else if cols.len() == 1 {
        cols[0] + " = ?"@
    } else {
        set_clause(cols.drop_last()) + ", "@ + cols.last() + " = ?"@
    }
}

pub open spec fn update_sql(table: Seq<char>, cols: Seq<Seq<char>>) -> Seq<char> {
    "UPDATE "@ + table + " SET "@ + set_clause(cols) + " WHERE id = ?"@
}

pub open spec fn present(o: Option<&str>) -> Seq<Seq<char>> {
    match o {
        Some(s) => seq![s@],
        None => Seq::empty(),
    }
}

pub open spec fn column_if(o: Option<&str>, col: Seq<char>) -> Seq<Seq<char>> {
    match o {
        Some(_) => seq![col],
        None => Seq::empty(),
    }
}

/// The columns that a partial update assigns, in declaration order.
pub open spec fn update_columns(f: UpdateFields) -> Seq<Seq<char>> {
    column_if(f.new_name, "name"@) + column_if(f.new_gender, "gender"@) + column_if(
        f.new_city,
        "city"@,
    )
}

/// The new values of a partial update, in the order of `update_columns`.
pub open spec fn update_values(f: UpdateFields) -> Seq<Seq<char>> {
    present(f.new_name) + present(f.new_gender) + present(f.new_city)
}

pub open spec fn text_values(vals: Seq<Seq<char>>) -> Seq<SqlValue> {
    vals.map_values(|v: Seq<char>| SqlValue::Text(v))
}


pub open spec fn str_views(cols: Seq<&str>) -> Seq<Seq<char>> {
    cols.map_values(|c: &str| c@)
}

fn set_clause_text(cols: &Vec<&str>) -> (r: String)
    ensures
        r@ == set_clause(str_views(cols@)),
{
    let mut s = String::new();
    let mut i: usize = 0;
    while i < cols.len()
        invariant
            i <= cols@.len(),
            s@ == set_clause(str_views(cols@.take(i as int))),
        decreases cols@.len() - i,
    {
        let ghost prev = str_views(cols@.take(i as int));
        let ghost next = str_views(cols@.take(i + 1));
        assert(next.drop_last() =~= prev);
        assert(next.last() == cols@[i as int]@);
        if i > 0 {
            s.append(", ");
        }
        s.append(cols[i]);
        s.append(" = ?");
        proof {
            if i == 0 {
                assert(next.len() == 1);
                assert(prev.len() == 0);
                assert(s@ =~= next[0] + " = ?"@);
            }
        }
        i = i + 1;
    }
    assert(cols@.take(cols@.len() as int) =~= cols@);
    s
}

/// An `UPDATE` that assigns exactly the supplied fields, in declaration
/// order, each value bound, and the id bound last; `None` where no field
/// is supplied, so that nothing is to be run.
pub fn update_statement(table: &str, id: i64, fields: &UpdateFields) -> (r: Option<SqlStatement>)
    ensures
        r is None <==> update_columns(*fields).len() == 0,
        r matches Some(st) ==> st.params@.len() == update_columns(*fields).len() + 1,
        r matches Some(st) ==> st@ == (StatementView {
            sql: update_sql(table@, update_columns(*fields)),
            params: text_values(update_values(*fields)).push(SqlValue::Integer(id)),
        }),
{
    let mut cols: Vec<&str> = Vec::new();
    let mut params: Vec<SqlParam> = Vec::new();
    if let Some(v) = fields.new_name {
        cols.push("name");
        params.push(SqlParam::Text(String::from_str(v)));
    }
    if let Some(v) = fields.new_gender {
        cols.push("gender");
        params.push(SqlParam::Text(String::from_str(v)));
    }
    if let Some(v) = fields.new_city {
        cols.push("city");
        params.push(SqlParam::Text(String::from_str(v)));
    }
    assert(str_views(cols@) =~= update_columns(*fields));
    assert(params@.map_values(|p: SqlParam| p@) =~= text_values(update_values(*fields)));
    if cols.len() == 0 {
        return None;
    }
    let set = set_clause_text(&cols);
    let mut sql = String::from_str("UPDATE ");
    sql.append(table);
    sql.append(" SET ");
    sql.append(set.as_str());
    sql.append(" WHERE id = ?");
    let ghost before = params@.map_values(|p: SqlParam| p@);
    params.push(SqlParam::Integer(id));
    assert(params@.map_values(|p: SqlParam| p@) =~= before.push(SqlValue::Integer(id)));
    Some(SqlStatement { sql, params })
}


/// What `SET col = ?` with the value `v` does to a row of the person
/// schema; the id is never assigned.
pub open spec fn assign(p: PersonView, col: Seq<char>, v: Seq<char>) -> PersonView {
    if col == "name"@ {
        PersonView { name: v, ..p }
    } else if col == "gender"@ {
        PersonView { gender: v, ..p }
    } else if col == "city"@ {
        PersonView { city: v, ..p }
    } else {
        p
    }
}

/// The row after the assignments of a `SET` clause, left to right.
pub open spec fn apply_assignments(
    p: PersonView,
    cols: Seq<Seq<char>>,
    vals: Seq<Seq<char>>,
) -> PersonView
    decreases cols.len(),
{
    if cols.len() == 0 || vals.len() == 0 {
        p
    } else {
        apply_assignments(assign(p, cols[0], vals[0]), cols.drop_first(), vals.drop_first())
    }
}

pub open spec fn updated(o: Option<&str>, old: Seq<char>) -> Seq<char> {
    match o {
        Some(s) => s@,
        None => old,
    }
}

/// A partial update changes exactly the supplied fields of a row: the
/// assignments that `update_statement` binds give each supplied field its
/// new value and leave the id and every other field as they were; with no
/// field supplied the row stays identical (and no statement is built).
pub proof fn lemma_partial_update(p: PersonView, f: UpdateFields)
    ensures
        apply_assignments(p, update_columns(f), update_values(f)) == (PersonView {
            id: p.id,
            name: updated(f.new_name, p.name),
            gender: updated(f.new_gender, p.gender),
            city: updated(f.new_city, p.city),
        }),
        update_columns(f).len() == 0 ==> apply_assignments(p, update_columns(f), update_values(f))
            == p,
{
    reveal_strlit("name");
    reveal_strlit("gender");
    reveal_strlit("city");
    assert("name"@.len() == 4 && "gender"@.len() == 6 && "city"@.len() == 4);
    assert("name"@[0] == 'n' && "city"@[0] == 'c');
    let cols = update_columns(f);
    let vals = update_values(f);
    let after_name = match f.new_name {
        Some(s) => assign(p, "name"@, s@),
        None => p,
    };
    let after_gender = match f.new_gender {
        Some(s) => assign(after_name, "gender"@, s@),
        None => after_name,
    };
    let after_city = match f.new_city {
        Some(s) => assign(after_gender, "city"@, s@),
        None => after_gender,
    };
    let c2 = column_if(f.new_gender, "gender"@) + column_if(f.new_city, "city"@);
    let v2 = present(f.new_gender) + present(f.new_city);
    let c3 = column_if(f.new_city, "city"@);
    let v3 = present(f.new_city);
    assert(apply_assignments(after_gender, c3, v3) == after_city) by {
        if f.new_city is Some {
            assert(c3.drop_first() =~= Seq::<Seq<char>>::empty());
            assert(v3.drop_first() =~= Seq::<Seq<char>>::empty());
            let q = assign(after_gender, c3[0], v3[0]);
            assert(apply_assignments(q, c3.drop_first(), v3.drop_first()) == q);
        }
    }
    assert(apply_assignments(after_name, c2, v2) == after_city) by {
        if f.new_gender is Some {
            assert(c2.drop_first() =~= c3);
            assert(v2.drop_first() =~= v3);
        } else {
            assert(c2 =~= c3);
            assert(v2 =~= v3);
        }
    }
    assert(apply_assignments(p, cols, vals) == after_city) by {
        if f.new_name is Some {
            assert(cols.drop_first() =~= c2);
            assert(vals.drop_first() =~= v2);
        } else {
            assert(cols =~= c2);
            assert(vals =~= v2);
        }
    }
}

/// Whether `name` may be written into SQL text as a table name.
pub fn is_valid_table_name(name: &str) -> (r: bool)
    ensures
        r == is_safe_table_name(name@),
{
    let len = name.unicode_len();
    if len == 0 {
        return false;
    }
    let c0 = name.get_char(0);
    if !(('a' <= c0 && c0 <= 'z') || ('A' <= c0 && c0 <= 'Z') || c0 == '_') {
        return false;
    }
    let mut i: usize = 0;
    while i < len
        invariant
            i <= len,
            len == name@.len(),
            forall|k: int| 0 <= k < i ==> is_ident_char(#[trigger] name@[k]),
        decreases len - i,
    {
        let c = name.get_char(i);
        if !(('a' <= c && c <= 'z') || ('A' <= c && c <= 'Z') || c == '_' || ('0' <= c && c
            <= '9')) {
            return false;
        }
        i = i + 1;
    }
    true
}

fn text_of(parts: &str, table: &str, tail: &str) -> (r: String)
    ensures
        r@ == parts@ + table@ + tail@,
{
    let mut s = String::from_str(parts);
    s.append(table);
    s.append(tail);
    s
}

/// `CREATE TABLE IF NOT EXISTS` for the person schema.
pub fn create_table_statement(table: &str) -> (r: SqlStatement)
    ensures
        r@ == (StatementView { sql: create_table_sql(table@), params: Seq::empty() }),
{
    let sql = text_of(
        "CREATE TABLE IF NOT EXISTS ",
        table,
        " (id INTEGER PRIMARY KEY, name TEXT NOT NULL, gender TEXT NOT NULL, city TEXT NOT NULL)",
    );
    let r = SqlStatement { sql, params: Vec::new() };
    assert(r@.params =~= Seq::empty());
    r
}

/// `DROP TABLE IF EXISTS`.
pub fn drop_table_statement(table: &str) -> (r: SqlStatement)
    ensures
        r@ == (StatementView { sql: drop_table_sql(table@), params: Seq::empty() }),
{
    let sql = text_of("DROP TABLE IF EXISTS ", table, "");
    proof {
        reveal_strlit("");
    }
    assert(sql@ =~= drop_table_sql(table@));
    let r = SqlStatement { sql, params: Vec::new() };
    assert(r@.params =~= Seq::empty());
    r
}

/// `SELECT *` over the whole table.
pub fn select_all_statement(table: &str) -> (r: SqlStatement)
    ensures
        r@ == (StatementView { sql: select_all_sql(table@), params: Seq::empty() }),
{
    let sql = text_of("SELECT * FROM ", table, "");
    proof {
        reveal_strlit("");
    }
    assert(sql@ =~= select_all_sql(table@));
    let r = SqlStatement { sql, params: Vec::new() };
    assert(r@.params =~= Seq::empty());
    r
}

/// An `INSERT` of one person, every value bound.
pub fn insert_statement(table: &str, id: i64, name: &str, gender: &str, city: &str) -> (r:
    SqlStatement)
    ensures
        r@ == (StatementView {
            sql: insert_sql(table@),
            params: seq![
                SqlValue::Integer(id),
                SqlValue::Text(name@),
                SqlValue::Text(gender@),
                SqlValue::Text(city@),
            ],
        }),
{
    let sql = text_of("INSERT INTO ", table, " (id, name, gender, city) VALUES (?, ?, ?, ?)");
    let mut params: Vec<SqlParam> = Vec::new();
    params.push(SqlParam::Integer(id));
    params.push(SqlParam::Text(String::from_str(name)));
    params.push(SqlParam::Text(String::from_str(gender)));
    params.push(SqlParam::Text(String::from_str(city)));
    let r = SqlStatement { sql, params };
    assert(r@.params =~= seq![
        SqlValue::Integer(id),
        SqlValue::Text(name@),
        SqlValue::Text(gender@),
        SqlValue::Text(city@),
    ]);
    r
}

/// A `DELETE` of the row with the given id, the id bound.
pub fn delete_statement(table: &str, id: i64) -> (r: SqlStatement)
    ensures
        r@ == (StatementView { sql: delete_sql(table@), params: seq![SqlValue::Integer(id)] }),
{
    let sql = text_of("DELETE FROM ", table, " WHERE id = ?");
    let mut params: Vec<SqlParam> = Vec::new();
    params.push(SqlParam::Integer(id));
    let r = SqlStatement { sql, params };
    assert(r@.params =~= seq![SqlValue::Integer(id)]);
    r
}

} // verus!
