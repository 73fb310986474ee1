//! The person record: how a CSV row becomes one, and how query results are
//! shown on the console.

use vstd::prelude::*;
use vstd::string::StringExecFns;
use crate::error::CliError;
use crate::decimal::{count_string, decimal_string, decimal_text, nat_digits, parse_i64, parse_i64_text};

verus! {

/// One row of a person table.
#[derive(Debug, PartialEq, Eq)]
pub struct Person {
    pub id: i64,
    pub name: String,
    pub gender: String,
    pub city: String,
}

pub ghost struct PersonView {
    pub id: i64,
    pub name: Seq<char>,
    pub gender: Seq<char>,
    pub city: Seq<char>,
}

impl View for Person {
    type V = PersonView;

    open spec fn view(&self) -> PersonView {
        PersonView { id: self.id, name: self.name@, gender: self.gender@, city: self.city@ }
    }
}

pub open spec fn people_view(rows: Seq<Person>) -> Seq<PersonView> {
    rows.map_values(|p: Person| p@)
}

pub open spec fn strings_view(lines: Seq<String>) -> Seq<Seq<char>> {
    lines.map_values(|s: String| s@)
}

/// At most this many rows are shown; the rest are only counted.
pub const MAX_DISPLAY_ROWS: usize = 10;

/// The console line of one row.
pub open spec fn row_line(p: PersonView) -> Seq<char> {
    "ID: "@ + decimal_text(p.id as int) + ", Name: "@ + p.name + ", Gender: "@ + p.gender
        + ", City: "@ + p.city
}

pub open spec fn row_lines(rows: Seq<PersonView>) -> Seq<Seq<char>> {
    rows.map_values(|p: PersonView| row_line(p))
}

/// The line that counts the rows left out of a display.
pub open spec fn remainder_line(n: nat) -> Seq<char> {
    "and "@ + nat_digits(n) + " more rows not shown"@
}

/// What the console shows of a result: every row where there are at most
/// ten, else the first ten, a `...` line and the count of the others.
pub open spec fn display_text(rows: Seq<PersonView>) -> Seq<Seq<char>> {
    if rows.len() <= MAX_DISPLAY_ROWS {
        row_lines(rows)
    } else {
        row_lines(rows.take(MAX_DISPLAY_ROWS as int)) + seq![
            "..."@,
            remainder_line((rows.len() - MAX_DISPLAY_ROWS) as nat),
        ]
    }
}

/// The console line of one row.
pub fn format_row(p: &Person) -> (r: String)
    ensures
        r@ == row_line(p@),
{
    let id = decimal_string(p.id);
    let mut s = String::from_str("ID: ");
    s.append(id.as_str());
    s.append(", Name: ");
    s.append(p.name.as_str());
    s.append(", Gender: ");
    s.append(p.gender.as_str());
    s.append(", City: ");
    s.append(p.city.as_str());
    s
}

/// The lines that show a query result, truncated to the first ten rows
/// with a count of the remainder.
pub fn display_rows(rows: &Vec<Person>) -> (r: Vec<String>)
    ensures
        strings_view(r@) == display_text(people_view(rows@)),
        shows_first_ten(strings_view(r@), people_view(rows@)),
{
    let ghost all = people_view(rows@);
    let shown: usize = if rows.len() <= MAX_DISPLAY_ROWS {
        rows.len()
    } else {
        MAX_DISPLAY_ROWS
    };
    let mut lines: Vec<String> = Vec::new();
    let mut i: usize = 0;
    while i < shown
        invariant
            shown <= rows@.len(),
            shown == if rows@.len() <= MAX_DISPLAY_ROWS {
                rows@.len()
            } else {
                MAX_DISPLAY_ROWS as nat
            },
            i <= shown,
            all == people_view(rows@),
            strings_view(lines@) =~= row_lines(all.take(i as int)),
        decreases shown - i,
    {
        let line = format_row(&rows[i]);
        let ghost before = lines@;
        lines.push(line);
        assert(all.take(i + 1) =~= all.take(i as int).push(all[i as int]));
        assert(row_lines(all.take(i + 1)) =~= row_lines(all.take(i as int)).push(
            row_line(all[i as int]),
        ));
        assert(strings_view(lines@) =~= strings_view(before).push(line@));
        i = i + 1;
    }
    if rows.len() > MAX_DISPLAY_ROWS {
        lines.push(String::from_str("..."));
        let count = count_string((rows.len() - MAX_DISPLAY_ROWS) as u64);
        let mut last = String::from_str("and ");
        last.append(count.as_str());
        last.append(" more rows not shown");
        lines.push(last);
    } else {
        assert(all.take(i as int) =~= all);
    }
    assert(strings_view(lines@) =~= display_text(all));
    proof {
        lemma_display_truncates(all);
    }
    lines
}


/// A CSV record that makes a person: four fields, the first an `i64`.
pub open spec fn record_ok(rec: Seq<Seq<char>>) -> bool {
    rec.len() == 4 && parse_i64(rec[0]) is Some
}

/// The person that a well-formed record holds, its fields in the order
/// `id, name, gender, city`.
pub open spec fn person_of_record(rec: Seq<Seq<char>>) -> PersonView {
    PersonView {
        id: match parse_i64(rec[0]) {
            Some(v) => v,
            None => 0,
        },
        name: rec[1],
        gender: rec[2],
        city: rec[3],
    }
}

pub open spec fn people_of_records(recs: Seq<Seq<Seq<char>>>) -> Seq<PersonView> {
    recs.map_values(|rec: Seq<Seq<char>>| person_of_record(rec))
}

pub open spec fn all_records_ok(recs: Seq<Seq<Seq<char>>>) -> bool {
    forall|i: int| 0 <= i < recs.len() ==> record_ok(#[trigger] recs[i])
}

/// `k` is the first record that does not make a person.
pub open spec fn is_first_bad(recs: Seq<Seq<Seq<char>>>, k: int) -> bool {
    &&& 0 <= k < recs.len()
    &&& !record_ok(recs[k])
    &&& forall|i: int| 0 <= i < k ==> record_ok(#[trigger] recs[i])
}

/// The error for the record at index `k`, which counts rows from 1.
pub open spec fn record_error(k: int, rec: Seq<Seq<char>>) -> CliError {
    if rec.len() != 4 {
        CliError::FieldCount { row: (k + 1) as usize, found: rec.len() as usize }
    } else {
        CliError::InvalidId { row: (k + 1) as usize }
    }
}

fn person_from_record(rec: &Vec<String>, k: usize) -> (r: Result<Person, CliError>)
    requires
        k < usize::MAX,
    ensures
        match r {
            Ok(p) => record_ok(rec.deep_view()) && p@ == person_of_record(rec.deep_view()),
            Err(e) => !record_ok(rec.deep_view()) && e == record_error(k as int, rec.deep_view()),
        },
{
    if rec.len() != 4 {
        return Err(CliError::FieldCount { row: k + 1, found: rec.len() });
    }
    match parse_i64_text(rec[0].as_str()) {
        Some(id) => Ok(
            Person {
                id,
                name: rec[1].clone(),
                gender: rec[2].clone(),
                city: rec[3].clone(),
            },
        ),
        None => Err(CliError::InvalidId { row: k + 1 }),
    }
}

/// The people that CSV data records hold, in order; the error of the first
/// record that does not make one.
pub fn people_from_records(records: &Vec<Vec<String>>) -> (r: Result<Vec<Person>, CliError>)
    ensures
        match r {
            Ok(v) => all_records_ok(records.deep_view()) && people_view(v@) == people_of_records(
                records.deep_view(),
            ),
            Err(e) => exists|k: int|
                is_first_bad(records.deep_view(), k) && e == record_error(
                    k,
                    #[trigger] records.deep_view()[k],
                ),
        },
{
    let ghost recs = records.deep_view();
    let mut people: Vec<Person> = Vec::new();
    let mut i: usize = 0;
    while i < records.len()
        invariant
            i <= records@.len(),
            recs == records.deep_view(),
            forall|j: int| 0 <= j < i ==> record_ok(#[trigger] recs[j]),
            people_view(people@) =~= people_of_records(recs.take(i as int)),
        decreases records@.len() - i,
    {
        assert(recs[i as int] == records@[i as int].deep_view());
        match person_from_record(&records[i], i) {
            Ok(p) => {
                let ghost before = people@;
                people.push(p);
                assert(recs.take(i + 1) =~= recs.take(i as int).push(recs[i as int]));
                assert(people_view(people@) =~= people_view(before).push(p@));
            },
            Err(e) => {
                assert(is_first_bad(recs, i as int));
                return Err(e);
            },
        }
        i = i + 1;
    }
    assert(recs.take(i as int) =~= recs);
    Ok(people)
}


/// Loading CSV text reads its records in order: N well-formed data records
/// give N people, the last of them with exactly the fields of the last data
/// line, and so for every position.
pub proof fn lemma_csv_rows(recs: Seq<Seq<Seq<char>>>)
    requires
        all_records_ok(recs),
    ensures
        people_of_records(recs).len() == recs.len(),
        forall|i: int|
            0 <= i < recs.len() ==> parse_i64(recs[i][0]) == Some(
                (#[trigger] people_of_records(recs)[i]).id,
            ) && people_of_records(recs)[i].name == recs[i][1] && people_of_records(recs)[i].gender
                == recs[i][2] && people_of_records(recs)[i].city == recs[i][3],
        recs.len() > 0 ==> person_of_record(recs.last()) == people_of_records(recs).last(),
{
    assert forall|i: int| 0 <= i < recs.len() implies parse_i64(recs[i][0]) == Some(
        (#[trigger] people_of_records(recs)[i]).id,
    ) by {
        assert(record_ok(recs[i]));
    }
}

/// `lines` show every row of `rows` where there are at most ten, and
/// nothing else; of more rows exactly the first ten, then a `...` line and
/// the count of the rows left out.
pub open spec fn shows_first_ten(lines: Seq<Seq<char>>, rows: Seq<PersonView>) -> bool {
    &&& rows.len() <= 10 ==> lines.len() == rows.len() && forall|i: int|
        0 <= i < rows.len() ==> #[trigger] lines[i] == row_line(rows[i])
    &&& rows.len() > 10 ==> lines.len() == 12 && (forall|i: int|
        0 <= i < 10 ==> #[trigger] lines[i] == row_line(rows[i])) && lines[10] == "..."@
        && lines[11] == remainder_line((rows.len() - 10) as nat)
}

/// A display shows every row of a result of at most ten rows and nothing
/// else; of a longer result it shows exactly the first ten rows, then a
/// `...` line and the count of the rows left out.
pub proof fn lemma_display_truncates(rows: Seq<PersonView>)
    ensures
        shows_first_ten(display_text(rows), rows),
{
}

} // verus!
