//! Reading CSV text into records of fields, through the `csv` crate.

use vstd::prelude::*;

verus! {

#[verifier::external_type_specification]
#[verifier::external_body]
pub struct ExCsvError(csv::Error);

/// The data records that the `csv` crate reads from `text` with a header
/// line, each a sequence of fields; `None` where it reports an error (a
/// record whose length differs from the header's, for one).
pub uninterp spec fn csv_records_of(text: Seq<char>) -> Option<Seq<Seq<Seq<char>>>>;

/// Relies on `csv::ReaderBuilder` with `has_headers(true)` and on
/// `Reader::records`: the first line is taken as the header and skipped,
/// each later record is handed out as its fields. The result depends on the
/// text alone.
#[verifier::external_body]
pub(crate) fn read_csv_records(text: &str) -> (r: Result<Vec<Vec<String>>, csv::Error>)
    ensures
        match r {
            Ok(v) => csv_records_of(text@) == Some(v.deep_view()),
            Err(_) => csv_records_of(text@) is None,
        },
{
    let mut rdr = csv::ReaderBuilder::new().has_headers(true).from_reader(text.as_bytes());
    rdr.records()
        .map(|rec| rec.map(|fields| fields.iter().map(|f| f.to_string()).collect()))
        .collect()
}

} // verus!
