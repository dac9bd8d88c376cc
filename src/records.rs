use crate::naming::{collection_name, collection_name_of};
use vstd::prelude::*;

verus! {

/// A record as field name and field value pairs.
pub type Fields = Vec<(String, String)>;

/// The view of a record: its pairs as character sequences.
pub open spec fn fields_view(r: Seq<(String, String)>) -> Seq<(Seq<char>, Seq<char>)> {
    r.map_values(|f: (String, String)| (f.0@, f.1@))
}

/// The view of a sequence of records.
pub open spec fn records_view(rs: Seq<Fields>) -> Seq<Seq<(Seq<char>, Seq<char>)>> {
    rs.map_values(|r: Fields| fields_view(r@))
}

/// What csv's reader makes of `text` read with a header row, each row a map
/// from column name to value in the order of the names; `None` where a row
/// cannot be read.
pub uninterp spec fn csv_records(text: Seq<u8>) -> Option<Seq<Seq<(Seq<char>, Seq<char>)>>>;

/// What serde-jsonlines makes of `text`, one JSON object of string values per
/// line, each a map from key to value in the order of the keys; `None` where a
/// line cannot be read.
pub uninterp spec fn json_line_records(text: Seq<u8>) -> Option<Seq<Seq<(Seq<char>, Seq<char>)>>>;

/// Why a file could not be loaded.
#[derive(Debug, Clone, PartialEq, Eq)]
pub enum LoadError {
    /// The file could not be read.
    Io(String),
    /// The file's content is not in its format.
    Parse(String),
    /// The database refused what was sent to it.
    BackendRejected(String),
}

/// The records of one file and the collection they are created in, one create
/// call per record.
#[derive(Debug, Clone)]
pub struct LoadPlan {
    pub collection: String,
    pub records: Vec<Fields>,
}

/// Relies on csv's `Reader::from_reader` and `Reader::deserialize` into a
/// `BTreeMap<String, String>`: each row after the header row as its fields,
/// or the reader's error.
#[verifier::external_body]
fn read_csv(text: &[u8]) -> (r: Result<Vec<Fields>, String>)
    ensures
        match r {
            Ok(rows) => csv_records(text@) == Some(records_view(rows@)),
            Err(_) => csv_records(text@) is None,
        },
{
    let mut reader = csv::Reader::from_reader(text);
    reader.deserialize::<std::collections::BTreeMap<String, String>>().map(
        |row| row.map(|m| m.into_iter().collect()),
    ).collect::<Result<Vec<Fields>, csv::Error>>().map_err(|e| e.to_string())
}

/// Relies on serde-jsonlines' `JsonLinesReader::read_all` into a
/// `BTreeMap<String, String>`: each line as its fields, or the reader's error.
#[verifier::external_body]
fn read_json_lines(text: &[u8]) -> (r: Result<Vec<Fields>, String>)
    ensures
        match r {
            Ok(rows) => json_line_records(text@) == Some(records_view(rows@)),
            Err(_) => json_line_records(text@) is None,
        },
{
    serde_jsonlines::JsonLinesReader::new(text).read_all::<std::collections::BTreeMap<String, String>>().map(
        |row| row.map(|m| m.into_iter().collect()),
    ).collect::<std::io::Result<Vec<Fields>>>().map_err(|e| e.to_string())
}

/// The records of the tabular file at `path` with content `text`, each row a
/// record for the collection named after the file.
pub fn plan_csv(path: &str, text: &[u8]) -> (r: Result<LoadPlan, LoadError>)
    ensures
        match r {
            Ok(plan) => plan.collection@ == collection_name_of(path@) && csv_records(text@) == Some(
                records_view(plan.records@),
            ),
            Err(e) => e is Parse && csv_records(text@) is None,
        },
{
    match read_csv(text) {
        Ok(records) => Ok(LoadPlan { collection: collection_name(path), records }),
        Err(message) => Err(LoadError::Parse(message)),
    }
}

/// The records of the line-record file at `path` with content `text`, each
/// line a record for the collection named after the file.
pub fn plan_json_lines(path: &str, text: &[u8]) -> (r: Result<LoadPlan, LoadError>)
    ensures
        match r {
            Ok(plan) => plan.collection@ == collection_name_of(path@) && json_line_records(text@)
                == Some(records_view(plan.records@)),
            Err(e) => e is Parse && json_line_records(text@) is None,
        },
{
    match read_json_lines(text) {
        Ok(records) => Ok(LoadPlan { collection: collection_name(path), records }),
        Err(message) => Err(LoadError::Parse(message)),
    }
}

} // verus!
