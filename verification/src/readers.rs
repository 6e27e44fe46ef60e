//! Format readers.
//!
//! Each reader turns the whole input text into an ordered sequence of
//! records, or fails with a parse diagnostic. Parsing is done by the
//! `serde_json` and `csv` crates behind trusted wrappers; what a given input
//! parses to is named by the uninterpreted functions `json_records_of` and
//! `csv_records_of`, both functions of the input text alone.

use vstd::prelude::*;
use crate::dispatch::InputFormat;
use crate::errors::PipelineError;
use crate::values::{FieldValue, Record, RecordV, records_view, unique_keys};

verus! {

/// What parsing JSON input yields: `None` when the text is not a valid JSON
/// array whose elements are all objects, otherwise the sequence of records,
/// one per object, each object's fields in key-sorted order with their
/// dynamic types kept (non-string scalars and composites carry their
/// canonical compact JSON text).
pub uninterp spec fn json_records_of(input: Seq<char>) -> Option<Seq<RecordV>>;

/// What parsing CSV input yields: `None` when the text is malformed CSV or a
/// row's field count differs from the header's, otherwise one record per
/// data row, keyed by the header names in key-sorted order, every value a
/// string.
pub uninterp spec fn csv_records_of(input: Seq<char>) -> Option<Seq<RecordV>>;

/// Relies on `serde_json::from_str` deserializing
/// `Vec<serde_json::Map<String, serde_json::Value>>`: it succeeds exactly on
/// a JSON array of objects, a `Map` iterates its fields in key-sorted order
/// with distinct keys, and the `Display` of a `Number` or of a composite
/// `Value` is its canonical compact JSON text. Parsing depends on the input
/// text alone.
#[verifier::external_body]
fn parse_json(input: &str) -> (r: Result<Vec<Record>, String>)
    ensures
        r is Ok <==> json_records_of(input@) is Some,
        r matches Ok(recs) ==> json_records_of(input@) == Some(records_view(recs@)),
        r matches Ok(recs) ==> forall|i: int|
            0 <= i < recs@.len() ==> unique_keys(#[trigger] recs@[i]@),
{
    let parsed: Result<Vec<serde_json::Map<String, serde_json::Value>>, serde_json::Error> =
        serde_json::from_str(input);
    match parsed {
        Ok(objects) => Ok(objects.into_iter().map(|obj| Record {
            fields: obj.into_iter().map(|(k, v)| (k, match v {
                serde_json::Value::String(s) => FieldValue::Str(s),
                serde_json::Value::Bool(b) => FieldValue::Bool(b),
                serde_json::Value::Null => FieldValue::Null,
                serde_json::Value::Number(n) => FieldValue::Num(n.to_string()),
                other => FieldValue::Composite(other.to_string()),
            })).collect(),
        }).collect()),
        Err(e) => Err(e.to_string()),
    }
}

/// Relies on `csv::Reader::deserialize` into
/// `std::collections::BTreeMap<String, String>`: the first row is the
/// header, each data row becomes one map from header name to cell text, it
/// fails on malformed CSV or on a row whose field count differs from the
/// header's, and a `BTreeMap` iterates its entries in key-sorted order with
/// distinct keys. Parsing depends on the input text alone.
#[verifier::external_body]
fn parse_csv(input: &str) -> (r: Result<Vec<Record>, String>)
    ensures
        r is Ok <==> csv_records_of(input@) is Some,
        r matches Ok(recs) ==> csv_records_of(input@) == Some(records_view(recs@)),
        r matches Ok(recs) ==> forall|i: int|
            0 <= i < recs@.len() ==> unique_keys(#[trigger] recs@[i]@),
        r matches Ok(recs) ==> forall|i: int, j: int|
            0 <= i < recs@.len() && 0 <= j < recs@[i]@.len() ==> (#[trigger] recs@[i]@[j].1)
                is Str,
{
    let mut reader = csv::Reader::from_reader(input.as_bytes());
    let rows: Result<Vec<std::collections::BTreeMap<String, String>>, csv::Error> =
        reader.deserialize().collect();
    match rows {
        Ok(rows) => Ok(rows.into_iter().map(|row| Record {
            fields: row.into_iter().map(|(k, c)| (k, FieldValue::Str(c))).collect(),
        }).collect()),
        Err(e) => Err(e.to_string()),
    }
}

/// What reading an input in a given format yields.
pub open spec fn records_of(fmt: InputFormat, input: Seq<char>) -> Option<Seq<RecordV>> {
    match fmt {
        InputFormat::Json => json_records_of(input),
        InputFormat::Csv => csv_records_of(input),
    }
}

/// Read the whole input in the given format into an ordered sequence of
/// records, or fail with `ParseError` carrying the underlying diagnostic.
pub fn read_records(format: InputFormat, input: &str) -> (r: Result<Vec<Record>, PipelineError>)
    ensures
        match r {
            Ok(recs) => records_of(format, input@) == Some(records_view(recs@)) && forall|i: int|
                0 <= i < recs@.len() ==> unique_keys(#[trigger] recs@[i]@),
            Err(e) => records_of(format, input@) is None && e is Parse,
        },
{
    let parsed = match format {
        InputFormat::Json => parse_json(input),
        InputFormat::Csv => parse_csv(input),
    };
    match parsed {
        Ok(recs) => Ok(recs),
        Err(detail) => Err(PipelineError::Parse { detail }),
    }
}

} // verus!
