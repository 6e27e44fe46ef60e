//! Source records and their normalization.
//!
//! A source record is a keyed row read from an input file; its field values
//! keep the dynamic type they had in the source (a JSON number is not a JSON
//! string). Normalization turns every field into plain text: string values
//! pass through verbatim, every other value is replaced by its canonical
//! compact JSON text.

use vstd::prelude::*;

verus! {

/// One field value as read from a source record, tagged with the dynamic
/// type it had in the source.
///
/// The `Num` and `Composite` variants carry the value's canonical compact
/// JSON text, produced by the format reader; `Bool` and `Null` are rendered
/// to text only during normalization.
pub enum FieldValue {
    /// A string value; its text is kept verbatim.
    Str(String),
    /// A number, as its canonical JSON text (for example `30` or `2.5`).
    Num(String),
    /// A boolean value.
    Bool(bool),
    /// The JSON null value.
    Null,
    /// An array or object, as its compact JSON text.
    Composite(String),
}

/// The mathematical shape of a `FieldValue`.
pub enum FieldV {
    Str(Seq<char>),
    Num(Seq<char>),
    Bool(bool),
    Null,
    Composite(Seq<char>),
}

impl View for FieldValue {
    type V = FieldV;

    open spec fn view(&self) -> FieldV {
        match self {
            FieldValue::Str(s) => FieldV::Str(s@),
            FieldValue::Num(t) => FieldV::Num(t@),
            FieldValue::Bool(b) => FieldV::Bool(*b),
            FieldValue::Null => FieldV::Null,
            FieldValue::Composite(t) => FieldV::Composite(t@),
        }
    }
}

/// A record: a keyed row of dynamically typed field values, in the order the
/// format reader produced them. Keys are unique within a record.
pub struct Record {
    pub fields: Vec<(String, FieldValue)>,
}

/// The mathematical shape of a `Record`: its key/value pairs in order.
pub type RecordV = Seq<(Seq<char>, FieldV)>;

impl View for Record {
    type V = RecordV;

    open spec fn view(&self) -> RecordV {
        self.fields@.map_values(|p: (String, FieldValue)| (p.0@, p.1@))
    }
}

/// The mathematical shape of a sequence of records.
pub open spec fn records_view(recs: Seq<Record>) -> Seq<RecordV> {
    recs.map_values(|r: Record| r@)
}

/// Whether the keys of a record are pairwise distinct.
pub open spec fn unique_keys(r: RecordV) -> bool {
    forall|i: int, j: int| 0 <= i < j < r.len() ==> r[i].0 != r[j].0
}

/// A record whose every field has been turned into text, ready for template
/// substitution.
pub struct NormalizedRecord {
    pub fields: Vec<(String, String)>,
}

/// The mathematical shape of a `NormalizedRecord`.
pub type NormalizedRecordV = Seq<(Seq<char>, Seq<char>)>;

impl View for NormalizedRecord {
    type V = NormalizedRecordV;

    open spec fn view(&self) -> NormalizedRecordV {
        self.fields@.map_values(|p: (String, String)| (p.0@, p.1@))
    }
}

/// The text a field value normalizes to: string values pass through
/// verbatim; numbers, booleans, null and composites take their canonical
/// JSON text.
pub open spec fn normalized_text(v: FieldV) -> Seq<char> {
    match v {
        FieldV::Str(s) => s,
        FieldV::Num(t) => t,
        FieldV::Bool(b) => if b { "true"@ } else { "false"@ },
        FieldV::Null => "null"@,
        FieldV::Composite(t) => t,
    }
}

/// Normalization of a whole record: every key is kept, in order, and every
/// value is replaced by its normalized text.
pub open spec fn normalized_record(r: RecordV) -> NormalizedRecordV {
    r.map_values(|p: (Seq<char>, FieldV)| (p.0, normalized_text(p.1)))
}

/// Turn one field value into its substitution text.
pub fn normalize_value(v: &FieldValue) -> (r: String)
    ensures
        r@ == normalized_text(v@),
{
    match v {
        FieldValue::Str(s) => s.clone(),
        FieldValue::Num(t) => t.clone(),
        FieldValue::Bool(b) => if *b {
            "true".to_owned()
        } else {
            "false".to_owned()
        },
        FieldValue::Null => "null".to_owned(),
        FieldValue::Composite(t) => t.clone(),
    }
}

/// Normalize a record: keep every key, in order, and replace every value by
/// its substitution text.
pub fn normalize_record(rec: &Record) -> (n: NormalizedRecord)
    ensures
        n@ == normalized_record(rec@),
{
    let mut out: Vec<(String, String)> = Vec::new();
    let mut i: usize = 0;
    while i < rec.fields.len()
        invariant
            i <= rec.fields.len(),
            out@.len() == i,
            forall|k: int|
                0 <= k < i ==> #[trigger] out@[k].0@ == rec@[k].0 && out@[k].1@
                    == normalized_text(rec@[k].1),
        decreases rec.fields.len() - i,
    {
        let pair = &rec.fields[i];
        let key = pair.0.clone();
        let text = normalize_value(&pair.1);
        out.push((key, text));
        i = i + 1;
    }
    let n = NormalizedRecord { fields: out };
    proof {
        assert(n@ =~= normalized_record(rec@));
    }
    n
}

/// Normalization keeps every field: the normalized record has the same
/// length as the source record and the same key at every position.
pub proof fn lemma_normalization_keeps_fields(r: RecordV)
    ensures
        normalized_record(r).len() == r.len(),
        forall|i: int| 0 <= i < r.len() ==> normalized_record(r)[i].0 == r[i].0,
        unique_keys(r) ==> unique_keys_normalized(normalized_record(r)),
{
}

/// Whether the keys of a normalized record are pairwise distinct.
pub open spec fn unique_keys_normalized(n: NormalizedRecordV) -> bool {
    forall|i: int, j: int| 0 <= i < j < n.len() ==> n[i].0 != n[j].0
}

} // verus!
