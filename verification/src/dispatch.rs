//! Format dispatch.
//!
//! The dispatch table is fixed: extension `json` selects the JSON reader and
//! extension `csv` selects the CSV reader (case-sensitive, no leading dot).
//! Any other extension is rejected with an `UnsupportedFormat` error naming
//! the extension and listing the supported extensions.

use vstd::prelude::*;
use crate::errors::PipelineError;

verus! {

/// An input format for which a reader is registered.
#[derive(Clone, Copy, Debug)]
pub enum InputFormat {
    Json,
    Csv,
}

/// The dispatch table: the format registered for an extension, if any.
pub open spec fn format_of_extension(ext: Seq<char>) -> Option<InputFormat> {
    if ext == "json"@ {
        Some(InputFormat::Json)
    } else if ext == "csv"@ {
        Some(InputFormat::Csv)
    } else {
        None
    }
}

/// String slice equality, decided by comparing the owned strings.
fn str_eq(a: &str, b: &str) -> (r: bool)
    ensures
        r == (a@ == b@),
{
    a.to_owned() == b.to_owned()
}

/// Select the format reader registered for an extension, or fail with
/// `UnsupportedFormat` naming the extension.
pub fn dispatch(extension: &str) -> (r: Result<InputFormat, PipelineError>)
    ensures
        match r {
            Ok(f) => format_of_extension(extension@) == Some(f),
            Err(e) => format_of_extension(extension@) is None && (e
                matches PipelineError::UnsupportedFormat { extension: x } && x@ == extension@),
        },
{
    if str_eq(extension, "json") {
        Ok(InputFormat::Json)
    } else if str_eq(extension, "csv") {
        Ok(InputFormat::Csv)
    } else {
        Err(PipelineError::UnsupportedFormat { extension: extension.to_owned() })
    }
}

} // verus!
