//! Errors of the rendering pipeline.
//!
//! Every failure is fatal to the run: errors propagate immediately to the
//! caller, there is no retry and no partial output.

use vstd::prelude::*;
use vstd::string::StringExecFns;

verus! {

/// An error of the rendering pipeline.
#[derive(Debug)]
pub enum PipelineError {
    /// The input's extension names no registered format reader.
    UnsupportedFormat { extension: String },
    /// The input text is malformed for its format; `detail` carries the
    /// underlying parse diagnostic.
    Parse { detail: String },
    /// A template source failed to compile; `detail` carries the compile
    /// diagnostic.
    Compile { detail: String },
    /// A template failed to render against its context; `detail` carries the
    /// render diagnostic.
    Render { detail: String },
}

impl PipelineError {
    /// The text of this error's message.
    pub open spec fn message_view(&self) -> Seq<char> {
        match self {
            PipelineError::UnsupportedFormat { extension } => "Unsupported file format: "@
                + extension@ + ". Supported formats are: json, csv"@,
            PipelineError::Parse { detail } => detail@,
            PipelineError::Compile { detail } => detail@,
            PipelineError::Render { detail } => detail@,
        }
    }

    /// The human-readable message of this error. An unsupported format names
    /// the rejected extension and lists the supported extensions.
    pub fn message(&self) -> (r: String)
        ensures
            r@ == self.message_view(),
    {
        match self {
            PipelineError::UnsupportedFormat { extension } => {
                let mut m = "Unsupported file format: ".to_owned();
                m.append(extension.as_str());
                m.append(". Supported formats are: json, csv");
                m
            },
            PipelineError::Parse { detail } => detail.clone(),
            PipelineError::Compile { detail } => detail.clone(),
            PipelineError::Render { detail } => detail.clone(),
        }
    }
}

} // verus!
