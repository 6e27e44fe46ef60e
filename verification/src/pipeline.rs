//! The rendering pipeline.
//!
//! Records flow one-directionally: input text is parsed into records, each
//! record is normalized and rendered through the `record` template into a
//! fragment, in source order, and the fragment collection is rendered
//! through the `global` template into the final document. The first failure
//! of any stage aborts the whole run: no partial output is produced.

use vstd::prelude::*;
use crate::dispatch::{dispatch, format_of_extension, InputFormat};
use crate::engine::{global_rendering, record_rendering, template_compiles, TemplateEngine};
use crate::errors::PipelineError;
use crate::readers::{read_records, records_of};
use crate::values::{normalize_record, normalized_record, records_view, RecordV};

verus! {

/// What the pipeline is specified to produce for given template sources,
/// extension and input text.
pub enum PipelineOutcome {
    /// Every stage succeeded; the field is the final document.
    Rendered(Seq<char>),
    /// The extension names no registered format reader.
    NoSuchFormat,
    /// The input text failed to parse.
    ParseFailed,
    /// A per-record render or the global render failed.
    RenderFailed,
}

/// The fragment outcomes of a record sequence: element `i` is the outcome of
/// rendering record `i`, normalized, through the `record` template.
pub open spec fn fragment_outcomes(
    record_src: Seq<char>,
    global_src: Seq<char>,
    recs: Seq<RecordV>,
) -> Seq<Option<Seq<char>>> {
    recs.map_values(|r: RecordV| record_rendering(record_src, global_src, normalized_record(r)))
}

/// Whether every fragment rendered.
pub open spec fn all_rendered(fragments: Seq<Option<Seq<char>>>) -> bool {
    forall|i: int| 0 <= i < fragments.len() ==> fragments[i] is Some
}

/// The rendered texts of a fully rendered fragment sequence, in order.
pub open spec fn rendered_texts(fragments: Seq<Option<Seq<char>>>) -> Seq<Seq<char>> {
    fragments.map_values(|o: Option<Seq<char>>| o.unwrap())
}

/// The outcome of the whole pipeline, as a function of the two template
/// sources, the input's extension and the input text.
pub open spec fn pipeline_outcome(
    record_src: Seq<char>,
    global_src: Seq<char>,
    ext: Seq<char>,
    input: Seq<char>,
) -> PipelineOutcome {
    match format_of_extension(ext) {
        Option::None => PipelineOutcome::NoSuchFormat,
        Option::Some(fmt) => match records_of(fmt, input) {
            Option::None => PipelineOutcome::ParseFailed,
            Option::Some(recs) => {
                let fragments = fragment_outcomes(record_src, global_src, recs);
                if all_rendered(fragments) {
                    match global_rendering(record_src, global_src, rendered_texts(fragments)) {
                        Option::Some(doc) => PipelineOutcome::Rendered(doc),
                        Option::None => PipelineOutcome::RenderFailed,
                    }
                } else {
                    PipelineOutcome::RenderFailed
                }
            },
        },
    }
}

/// Run the pipeline with an already compiled engine: dispatch on the
/// extension, read the records, render each into a fragment in source order,
/// then render the fragment collection through the `global` template.
pub fn run_pipeline(engine: &TemplateEngine, extension: &str, input: &str) -> (r: Result<
    String,
    PipelineError,
>)
    ensures
        match r {
            Ok(doc) => pipeline_outcome(
                engine.record_template(),
                engine.global_template(),
                extension@,
                input@,
            ) == PipelineOutcome::Rendered(doc@),
            Err(e) => {
                let outcome = pipeline_outcome(
                    engine.record_template(),
                    engine.global_template(),
                    extension@,
                    input@,
                );
                match e {
                    PipelineError::UnsupportedFormat { extension: x } => outcome
                        == PipelineOutcome::NoSuchFormat && x@ == extension@,
                    PipelineError::Parse { .. } => outcome == PipelineOutcome::ParseFailed,
                    PipelineError::Render { .. } => outcome == PipelineOutcome::RenderFailed,
                    PipelineError::Compile { .. } => false,
                }
            },
        },
{
    let ghost record_src = engine.record_template();
    let ghost global_src = engine.global_template();
    let format = match dispatch(extension) {
        Ok(f) => f,
        Err(e) => {
            return Err(e);
        },
    };
    let records = match read_records(format, input) {
        Ok(recs) => recs,
        Err(e) => {
            return Err(e);
        },
    };
    let ghost recs = records_view(records@);
    let ghost outcomes = fragment_outcomes(record_src, global_src, recs);
    let mut fragments: Vec<String> = Vec::new();
    let mut i: usize = 0;
    while i < records.len()
        invariant
            i <= records.len(),
            fragments@.len() == i,
            record_src == engine.record_template(),
            global_src == engine.global_template(),
            format_of_extension(extension@) == Some(format),
            records_of(format, input@) == Some(recs),
            recs == records_view(records@),
            outcomes == fragment_outcomes(record_src, global_src, recs),
            recs.len() == records@.len(),
            forall|k: int| 0 <= k < i ==> #[trigger] outcomes[k] == Some(fragments@[k]@),
        decreases records.len() - i,
    {
        let normalized = normalize_record(&records[i]);
        proof {
            assert(recs[i as int] == records@[i as int]@);
            assert(normalized@ == normalized_record(recs[i as int]));
            assert(outcomes[i as int] == record_rendering(
                record_src,
                global_src,
                normalized_record(recs[i as int]),
            ));
        }
        let fragment = match engine.render_record(&normalized) {
            Ok(f) => f,
            Err(e) => {
                proof {
                    assert(record_rendering(record_src, global_src, normalized@) is None);
                    assert(outcomes[i as int] is None);
                    assert(!all_rendered(outcomes));
                }
                return Err(e);
            },
        };
        fragments.push(fragment);
        i = i + 1;
    }
    proof {
        assert(all_rendered(outcomes));
        assert(rendered_texts(outcomes) =~= fragments.deep_view());
    }
    match engine.render_global(&fragments) {
        Ok(doc) => Ok(doc),
        Err(e) => Err(e),
    }
}

/// Compile the two templates and run the pipeline over the input: the whole
/// conversion from input text to final document. Template compilation
/// happens first, before any input is examined.
pub fn render_document(extension: &str, input: &str, record_tpl: &str, global_tpl: &str) -> (r:
    Result<String, PipelineError>)
    ensures
        match r {
            Ok(doc) => template_compiles(record_tpl@) && template_compiles(global_tpl@)
                && pipeline_outcome(record_tpl@, global_tpl@, extension@, input@)
                == PipelineOutcome::Rendered(doc@),
            Err(e) => {
                let outcome = pipeline_outcome(record_tpl@, global_tpl@, extension@, input@);
                match e {
                    PipelineError::Compile { .. } => !(template_compiles(record_tpl@)
                        && template_compiles(global_tpl@)),
                    PipelineError::UnsupportedFormat { extension: x } => template_compiles(
                        record_tpl@,
                    ) && template_compiles(global_tpl@) && outcome == PipelineOutcome::NoSuchFormat
                        && x@ == extension@,
                    PipelineError::Parse { .. } => template_compiles(record_tpl@)
                        && template_compiles(global_tpl@) && outcome
                        == PipelineOutcome::ParseFailed,
                    PipelineError::Render { .. } => template_compiles(record_tpl@)
                        && template_compiles(global_tpl@) && outcome
                        == PipelineOutcome::RenderFailed,
                }
            },
        },
{
    let engine = match TemplateEngine::new(record_tpl, global_tpl) {
        Ok(e) => e,
        Err(e) => {
            return Err(e);
        },
    };
    run_pipeline(&engine, extension, input)
}

/// Format independence: two parsed inputs, of any supported formats, whose
/// record sequences agree after normalization drive the pipeline to the very
/// same outcome under the same templates.
pub proof fn lemma_format_independence(
    record_src: Seq<char>,
    global_src: Seq<char>,
    ext1: Seq<char>,
    input1: Seq<char>,
    ext2: Seq<char>,
    input2: Seq<char>,
    recs1: Seq<RecordV>,
    recs2: Seq<RecordV>,
)
    requires
        format_of_extension(ext1) is Some,
        format_of_extension(ext2) is Some,
        records_of(format_of_extension(ext1).unwrap(), input1) == Some(recs1),
        records_of(format_of_extension(ext2).unwrap(), input2) == Some(recs2),
        recs1.map_values(|r: RecordV| normalized_record(r)) == recs2.map_values(
            |r: RecordV| normalized_record(r),
        ),
    ensures
        pipeline_outcome(record_src, global_src, ext1, input1) == pipeline_outcome(
            record_src,
            global_src,
            ext2,
            input2,
        ),
{
    let norms1 = recs1.map_values(|r: RecordV| normalized_record(r));
    let norms2 = recs2.map_values(|r: RecordV| normalized_record(r));
    assert(recs1.len() == norms1.len());
    assert(recs2.len() == norms2.len());
    let fragments1 = fragment_outcomes(record_src, global_src, recs1);
    let fragments2 = fragment_outcomes(record_src, global_src, recs2);
    assert forall|i: int| 0 <= i < fragments1.len() implies fragments1[i] == fragments2[i] by {
        assert(norms1[i] == normalized_record(recs1[i]));
        assert(norms2[i] == normalized_record(recs2[i]));
    }
    assert(fragments1 =~= fragments2);
    if all_rendered(fragments1) {
        assert(rendered_texts(fragments1) =~= rendered_texts(fragments2));
    }
}

/// An empty dataset: with no records at all the fragment collection is
/// empty, and the pipeline's outcome is exactly the outcome of the global
/// render over the empty fragment list.
pub proof fn lemma_empty_dataset(
    record_src: Seq<char>,
    global_src: Seq<char>,
    ext: Seq<char>,
    input: Seq<char>,
)
    requires
        format_of_extension(ext) is Some,
        records_of(format_of_extension(ext).unwrap(), input) == Some(Seq::<RecordV>::empty()),
    ensures
        pipeline_outcome(record_src, global_src, ext, input) == (match global_rendering(
            record_src,
            global_src,
            Seq::<Seq<char>>::empty(),
        ) {
            Option::Some(doc) => PipelineOutcome::Rendered(doc),
            Option::None => PipelineOutcome::RenderFailed,
        }),
{
    let fragments = fragment_outcomes(record_src, global_src, Seq::<RecordV>::empty());
    assert(fragments =~= Seq::<Option<Seq<char>>>::empty());
    assert(all_rendered(fragments));
    assert(rendered_texts(fragments) =~= Seq::<Seq<char>>::empty());
}

} // verus!
