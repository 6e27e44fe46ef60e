//! The template engine wrapper.
//!
//! A `TemplateEngine` holds a handlebars registry with the two templates the
//! pipeline needs, compiled once: `record` (rendered once per record) and
//! `global` (rendered once over all fragments). Rendering is read-only
//! against the compiled templates. The registry is otherwise in its default
//! configuration; in particular strict mode is off, so a field that a
//! template references but the context lacks substitutes as empty text
//! rather than failing.
//!
//! What a render call returns is named by the uninterpreted functions
//! `record_rendering` and `global_rendering`. Both take the two template
//! sources (a template may reference the other one as a partial, so the
//! result depends on both) and the context; for a fixed default registry the
//! result is a function of these alone.

use vstd::prelude::*;
use crate::errors::PipelineError;
use crate::values::NormalizedRecord;

verus! {

#[verifier::external_type_specification]
#[verifier::external_body]
pub struct ExHandlebars<'reg>(handlebars::Handlebars<'reg>);

/// Whether a handlebars template source compiles; a property of the source
/// text alone.
pub uninterp spec fn template_compiles(src: Seq<char>) -> bool;

/// The outcome of rendering the `record` template over a string-to-string
/// context, in a default registry holding exactly the templates `record` and
/// `global` with the given sources: `None` when rendering fails, otherwise
/// the rendered fragment.
pub uninterp spec fn record_rendering(
    record_src: Seq<char>,
    global_src: Seq<char>,
    fields: Seq<(Seq<char>, Seq<char>)>,
) -> Option<Seq<char>>;

/// The outcome of rendering the `global` template over a context whose
/// single field `data` holds the fragment list, in a default registry
/// holding exactly the templates `record` and `global` with the given
/// sources: `None` when rendering fails, otherwise the final document.
pub uninterp spec fn global_rendering(
    record_src: Seq<char>,
    global_src: Seq<char>,
    fragments: Seq<Seq<char>>,
) -> Option<Seq<char>>;

/// The template engine: a default handlebars registry holding exactly the
/// two compiled templates, plus the recorded sources they were compiled
/// from. The fields are private and `new` is the only constructor, so the
/// recorded sources are always exactly the registered ones.
pub struct TemplateEngine {
    registry: handlebars::Handlebars<'static>,
    record_src: Ghost<Seq<char>>,
    global_src: Ghost<Seq<char>>,
}

/// Relies on `handlebars::Handlebars::new`: an empty registry in the default
/// configuration.
#[verifier::external_body]
fn new_registry() -> handlebars::Handlebars<'static> {
    handlebars::Handlebars::new()
}

/// Relies on `handlebars::Handlebars::register_template_string`: it succeeds
/// exactly when the template source compiles (a property of the source text
/// alone), and on failure returns the compile diagnostic and leaves the
/// registry unchanged.
#[verifier::external_body]
fn register_template(
    registry: &mut handlebars::Handlebars<'static>,
    name: &str,
    src: &str,
) -> (r: Result<(), String>)
    ensures
        r is Ok <==> template_compiles(src@),
{
    registry.register_template_string(name, src).map_err(|e| e.to_string())
}

/// Relies on `handlebars::Handlebars::render` of the template `record` over
/// a map context: for a default registry holding exactly the templates
/// `record` and `global`, the outcome is a function of the two template
/// sources and the context fields alone.
#[verifier::external_body]
fn render_record_raw(engine: &TemplateEngine, record: &NormalizedRecord) -> (r: Result<
    String,
    String,
>)
    ensures
        r is Ok <==> record_rendering(
            engine.record_template(),
            engine.global_template(),
            record@,
        ) is Some,
        r matches Ok(s) ==> record_rendering(
            engine.record_template(),
            engine.global_template(),
            record@,
        ) == Some(s@),
{
    let ctx: std::collections::BTreeMap<&str, &str> =
        record.fields.iter().map(|(k, v)| (k.as_str(), v.as_str())).collect();
    engine.registry.render("record", &ctx).map_err(|e| e.to_string())
}

/// Relies on `handlebars::Handlebars::render` of the template `global` over
/// the context `{ "data": fragments }`: for a default registry holding
/// exactly the templates `record` and `global`, the outcome is a function of
/// the two template sources and the fragment list alone.
#[verifier::external_body]
fn render_global_raw(engine: &TemplateEngine, fragments: &Vec<String>) -> (r: Result<
    String,
    String,
>)
    ensures
        r is Ok <==> global_rendering(
            engine.record_template(),
            engine.global_template(),
            fragments.deep_view(),
        ) is Some,
        r matches Ok(s) ==> global_rendering(
            engine.record_template(),
            engine.global_template(),
            fragments.deep_view(),
        ) == Some(s@),
{
    let mut ctx: std::collections::BTreeMap<&str, &Vec<String>> =
        std::collections::BTreeMap::new();
    ctx.insert("data", fragments);
    engine.registry.render("global", &ctx).map_err(|e| e.to_string())
}

impl TemplateEngine {
    /// The source text the `record` template was compiled from.
    pub closed spec fn record_template(&self) -> Seq<char> {
        self.record_src@
    }

    /// The source text the `global` template was compiled from.
    pub closed spec fn global_template(&self) -> Seq<char> {
        self.global_src@
    }

    /// Compile the two templates into a fresh engine. Fails with
    /// `CompileError` exactly when one of the sources does not compile; the
    /// record template is compiled first, so its diagnostic wins when both
    /// are invalid.
    pub fn new(record_tpl: &str, global_tpl: &str) -> (r: Result<TemplateEngine, PipelineError>)
        ensures
            r is Ok <==> template_compiles(record_tpl@) && template_compiles(global_tpl@),
            r matches Ok(e) ==> e.record_template() == record_tpl@ && e.global_template()
                == global_tpl@,
            r matches Err(e) ==> e is Compile,
    {
        let mut registry = new_registry();
        match register_template(&mut registry, "record", record_tpl) {
            Ok(u) => u,
            Err(detail) => {
                return Err(PipelineError::Compile { detail });
            },
        }
        match register_template(&mut registry, "global", global_tpl) {
            Ok(u) => u,
            Err(detail) => {
                return Err(PipelineError::Compile { detail });
            },
        }
        Ok(
            TemplateEngine {
                registry,
                record_src: Ghost(record_tpl@),
                global_src: Ghost(global_tpl@),
            },
        )
    }

    /// Render one normalized record through the `record` template into a
    /// fragment, or fail with `RenderError`.
    pub fn render_record(&self, record: &NormalizedRecord) -> (r: Result<String, PipelineError>)
        ensures
            match r {
                Ok(s) => record_rendering(self.record_template(), self.global_template(), record@)
                    == Some(s@),
                Err(e) => record_rendering(
                    self.record_template(),
                    self.global_template(),
                    record@,
                ) is None && e is Render,
            },
    {
        match render_record_raw(self, record) {
            Ok(s) => Ok(s),
            Err(detail) => Err(PipelineError::Render { detail }),
        }
    }

    /// Render the collected fragments through the `global` template, as the
    /// context field `data`, into the final document, or fail with
    /// `RenderError`.
    pub fn render_global(&self, fragments: &Vec<String>) -> (r: Result<String, PipelineError>)
        ensures
            match r {
                Ok(s) => global_rendering(
                    self.record_template(),
                    self.global_template(),
                    fragments.deep_view(),
                ) == Some(s@),
                Err(e) => global_rendering(
                    self.record_template(),
                    self.global_template(),
                    fragments.deep_view(),
                ) is None && e is Render,
            },
    {
        match render_global_raw(self, fragments) {
            Ok(s) => Ok(s),
            Err(detail) => Err(PipelineError::Render { detail }),
        }
    }
}

} // verus!
