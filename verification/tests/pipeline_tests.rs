use strkt::dispatch::{dispatch, InputFormat};
use strkt::engine::TemplateEngine;
use strkt::errors::PipelineError;
use strkt::pipeline::{render_document, run_pipeline};

fn json_input() -> &'static str {
    "[{\"name\":\"Alice\",\"age\":30,\"city\":\"New York\"},{\"name\":\"Bob\",\"age\":25,\"city\":\"San Francisco\"}]"
}

fn csv_input() -> &'static str {
    "name,age,city\nAlice,30,New York\nBob,25,San Francisco\n"
}

fn record_template() -> &'static str {
    "{{name}} ({{age}}) - {{city}}"
}

fn global_template() -> &'static str {
    "{{#each data}}{{this}}\n{{/each}}"
}

#[test]
fn test_unknown_file_format() {
    let r = render_document("unknown", "", record_template(), global_template());
    let e = r.expect_err("an unknown extension must be rejected");
    assert!(e.message().contains("Unsupported file format: unknown"));
}

#[test]
fn test_json_input() {
    let out = render_document("json", json_input(), record_template(), global_template())
        .expect("the json pipeline must succeed");
    assert!(out.contains("Alice"));
    assert!(out.contains("30"));
    assert!(out.contains("New York"));
    assert!(out.contains("Bob"));
    assert!(out.contains("25"));
    assert!(out.contains("San Francisco"));
}

#[test]
fn test_csv_input() {
    let out = render_document("csv", csv_input(), record_template(), global_template())
        .expect("the csv pipeline must succeed");
    assert!(out.contains("Alice"));
    assert!(out.contains("30"));
    assert!(out.contains("New York"));
    assert!(out.contains("Bob"));
    assert!(out.contains("25"));
    assert!(out.contains("San Francisco"));
}

#[test]
fn test_json_fragments_in_source_order() {
    let out = render_document("json", json_input(), record_template(), global_template())
        .expect("the json pipeline must succeed");
    assert_eq!(out, "Alice (30) - New York\nBob (25) - San Francisco\n");
}

#[test]
fn test_csv_and_json_render_identically() {
    let from_json = render_document("json", json_input(), record_template(), global_template())
        .expect("the json pipeline must succeed");
    let from_csv = render_document("csv", csv_input(), record_template(), global_template())
        .expect("the csv pipeline must succeed");
    assert_eq!(from_json, from_csv);
}

#[test]
fn test_unsupported_format_message_is_exact() {
    let r = dispatch("unknown");
    let e = r.expect_err("an unknown extension must be rejected");
    assert_eq!(
        e.message(),
        "Unsupported file format: unknown. Supported formats are: json, csv"
    );
}

#[test]
fn test_dispatch_table() {
    assert!(matches!(dispatch("json"), Ok(InputFormat::Json)));
    assert!(matches!(dispatch("csv"), Ok(InputFormat::Csv)));
    assert!(matches!(
        dispatch("JSON"),
        Err(PipelineError::UnsupportedFormat { .. })
    ));
    assert!(matches!(
        dispatch(""),
        Err(PipelineError::UnsupportedFormat { .. })
    ));
}

#[test]
fn test_empty_json_array_renders_empty_document() {
    let out = render_document("json", "[]", record_template(), global_template())
        .expect("an empty array must still render");
    assert_eq!(out, "");
}

#[test]
fn test_csv_header_only_renders_empty_document() {
    let out = render_document("csv", "name,age,city\n", record_template(), global_template())
        .expect("a header-only csv must still render");
    assert_eq!(out, "");
}

#[test]
fn test_missing_field_substitutes_empty() {
    // The policy pinned here: the engine's strict mode stays off, so a field
    // the record template references but the record lacks renders as empty
    // text rather than failing.
    let out = render_document(
        "json",
        "[{\"name\":\"Ada\"}]",
        "[{{name}}{{nickname}}]",
        "{{#each data}}{{this}}{{/each}}",
    )
    .expect("a missing field must render as empty text");
    assert_eq!(out, "[Ada]");
}

#[test]
fn test_invalid_json_is_a_parse_error() {
    let r = render_document("json", "not json at all", record_template(), global_template());
    assert!(matches!(r, Err(PipelineError::Parse { .. })));
}

#[test]
fn test_json_top_level_object_is_a_parse_error() {
    let r = render_document(
        "json",
        "{\"name\":\"Alice\"}",
        record_template(),
        global_template(),
    );
    assert!(matches!(r, Err(PipelineError::Parse { .. })));
}

#[test]
fn test_json_non_object_element_is_a_parse_error() {
    let r = render_document("json", "[1,2,3]", record_template(), global_template());
    assert!(matches!(r, Err(PipelineError::Parse { .. })));
}

#[test]
fn test_ragged_csv_row_is_a_parse_error() {
    let r = render_document(
        "csv",
        "name,age,city\nAlice,30\n",
        record_template(),
        global_template(),
    );
    assert!(matches!(r, Err(PipelineError::Parse { .. })));
}

#[test]
fn test_unclosed_block_is_a_compile_error() {
    let r = render_document("json", "[]", "{{#each data}}", global_template());
    assert!(matches!(r, Err(PipelineError::Compile { .. })));
}

#[test]
fn test_invalid_global_template_is_a_compile_error() {
    let r = render_document("json", "[]", record_template(), "{{#each data}}{{this}}");
    assert!(matches!(r, Err(PipelineError::Compile { .. })));
}

#[test]
fn test_missing_partial_is_a_render_error() {
    let r = render_document(
        "json",
        "[{\"name\":\"Ada\"}]",
        "{{> nowhere}}",
        global_template(),
    );
    assert!(matches!(r, Err(PipelineError::Render { .. })));
}

#[test]
fn test_engine_renders_repeatedly() {
    let engine = TemplateEngine::new(record_template(), global_template())
        .expect("both templates compile");
    let first = run_pipeline(&engine, "json", json_input()).expect("the first run must succeed");
    let second = run_pipeline(&engine, "csv", csv_input()).expect("the second run must succeed");
    assert_eq!(first, second);
}

#[test]
fn test_non_string_values_render_as_compact_json() {
    let input = "[{\"a\":{\"x\":1},\"b\":[1,2],\"c\":true,\"d\":null,\"e\":2.5}]";
    let out = render_document(
        "json",
        input,
        "{{{a}}}|{{{b}}}|{{c}}|{{d}}|{{e}}",
        "{{#each data}}{{{this}}}{{/each}}",
    )
    .expect("the pipeline must succeed");
    assert_eq!(out, "{\"x\":1}|[1,2]|true|null|2.5");
}

#[test]
fn test_csv_cells_are_strings_verbatim() {
    let out = render_document(
        "csv",
        "text\n  spaced  \n",
        "<{{text}}>",
        "{{#each data}}{{{this}}}{{/each}}",
    )
    .expect("the pipeline must succeed");
    assert_eq!(out, "<  spaced  >");
}
