//! strkt: a verified structured-data renderer.
//!
//! Tabular records read from CSV or JSON sources are pushed through a
//! two-stage template pipeline: a per-record template renders each row into a
//! string fragment, and a global template composes all fragments into the
//! final document. Templates are in Handlebars format.

pub mod dispatch;
pub mod engine;
pub mod errors;
pub mod pipeline;
pub mod readers;
pub mod values;
