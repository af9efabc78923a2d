//! Presentation of an analysis.

pub mod json;
pub mod ranking;
pub mod text;

pub use text::TextFormatter;

use crate::analyzer::Analysis;
use vstd::prelude::*;

verus! {

/// Something that renders an analysis as a document.
pub trait OutputFormatter {
    /// The document for an analysis.
    fn format(&self, analysis: &Analysis) -> String;
}

} // verus!
