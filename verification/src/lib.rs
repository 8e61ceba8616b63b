//! License reports for lists of package identifiers.
//!
//! For each identifier a metadata evaluator is asked for the package's license
//! document. This library builds the evaluator's query, reads the document it
//! answers with, and renders the comma-separated table of one row per package.

pub mod evaluator;
pub mod json;
pub mod license;
pub mod report;
pub mod table;
