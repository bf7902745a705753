//! A static linter for AWS IAM policy documents.
//!
//! [`policy::parse_policy`] reads a JSON document, [`rules::lint`] applies the
//! rules to its statements, and [`report::render_report`] writes the findings
//! down. Each function's contract says exactly what it returns; [`laws`] holds
//! what follows for the linter as a whole, and [`meaning`], [`outcomes`],
//! [`reading`] and [`writing`] what matching, the rules, the parser and the report
//! come to in terms of what is put in.

pub mod findings;
pub mod glob;
pub mod json;
pub mod laws;
pub mod meaning;
pub mod outcomes;
pub mod policy;
pub mod reading;
pub mod report;
pub mod rules;
pub mod text;
pub mod writing;
