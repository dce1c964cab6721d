//! Grade-distribution export pipeline: a session-bound export protocol for a
//! remote analytics dashboard, a tab-separated row parser, and an aggregator
//! that folds per-grade rows into one fixed 13-bucket record per course.

pub mod aggregate;
pub mod grades;
pub mod jsonpath;
pub mod pipeline;
pub mod protocol;
pub mod render;
pub mod requests;
pub mod row;
pub mod table;
pub mod text;

use vstd::prelude::*;

verus! {

} // verus!
