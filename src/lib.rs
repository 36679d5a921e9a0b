//! Extraction of equation definitions from tables and annotated Markdown,
//! and the decisions of the per-equation render pipeline.
use vstd::prelude::*;

pub mod equation;
pub mod latex;
pub mod markdown;
pub mod render;
pub mod source;
pub mod table;
pub mod text;
pub mod viewer;

pub use equation::{Equation, FALLBACK_NAME};
pub use markdown::parse_markdown;
pub use source::detect_file_type;
pub use table::parse_table;
