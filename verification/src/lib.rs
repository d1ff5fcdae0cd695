//! The document-generation core of a resume builder: user-entered resume
//! data is escaped where LaTeX requires it and substituted for the named
//! placeholders of a document template. Every function is specified by
//! the exact text it produces.

pub mod escape;
pub mod latex;
pub mod models;
pub mod resume;
pub mod text;

pub use escape::escape_latex;
pub use latex::generate_latex;
pub use resume::populate_template;
pub use text::replace_all;
