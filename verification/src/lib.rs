pub mod json;
pub mod bridge;
pub mod text;
pub mod pointer;
pub mod outside;
pub mod pointer_path;
pub mod redaction;
pub mod substitution;
pub mod shadow;
pub mod laws;
pub mod path_report;
pub mod path_safety;
pub mod promises;
