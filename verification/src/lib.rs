//! Lowering of type-inference and body-validation findings into the
//! diagnostics that the IDE layer reports, over a plain-value picture of the
//! syntax, the source maps and the database.
pub mod syntax;
pub mod ids;
pub mod db;
pub mod source_map;
pub mod findings;
pub mod diagnostics;
pub mod into_any;
pub mod lower_path;
pub mod lower_inference;
pub mod lower_body;
pub mod laws;
pub mod laws_data;
