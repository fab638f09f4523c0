//! Interactive application-packaging metadata: field validation, rendering of
//! the `app.toml` configuration fragment, and the file-write conflict state
//! machine, all with verified contracts.

pub mod chars;
pub mod parse;
pub mod record;
pub mod repo;
pub mod text;
pub mod version;
pub mod writer;
