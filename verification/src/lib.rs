//! The items of a remote project, with their custom fields, as three SQL
//! tables: what the tables look like, what rows they hold, and which remote
//! calls a write to them comes to.

pub mod batch;
pub mod field;
pub mod gh;
pub mod github;
pub mod items;
pub mod output;
pub mod prompt;
pub mod schema;
pub mod storage;
pub mod update;
pub mod value;
