//! Read-only access to the Bear note-taking app's Core Data database.
//!
//! The library discovers the version-specific names of Bear's schema,
//! synthesizes a stable, normalized relation surface over it (`notes`,
//! `tags`, `note_tags`, `note_links`), composes query text against that
//! surface, and turns raw result cells into typed columns.
//!
//! Everything here is pure: opening the database, running statements and
//! reading rows is left to the caller, which hands the results in as plain
//! values.

mod decimal;
mod models;
pub mod query;
pub mod schema;
pub mod text;
pub mod table;

pub use models::{Note, NoteId, Tag, TagId, TagsMap, UnixTime};
pub use query::{NotesQuery, Queryable, SearchQuery, SortOn, SortOrder, Statement};
pub use schema::{discover_metadata, generate_normalizing_cte, BearDbMetadata, SchemaDiscoveryError, TableInfo};
pub use table::{rows_to_table, Table, TabulizeError};
