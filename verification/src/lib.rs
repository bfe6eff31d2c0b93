//! A phone book of users with a conditional-GET cache: the verified core of a small
//! HTTP backend. The HTTP server, the SQLite pool and the JSON (de)serialisation of
//! requests and responses live in `app/`; this crate holds the data model, the
//! rules that decide each response, and the entity-tag cache that backs them.
pub mod model;
pub mod json;
pub mod entity_tag;
pub mod db;
pub mod appstate;
pub mod api;
