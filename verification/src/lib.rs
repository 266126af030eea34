//! Persistence and analysis layer of a personal journaling tool: schema
//! verification, entity access over one owned SQLite connection, text
//! framing, keyword-based sentiment and topic analysis, and summaries.

pub mod ai;
pub mod dao;
pub mod db;
pub mod error;
pub mod insights;
pub mod interactive;
pub mod models;
pub mod preprocess;
pub mod store;
pub mod summary;
pub mod text;
