//! State and thread-history storage shared by SQLite and PostgreSQL.
pub mod any;
pub mod copied_tables;
pub mod counts;
pub mod create;
pub mod db;
pub mod destination;
pub mod error;
pub mod history;
pub mod history_sql;
pub mod json;
pub mod legacy;
pub mod migration;
pub mod owners;
pub mod placeholders;
pub mod projected_history;
pub mod projection;
pub mod rollout;
pub mod schema;
pub mod sqlite;
pub mod stored_history;
pub mod table_copy;
pub mod tables;
pub mod text;
pub mod time;
pub mod value;
