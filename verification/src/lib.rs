//! Building blocks of a validator for vector search through ScyllaDB Alternator.

pub mod cluster;
pub mod create_table;
pub mod database;
pub mod delete_table;
pub mod interceptor;
pub mod json;
pub mod naming;
pub mod operations;
pub mod payload;
pub mod query;
pub mod request;
pub mod run;
pub mod scenario;
pub mod text;
pub mod update_table;
