//! Fitness score records: their storage encoding, and the rules that turn
//! requests into database queries and writes, and outcomes into responses.
pub mod decimal;
pub mod json;
pub mod query;
pub mod record;
pub mod store;
pub mod text;
