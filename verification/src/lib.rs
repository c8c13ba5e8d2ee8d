//! A small directory of user records: building records, listing their names in
//! order, and reporting the outcome of a lookup in a text-to-text mapping.

pub mod helper;
pub mod mapping;
pub mod user;
