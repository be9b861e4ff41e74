//! The records of the state database and the rules for reading them back.

pub mod migrations;
pub mod repo;
