//! Maintenance of SQLite database files: reading the command line, listing
//! the user tables, running VACUUM, REINDEX and ANALYZE on each of them, and
//! reporting how much smaller the file became.
pub mod configuration;
pub mod database;
pub mod logger;
pub mod numbers;
pub mod report;
