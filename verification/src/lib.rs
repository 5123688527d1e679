//! The database layer of the passcode forwarder: the SQL it runs, the
//! decisions it takes between statements, and what those do to the tables.
pub mod broadcast;
pub mod database;
pub mod dialect;
pub mod laws;
pub mod model;
pub mod session;
pub mod startup;
pub mod statement;
pub mod types;
