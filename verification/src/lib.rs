//! Verified core of a small consulting-workflow tracker: customers place
//! contracts, contracts receive requests, requests accumulate logged work
//! against a points budget. The storage lives in an embedded SQLite database
//! reached through rusqlite; every query and statement stands behind a trusted
//! wrapper whose contract speaks of an abstract view of the four tables, and
//! the logic around those wrappers — date handling, row decoding, and the
//! cumulative-usage aggregation — is verified.

pub mod cli;
pub mod date;
pub mod db;
pub mod laws;
pub mod records;
pub mod store;
pub mod usage;

pub use cli::{Cli, Command, Output};
pub use date::Date;
pub use records::{Contract, ContractRow, ContractUsage, CumulativeUsage, Customer, Error, Request,
    RequestRow, Work, WorkRow};
pub use store::DataStore;
