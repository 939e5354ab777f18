//! An in-process marketplace ledger: users, tradable commodities and the
//! asks and bids placed on them, with listing queries and snapshot helpers.
pub mod auth;
pub mod commodity;
pub mod config;
pub mod ids;
pub mod offer;
pub mod orders;
pub mod query;
pub mod records;
pub mod snapshot;
pub mod state;
pub mod tables;
pub mod user;
