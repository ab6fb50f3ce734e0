//! Work-unit coordination for a distributed module-archive scraper.
//!
//! A server hands out numbered work units to named workers, tracks each unit
//! through `Vacant -> Working -> Complete`, and only lets the worker that took a
//! unit complete it. A miner scrapes every module id that belongs to a unit and
//! talks to the server through a short-lived client whose final status line it
//! reads back.

pub mod common;
pub mod text;
pub mod report;
pub mod server;
pub mod miner;
pub mod client;
pub mod protocol;
