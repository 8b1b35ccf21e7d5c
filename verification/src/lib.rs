//! Reconciliation of web-scenario monitoring configuration.
//!
//! For every monitoring item whose key follows the naming convention
//! `vhost.item[<url>]`, the library decides whether a synthetic web check
//! (a "web scenario") and its alerting trigger must be created, and computes
//! the exact objects to create.  Fetching the snapshot and performing the
//! remote creation calls is transport work left to the surrounding program;
//! the library's functions are pure decisions over plain values.

pub mod model;
pub mod naming;
pub mod outcome;
pub mod reconciler;
