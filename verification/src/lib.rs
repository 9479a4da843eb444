//! Fulfillment lifecycle tracking: the status state machine of a fulfillment
//! and the admission of line items to it.
//!
//! A fulfillment is created `New` and moves one status at a time along
//! `New`, `Initialized`, `InProgress`, `Fulfilled`. Line items are attached
//! to it while it is `New` and at no other time. Every write that depends
//! on what is stored is one conditional write: it checks and changes in a
//! single step, and reports by the number of rows it changed.
//!
//! - [`model`] holds the records.
//! - [`service`] holds the services a storage provider offers, the model of
//!   what a provider stores, and what holds of every store.
//! - [`provider`] holds a provider that keeps everything in memory, and what
//!   the SQLite provider computes around the statements it runs.
//! - [`handle`] holds what the HTTP handlers answer.
//! - [`text`] writes numbers out; [`trusted`] holds what is taken on trust
//!   about `sqlx` and `http`.

pub mod handle;
pub mod model;
pub mod provider;
pub mod service;
pub mod text;
pub mod trusted;
