//! Local persistence and licensing core for a freelance-business desktop
//! application: an in-memory relational store with per-entity CRUD,
//! whole-dataset snapshot load/save with all-or-nothing replacement,
//! a one-shot legacy-snapshot migration, a trial clock, and the
//! interpretation of license-activation replies.

pub mod bulk;
pub mod digits;
pub mod error;
pub mod license;
pub mod migrate;
pub mod models;
pub mod old_models;
pub mod records;
pub mod store;
pub mod trial;

pub use error::Error;
