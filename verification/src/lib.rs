//! Core of a device-checkout service: a catalog of devices grouped into
//! pools, a reservation state machine driven by conditional updates, and
//! owner validation against a chat-directory snapshot with a local registry
//! of custom owners.  The HTTP layer and the persistence layer sit outside
//! this crate and call into the operations defined here.

pub mod directory;
pub mod engine;
pub mod models;
pub mod routes;
pub mod runtime;
pub mod store;
pub mod text;
