//! The consistency and identity layer of a small business-networking backend.
//!
//! Request handlers describe what has to happen as a [`plan::Plan`]; a
//! [`plan::Session`] steps such a plan one store answer at a time, and whoever
//! drives the session talks to the document store.
pub mod radix;
pub mod identity;
pub mod clock;
pub mod credential;
pub mod models;
pub mod store;
pub mod plan;
pub mod recipe;
pub mod model;
pub mod routes;
pub mod laws;
