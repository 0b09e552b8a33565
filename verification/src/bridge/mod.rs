//! Durable transfer cards: requests, routes, activity records, the in-memory
//! queue and the projection of engine snapshots onto cards.
pub mod activity;
pub mod driver;
pub mod durable;
pub mod engine;
pub mod events;
pub mod labels;
pub mod manifest;
pub mod manifest_laws;
pub mod models;
pub mod projection;
pub mod queue;
pub mod queue_laws;
pub mod records;
pub mod reports;
pub mod routes;
pub mod session;
pub mod snapshot;
