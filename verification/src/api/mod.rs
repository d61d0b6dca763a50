//! The HTTP interface: request and response models, admission control and
//! the answers of the health endpoints.

pub mod handlers;
pub mod middleware;
pub mod models;
pub mod state;
