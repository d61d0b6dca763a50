//! Memory of past interactions: the requests the memory store answers.

pub mod hits;
pub mod mock;
pub mod queries;
