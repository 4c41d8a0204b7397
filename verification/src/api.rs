//! The requests the client puts to the service.

pub mod posts;
pub mod search;
