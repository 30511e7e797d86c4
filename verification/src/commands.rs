//! What the commands of the client decide and compute.

pub mod dashboard;
