//! Read-back stage for spilled aggregation state: it turns spill descriptors
//! that point at storage into resident, column-sliced payloads.
pub mod descriptor;
pub mod error;
pub mod fetch;
pub mod layout;
pub mod port;
pub mod processor;
