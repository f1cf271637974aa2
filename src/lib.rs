//! Client-side access layer for the Geyser streaming service: endpoint and
//! credential validation, the per-call credential interceptor, and the
//! request values that the remote calls carry.
pub mod error;
pub mod interceptor;
pub mod client;
pub mod request;
