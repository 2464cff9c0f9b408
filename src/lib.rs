//! Client library for a cloud deployment management API with two deployment
//! styles, serverless projects and stateful deployments.
//!
//! The library resolves layered endpoint configuration, builds every request
//! (URL, fixed authentication headers, body) and checks every response, and
//! decides when a freshly created project is ready. Sending requests, reading
//! files and (de)serialising records are left to the caller.

pub mod cli;
pub mod client;
pub mod config;
pub mod create_deployment;
pub mod deployments;
pub mod poller;
pub mod raw;
pub mod serverless;
pub mod stateful;
