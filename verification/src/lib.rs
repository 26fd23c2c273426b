//! Verified core of a package-registry search tool.
//!
//! The library builds the HTTP request configurations for a set of public
//! package registries (a crate registry, two npm search services, a container
//! image index and a PHP package index), models the JSON documents that the
//! command-line front end passes around, and decides how an invocation is
//! dispatched and how failures are rendered. The HTTP transport itself, JSON
//! parsing and file output live outside the library.

pub mod cli;
pub mod client;
pub mod crates;
pub mod decimal;
pub mod errors;
pub mod json;
pub mod npm;
pub mod params;
pub mod sources;
pub mod text;

pub use client::{ApiClient, ApiClientBuilder, GetRequest};
