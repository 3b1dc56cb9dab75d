//! A small notes service, layered: a repository that stores notes and tells
//! "not found" apart from other faults, a service that validates input before
//! it reaches the repository, and an HTTP layer that routes requests and turns
//! results and errors into status codes and JSON bodies.
//!
//! `laws` states what holds across calls: round trips, and what no update or
//! refused input can change.

pub mod error;
pub mod http;
pub mod laws;
pub mod note;
pub mod repository;
pub mod routing;
pub mod service;
pub mod stamps;
