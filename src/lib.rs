//! Student directory: registration, login and sequential matriculation numbers.
mod chars;
pub mod error;
pub mod matric;
pub mod password;
pub mod student;
pub mod registry;
pub mod service;
pub mod laws;
pub mod config;
