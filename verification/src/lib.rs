//! Core of a small user-account service: the account table with its
//! uniqueness rule, salted password hashing, the four request handlers and
//! the mapping from failures to HTTP status codes.

pub mod config;
pub mod error;
pub mod guarantees;
pub mod models;
pub mod password;
pub mod routes;
pub mod store;
