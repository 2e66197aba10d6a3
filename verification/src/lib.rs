//! Authentication logic for a small user service: request validation,
//! password hashing, bearer tokens, header authorization and the decisions
//! taken around the user store, with uniform error responses.

pub mod text;
pub mod error;
pub mod claims;
pub mod token;
pub mod password;
pub mod validation;
pub mod users;
pub mod extract;
pub mod service;
pub mod config;
