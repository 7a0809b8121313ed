//! Authentication core: credential checks, password hashing, signed session
//! tokens, the request gate and an in-memory user store.

pub mod error;
pub mod hex;
pub mod signing;
pub mod token;
pub mod password;
pub mod store;
pub mod api;
pub mod auth;
pub mod gate;
pub mod config;
