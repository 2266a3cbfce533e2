//! Rust SDK core for OpenFGA, the authorization system inspired by Google
//! Zanzibar: the request and response models and the response handling
//! shared by every API endpoint, with their behaviour stated as Verus
//! contracts.
pub mod apis;
pub mod models;
pub mod prelude;
