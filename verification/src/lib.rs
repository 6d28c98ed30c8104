//! Credential registration: validation, normalisation, hashing and error
//! classification for an email/password store.

pub mod dto;
pub mod error_traits;
pub mod hasher;
pub mod laws;
pub mod model;
pub mod repository;
pub mod services;
pub mod store;
pub mod text;
