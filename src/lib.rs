//! Credential hashing, session-gated authorization and transactional
//! resource tables for a small multi-resource backend.

pub mod error;
pub mod hasher;
pub mod session;
pub mod models;
pub mod repository;
pub mod users;
pub mod handlers;
pub mod outcome;
