//! Core logic of a worker that drains a queue of proof-verification requests.

pub mod address;
pub mod binding;
pub mod ciphertext;
pub mod consumer;
pub mod hashing;
pub mod pipeline;
pub mod request;
pub mod service;
pub mod tenant_keys;
