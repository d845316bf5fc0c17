//! Core of a small desktop translator: it builds the request that asks the
//! translation service for one word, reads the service's answer, and decides,
//! step by step, what the background worker does next.

pub mod credential;
pub mod json;
pub mod keys;
pub mod laws;
pub mod request;
pub mod translation;
pub mod window;
pub mod worker;
