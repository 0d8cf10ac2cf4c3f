//! A small educational-content service core: accounts, courses and topics kept
//! in an in-memory record store, with signed session tokens and role rules.

pub mod auth;
pub mod codec;
pub mod course;
pub mod config;
pub mod handlers;
pub mod laws;
pub mod models;
pub mod service;
pub mod store;
