//! Authentication, session and retrieval-augmented chat rules of a web backend,
//! with their contracts proved by Verus.

pub mod app_error;
mod clock;
pub mod errors;
pub mod text;
pub mod email;
pub mod entities;
pub mod ports;
pub mod session_cookie;
pub mod google;
pub mod jwt;
pub mod http;
pub mod auth;
pub mod chat;
pub mod ingest;
pub mod persistence;
pub mod mail;
