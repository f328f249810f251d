//! Request-handling logic of a small REST service for user records:
//! response envelopes, error mapping, authorization and language
//! negotiation, localized messages, transaction decisions and the
//! credential encryption used for the database password.

pub mod text;
pub mod error;
pub mod api_response;
pub mod context;
pub mod auth;
pub mod messages;
pub mod setting;
pub mod rsa_crypt;
pub mod user;
pub mod repository;
pub mod transaction;
pub mod service;
