//! A typed client for the REST API of the bitFlyer exchange: what a request
//! looks like on the wire, how a private request is signed, and what the
//! answers mean.

pub mod api;
pub mod codec;
pub mod decimal;
pub mod deserializer;
pub mod entity;
pub mod error;
pub mod json;
pub mod text;
