//! Request handlers for a small user service: a greeting and a user registration
//! that stores one record per call.

pub mod clock;
pub mod config;
pub mod greeting;
pub mod invocation;
pub mod json;
pub mod record;
pub mod registration;
pub mod request;
pub mod response;
pub mod text;
