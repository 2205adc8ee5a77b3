//! Validation and decision logic of a small registration service: it issues
//! API keys to tenant/realm pairs and records third-party credentials against
//! an account identifier. Storage and transport are driven by the caller,
//! which performs the actions that the step functions return.

pub mod validation;
pub mod uuid_text;
pub mod service;
pub mod laws;
