//! Structured input validation and request-scoped dependency resolution.
//!
//! The library has two halves. The validation half runs ordered rule chains
//! over string fields, collects every violation (not only the first) together
//! with locale data for later translation, and wraps successfully validated
//! input in types that can only be built by parsing. The context half builds
//! per-request service dependencies: it resolves the request's identity at
//! most once through a request-scoped slot, checks each dependency's
//! capability flags against that identity, and only then hands the dependency
//! builder a user context.

pub mod bucket;
pub mod context;
pub mod description;
pub mod form;
pub mod locale;
pub mod messages;
pub mod name;
pub mod password;
pub mod username;
pub mod validation;
