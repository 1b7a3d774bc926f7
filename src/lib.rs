//! Typed GitHub pull-request records, and their decoding from REST API JSON
//! payloads with a strict required/optional field discipline.

pub mod json;
pub mod error;
pub mod field;
pub mod model;
pub mod text;
pub mod decode;
pub mod lemmas;
