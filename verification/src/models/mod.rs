//! The request inputs, filters and response metadata of the API, with their
//! validation rules.

pub mod movie;
pub mod podcast;
