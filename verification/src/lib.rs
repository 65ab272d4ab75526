//! Request-handling logic of the Hablemos community website backend:
//! input validation, SQL query plans for listing and updating, pagination,
//! client address extraction, and the mapping of outcomes to API errors.

pub mod ids;
pub mod text;
pub mod validation;
pub mod models;
pub mod repo;
pub mod routes;
