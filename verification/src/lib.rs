pub mod errors;
pub mod models;
pub mod routes;
pub mod validation;
