//! Checks Asset Administration Shell documents against a JSON schema, either as
//! a whole environment or as a single submodel wrapped into an environment.

pub mod check;
pub mod embedded_data_specification;
pub mod error;
pub mod json;
pub mod mode;
pub mod schema;
