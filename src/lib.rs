//! Typed row projection: schemas that describe how the fields of a structure are
//! read from the columns of a query result, and the extraction engine that runs them.
pub mod row;
pub mod schema;
pub mod extract;
pub mod laws;
