//! The `hello` table function: the values it declares and produces, and the
//! bind / init / execute / release protocol its host drives.
pub mod schema;
pub mod vtab;
pub mod laws;
