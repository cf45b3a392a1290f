//! Typed, cursor-based access to the rows of a query response.
//!
//! A query against the warehouse comes back as a column schema plus rows of
//! wire-format cells (strings, nulls, nested rows, or arrays thereof).  The
//! [`result_set::ResultSet`] reader presents that payload as a forward-only
//! cursor with typed per-column accessors, converting each cell from its wire
//! string into the requested native type.

pub mod model;
pub mod parse;
pub mod result_set;
