//! Decoding of relational rows into domain value objects.
//!
//! A `Row` is a set of named, typed columns as a query returns them. The
//! decoders read the columns a domain type needs and either construct the
//! value object or report the first failing column. Nothing is written back
//! to rows, and no state survives a call.

pub mod currency;
pub mod error;
pub mod intern;
pub mod row;
pub mod signal;
pub mod text;
