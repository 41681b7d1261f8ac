//! Values of a MySQL result set and their conversion to and from host types,
//! together with rows that give positional and named access to such values.
//!
//! * [`value`] holds the dynamically typed [`value::Value`] that the wire
//!   protocol delivers, the readers of the textual forms of dates and
//!   durations, and the host types for days, times of day and durations;
//! * [`value::convert`] converts a value to a host type in two steps, so that
//!   a value that does not convert comes back untouched, and makes values of
//!   host values;
//! * [`row`] holds the values of one row beside the columns that the rows of
//!   a result set share, and lets a value be copied out or moved out;
//! * [`packets`] holds what is known of a column.
//!
//! Every function states what it returns as a contract over the
//! mathematical content of its arguments, and is proved to keep it. What is
//! taken on trust of other crates is said where they are called.

pub mod packets;
pub mod row;
pub mod value;
