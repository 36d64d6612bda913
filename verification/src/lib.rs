//! Casts between the scalar types of SQL, and the values of a SQL program as a
//! SQL logic test shows them.
//!
//! - [`casts`] holds the cast matrix: for each pair of types a function from the
//!   one to the other, in every combination of nullable and not.
//! - [`sqlvalue`] holds a value whose type is known only at run time, a row of
//!   such values, and their text under a format code.
//! - [`text`] writes and reads integers and booleans, and [`integer`] narrows
//!   integers: both are proved from the ground up.
//! - [`decimal`] and [`float`] are where the library meets `rust_decimal` and
//!   `dbsp`: what those crates compute is named there, and taken on trust.
//! - [`interval`] and [`geopoint`] hold the durations and the points that a few
//!   casts take.
#![allow(non_snake_case)]
pub mod casts;
pub mod decimal;
pub mod float;
pub mod geopoint;
pub mod integer;
pub mod interval;
pub mod sqlvalue;
pub mod text;
