//! The cast matrix: one function for each pair of a source and a target type, in
//! each combination of nullable and not.
//!
//! A function is named after its target and then its source: `b` is `BOOLEAN`,
//! `decimal` is `DECIMAL`, `d` is `DOUBLE`, `f` is `FLOAT`, `s` is `VARCHAR`, `i16`,
//! `i32` and `i64` are `SMALLINT`, `INTEGER` and `BIGINT`, and `i` and `u` are the
//! machine words `isize` and `usize`. An `N` after a type marks it nullable.
//!
//! Null passes from a nullable source to a nullable target. A function with a
//! nullable source and a target that cannot be null asks that the source be
//! present. A text that does not write a value of the target type gives that
//! type's zero, never null.
pub mod to_boolean;
pub mod to_decimal;
pub mod to_double;
pub mod to_float;
pub mod to_geopoint;
pub mod to_int16;
pub mod to_int32;
pub mod to_int64;
pub mod to_interval;
pub mod to_string;

pub use to_boolean::{
    cast_to_b_b, cast_to_b_bN, cast_to_bN_b, cast_to_bN_bN, cast_to_b_decimal,
    cast_to_b_decimalN, cast_to_bN_decimal, cast_to_bN_decimalN, cast_to_b_d, cast_to_b_dN,
    cast_to_bN_d, cast_to_bN_dN, cast_to_b_f, cast_to_b_fN, cast_to_bN_f, cast_to_bN_fN,
    cast_to_b_s, cast_to_b_sN, cast_to_bN_s, cast_to_bN_sN, cast_to_b_i, cast_to_bN_i,
    cast_to_b_i16, cast_to_b_i16N, cast_to_bN_i16, cast_to_bN_i16N, cast_to_b_i32,
    cast_to_b_i32N, cast_to_bN_i32, cast_to_bN_i32N, cast_to_b_i64, cast_to_b_i64N,
    cast_to_bN_i64, cast_to_bN_i64N, cast_to_b_u, cast_to_bN_u
};
pub use to_decimal::{
    decimal_or_zero, cast_to_decimal_b, cast_to_decimal_bN, cast_to_decimalN_b,
    cast_to_decimalN_bN, cast_to_decimal_decimal, cast_to_decimal_decimalN,
    cast_to_decimalN_decimal, cast_to_decimalN_decimalN, cast_to_decimal_d, cast_to_decimal_dN,
    cast_to_decimalN_d, cast_to_decimalN_dN, cast_to_decimal_f, cast_to_decimal_fN,
    cast_to_decimalN_f, cast_to_decimalN_fN, cast_to_decimal_s, cast_to_decimal_sN,
    cast_to_decimalN_s, cast_to_decimalN_sN, cast_to_decimal_i, cast_to_decimalN_i,
    cast_to_decimal_i16, cast_to_decimal_i16N, cast_to_decimalN_i16, cast_to_decimalN_i16N,
    cast_to_decimal_i32, cast_to_decimal_i32N, cast_to_decimalN_i32, cast_to_decimalN_i32N,
    cast_to_decimal_i64, cast_to_decimal_i64N, cast_to_decimalN_i64, cast_to_decimalN_i64N,
    cast_to_decimal_u, cast_to_decimalN_u
};
pub use to_double::{
    double_or_zero, cast_to_d_b, cast_to_d_bN, cast_to_dN_b, cast_to_dN_bN, cast_to_d_decimal,
    cast_to_d_decimalN, cast_to_dN_decimal, cast_to_dN_decimalN, cast_to_d_d, cast_to_d_dN,
    cast_to_dN_d, cast_to_dN_dN, cast_to_d_f, cast_to_d_fN, cast_to_dN_f, cast_to_dN_fN,
    cast_to_d_s, cast_to_d_sN, cast_to_dN_s, cast_to_dN_sN, cast_to_d_i, cast_to_dN_i,
    cast_to_d_i16, cast_to_d_i16N, cast_to_dN_i16, cast_to_dN_i16N, cast_to_d_i32,
    cast_to_d_i32N, cast_to_dN_i32, cast_to_dN_i32N, cast_to_d_i64, cast_to_d_i64N,
    cast_to_dN_i64, cast_to_dN_i64N, cast_to_d_u, cast_to_dN_u
};
pub use to_float::{
    float_or_zero, cast_to_f_b, cast_to_f_bN, cast_to_fN_b, cast_to_fN_bN, cast_to_f_decimal,
    cast_to_f_decimalN, cast_to_fN_decimal, cast_to_fN_decimalN, cast_to_f_d, cast_to_f_dN,
    cast_to_fN_d, cast_to_fN_dN, cast_to_f_f, cast_to_f_fN, cast_to_fN_f, cast_to_fN_fN,
    cast_to_f_s, cast_to_f_sN, cast_to_fN_s, cast_to_fN_sN, cast_to_f_i, cast_to_fN_i,
    cast_to_f_i16, cast_to_f_i16N, cast_to_fN_i16, cast_to_fN_i16N, cast_to_f_i32,
    cast_to_f_i32N, cast_to_fN_i32, cast_to_fN_i32N, cast_to_f_i64, cast_to_f_i64N,
    cast_to_fN_i64, cast_to_fN_i64N, cast_to_f_u, cast_to_fN_u
};
pub use to_geopoint::{
    cast_to_geopointN_geopoint
};
pub use to_int16::{
    cast_to_i16_b, cast_to_i16_bN, cast_to_i16N_b, cast_to_i16N_bN, cast_to_i16_decimal,
    cast_to_i16_decimalN, cast_to_i16N_decimal, cast_to_i16N_decimalN, cast_to_i16_d,
    cast_to_i16_dN, cast_to_i16N_d, cast_to_i16N_dN, cast_to_i16_f, cast_to_i16_fN,
    cast_to_i16N_f, cast_to_i16N_fN, cast_to_i16_s, cast_to_i16_sN, cast_to_i16N_s,
    cast_to_i16N_sN, cast_to_i16_i, cast_to_i16N_i, cast_to_i16_i16, cast_to_i16_i16N,
    cast_to_i16N_i16, cast_to_i16N_i16N, cast_to_i16_i32, cast_to_i16_i32N, cast_to_i16N_i32,
    cast_to_i16N_i32N, cast_to_i16_i64, cast_to_i16_i64N, cast_to_i16N_i64, cast_to_i16N_i64N,
    cast_to_i16_u, cast_to_i16N_u
};
pub use to_int32::{
    cast_to_i32_b, cast_to_i32_bN, cast_to_i32N_b, cast_to_i32N_bN, cast_to_i32_decimal,
    cast_to_i32_decimalN, cast_to_i32N_decimal, cast_to_i32N_decimalN, cast_to_i32_d,
    cast_to_i32_dN, cast_to_i32N_d, cast_to_i32N_dN, cast_to_i32_f, cast_to_i32_fN,
    cast_to_i32N_f, cast_to_i32N_fN, cast_to_i32_s, cast_to_i32_sN, cast_to_i32N_s,
    cast_to_i32N_sN, cast_to_i32_i, cast_to_i32N_i, cast_to_i32_i16, cast_to_i32_i16N,
    cast_to_i32N_i16, cast_to_i32N_i16N, cast_to_i32_i32, cast_to_i32_i32N, cast_to_i32N_i32,
    cast_to_i32N_i32N, cast_to_i32_i64, cast_to_i32_i64N, cast_to_i32N_i64, cast_to_i32N_i64N,
    cast_to_i32_u, cast_to_i32N_u
};
pub use to_int64::{
    cast_to_i64_b, cast_to_i64_bN, cast_to_i64N_b, cast_to_i64N_bN, cast_to_i64_decimal,
    cast_to_i64_decimalN, cast_to_i64N_decimal, cast_to_i64N_decimalN, cast_to_i64_d,
    cast_to_i64_dN, cast_to_i64N_d, cast_to_i64N_dN, cast_to_i64_f, cast_to_i64_fN,
    cast_to_i64N_f, cast_to_i64N_fN, cast_to_i64_s, cast_to_i64_sN, cast_to_i64N_s,
    cast_to_i64N_sN, cast_to_i64_i, cast_to_i64N_i, cast_to_i64_i16, cast_to_i64_i16N,
    cast_to_i64N_i16, cast_to_i64N_i16N, cast_to_i64_i32, cast_to_i64_i32N, cast_to_i64N_i32,
    cast_to_i64N_i32N, cast_to_i64_i64, cast_to_i64_i64N, cast_to_i64N_i64, cast_to_i64N_i64N,
    cast_to_i64_u, cast_to_i64N_u, cast_to_i64_ShortInterval, cast_to_i64_LongInterval
};
pub use to_interval::{
    cast_to_ShortInterval_i64
};
pub use to_string::{
    s_helper, sN_helper, cast_to_s_b, cast_to_s_bN, cast_to_sN_b, cast_to_sN_bN,
    cast_to_s_decimal, cast_to_s_decimalN, cast_to_sN_decimal, cast_to_sN_decimalN, cast_to_s_d,
    cast_to_s_dN, cast_to_sN_d, cast_to_sN_dN, cast_to_s_f, cast_to_s_fN, cast_to_sN_f,
    cast_to_sN_fN, cast_to_s_s, cast_to_s_sN, cast_to_sN_s, cast_to_sN_sN, cast_to_s_i,
    cast_to_sN_i, cast_to_s_i16, cast_to_s_i16N, cast_to_sN_i16, cast_to_sN_i16N, cast_to_s_i32,
    cast_to_s_i32N, cast_to_sN_i32, cast_to_sN_i32N, cast_to_s_i64, cast_to_s_i64N,
    cast_to_sN_i64, cast_to_sN_i64N, cast_to_s_u, cast_to_sN_u
};
