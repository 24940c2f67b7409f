//! Typed decoding of responses from the BEA data service.
//!
//! A response arrives as a JSON value. This crate decides which of the known
//! result shapes the value holds, decodes it into a typed envelope, and turns
//! envelopes into bytes and back for a local cache. Every decoder states its
//! result over a mathematical model of the JSON value, and Verus proves the
//! executable code against that statement.

pub mod error;
pub mod json;
pub mod plain;
pub mod rows;
pub mod text;
pub mod datasets;
pub mod parameter_values;
pub mod value;
pub mod parameters;
pub mod data;
pub mod request;
pub mod cache;
pub mod results;
pub mod theorems;
pub mod check;
