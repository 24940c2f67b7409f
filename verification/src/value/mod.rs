//! Typed values of single fields.

mod millions;

pub use millions::{millions_of, millions_of_row, Millions, MillionsView};
