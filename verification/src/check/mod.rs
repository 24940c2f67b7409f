//! What the checks of stored responses compute, once the files are read.

pub mod datasets;
pub mod parameter_values;
