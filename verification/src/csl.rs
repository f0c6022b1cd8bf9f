//! CSL-JSON, the format in which doi.org describes a work.

pub mod metadata;
pub mod value;
