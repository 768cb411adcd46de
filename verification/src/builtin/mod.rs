//! The value types that come with the format.

pub mod atom;
