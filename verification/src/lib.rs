//! Badcat: a tagged binary wire format.
//!
//! Every encoded value starts with one tag byte that names its wire type and
//! is followed by a payload of fixed width. `stream` holds the byte sinks and
//! sources that values are written to and read from, `codec` the two
//! capabilities a value type implements, and `builtin` the value types that
//! come with the format.

pub mod stream;
pub mod codec;
pub mod builtin;
