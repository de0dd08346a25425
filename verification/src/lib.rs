//! Helpers for values that cross a C-style boundary: integer flags read as
//! booleans, and text framed as null-terminated byte buffers.
//!
//! Nothing here touches raw memory. A foreign string is a value that says
//! what the C side will find: the null sentinel, or a buffer with its
//! terminating zero byte. Turning such a value into a pointer, and handing
//! its ownership over, is left to the caller.

pub mod cstring;
pub mod flags;
pub mod foreign;
pub mod text;

pub use flags::{is_false, is_true};
pub use foreign::{string_null, string_to_c_char, string_to_c_chars, ForeignString};
