//! Read-only introspection of ELF object-file headers.
//!
//! Given an in-memory byte buffer, [`Object::new`] validates the fixed-layout
//! identification prefix and the width-dependent remainder of the header, and
//! the accessors on [`Object`] decode each field directly from the bytes,
//! honouring the declared byte order. Fields drawn from closed enumerations
//! (machine, ABI, object type, width, endianness) decode to a [`Maybe`] value
//! that preserves unrecognised codes instead of rejecting them.
//!
//! A chunked arena builder ([`Builder`]) lives alongside the parser as a
//! separate utility: it reserves byte ranges chunk by chunk and accounts for
//! each reservation's placement.

pub mod bytes;
pub mod chunky;
pub mod codes;
pub mod machine;
pub mod maybe;
pub mod object;
pub mod text;

pub use crate::bytes::{spec_u16_at, spec_u32_at, spec_u64_at};
pub use crate::chunky::{Builder, Slot};
pub use crate::codes::{Bits, Endian, ObjectType, OsAbi};
pub use crate::machine::Machine;
pub use crate::maybe::Maybe;
pub use crate::object::{Object, ValidationError, HEADER_LEN_32, HEADER_LEN_64};
pub use crate::text::{decimal_u64, spec_decimal};
