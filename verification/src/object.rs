//! The header view itself: a non-owning, validated view over a byte buffer.
//!
//! Construction checks the 8-byte identification prefix (magic, width,
//! endianness, format version) and then, for the declared width, that the
//! buffer holds the full fixed header. Every accessor re-derives its value
//! from the bytes, reading multi-byte fields in the declared byte order and
//! selecting the offset table of the declared width.

use vstd::prelude::*;

use crate::bytes::{read_u16, read_u32, read_u64, spec_u16_at, spec_u32_at, spec_u64_at};
use crate::codes::{Bits, Endian, ObjectType, OsAbi};
use crate::machine::Machine;
use crate::maybe::Maybe;

verus! {

/// Size in bytes of the full fixed header under the 32-bit layout.
pub const HEADER_LEN_32: usize = 52;

/// Size in bytes of the full fixed header under the 64-bit layout.
pub const HEADER_LEN_64: usize = 64;

/// Why a buffer was rejected at construction.
#[derive(Clone, Copy, Debug, PartialEq, Eq)]
pub enum ValidationError {
    /// Shorter than the 8-byte identification prefix, or than the full fixed
    /// header for the declared width.
    TooShort,
    /// The first four bytes are not the ELF magic.
    BadMagic,
    /// The width byte at offset 4 is outside {1, 2}.
    BadWidth,
    /// The endianness byte at offset 5 is outside {1, 2}.
    BadEndianness,
    /// The header-format-version byte at offset 6 is not 1.
    BadVersion,
}

/// The first four bytes are exactly 0x7F 'E' 'L' 'F'.
pub open spec fn magic_ok(b: Seq<u8>) -> bool {
    b.len() >= 4 && b[0] == 0x7f && b[1] == 0x45 && b[2] == 0x4c && b[3] == 0x46
}

/// The full fixed header size for a width byte (1 = 32-bit, 2 = 64-bit).
/// The three address-sized fields widen from 4 to 8 bytes under the 64-bit
/// layout, so the 64-bit header is strictly longer.
pub open spec fn spec_header_len(width: u8) -> int {
    if width == 1 {
        HEADER_LEN_32 as int
    } else {
        HEADER_LEN_64 as int
    }
}

/// Everything construction demands of a buffer: long enough for the
/// identification prefix, the ELF magic, a width byte and an endianness byte
/// in {1, 2}, format version 1, and the full fixed header for the declared
/// width.
pub open spec fn valid_header(b: Seq<u8>) -> bool {
    &&& b.len() >= 8
    &&& magic_ok(b)
    &&& (b[4] == 1 || b[4] == 2)
    &&& (b[5] == 1 || b[5] == 2)
    &&& b[6] == 1
    &&& b.len() >= spec_header_len(b[4])
}

/// The outcome of validation, with the exact failure: the checks run in
/// order (prefix length, magic, width, endianness, version, width-dependent
/// length) and the first to fail names the error.
pub open spec fn spec_check(b: Seq<u8>) -> Result<(), ValidationError> {
    if b.len() < 8 {
        Err(ValidationError::TooShort)
    } else if !magic_ok(b) {
        Err(ValidationError::BadMagic)
    } else if !(b[4] == 1 || b[4] == 2) {
        Err(ValidationError::BadWidth)
    } else if !(b[5] == 1 || b[5] == 2) {
        Err(ValidationError::BadEndianness)
    } else if b[6] != 1 {
        Err(ValidationError::BadVersion)
    } else if b.len() < spec_header_len(b[4]) {
        Err(ValidationError::TooShort)
    } else {
        Ok(())
    }
}

/// The declared byte order is little-endian.
pub open spec fn spec_is_little(b: Seq<u8>) -> bool {
    b[5] == 1
}

/// The declared word-width class.
pub open spec fn spec_bits(b: Seq<u8>) -> Bits {
    if b[4] == 1 {
        Bits::Bits32
    } else {
        Bits::Bits64
    }
}

/// The declared endianness class.
pub open spec fn spec_endian(b: Seq<u8>) -> Endian {
    if b[5] == 1 {
        Endian::Little
    } else {
        Endian::Big
    }
}

/// The object-type code at bytes 16–17.
pub open spec fn spec_object_type_code(b: Seq<u8>) -> u16 {
    spec_u16_at(b, 16, spec_is_little(b))
}

/// The machine/architecture code at bytes 18–19.
pub open spec fn spec_machine_code(b: Seq<u8>) -> u16 {
    spec_u16_at(b, 18, spec_is_little(b))
}

/// The 32-bit file-format version at bytes 20–23, independent of the
/// header-format-version byte at offset 6.
pub open spec fn spec_file_version(b: Seq<u8>) -> u32 {
    spec_u32_at(b, 20, spec_is_little(b))
}

/// The entry-point virtual address: 4 bytes at offset 24 under the 32-bit
/// layout, 8 bytes at offset 24 under the 64-bit layout, widened to 64 bits.
pub open spec fn spec_entry_point(b: Seq<u8>) -> u64 {
    if b[4] == 1 {
        spec_u32_at(b, 24, spec_is_little(b)) as u64
    } else {
        spec_u64_at(b, 24, spec_is_little(b))
    }
}

/// The program-header-table file offset: 4 bytes at offset 28, or 8 bytes at
/// offset 32, widened to 64 bits.
pub open spec fn spec_program_header_offset(b: Seq<u8>) -> u64 {
    if b[4] == 1 {
        spec_u32_at(b, 28, spec_is_little(b)) as u64
    } else {
        spec_u64_at(b, 32, spec_is_little(b))
    }
}

/// The section-header-table file offset: 4 bytes at offset 32, or 8 bytes at
/// offset 40, widened to 64 bits.
pub open spec fn spec_section_header_offset(b: Seq<u8>) -> u64 {
    if b[4] == 1 {
        spec_u32_at(b, 32, spec_is_little(b)) as u64
    } else {
        spec_u64_at(b, 40, spec_is_little(b))
    }
}

/// The processor-specific flags: at offset 36 or 48 by width.
pub open spec fn spec_processor_flags(b: Seq<u8>) -> u32 {
    if b[4] == 1 {
        spec_u32_at(b, 36, spec_is_little(b))
    } else {
        spec_u32_at(b, 48, spec_is_little(b))
    }
}

/// The header's own size field: at offset 40 or 52 by width.
pub open spec fn spec_header_size(b: Seq<u8>) -> u16 {
    if b[4] == 1 {
        spec_u16_at(b, 40, spec_is_little(b))
    } else {
        spec_u16_at(b, 52, spec_is_little(b))
    }
}

/// The program-header entry size: at offset 42 or 54 by width.
pub open spec fn spec_program_header_entry_size(b: Seq<u8>) -> u16 {
    if b[4] == 1 {
        spec_u16_at(b, 42, spec_is_little(b))
    } else {
        spec_u16_at(b, 54, spec_is_little(b))
    }
}

/// The program-header entry count: at offset 44 or 56 by width.
pub open spec fn spec_program_header_entry_count(b: Seq<u8>) -> u16 {
    if b[4] == 1 {
        spec_u16_at(b, 44, spec_is_little(b))
    } else {
        spec_u16_at(b, 56, spec_is_little(b))
    }
}

/// The section-header entry size: at offset 46 or 58 by width.
pub open spec fn spec_section_header_entry_size(b: Seq<u8>) -> u16 {
    if b[4] == 1 {
        spec_u16_at(b, 46, spec_is_little(b))
    } else {
        spec_u16_at(b, 58, spec_is_little(b))
    }
}

/// The section-header entry count: at offset 48 or 60 by width.
pub open spec fn spec_section_header_entry_count(b: Seq<u8>) -> u16 {
    if b[4] == 1 {
        spec_u16_at(b, 48, spec_is_little(b))
    } else {
        spec_u16_at(b, 60, spec_is_little(b))
    }
}

/// The index of the section-header entry holding the section-name string
/// table: at offset 50 or 62 by width.
pub open spec fn spec_section_header_string_table_index(b: Seq<u8>) -> u16 {
    if b[4] == 1 {
        spec_u16_at(b, 50, spec_is_little(b))
    } else {
        spec_u16_at(b, 62, spec_is_little(b))
    }
}

/// A validated, non-owning view of an ELF header. The view borrows the
/// buffer for its whole lifetime, stores no decoded state, and every
/// accessor re-derives its value from the bytes.
pub struct Object<'a> {
    data: &'a [u8],
}

impl<'a> View for Object<'a> {
    type V = Seq<u8>;

    closed spec fn view(&self) -> Seq<u8> {
        self.data@
    }
}

impl<'a> Object<'a> {
    #[verifier::type_invariant]
    spec fn wf(self) -> bool {
        valid_header(self.data@)
    }

    /// Validates `data` and wraps it. Succeeds exactly on buffers that
    /// satisfy every construction invariant; a rejected buffer names the
    /// first check that failed.
    pub fn new(data: &'a [u8]) -> (r: Result<Object<'a>, ValidationError>)
        ensures
            r is Ok <==> valid_header(data@),
            (match r {
                Ok(o) => o@ == data@,
                Err(e) => spec_check(data@) == Err::<(), ValidationError>(e),
            }),
    {
        if data.len() < 8 {
            return Err(ValidationError::TooShort);
        }
        if !(data[0] == 0x7f && data[1] == 0x45 && data[2] == 0x4c && data[3] == 0x46) {
            return Err(ValidationError::BadMagic);
        }
        if !(data[4] == 1 || data[4] == 2) {
            return Err(ValidationError::BadWidth);
        }
        if !(data[5] == 1 || data[5] == 2) {
            return Err(ValidationError::BadEndianness);
        }
        if data[6] != 1 {
            return Err(ValidationError::BadVersion);
        }
        let min: usize = if data[4] == 1 {
            HEADER_LEN_32
        } else {
            HEADER_LEN_64
        };
        if data.len() < min {
            return Err(ValidationError::TooShort);
        }
        Ok(Object { data })
    }

    /// True when the declared byte order is little-endian.
    fn is_little(&self) -> (r: bool)
        ensures
            r == spec_is_little(self@),
    {
        proof {
            use_type_invariant(&*self);
        }
        self.data[5] == 1
    }

    /// The declared word width; validation guarantees the byte is 1 or 2, so
    /// decoding cannot fail.
    pub fn bits(&self) -> (r: Bits)
        ensures
            r == spec_bits(self@),
    {
        proof {
            use_type_invariant(&*self);
        }
        if self.data[4] == 1 {
            Bits::Bits32
        } else {
            Bits::Bits64
        }
    }

    /// The declared endianness; validation guarantees the byte is 1 or 2, so
    /// decoding cannot fail.
    pub fn endian(&self) -> (r: Endian)
        ensures
            r == spec_endian(self@),
    {
        proof {
            use_type_invariant(&*self);
        }
        if self.data[5] == 1 {
            Endian::Little
        } else {
            Endian::Big
        }
    }

    /// The OS/ABI identifier at offset 7, decoded against the registry.
    pub fn abi(&self) -> (r: Maybe<OsAbi, u8>)
        ensures
            r == OsAbi::spec_from(self@[7]),
    {
        proof {
            use_type_invariant(&*self);
        }
        OsAbi::from(self.data[7])
    }

    /// The ABI version byte at offset 8.
    pub fn abi_version(&self) -> (r: u8)
        ensures
            r == self@[8],
    {
        proof {
            use_type_invariant(&*self);
        }
        self.data[8]
    }

    /// The object-type code at bytes 16–17, decoded against the registry.
    pub fn object_type(&self) -> (r: Maybe<ObjectType, u16>)
        ensures
            r == ObjectType::spec_from(spec_object_type_code(self@)),
    {
        proof {
            use_type_invariant(&*self);
        }
        ObjectType::from(read_u16(self.data, 16, self.is_little()))
    }

    /// The machine/architecture code at bytes 18–19, decoded against the
    /// registry.
    pub fn machine(&self) -> (r: Maybe<Machine, u16>)
        ensures
            r == Machine::spec_from(spec_machine_code(self@)),
    {
        proof {
            use_type_invariant(&*self);
        }
        Machine::from(read_u16(self.data, 18, self.is_little()))
    }

    /// The 32-bit file-format version at bytes 20–23.
    pub fn version(&self) -> (r: u32)
        ensures
            r == spec_file_version(self@),
    {
        proof {
            use_type_invariant(&*self);
        }
        read_u32(self.data, 20, self.is_little())
    }

    /// The entry-point virtual address, widened to 64 bits whatever the
    /// declared width.
    pub fn entry_point_address(&self) -> (r: u64)
        ensures
            r == spec_entry_point(self@),
    {
        proof {
            use_type_invariant(&*self);
        }
        let little = self.is_little();
        match self.bits() {
            Bits::Bits32 => read_u32(self.data, 24, little) as u64,
            Bits::Bits64 => read_u64(self.data, 24, little),
        }
    }

    /// The program-header-table file offset, widened to 64 bits.
    pub fn program_header_offset(&self) -> (r: u64)
        ensures
            r == spec_program_header_offset(self@),
    {
        proof {
            use_type_invariant(&*self);
        }
        let little = self.is_little();
        match self.bits() {
            Bits::Bits32 => read_u32(self.data, 28, little) as u64,
            Bits::Bits64 => read_u64(self.data, 32, little),
        }
    }

    /// The section-header-table file offset, widened to 64 bits.
    pub fn section_header_offset(&self) -> (r: u64)
        ensures
            r == spec_section_header_offset(self@),
    {
        proof {
            use_type_invariant(&*self);
        }
        let little = self.is_little();
        match self.bits() {
            Bits::Bits32 => read_u32(self.data, 32, little) as u64,
            Bits::Bits64 => read_u64(self.data, 40, little),
        }
    }

    /// The processor-specific flags.
    pub fn processor_flags(&self) -> (r: u32)
        ensures
            r == spec_processor_flags(self@),
    {
        proof {
            use_type_invariant(&*self);
        }
        let little = self.is_little();
        match self.bits() {
            Bits::Bits32 => read_u32(self.data, 36, little),
            Bits::Bits64 => read_u32(self.data, 48, little),
        }
    }

    /// The header's own size field.
    pub fn header_size(&self) -> (r: u16)
        ensures
            r == spec_header_size(self@),
    {
        proof {
            use_type_invariant(&*self);
        }
        let little = self.is_little();
        match self.bits() {
            Bits::Bits32 => read_u16(self.data, 40, little),
            Bits::Bits64 => read_u16(self.data, 52, little),
        }
    }

    /// The size of one program-header entry.
    pub fn program_header_entry_size(&self) -> (r: u16)
        ensures
            r == spec_program_header_entry_size(self@),
    {
        proof {
            use_type_invariant(&*self);
        }
        let little = self.is_little();
        match self.bits() {
            Bits::Bits32 => read_u16(self.data, 42, little),
            Bits::Bits64 => read_u16(self.data, 54, little),
        }
    }

    /// The number of program-header entries.
    pub fn program_header_entry_count(&self) -> (r: u16)
        ensures
            r == spec_program_header_entry_count(self@),
    {
        proof {
            use_type_invariant(&*self);
        }
        let little = self.is_little();
        match self.bits() {
            Bits::Bits32 => read_u16(self.data, 44, little),
            Bits::Bits64 => read_u16(self.data, 56, little),
        }
    }

    /// The size of one section-header entry.
    pub fn section_header_entry_size(&self) -> (r: u16)
        ensures
            r == spec_section_header_entry_size(self@),
    {
        proof {
            use_type_invariant(&*self);
        }
        let little = self.is_little();
        match self.bits() {
            Bits::Bits32 => read_u16(self.data, 46, little),
            Bits::Bits64 => read_u16(self.data, 58, little),
        }
    }

    /// The number of section-header entries.
    pub fn section_header_entry_count(&self) -> (r: u16)
        ensures
            r == spec_section_header_entry_count(self@),
    {
        proof {
            use_type_invariant(&*self);
        }
        let little = self.is_little();
        match self.bits() {
            Bits::Bits32 => read_u16(self.data, 48, little),
            Bits::Bits64 => read_u16(self.data, 60, little),
        }
    }

    /// The index of the section-header entry holding the section-name string
    /// table.
    pub fn section_header_string_table_index(&self) -> (r: u16)
        ensures
            r == spec_section_header_string_table_index(self@),
    {
        proof {
            use_type_invariant(&*self);
        }
        let little = self.is_little();
        match self.bits() {
            Bits::Bits32 => read_u16(self.data, 50, little),
            Bits::Bits64 => read_u16(self.data, 62, little),
        }
    }
}

/// Validation succeeds exactly on the buffers that satisfy every
/// construction invariant.
pub proof fn lemma_check_exact(b: Seq<u8>)
    ensures
        spec_check(b) is Ok <==> valid_header(b),
{
}

/// A buffer shorter than the 8-byte identification prefix is rejected as too
/// short, whatever its content.
pub proof fn lemma_short_prefix_rejected(b: Seq<u8>)
    requires
        b.len() < 8,
    ensures
        spec_check(b) == Err::<(), ValidationError>(ValidationError::TooShort),
{
}

/// A buffer whose first four bytes are not the ELF magic is rejected,
/// regardless of the remaining content.
pub proof fn lemma_bad_magic_rejected(b: Seq<u8>)
    requires
        b.len() >= 8,
        !magic_ok(b),
    ensures
        spec_check(b) == Err::<(), ValidationError>(ValidationError::BadMagic),
{
}

/// A width byte outside {1, 2}, an endianness byte outside {1, 2}, or a
/// format-version byte other than 1 is rejected.
pub proof fn lemma_bad_ident_rejected(b: Seq<u8>)
    requires
        !(b[4] == 1 || b[4] == 2) || !(b[5] == 1 || b[5] == 2) || b[6] != 1,
    ensures
        spec_check(b) is Err,
        !valid_header(b),
{
}

/// Once the identification prefix is accepted, a buffer shorter than the
/// full fixed header for the declared width is rejected as too short, and
/// one at least that long is accepted; the 64-bit minimum is strictly larger
/// than the 32-bit minimum.
pub proof fn lemma_width_threshold(b: Seq<u8>)
    requires
        b.len() >= 8,
        magic_ok(b),
        b[4] == 1 || b[4] == 2,
        b[5] == 1 || b[5] == 2,
        b[6] == 1,
    ensures
        b.len() < spec_header_len(b[4]) ==> spec_check(b) == Err::<(),
            ValidationError,
        >(ValidationError::TooShort),
        b.len() >= spec_header_len(b[4]) ==> spec_check(b) is Ok,
        spec_header_len(2) > spec_header_len(1),
{
}

/// The width byte alone routes every width-dependent field through the
/// offset table of its layout: in two buffers identical except for the width
/// byte, the 32-bit one reads each address-sized field as 4 bytes at the
/// 32-bit layout's offset (so the value is bounded by 32 bits), and the
/// 64-bit one reads the full 8 bytes at the 64-bit layout's offset, while
/// the declared byte order is the same in both.
pub proof fn lemma_width_selects_layout(b32: Seq<u8>, b64: Seq<u8>)
    requires
        b32.len() == b64.len(),
        b32.len() >= 8,
        b32[4] == 1,
        b64[4] == 2,
        forall|i: int| 0 <= i < b64.len() && i != 4 ==> b32[i] == b64[i],
    ensures
        spec_is_little(b32) == spec_is_little(b64),
        spec_entry_point(b32) == spec_u32_at(b32, 24, spec_is_little(b32)) as u64,
        spec_entry_point(b64) == spec_u64_at(b64, 24, spec_is_little(b64)),
        spec_entry_point(b32) <= u32::MAX,
        spec_program_header_offset(b32) == spec_u32_at(b32, 28, spec_is_little(b32)) as u64,
        spec_program_header_offset(b64) == spec_u64_at(b64, 32, spec_is_little(b64)),
        spec_program_header_offset(b32) <= u32::MAX,
        spec_section_header_offset(b32) == spec_u32_at(b32, 32, spec_is_little(b32)) as u64,
        spec_section_header_offset(b64) == spec_u64_at(b64, 40, spec_is_little(b64)),
        spec_section_header_offset(b32) <= u32::MAX,
        spec_processor_flags(b32) == spec_u32_at(b32, 36, spec_is_little(b32)),
        spec_processor_flags(b64) == spec_u32_at(b64, 48, spec_is_little(b64)),
        spec_header_size(b32) == spec_u16_at(b32, 40, spec_is_little(b32)),
        spec_header_size(b64) == spec_u16_at(b64, 52, spec_is_little(b64)),
        spec_program_header_entry_size(b32) == spec_u16_at(b32, 42, spec_is_little(b32)),
        spec_program_header_entry_size(b64) == spec_u16_at(b64, 54, spec_is_little(b64)),
        spec_program_header_entry_count(b32) == spec_u16_at(b32, 44, spec_is_little(b32)),
        spec_program_header_entry_count(b64) == spec_u16_at(b64, 56, spec_is_little(b64)),
        spec_section_header_entry_size(b32) == spec_u16_at(b32, 46, spec_is_little(b32)),
        spec_section_header_entry_size(b64) == spec_u16_at(b64, 58, spec_is_little(b64)),
        spec_section_header_entry_count(b32) == spec_u16_at(b32, 48, spec_is_little(b32)),
        spec_section_header_entry_count(b64) == spec_u16_at(b64, 60, spec_is_little(b64)),
        spec_section_header_string_table_index(b32) == spec_u16_at(b32, 50, spec_is_little(b32)),
        spec_section_header_string_table_index(b64) == spec_u16_at(b64, 62, spec_is_little(b64)),
{
}

} // verus!
