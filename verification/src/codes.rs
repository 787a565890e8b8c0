//! The closed enumerations of the header's identification fields — OS/ABI,
//! word width, endianness and object type — with their decoding tables and
//! their stable display forms.
//!
//! Each enumeration has a spec-level decoding table (`spec_from`), an exec
//! decoder proved against it, a spec-level reverse table (`spec_code`) used to
//! state the round-trip law, and a display name. Decoding is total: a code
//! outside the table comes back as `Maybe::Unknown` carrying that code.

use vstd::prelude::*;
use vstd::string::StringExecFns;

use crate::maybe::Maybe;
use crate::text::{decimal_u64, spec_decimal};

verus! {

/// The operating-system/ABI identifier at byte 7 of the header.
#[derive(Clone, Copy, Debug, PartialEq, Eq)]
pub enum OsAbi {
    SystemV,
    HpUx,
    NetBsd,
    Linux,
    Solaris,
    Aix,
    Irix,
    FreeBsd,
    Tru64Unix,
    Modesto,
    OpenBsd,
    ArmEabi,
    Arm,
    Standalone,
}

impl OsAbi {
    /// The decoding table: which named constant a code stands for, if any.
    pub open spec fn spec_from(val: u8) -> Maybe<OsAbi, u8> {
        if val == 0 {
            Maybe::Known(OsAbi::SystemV)
        } else if val == 1 {
            Maybe::Known(OsAbi::HpUx)
        } else if val == 2 {
            Maybe::Known(OsAbi::NetBsd)
        } else if val == 3 {
            Maybe::Known(OsAbi::Linux)
        } else if val == 6 {
            Maybe::Known(OsAbi::Solaris)
        } else if val == 7 {
            Maybe::Known(OsAbi::Aix)
        } else if val == 8 {
            Maybe::Known(OsAbi::Irix)
        } else if val == 9 {
            Maybe::Known(OsAbi::FreeBsd)
        } else if val == 10 {
            Maybe::Known(OsAbi::Tru64Unix)
        } else if val == 11 {
            Maybe::Known(OsAbi::Modesto)
        } else if val == 12 {
            Maybe::Known(OsAbi::OpenBsd)
        } else if val == 64 {
            Maybe::Known(OsAbi::ArmEabi)
        } else if val == 97 {
            Maybe::Known(OsAbi::Arm)
        } else if val == 255 {
            Maybe::Known(OsAbi::Standalone)
        } else {
            Maybe::Unknown(val)
        }
    }

    /// The registered code of a named constant: the reverse of the table.
    pub open spec fn spec_code(self) -> u8 {
        match self {
            OsAbi::SystemV => 0,
            OsAbi::HpUx => 1,
            OsAbi::NetBsd => 2,
            OsAbi::Linux => 3,
            OsAbi::Solaris => 6,
            OsAbi::Aix => 7,
            OsAbi::Irix => 8,
            OsAbi::FreeBsd => 9,
            OsAbi::Tru64Unix => 10,
            OsAbi::Modesto => 11,
            OsAbi::OpenBsd => 12,
            OsAbi::ArmEabi => 64,
            OsAbi::Arm => 97,
            OsAbi::Standalone => 255,
        }
    }

    /// Decodes an OS/ABI code; unregistered codes are preserved verbatim.
    pub fn from(val: u8) -> (r: Maybe<OsAbi, u8>)
        ensures
            r == OsAbi::spec_from(val),
    {
        match val {
            0 => Maybe::Known(OsAbi::SystemV),
            1 => Maybe::Known(OsAbi::HpUx),
            2 => Maybe::Known(OsAbi::NetBsd),
            3 => Maybe::Known(OsAbi::Linux),
            6 => Maybe::Known(OsAbi::Solaris),
            7 => Maybe::Known(OsAbi::Aix),
            8 => Maybe::Known(OsAbi::Irix),
            9 => Maybe::Known(OsAbi::FreeBsd),
            10 => Maybe::Known(OsAbi::Tru64Unix),
            11 => Maybe::Known(OsAbi::Modesto),
            12 => Maybe::Known(OsAbi::OpenBsd),
            64 => Maybe::Known(OsAbi::ArmEabi),
            97 => Maybe::Known(OsAbi::Arm),
            255 => Maybe::Known(OsAbi::Standalone),
            _ => Maybe::Unknown(val),
        }
    }

    /// The canonical name of a constant, as the display form shows it.
    pub open spec fn spec_name(self) -> Seq<char> {
        match self {
            OsAbi::SystemV => "SystemV"@,
            OsAbi::HpUx => "HpUx"@,
            OsAbi::NetBsd => "NetBsd"@,
            OsAbi::Linux => "Linux"@,
            OsAbi::Solaris => "Solaris"@,
            OsAbi::Aix => "Aix"@,
            OsAbi::Irix => "Irix"@,
            OsAbi::FreeBsd => "FreeBsd"@,
            OsAbi::Tru64Unix => "Tru64Unix"@,
            OsAbi::Modesto => "Modesto"@,
            OsAbi::OpenBsd => "OpenBsd"@,
            OsAbi::ArmEabi => "ArmEabi"@,
            OsAbi::Arm => "Arm"@,
            OsAbi::Standalone => "Standalone"@,
        }
    }

    /// The canonical name of a constant.
    pub fn name(&self) -> (r: String)
        ensures
            r@ == self.spec_name(),
    {
        match self {
            OsAbi::SystemV => String::from_str("SystemV"),
            OsAbi::HpUx => String::from_str("HpUx"),
            OsAbi::NetBsd => String::from_str("NetBsd"),
            OsAbi::Linux => String::from_str("Linux"),
            OsAbi::Solaris => String::from_str("Solaris"),
            OsAbi::Aix => String::from_str("Aix"),
            OsAbi::Irix => String::from_str("Irix"),
            OsAbi::FreeBsd => String::from_str("FreeBsd"),
            OsAbi::Tru64Unix => String::from_str("Tru64Unix"),
            OsAbi::Modesto => String::from_str("Modesto"),
            OsAbi::OpenBsd => String::from_str("OpenBsd"),
            OsAbi::ArmEabi => String::from_str("ArmEabi"),
            OsAbi::Arm => String::from_str("Arm"),
            OsAbi::Standalone => String::from_str("Standalone"),
        }
    }
}

/// Decoding a registered OS/ABI code and reading the constant's code back is
/// the identity, and an unregistered code is preserved verbatim.
pub proof fn lemma_os_abi_roundtrip(code: u8)
    ensures
        (match OsAbi::spec_from(code) {
            Maybe::Known(a) => a.spec_code() == code,
            Maybe::Unknown(v) => v == code,
        }),
{
}

/// The word-width class at byte 4 of the header.
#[derive(Clone, Copy, Debug, PartialEq, Eq)]
pub enum Bits {
    Bits32,
    Bits64,
}

impl Bits {
    /// The decoding table for the width byte.
    pub open spec fn spec_from(val: u8) -> Maybe<Bits, u8> {
        if val == 1 {
            Maybe::Known(Bits::Bits32)
        } else if val == 2 {
            Maybe::Known(Bits::Bits64)
        } else {
            Maybe::Unknown(val)
        }
    }

    /// The registered code of a width class.
    pub open spec fn spec_code(self) -> u8 {
        match self {
            Bits::Bits32 => 1,
            Bits::Bits64 => 2,
        }
    }

    /// Decodes the width byte; codes outside {1, 2} are preserved verbatim.
    pub fn from(val: u8) -> (r: Maybe<Bits, u8>)
        ensures
            r == Bits::spec_from(val),
    {
        match val {
            1 => Maybe::Known(Bits::Bits32),
            2 => Maybe::Known(Bits::Bits64),
            _ => Maybe::Unknown(val),
        }
    }

    /// The canonical name of a width class.
    pub open spec fn spec_name(self) -> Seq<char> {
        match self {
            Bits::Bits32 => "32-bit"@,
            Bits::Bits64 => "64-bit"@,
        }
    }

    /// The canonical name of a width class.
    pub fn name(&self) -> (r: String)
        ensures
            r@ == self.spec_name(),
    {
        match self {
            Bits::Bits32 => String::from_str("32-bit"),
            Bits::Bits64 => String::from_str("64-bit"),
        }
    }
}

/// Decoding a registered width code and reading the constant's code back is
/// the identity, and an unregistered code is preserved verbatim.
pub proof fn lemma_bits_roundtrip(code: u8)
    ensures
        (match Bits::spec_from(code) {
            Maybe::Known(b) => b.spec_code() == code,
            Maybe::Unknown(v) => v == code,
        }),
{
}

/// The endianness class at byte 5 of the header.
#[derive(Clone, Copy, Debug, PartialEq, Eq)]
pub enum Endian {
    Little,
    Big,
}

impl Endian {
    /// The decoding table for the endianness byte.
    pub open spec fn spec_from(val: u8) -> Maybe<Endian, u8> {
        if val == 1 {
            Maybe::Known(Endian::Little)
        } else if val == 2 {
            Maybe::Known(Endian::Big)
        } else {
            Maybe::Unknown(val)
        }
    }

    /// The registered code of an endianness class.
    pub open spec fn spec_code(self) -> u8 {
        match self {
            Endian::Little => 1,
            Endian::Big => 2,
        }
    }

    /// Decodes the endianness byte; codes outside {1, 2} are preserved
    /// verbatim.
    pub fn from(val: u8) -> (r: Maybe<Endian, u8>)
        ensures
            r == Endian::spec_from(val),
    {
        match val {
            1 => Maybe::Known(Endian::Little),
            2 => Maybe::Known(Endian::Big),
            _ => Maybe::Unknown(val),
        }
    }

    /// The canonical name of an endianness class.
    pub open spec fn spec_name(self) -> Seq<char> {
        match self {
            Endian::Little => "little-endian"@,
            Endian::Big => "big-endian"@,
        }
    }

    /// The canonical name of an endianness class.
    pub fn name(&self) -> (r: String)
        ensures
            r@ == self.spec_name(),
    {
        match self {
            Endian::Little => String::from_str("little-endian"),
            Endian::Big => String::from_str("big-endian"),
        }
    }
}

/// Decoding a registered endianness code and reading the constant's code back
/// is the identity, and an unregistered code is preserved verbatim.
pub proof fn lemma_endian_roundtrip(code: u8)
    ensures
        (match Endian::spec_from(code) {
            Maybe::Known(e) => e.spec_code() == code,
            Maybe::Unknown(v) => v == code,
        }),
{
}

/// The object-type code at bytes 16–17 of the header.
#[derive(Clone, Copy, Debug, PartialEq, Eq)]
pub enum ObjectType {
    NoType,
    Relocatable,
    Executable,
    SharedObject,
    CoreDump,
}

impl ObjectType {
    /// The decoding table for the object-type code.
    pub open spec fn spec_from(val: u16) -> Maybe<ObjectType, u16> {
        if val == 0 {
            Maybe::Known(ObjectType::NoType)
        } else if val == 1 {
            Maybe::Known(ObjectType::Relocatable)
        } else if val == 2 {
            Maybe::Known(ObjectType::Executable)
        } else if val == 3 {
            Maybe::Known(ObjectType::SharedObject)
        } else if val == 4 {
            Maybe::Known(ObjectType::CoreDump)
        } else {
            Maybe::Unknown(val)
        }
    }

    /// The registered code of an object-type constant.
    pub open spec fn spec_code(self) -> u16 {
        match self {
            ObjectType::NoType => 0,
            ObjectType::Relocatable => 1,
            ObjectType::Executable => 2,
            ObjectType::SharedObject => 3,
            ObjectType::CoreDump => 4,
        }
    }

    /// Decodes an object-type code; unregistered codes are preserved
    /// verbatim.
    pub fn from(val: u16) -> (r: Maybe<ObjectType, u16>)
        ensures
            r == ObjectType::spec_from(val),
    {
        match val {
            0 => Maybe::Known(ObjectType::NoType),
            1 => Maybe::Known(ObjectType::Relocatable),
            2 => Maybe::Known(ObjectType::Executable),
            3 => Maybe::Known(ObjectType::SharedObject),
            4 => Maybe::Known(ObjectType::CoreDump),
            _ => Maybe::Unknown(val),
        }
    }

    /// The canonical name of an object-type constant.
    pub open spec fn spec_name(self) -> Seq<char> {
        match self {
            ObjectType::NoType => "NoType"@,
            ObjectType::Relocatable => "Relocatable"@,
            ObjectType::Executable => "Executable"@,
            ObjectType::SharedObject => "SharedObject"@,
            ObjectType::CoreDump => "CoreDump"@,
        }
    }

    /// The canonical name of an object-type constant.
    pub fn name(&self) -> (r: String)
        ensures
            r@ == self.spec_name(),
    {
        match self {
            ObjectType::NoType => String::from_str("NoType"),
            ObjectType::Relocatable => String::from_str("Relocatable"),
            ObjectType::Executable => String::from_str("Executable"),
            ObjectType::SharedObject => String::from_str("SharedObject"),
            ObjectType::CoreDump => String::from_str("CoreDump"),
        }
    }
}

/// Decoding a registered object-type code and reading the constant's code
/// back is the identity, and an unregistered code is preserved verbatim.
pub proof fn lemma_object_type_roundtrip(code: u16)
    ensures
        (match ObjectType::spec_from(code) {
            Maybe::Known(t) => t.spec_code() == code,
            Maybe::Unknown(v) => v == code,
        }),
{
}

/// The display form of an unrecognised code: `Unknown(` followed by the code
/// in decimal and a closing parenthesis.
pub open spec fn spec_unknown_text(code: nat) -> Seq<char> {
    "Unknown("@ + spec_decimal(code) + ")"@
}

/// Renders the display form of an unrecognised code.
pub fn unknown_text(code: u64) -> (r: String)
    ensures
        r@ == spec_unknown_text(code as nat),
{
    let mut s = String::from_str("Unknown(");
    let digits = decimal_u64(code);
    s.append(digits.as_str());
    s.append(")");
    s
}

impl Maybe<OsAbi, u8> {
    /// The stable display form: the constant's canonical name when the code
    /// is registered, `Unknown(<code>)` otherwise.
    pub fn to_text(&self) -> (r: String)
        ensures
            (match self {
                Maybe::Known(a) => r@ == a.spec_name(),
                Maybe::Unknown(v) => r@ == spec_unknown_text(*v as nat),
            }),
    {
        match self {
            Maybe::Known(a) => a.name(),
            Maybe::Unknown(v) => unknown_text(*v as u64),
        }
    }
}

impl Maybe<Bits, u8> {
    /// The stable display form: the constant's canonical name when the code
    /// is registered, `Unknown(<code>)` otherwise.
    pub fn to_text(&self) -> (r: String)
        ensures
            (match self {
                Maybe::Known(b) => r@ == b.spec_name(),
                Maybe::Unknown(v) => r@ == spec_unknown_text(*v as nat),
            }),
    {
        match self {
            Maybe::Known(b) => b.name(),
            Maybe::Unknown(v) => unknown_text(*v as u64),
        }
    }
}

impl Maybe<Endian, u8> {
    /// The stable display form: the constant's canonical name when the code
    /// is registered, `Unknown(<code>)` otherwise.
    pub fn to_text(&self) -> (r: String)
        ensures
            (match self {
                Maybe::Known(e) => r@ == e.spec_name(),
                Maybe::Unknown(v) => r@ == spec_unknown_text(*v as nat),
            }),
    {
        match self {
            Maybe::Known(e) => e.name(),
            Maybe::Unknown(v) => unknown_text(*v as u64),
        }
    }
}

impl Maybe<ObjectType, u16> {
    /// The stable display form: the constant's canonical name when the code
    /// is registered, `Unknown(<code>)` otherwise.
    pub fn to_text(&self) -> (r: String)
        ensures
            (match self {
                Maybe::Known(t) => r@ == t.spec_name(),
                Maybe::Unknown(v) => r@ == spec_unknown_text(*v as nat),
            }),
    {
        match self {
            Maybe::Known(t) => t.name(),
            Maybe::Unknown(v) => unknown_text(*v as u64),
        }
    }
}

} // verus!
