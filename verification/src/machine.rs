//! The machine/architecture code at bytes 18–19 of the header, with its
//! decoding table over the standard registry of architectures.

use vstd::prelude::*;
use vstd::string::StringExecFns;

use crate::codes::{spec_unknown_text, unknown_text};
use crate::maybe::Maybe;

verus! {

/// The machine/architecture identifier of the object file. The variant
/// names keep the registry's own spelling, underscores included.
#[allow(non_camel_case_types)]
#[derive(Clone, Copy, Debug, PartialEq, Eq)]
pub enum Machine {
    NoMachine,
    AtatWe32100,
    Sparc,
    I386,
    Motorola68K,
    Motorola88K,
    Intel80860,
    Mips,
    IbmSystem370,
    MipsRs3Le,
    HppaPaRisc,
    FujitsuVpp500,
    Sparc32Plus,
    Intel80960,
    PowerPc,
    PowerPc64,
    IbmSystem390,
    NecV800,
    FujitsuFr20,
    TrwRh32,
    MotorolaRce,
    Arm,
    FakeAlpha,
    HitachiSh,
    SparcV9,
    SiemensTricore,
    ArgonautRiscCore,
    HitachiH8_300,
    HitachiH8_300H,
    HitachiH8S,
    HitachiH8_500,
    IA_64,
    StanfordMipsX,
    MototolaColdfire,
    Mototola68Hc12,
    FujitsuMultimediaAccelerator,
    SiemensPcp,
    SonyNcpu,
    DensoNdr1,
    MotorolaStarCore,
    ToyotaMe16,
    STMicroelectronicST100,
    TinyJ,
    X86_64,
    SonyDsp,
    SiemensFx66,
    STMicroelectronicsSt9Plus,
    STMicroelectronicsSt7,
    Motorola68Hc16,
    Motorola68Hc11,
    Motorola68Hc08,
    Motorola68Hc05,
    SiliconGraphicsSVx,
    STMicroelectronicsSt19,
    DigitalVax,
    AxisCommunicationsCris,
    InfineonJavelin,
    Element14Firepath,
    LsiZsp,
    DonaldKnuthMmix,
    HarvardUniversityAny,
    SiTeraPrism,
    AtmelAvr,
    FujitsuFr30,
    MitsubishiD10V,
    MitsubishiD30V,
    NecV850,
    MitsubishiM32R,
    MatsushitaMn10300,
    MatsushitaMn10200,
    PicoJava,
    OpenRISC,
    ArcTangentA5,
    TensilicaXtensa,
    AlteraNios2,
    Aarch64,
    TilePro,
    XilinxMicroBlaze,
    TileraTileGx,
}

impl Machine {
    /// The decoding table: which named architecture a code stands for, if
    /// any.
    pub open spec fn spec_from(val: u16) -> Maybe<Machine, u16> {
        if val == 0 {
            Maybe::Known(Machine::NoMachine)
        } else if val == 1 {
            Maybe::Known(Machine::AtatWe32100)
        } else if val == 2 {
            Maybe::Known(Machine::Sparc)
        } else if val == 3 {
            Maybe::Known(Machine::I386)
        } else if val == 4 {
            Maybe::Known(Machine::Motorola68K)
        } else if val == 5 {
            Maybe::Known(Machine::Motorola88K)
        } else if val == 7 {
            Maybe::Known(Machine::Intel80860)
        } else if val == 8 {
            Maybe::Known(Machine::Mips)
        } else if val == 9 {
            Maybe::Known(Machine::IbmSystem370)
        } else if val == 10 {
            Maybe::Known(Machine::MipsRs3Le)
        } else if val == 15 {
            Maybe::Known(Machine::HppaPaRisc)
        } else if val == 17 {
            Maybe::Known(Machine::FujitsuVpp500)
        } else if val == 18 {
            Maybe::Known(Machine::Sparc32Plus)
        } else if val == 19 {
            Maybe::Known(Machine::Intel80960)
        } else if val == 20 {
            Maybe::Known(Machine::PowerPc)
        } else if val == 21 {
            Maybe::Known(Machine::PowerPc64)
        } else if val == 22 {
            Maybe::Known(Machine::IbmSystem390)
        } else if val == 36 {
            Maybe::Known(Machine::NecV800)
        } else if val == 37 {
            Maybe::Known(Machine::FujitsuFr20)
        } else if val == 38 {
            Maybe::Known(Machine::TrwRh32)
        } else if val == 39 {
            Maybe::Known(Machine::MotorolaRce)
        } else if val == 40 {
            Maybe::Known(Machine::Arm)
        } else if val == 41 {
            Maybe::Known(Machine::FakeAlpha)
        } else if val == 42 {
            Maybe::Known(Machine::HitachiSh)
        } else if val == 43 {
            Maybe::Known(Machine::SparcV9)
        } else if val == 44 {
            Maybe::Known(Machine::SiemensTricore)
        } else if val == 45 {
            Maybe::Known(Machine::ArgonautRiscCore)
        } else if val == 46 {
            Maybe::Known(Machine::HitachiH8_300)
        } else if val == 47 {
            Maybe::Known(Machine::HitachiH8_300H)
        } else if val == 48 {
            Maybe::Known(Machine::HitachiH8S)
        } else if val == 49 {
            Maybe::Known(Machine::HitachiH8_500)
        } else if val == 50 {
            Maybe::Known(Machine::IA_64)
        } else if val == 51 {
            Maybe::Known(Machine::StanfordMipsX)
        } else if val == 52 {
            Maybe::Known(Machine::MototolaColdfire)
        } else if val == 53 {
            Maybe::Known(Machine::Mototola68Hc12)
        } else if val == 54 {
            Maybe::Known(Machine::FujitsuMultimediaAccelerator)
        } else if val == 55 {
            Maybe::Known(Machine::SiemensPcp)
        } else if val == 56 {
            Maybe::Known(Machine::SonyNcpu)
        } else if val == 57 {
            Maybe::Known(Machine::DensoNdr1)
        } else if val == 58 {
            Maybe::Known(Machine::MotorolaStarCore)
        } else if val == 59 {
            Maybe::Known(Machine::ToyotaMe16)
        } else if val == 60 {
            Maybe::Known(Machine::STMicroelectronicST100)
        } else if val == 61 {
            Maybe::Known(Machine::TinyJ)
        } else if val == 62 {
            Maybe::Known(Machine::X86_64)
        } else if val == 63 {
            Maybe::Known(Machine::SonyDsp)
        } else if val == 66 {
            Maybe::Known(Machine::SiemensFx66)
        } else if val == 67 {
            Maybe::Known(Machine::STMicroelectronicsSt9Plus)
        } else if val == 68 {
            Maybe::Known(Machine::STMicroelectronicsSt7)
        } else if val == 69 {
            Maybe::Known(Machine::Motorola68Hc16)
        } else if val == 70 {
            Maybe::Known(Machine::Motorola68Hc11)
        } else if val == 71 {
            Maybe::Known(Machine::Motorola68Hc08)
        } else if val == 72 {
            Maybe::Known(Machine::Motorola68Hc05)
        } else if val == 73 {
            Maybe::Known(Machine::SiliconGraphicsSVx)
        } else if val == 74 {
            Maybe::Known(Machine::STMicroelectronicsSt19)
        } else if val == 75 {
            Maybe::Known(Machine::DigitalVax)
        } else if val == 76 {
            Maybe::Known(Machine::AxisCommunicationsCris)
        } else if val == 77 {
            Maybe::Known(Machine::InfineonJavelin)
        } else if val == 78 {
            Maybe::Known(Machine::Element14Firepath)
        } else if val == 79 {
            Maybe::Known(Machine::LsiZsp)
        } else if val == 80 {
            Maybe::Known(Machine::DonaldKnuthMmix)
        } else if val == 81 {
            Maybe::Known(Machine::HarvardUniversityAny)
        } else if val == 82 {
            Maybe::Known(Machine::SiTeraPrism)
        } else if val == 83 {
            Maybe::Known(Machine::AtmelAvr)
        } else if val == 84 {
            Maybe::Known(Machine::FujitsuFr30)
        } else if val == 85 {
            Maybe::Known(Machine::MitsubishiD10V)
        } else if val == 86 {
            Maybe::Known(Machine::MitsubishiD30V)
        } else if val == 87 {
            Maybe::Known(Machine::NecV850)
        } else if val == 88 {
            Maybe::Known(Machine::MitsubishiM32R)
        } else if val == 89 {
            Maybe::Known(Machine::MatsushitaMn10300)
        } else if val == 90 {
            Maybe::Known(Machine::MatsushitaMn10200)
        } else if val == 91 {
            Maybe::Known(Machine::PicoJava)
        } else if val == 92 {
            Maybe::Known(Machine::OpenRISC)
        } else if val == 93 {
            Maybe::Known(Machine::ArcTangentA5)
        } else if val == 94 {
            Maybe::Known(Machine::TensilicaXtensa)
        } else if val == 113 {
            Maybe::Known(Machine::AlteraNios2)
        } else if val == 183 {
            Maybe::Known(Machine::Aarch64)
        } else if val == 188 {
            Maybe::Known(Machine::TilePro)
        } else if val == 189 {
            Maybe::Known(Machine::XilinxMicroBlaze)
        } else if val == 191 {
            Maybe::Known(Machine::TileraTileGx)
        } else {
            Maybe::Unknown(val)
        }
    }

    /// The registered code of a named architecture: the reverse of the table.
    pub open spec fn spec_code(self) -> u16 {
        match self {
            Machine::NoMachine => 0,
            Machine::AtatWe32100 => 1,
            Machine::Sparc => 2,
            Machine::I386 => 3,
            Machine::Motorola68K => 4,
            Machine::Motorola88K => 5,
            Machine::Intel80860 => 7,
            Machine::Mips => 8,
            Machine::IbmSystem370 => 9,
            Machine::MipsRs3Le => 10,
            Machine::HppaPaRisc => 15,
            Machine::FujitsuVpp500 => 17,
            Machine::Sparc32Plus => 18,
            Machine::Intel80960 => 19,
            Machine::PowerPc => 20,
            Machine::PowerPc64 => 21,
            Machine::IbmSystem390 => 22,
            Machine::NecV800 => 36,
            Machine::FujitsuFr20 => 37,
            Machine::TrwRh32 => 38,
            Machine::MotorolaRce => 39,
            Machine::Arm => 40,
            Machine::FakeAlpha => 41,
            Machine::HitachiSh => 42,
            Machine::SparcV9 => 43,
            Machine::SiemensTricore => 44,
            Machine::ArgonautRiscCore => 45,
            Machine::HitachiH8_300 => 46,
            Machine::HitachiH8_300H => 47,
            Machine::HitachiH8S => 48,
            Machine::HitachiH8_500 => 49,
            Machine::IA_64 => 50,
            Machine::StanfordMipsX => 51,
            Machine::MototolaColdfire => 52,
            Machine::Mototola68Hc12 => 53,
            Machine::FujitsuMultimediaAccelerator => 54,
            Machine::SiemensPcp => 55,
            Machine::SonyNcpu => 56,
            Machine::DensoNdr1 => 57,
            Machine::MotorolaStarCore => 58,
            Machine::ToyotaMe16 => 59,
            Machine::STMicroelectronicST100 => 60,
            Machine::TinyJ => 61,
            Machine::X86_64 => 62,
            Machine::SonyDsp => 63,
            Machine::SiemensFx66 => 66,
            Machine::STMicroelectronicsSt9Plus => 67,
            Machine::STMicroelectronicsSt7 => 68,
            Machine::Motorola68Hc16 => 69,
            Machine::Motorola68Hc11 => 70,
            Machine::Motorola68Hc08 => 71,
            Machine::Motorola68Hc05 => 72,
            Machine::SiliconGraphicsSVx => 73,
            Machine::STMicroelectronicsSt19 => 74,
            Machine::DigitalVax => 75,
            Machine::AxisCommunicationsCris => 76,
            Machine::InfineonJavelin => 77,
            Machine::Element14Firepath => 78,
            Machine::LsiZsp => 79,
            Machine::DonaldKnuthMmix => 80,
            Machine::HarvardUniversityAny => 81,
            Machine::SiTeraPrism => 82,
            Machine::AtmelAvr => 83,
            Machine::FujitsuFr30 => 84,
            Machine::MitsubishiD10V => 85,
            Machine::MitsubishiD30V => 86,
            Machine::NecV850 => 87,
            Machine::MitsubishiM32R => 88,
            Machine::MatsushitaMn10300 => 89,
            Machine::MatsushitaMn10200 => 90,
            Machine::PicoJava => 91,
            Machine::OpenRISC => 92,
            Machine::ArcTangentA5 => 93,
            Machine::TensilicaXtensa => 94,
            Machine::AlteraNios2 => 113,
            Machine::Aarch64 => 183,
            Machine::TilePro => 188,
            Machine::XilinxMicroBlaze => 189,
            Machine::TileraTileGx => 191,
        }
    }

    /// Decodes a machine code; unregistered codes are preserved verbatim.
    pub fn from(val: u16) -> (r: Maybe<Machine, u16>)
        ensures
            r == Machine::spec_from(val),
    {
        match val {
            0 => Maybe::Known(Machine::NoMachine),
            1 => Maybe::Known(Machine::AtatWe32100),
            2 => Maybe::Known(Machine::Sparc),
            3 => Maybe::Known(Machine::I386),
            4 => Maybe::Known(Machine::Motorola68K),
            5 => Maybe::Known(Machine::Motorola88K),
            7 => Maybe::Known(Machine::Intel80860),
            8 => Maybe::Known(Machine::Mips),
            9 => Maybe::Known(Machine::IbmSystem370),
            10 => Maybe::Known(Machine::MipsRs3Le),
            15 => Maybe::Known(Machine::HppaPaRisc),
            17 => Maybe::Known(Machine::FujitsuVpp500),
            18 => Maybe::Known(Machine::Sparc32Plus),
            19 => Maybe::Known(Machine::Intel80960),
            20 => Maybe::Known(Machine::PowerPc),
            21 => Maybe::Known(Machine::PowerPc64),
            22 => Maybe::Known(Machine::IbmSystem390),
            36 => Maybe::Known(Machine::NecV800),
            37 => Maybe::Known(Machine::FujitsuFr20),
            38 => Maybe::Known(Machine::TrwRh32),
            39 => Maybe::Known(Machine::MotorolaRce),
            40 => Maybe::Known(Machine::Arm),
            41 => Maybe::Known(Machine::FakeAlpha),
            42 => Maybe::Known(Machine::HitachiSh),
            43 => Maybe::Known(Machine::SparcV9),
            44 => Maybe::Known(Machine::SiemensTricore),
            45 => Maybe::Known(Machine::ArgonautRiscCore),
            46 => Maybe::Known(Machine::HitachiH8_300),
            47 => Maybe::Known(Machine::HitachiH8_300H),
            48 => Maybe::Known(Machine::HitachiH8S),
            49 => Maybe::Known(Machine::HitachiH8_500),
            50 => Maybe::Known(Machine::IA_64),
            51 => Maybe::Known(Machine::StanfordMipsX),
            52 => Maybe::Known(Machine::MototolaColdfire),
            53 => Maybe::Known(Machine::Mototola68Hc12),
            54 => Maybe::Known(Machine::FujitsuMultimediaAccelerator),
            55 => Maybe::Known(Machine::SiemensPcp),
            56 => Maybe::Known(Machine::SonyNcpu),
            57 => Maybe::Known(Machine::DensoNdr1),
            58 => Maybe::Known(Machine::MotorolaStarCore),
            59 => Maybe::Known(Machine::ToyotaMe16),
            60 => Maybe::Known(Machine::STMicroelectronicST100),
            61 => Maybe::Known(Machine::TinyJ),
            62 => Maybe::Known(Machine::X86_64),
            63 => Maybe::Known(Machine::SonyDsp),
            66 => Maybe::Known(Machine::SiemensFx66),
            67 => Maybe::Known(Machine::STMicroelectronicsSt9Plus),
            68 => Maybe::Known(Machine::STMicroelectronicsSt7),
            69 => Maybe::Known(Machine::Motorola68Hc16),
            70 => Maybe::Known(Machine::Motorola68Hc11),
            71 => Maybe::Known(Machine::Motorola68Hc08),
            72 => Maybe::Known(Machine::Motorola68Hc05),
            73 => Maybe::Known(Machine::SiliconGraphicsSVx),
            74 => Maybe::Known(Machine::STMicroelectronicsSt19),
            75 => Maybe::Known(Machine::DigitalVax),
            76 => Maybe::Known(Machine::AxisCommunicationsCris),
            77 => Maybe::Known(Machine::InfineonJavelin),
            78 => Maybe::Known(Machine::Element14Firepath),
            79 => Maybe::Known(Machine::LsiZsp),
            80 => Maybe::Known(Machine::DonaldKnuthMmix),
            81 => Maybe::Known(Machine::HarvardUniversityAny),
            82 => Maybe::Known(Machine::SiTeraPrism),
            83 => Maybe::Known(Machine::AtmelAvr),
            84 => Maybe::Known(Machine::FujitsuFr30),
            85 => Maybe::Known(Machine::MitsubishiD10V),
            86 => Maybe::Known(Machine::MitsubishiD30V),
            87 => Maybe::Known(Machine::NecV850),
            88 => Maybe::Known(Machine::MitsubishiM32R),
            89 => Maybe::Known(Machine::MatsushitaMn10300),
            90 => Maybe::Known(Machine::MatsushitaMn10200),
            91 => Maybe::Known(Machine::PicoJava),
            92 => Maybe::Known(Machine::OpenRISC),
            93 => Maybe::Known(Machine::ArcTangentA5),
            94 => Maybe::Known(Machine::TensilicaXtensa),
            113 => Maybe::Known(Machine::AlteraNios2),
            183 => Maybe::Known(Machine::Aarch64),
            188 => Maybe::Known(Machine::TilePro),
            189 => Maybe::Known(Machine::XilinxMicroBlaze),
            191 => Maybe::Known(Machine::TileraTileGx),
            _ => Maybe::Unknown(val),
        }
    }

    /// The canonical name of an architecture, as the display form shows it.
    pub open spec fn spec_name(self) -> Seq<char> {
        match self {
            Machine::NoMachine => "NoMachine"@,
            Machine::AtatWe32100 => "AtatWe32100"@,
            Machine::Sparc => "Sparc"@,
            Machine::I386 => "I386"@,
            Machine::Motorola68K => "Motorola68K"@,
            Machine::Motorola88K => "Motorola88K"@,
            Machine::Intel80860 => "Intel80860"@,
            Machine::Mips => "Mips"@,
            Machine::IbmSystem370 => "IbmSystem370"@,
            Machine::MipsRs3Le => "MipsRs3Le"@,
            Machine::HppaPaRisc => "HppaPaRisc"@,
            Machine::FujitsuVpp500 => "FujitsuVpp500"@,
            Machine::Sparc32Plus => "Sparc32Plus"@,
            Machine::Intel80960 => "Intel80960"@,
            Machine::PowerPc => "PowerPc"@,
            Machine::PowerPc64 => "PowerPc64"@,
            Machine::IbmSystem390 => "IbmSystem390"@,
            Machine::NecV800 => "NecV800"@,
            Machine::FujitsuFr20 => "FujitsuFr20"@,
            Machine::TrwRh32 => "TrwRh32"@,
            Machine::MotorolaRce => "MotorolaRce"@,
            Machine::Arm => "Arm"@,
            Machine::FakeAlpha => "FakeAlpha"@,
            Machine::HitachiSh => "HitachiSh"@,
            Machine::SparcV9 => "SparcV9"@,
            Machine::SiemensTricore => "SiemensTricore"@,
            Machine::ArgonautRiscCore => "ArgonautRiscCore"@,
            Machine::HitachiH8_300 => "HitachiH8_300"@,
            Machine::HitachiH8_300H => "HitachiH8_300H"@,
            Machine::HitachiH8S => "HitachiH8S"@,
            Machine::HitachiH8_500 => "HitachiH8_500"@,
            Machine::IA_64 => "IA_64"@,
            Machine::StanfordMipsX => "StanfordMipsX"@,
            Machine::MototolaColdfire => "MototolaColdfire"@,
            Machine::Mototola68Hc12 => "Mototola68Hc12"@,
            Machine::FujitsuMultimediaAccelerator => "FujitsuMultimediaAccelerator"@,
            Machine::SiemensPcp => "SiemensPcp"@,
            Machine::SonyNcpu => "SonyNcpu"@,
            Machine::DensoNdr1 => "DensoNdr1"@,
            Machine::MotorolaStarCore => "MotorolaStarCore"@,
            Machine::ToyotaMe16 => "ToyotaMe16"@,
            Machine::STMicroelectronicST100 => "STMicroelectronicST100"@,
            Machine::TinyJ => "TinyJ"@,
            Machine::X86_64 => "X86_64"@,
            Machine::SonyDsp => "SonyDsp"@,
            Machine::SiemensFx66 => "SiemensFx66"@,
            Machine::STMicroelectronicsSt9Plus => "STMicroelectronicsSt9Plus"@,
            Machine::STMicroelectronicsSt7 => "STMicroelectronicsSt7"@,
            Machine::Motorola68Hc16 => "Motorola68Hc16"@,
            Machine::Motorola68Hc11 => "Motorola68Hc11"@,
            Machine::Motorola68Hc08 => "Motorola68Hc08"@,
            Machine::Motorola68Hc05 => "Motorola68Hc05"@,
            Machine::SiliconGraphicsSVx => "SiliconGraphicsSVx"@,
            Machine::STMicroelectronicsSt19 => "STMicroelectronicsSt19"@,
            Machine::DigitalVax => "DigitalVax"@,
            Machine::AxisCommunicationsCris => "AxisCommunicationsCris"@,
            Machine::InfineonJavelin => "InfineonJavelin"@,
            Machine::Element14Firepath => "Element14Firepath"@,
            Machine::LsiZsp => "LsiZsp"@,
            Machine::DonaldKnuthMmix => "DonaldKnuthMmix"@,
            Machine::HarvardUniversityAny => "HarvardUniversityAny"@,
            Machine::SiTeraPrism => "SiTeraPrism"@,
            Machine::AtmelAvr => "AtmelAvr"@,
            Machine::FujitsuFr30 => "FujitsuFr30"@,
            Machine::MitsubishiD10V => "MitsubishiD10V"@,
            Machine::MitsubishiD30V => "MitsubishiD30V"@,
            Machine::NecV850 => "NecV850"@,
            Machine::MitsubishiM32R => "MitsubishiM32R"@,
            Machine::MatsushitaMn10300 => "MatsushitaMn10300"@,
            Machine::MatsushitaMn10200 => "MatsushitaMn10200"@,
            Machine::PicoJava => "PicoJava"@,
            Machine::OpenRISC => "OpenRISC"@,
            Machine::ArcTangentA5 => "ArcTangentA5"@,
            Machine::TensilicaXtensa => "TensilicaXtensa"@,
            Machine::AlteraNios2 => "AlteraNios2"@,
            Machine::Aarch64 => "Aarch64"@,
            Machine::TilePro => "TilePro"@,
            Machine::XilinxMicroBlaze => "XilinxMicroBlaze"@,
            Machine::TileraTileGx => "TileraTileGx"@,
        }
    }

    /// The canonical name of an architecture.
    pub fn name(&self) -> (r: String)
        ensures
            r@ == self.spec_name(),
    {
        match self {
            Machine::NoMachine => String::from_str("NoMachine"),
            Machine::AtatWe32100 => String::from_str("AtatWe32100"),
            Machine::Sparc => String::from_str("Sparc"),
            Machine::I386 => String::from_str("I386"),
            Machine::Motorola68K => String::from_str("Motorola68K"),
            Machine::Motorola88K => String::from_str("Motorola88K"),
            Machine::Intel80860 => String::from_str("Intel80860"),
            Machine::Mips => String::from_str("Mips"),
            Machine::IbmSystem370 => String::from_str("IbmSystem370"),
            Machine::MipsRs3Le => String::from_str("MipsRs3Le"),
            Machine::HppaPaRisc => String::from_str("HppaPaRisc"),
            Machine::FujitsuVpp500 => String::from_str("FujitsuVpp500"),
            Machine::Sparc32Plus => String::from_str("Sparc32Plus"),
            Machine::Intel80960 => String::from_str("Intel80960"),
            Machine::PowerPc => String::from_str("PowerPc"),
            Machine::PowerPc64 => String::from_str("PowerPc64"),
            Machine::IbmSystem390 => String::from_str("IbmSystem390"),
            Machine::NecV800 => String::from_str("NecV800"),
            Machine::FujitsuFr20 => String::from_str("FujitsuFr20"),
            Machine::TrwRh32 => String::from_str("TrwRh32"),
            Machine::MotorolaRce => String::from_str("MotorolaRce"),
            Machine::Arm => String::from_str("Arm"),
            Machine::FakeAlpha => String::from_str("FakeAlpha"),
            Machine::HitachiSh => String::from_str("HitachiSh"),
            Machine::SparcV9 => String::from_str("SparcV9"),
            Machine::SiemensTricore => String::from_str("SiemensTricore"),
            Machine::ArgonautRiscCore => String::from_str("ArgonautRiscCore"),
            Machine::HitachiH8_300 => String::from_str("HitachiH8_300"),
            Machine::HitachiH8_300H => String::from_str("HitachiH8_300H"),
            Machine::HitachiH8S => String::from_str("HitachiH8S"),
            Machine::HitachiH8_500 => String::from_str("HitachiH8_500"),
            Machine::IA_64 => String::from_str("IA_64"),
            Machine::StanfordMipsX => String::from_str("StanfordMipsX"),
            Machine::MototolaColdfire => String::from_str("MototolaColdfire"),
            Machine::Mototola68Hc12 => String::from_str("Mototola68Hc12"),
            Machine::FujitsuMultimediaAccelerator => String::from_str("FujitsuMultimediaAccelerator"),
            Machine::SiemensPcp => String::from_str("SiemensPcp"),
            Machine::SonyNcpu => String::from_str("SonyNcpu"),
            Machine::DensoNdr1 => String::from_str("DensoNdr1"),
            Machine::MotorolaStarCore => String::from_str("MotorolaStarCore"),
            Machine::ToyotaMe16 => String::from_str("ToyotaMe16"),
            Machine::STMicroelectronicST100 => String::from_str("STMicroelectronicST100"),
            Machine::TinyJ => String::from_str("TinyJ"),
            Machine::X86_64 => String::from_str("X86_64"),
            Machine::SonyDsp => String::from_str("SonyDsp"),
            Machine::SiemensFx66 => String::from_str("SiemensFx66"),
            Machine::STMicroelectronicsSt9Plus => String::from_str("STMicroelectronicsSt9Plus"),
            Machine::STMicroelectronicsSt7 => String::from_str("STMicroelectronicsSt7"),
            Machine::Motorola68Hc16 => String::from_str("Motorola68Hc16"),
            Machine::Motorola68Hc11 => String::from_str("Motorola68Hc11"),
            Machine::Motorola68Hc08 => String::from_str("Motorola68Hc08"),
            Machine::Motorola68Hc05 => String::from_str("Motorola68Hc05"),
            Machine::SiliconGraphicsSVx => String::from_str("SiliconGraphicsSVx"),
            Machine::STMicroelectronicsSt19 => String::from_str("STMicroelectronicsSt19"),
            Machine::DigitalVax => String::from_str("DigitalVax"),
            Machine::AxisCommunicationsCris => String::from_str("AxisCommunicationsCris"),
            Machine::InfineonJavelin => String::from_str("InfineonJavelin"),
            Machine::Element14Firepath => String::from_str("Element14Firepath"),
            Machine::LsiZsp => String::from_str("LsiZsp"),
            Machine::DonaldKnuthMmix => String::from_str("DonaldKnuthMmix"),
            Machine::HarvardUniversityAny => String::from_str("HarvardUniversityAny"),
            Machine::SiTeraPrism => String::from_str("SiTeraPrism"),
            Machine::AtmelAvr => String::from_str("AtmelAvr"),
            Machine::FujitsuFr30 => String::from_str("FujitsuFr30"),
            Machine::MitsubishiD10V => String::from_str("MitsubishiD10V"),
            Machine::MitsubishiD30V => String::from_str("MitsubishiD30V"),
            Machine::NecV850 => String::from_str("NecV850"),
            Machine::MitsubishiM32R => String::from_str("MitsubishiM32R"),
            Machine::MatsushitaMn10300 => String::from_str("MatsushitaMn10300"),
            Machine::MatsushitaMn10200 => String::from_str("MatsushitaMn10200"),
            Machine::PicoJava => String::from_str("PicoJava"),
            Machine::OpenRISC => String::from_str("OpenRISC"),
            Machine::ArcTangentA5 => String::from_str("ArcTangentA5"),
            Machine::TensilicaXtensa => String::from_str("TensilicaXtensa"),
            Machine::AlteraNios2 => String::from_str("AlteraNios2"),
            Machine::Aarch64 => String::from_str("Aarch64"),
            Machine::TilePro => String::from_str("TilePro"),
            Machine::XilinxMicroBlaze => String::from_str("XilinxMicroBlaze"),
            Machine::TileraTileGx => String::from_str("TileraTileGx"),
        }
    }
}

/// Decoding a registered machine code and reading the constant's code back is
/// the identity, and an unregistered code is preserved verbatim.
pub proof fn lemma_machine_roundtrip(code: u16)
    ensures
        (match Machine::spec_from(code) {
            Maybe::Known(m) => m.spec_code() == code,
            Maybe::Unknown(v) => v == code,
        }),
{
}

impl Maybe<Machine, u16> {
    /// The stable display form: the constant's canonical name when the code
    /// is registered, `Unknown(<code>)` otherwise.
    pub fn to_text(&self) -> (r: String)
        ensures
            (match self {
                Maybe::Known(m) => r@ == m.spec_name(),
                Maybe::Unknown(v) => r@ == spec_unknown_text(*v as nat),
            }),
    {
        match self {
            Maybe::Known(m) => m.name(),
            Maybe::Unknown(v) => unknown_text(*v as u64),
        }
    }
}

} // verus!
