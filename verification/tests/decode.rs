use elf::{decimal_u64, Bits, Endian, Machine, Maybe, ObjectType, OsAbi};

#[test]
fn os_abi_known_codes_decode_and_display() {
    assert_eq!(OsAbi::from(0), Maybe::Known(OsAbi::SystemV));
    assert_eq!(OsAbi::from(3), Maybe::Known(OsAbi::Linux));
    assert_eq!(OsAbi::from(9), Maybe::Known(OsAbi::FreeBsd));
    assert_eq!(OsAbi::from(64), Maybe::Known(OsAbi::ArmEabi));
    assert_eq!(OsAbi::from(97), Maybe::Known(OsAbi::Arm));
    assert_eq!(OsAbi::from(255), Maybe::Known(OsAbi::Standalone));
    assert_eq!(OsAbi::from(3).to_text(), "Linux");
    assert_eq!(OsAbi::from(10).to_text(), "Tru64Unix");
}

#[test]
fn os_abi_unknown_codes_are_preserved() {
    assert_eq!(OsAbi::from(5), Maybe::Unknown(5));
    assert_eq!(OsAbi::from(13), Maybe::Unknown(13));
    assert_eq!(OsAbi::from(200), Maybe::Unknown(200));
    assert_eq!(OsAbi::from(5).to_text(), "Unknown(5)");
    assert_eq!(OsAbi::from(200).to_text(), "Unknown(200)");
}

#[test]
fn bits_codes_decode_and_display() {
    assert_eq!(Bits::from(1), Maybe::Known(Bits::Bits32));
    assert_eq!(Bits::from(2), Maybe::Known(Bits::Bits64));
    assert_eq!(Bits::from(0), Maybe::Unknown(0));
    assert_eq!(Bits::from(3), Maybe::Unknown(3));
    assert_eq!(Bits::from(1).to_text(), "32-bit");
    assert_eq!(Bits::from(2).to_text(), "64-bit");
    assert_eq!(Bits::from(9).to_text(), "Unknown(9)");
}

#[test]
fn endian_codes_decode_and_display() {
    assert_eq!(Endian::from(1), Maybe::Known(Endian::Little));
    assert_eq!(Endian::from(2), Maybe::Known(Endian::Big));
    assert_eq!(Endian::from(0), Maybe::Unknown(0));
    assert_eq!(Endian::from(1).to_text(), "little-endian");
    assert_eq!(Endian::from(2).to_text(), "big-endian");
    assert_eq!(Endian::from(0).to_text(), "Unknown(0)");
}

#[test]
fn object_type_codes_decode_and_display() {
    assert_eq!(ObjectType::from(0), Maybe::Known(ObjectType::NoType));
    assert_eq!(ObjectType::from(1), Maybe::Known(ObjectType::Relocatable));
    assert_eq!(ObjectType::from(2), Maybe::Known(ObjectType::Executable));
    assert_eq!(ObjectType::from(3), Maybe::Known(ObjectType::SharedObject));
    assert_eq!(ObjectType::from(4), Maybe::Known(ObjectType::CoreDump));
    assert_eq!(ObjectType::from(5), Maybe::Unknown(5));
    assert_eq!(ObjectType::from(2).to_text(), "Executable");
    assert_eq!(ObjectType::from(5).to_text(), "Unknown(5)");
}

#[test]
fn machine_codes_decode_and_display() {
    assert_eq!(Machine::from(0), Maybe::Known(Machine::NoMachine));
    assert_eq!(Machine::from(3), Maybe::Known(Machine::I386));
    assert_eq!(Machine::from(8), Maybe::Known(Machine::Mips));
    assert_eq!(Machine::from(20), Maybe::Known(Machine::PowerPc));
    assert_eq!(Machine::from(40), Maybe::Known(Machine::Arm));
    assert_eq!(Machine::from(50), Maybe::Known(Machine::IA_64));
    assert_eq!(Machine::from(62), Maybe::Known(Machine::X86_64));
    assert_eq!(Machine::from(183), Maybe::Known(Machine::Aarch64));
    assert_eq!(Machine::from(191), Maybe::Known(Machine::TileraTileGx));
    assert_eq!(Machine::from(62).to_text(), "X86_64");
    assert_eq!(Machine::from(183).to_text(), "Aarch64");
}

#[test]
fn machine_unknown_codes_are_preserved() {
    // gaps in the registry and codes past its end
    assert_eq!(Machine::from(6), Maybe::Unknown(6));
    assert_eq!(Machine::from(16), Maybe::Unknown(16));
    assert_eq!(Machine::from(65), Maybe::Unknown(65));
    assert_eq!(Machine::from(112), Maybe::Unknown(112));
    assert_eq!(Machine::from(192), Maybe::Unknown(192));
    assert_eq!(Machine::from(0xffff), Maybe::Unknown(0xffff));
    assert_eq!(Machine::from(6).to_text(), "Unknown(6)");
    assert_eq!(Machine::from(0xffff).to_text(), "Unknown(65535)");
}

#[test]
fn every_registered_machine_code_round_trips() {
    // decoding a registered code yields a named constant whose display form
    // is its identifier, never an Unknown form
    let registered: [u16; 79] = [
        0, 1, 2, 3, 4, 5, 7, 8, 9, 10, 15, 17, 18, 19, 20, 21, 22, 36, 37, 38, 39, 40, 41, 42,
        43, 44, 45, 46, 47, 48, 49, 50, 51, 52, 53, 54, 55, 56, 57, 58, 59, 60, 61, 62, 63, 66,
        67, 68, 69, 70, 71, 72, 73, 74, 75, 76, 77, 78, 79, 80, 81, 82, 83, 84, 85, 86, 87, 88,
        89, 90, 91, 92, 93, 94, 113, 183, 188, 189, 191,
    ];
    for &code in registered.iter() {
        let decoded = Machine::from(code);
        assert!(matches!(decoded, Maybe::Known(_)));
        assert!(!decoded.to_text().starts_with("Unknown("));
    }
    for code in 0..=0xffffu16 {
        if !registered.contains(&code) {
            assert_eq!(Machine::from(code), Maybe::Unknown(code));
            assert_eq!(Machine::from(code).to_text(), format!("Unknown({})", code));
        }
    }
}

#[test]
fn decimal_rendering_is_exact() {
    assert_eq!(decimal_u64(0), "0");
    assert_eq!(decimal_u64(7), "7");
    assert_eq!(decimal_u64(10), "10");
    assert_eq!(decimal_u64(255), "255");
    assert_eq!(decimal_u64(65535), "65535");
    assert_eq!(decimal_u64(1024), "1024");
    assert_eq!(decimal_u64(u64::MAX), "18446744073709551615");
}
