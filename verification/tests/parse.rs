use elf::{Bits, Endian, Machine, Maybe, Object, ObjectType, OsAbi, ValidationError};

#[test]
fn it_works() {}

/// A 64-byte, 64-bit little-endian executable header for x86-64 on Linux.
fn header_64le() -> Vec<u8> {
    let mut b = vec![0u8; 64];
    b[0] = 0x7f;
    b[1] = 0x45; // 'E'
    b[2] = 0x4c; // 'L'
    b[3] = 0x46; // 'F'
    b[4] = 2; // 64-bit
    b[5] = 1; // little-endian
    b[6] = 1; // header format version
    b[7] = 3; // Linux
    b[8] = 7; // ABI version
    b[16] = 0x02; // object type: executable
    b[18] = 0x3e; // machine: 62, x86-64
    b[20] = 0x01; // file version 1
    // entry point 0x00000000004004d8
    b[24] = 0xd8;
    b[25] = 0x04;
    b[26] = 0x40;
    // program header offset 64
    b[32] = 0x40;
    // section header offset 0x1318
    b[40] = 0x18;
    b[41] = 0x13;
    // processor flags 0
    b[52] = 0x40; // header size 64
    b[54] = 0x38; // program header entry size 56
    b[56] = 0x09; // program header entry count 9
    b[58] = 0x40; // section header entry size 64
    b[60] = 0x1d; // section header entry count 29
    b[62] = 0x1c; // section name table index 28
    b
}

/// A 52-byte, 32-bit little-endian shared object header for i386.
fn header_32le() -> Vec<u8> {
    let mut b = vec![0u8; 52];
    b[0] = 0x7f;
    b[1] = 0x45;
    b[2] = 0x4c;
    b[3] = 0x46;
    b[4] = 1; // 32-bit
    b[5] = 1; // little-endian
    b[6] = 1;
    b[16] = 0x03; // object type: shared object
    b[18] = 0x03; // machine: 3, i386
    b[20] = 0x01; // file version 1
    // entry point 0x08048000
    b[26] = 0x04;
    b[27] = 0x08;
    b[25] = 0x80;
    // program header offset 52
    b[28] = 0x34;
    // section header offset 0x451c
    b[32] = 0x1c;
    b[33] = 0x45;
    // processor flags 0x12345678
    b[36] = 0x78;
    b[37] = 0x56;
    b[38] = 0x34;
    b[39] = 0x12;
    b[40] = 0x34; // header size 52
    b[42] = 0x20; // program header entry size 32
    b[44] = 0x07; // program header entry count 7
    b[46] = 0x28; // section header entry size 40
    b[48] = 0x17; // section header entry count 23
    b[50] = 0x16; // section name table index 22
    b
}

#[test]
fn parses_64bit_little_endian_executable() {
    let b = header_64le();
    let o = Object::new(&b).expect("valid header");
    assert_eq!(o.bits(), Bits::Bits64);
    assert_eq!(o.endian(), Endian::Little);
    assert_eq!(o.abi(), Maybe::Known(OsAbi::Linux));
    assert_eq!(o.abi_version(), 7);
    assert_eq!(o.object_type(), Maybe::Known(ObjectType::Executable));
    assert_eq!(o.machine(), Maybe::Known(Machine::X86_64));
    assert_eq!(o.version(), 1);
    assert_eq!(o.entry_point_address(), 0x4004d8);
    assert_eq!(o.program_header_offset(), 64);
    assert_eq!(o.section_header_offset(), 0x1318);
    assert_eq!(o.processor_flags(), 0);
    assert_eq!(o.header_size(), 64);
    assert_eq!(o.program_header_entry_size(), 56);
    assert_eq!(o.program_header_entry_count(), 9);
    assert_eq!(o.section_header_entry_size(), 64);
    assert_eq!(o.section_header_entry_count(), 29);
    assert_eq!(o.section_header_string_table_index(), 28);
}

#[test]
fn parses_32bit_little_endian_shared_object() {
    let b = header_32le();
    let o = Object::new(&b).expect("valid header");
    assert_eq!(o.bits(), Bits::Bits32);
    assert_eq!(o.endian(), Endian::Little);
    assert_eq!(o.abi(), Maybe::Known(OsAbi::SystemV));
    assert_eq!(o.abi_version(), 0);
    assert_eq!(o.object_type(), Maybe::Known(ObjectType::SharedObject));
    assert_eq!(o.machine(), Maybe::Known(Machine::I386));
    assert_eq!(o.version(), 1);
    assert_eq!(o.entry_point_address(), 0x08048000);
    assert_eq!(o.program_header_offset(), 52);
    assert_eq!(o.section_header_offset(), 0x451c);
    assert_eq!(o.processor_flags(), 0x12345678);
    assert_eq!(o.header_size(), 52);
    assert_eq!(o.program_header_entry_size(), 32);
    assert_eq!(o.program_header_entry_count(), 7);
    assert_eq!(o.section_header_entry_size(), 40);
    assert_eq!(o.section_header_entry_count(), 23);
    assert_eq!(o.section_header_string_table_index(), 22);
}

#[test]
fn big_endian_fields_read_most_significant_byte_first() {
    let mut b = header_64le();
    b[5] = 2; // big-endian
    // rewrite each multi-byte field most significant byte first
    for i in 16..64 {
        b[i] = 0;
    }
    b[17] = 0x02; // object type 2
    b[19] = 0x3e; // machine 62
    b[23] = 0x01; // file version 1
    // entry point 0x4004d8
    b[29] = 0x40;
    b[30] = 0x04;
    b[31] = 0xd8;
    b[39] = 0x40; // program header offset 64
    // section header offset 0x1318
    b[46] = 0x13;
    b[47] = 0x18;
    b[53] = 0x40; // header size 64
    b[55] = 0x38; // program header entry size 56
    b[57] = 0x09; // program header entry count 9
    b[59] = 0x40; // section header entry size 64
    b[61] = 0x1d; // section header entry count 29
    b[63] = 0x1c; // section name table index 28
    let o = Object::new(&b).expect("valid header");
    assert_eq!(o.endian(), Endian::Big);
    assert_eq!(o.object_type(), Maybe::Known(ObjectType::Executable));
    assert_eq!(o.machine(), Maybe::Known(Machine::X86_64));
    assert_eq!(o.version(), 1);
    assert_eq!(o.entry_point_address(), 0x4004d8);
    assert_eq!(o.program_header_offset(), 64);
    assert_eq!(o.section_header_offset(), 0x1318);
    assert_eq!(o.header_size(), 64);
    assert_eq!(o.program_header_entry_size(), 56);
    assert_eq!(o.program_header_entry_count(), 9);
    assert_eq!(o.section_header_entry_size(), 64);
    assert_eq!(o.section_header_entry_count(), 29);
    assert_eq!(o.section_header_string_table_index(), 28);
}

#[test]
fn unregistered_machine_code_is_preserved() {
    let mut b = header_64le();
    b[18] = 0xff;
    b[19] = 0xff;
    let o = Object::new(&b).expect("valid header");
    assert_eq!(o.machine(), Maybe::Unknown(0xffff));
    assert_eq!(o.machine().to_text(), "Unknown(65535)");
}

#[test]
fn seven_byte_buffer_is_too_short() {
    let b = vec![0x7f, 0x45, 0x4c, 0x46, 2, 1, 1];
    assert_eq!(b.len(), 7);
    assert_eq!(Object::new(&b).err(), Some(ValidationError::TooShort));
}

#[test]
fn empty_buffer_is_too_short() {
    let b: Vec<u8> = Vec::new();
    assert_eq!(Object::new(&b).err(), Some(ValidationError::TooShort));
}

#[test]
fn bad_version_byte_is_rejected() {
    let mut b = header_64le();
    b[6] = 2;
    assert_eq!(Object::new(&b).err(), Some(ValidationError::BadVersion));
}

#[test]
fn bad_magic_is_rejected_regardless_of_rest() {
    let mut b = header_64le();
    b[3] = 0x47;
    assert_eq!(Object::new(&b).err(), Some(ValidationError::BadMagic));
}

#[test]
fn bad_width_byte_is_rejected() {
    let mut b = header_64le();
    b[4] = 3;
    assert_eq!(Object::new(&b).err(), Some(ValidationError::BadWidth));
    b[4] = 0;
    assert_eq!(Object::new(&b).err(), Some(ValidationError::BadWidth));
}

#[test]
fn bad_endianness_byte_is_rejected() {
    let mut b = header_64le();
    b[5] = 0;
    assert_eq!(Object::new(&b).err(), Some(ValidationError::BadEndianness));
    b[5] = 3;
    assert_eq!(Object::new(&b).err(), Some(ValidationError::BadEndianness));
}

#[test]
fn buffer_shorter_than_64bit_header_is_rejected() {
    let b = header_64le();
    let truncated = &b[..63];
    assert_eq!(Object::new(truncated).err(), Some(ValidationError::TooShort));
    assert!(Object::new(&b[..64]).is_ok());
    // the same first 52 bytes pass under the 32-bit layout
    let mut short = b[..52].to_vec();
    short[4] = 1;
    assert!(Object::new(&short).is_ok());
}

#[test]
fn buffer_shorter_than_32bit_header_is_rejected() {
    let b = header_32le();
    let truncated = &b[..51];
    assert_eq!(Object::new(truncated).err(), Some(ValidationError::TooShort));
    assert!(Object::new(&b[..52]).is_ok());
}

#[test]
fn width_byte_selects_the_offset_table() {
    // two buffers identical except for the width byte: every width-dependent
    // accessor routes through its own layout's offsets and field widths
    let mut wide = vec![0u8; 64];
    wide[0] = 0x7f;
    wide[1] = 0x45;
    wide[2] = 0x4c;
    wide[3] = 0x46;
    wide[4] = 2;
    wide[5] = 1;
    wide[6] = 1;
    for i in 16..64 {
        wide[i] = i as u8;
    }
    let mut narrow = wide.clone();
    narrow[4] = 1;
    let o64 = Object::new(&wide).expect("valid header");
    let o32 = Object::new(&narrow).expect("valid header");
    assert_eq!(o64.bits(), Bits::Bits64);
    assert_eq!(o32.bits(), Bits::Bits32);
    // 8 bytes at offset 24 against 4 bytes at offset 24
    assert_eq!(o64.entry_point_address(), 0x1f1e1d1c_1b1a1918);
    assert_eq!(o32.entry_point_address(), 0x1b1a1918);
    assert!(o32.entry_point_address() <= u32::MAX as u64);
    // offset 32 against offset 28
    assert_eq!(o64.program_header_offset(), 0x27262524_23222120);
    assert_eq!(o32.program_header_offset(), 0x1f1e1d1c);
    // offset 40 against offset 32
    assert_eq!(o64.section_header_offset(), 0x2f2e2d2c_2b2a2928);
    assert_eq!(o32.section_header_offset(), 0x23222120);
    // offset 48 against offset 36
    assert_eq!(o64.processor_flags(), 0x33323130);
    assert_eq!(o32.processor_flags(), 0x27262524);
    // offset 52 against offset 40
    assert_eq!(o64.header_size(), 0x3534);
    assert_eq!(o32.header_size(), 0x2928);
    // offset 54 against offset 42
    assert_eq!(o64.program_header_entry_size(), 0x3736);
    assert_eq!(o32.program_header_entry_size(), 0x2b2a);
    // offset 56 against offset 44
    assert_eq!(o64.program_header_entry_count(), 0x3938);
    assert_eq!(o32.program_header_entry_count(), 0x2d2c);
    // offset 58 against offset 46
    assert_eq!(o64.section_header_entry_size(), 0x3b3a);
    assert_eq!(o32.section_header_entry_size(), 0x2f2e);
    // offset 60 against offset 48
    assert_eq!(o64.section_header_entry_count(), 0x3d3c);
    assert_eq!(o32.section_header_entry_count(), 0x3130);
    // offset 62 against offset 50
    assert_eq!(o64.section_header_string_table_index(), 0x3f3e);
    assert_eq!(o32.section_header_string_table_index(), 0x3332);
}
