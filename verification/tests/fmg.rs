use spellwheel::glyphs::fmg::{Fmg, FmgError, FmgVersion};

fn put_i32(v: &mut Vec<u8>, x: i32) {
    v.extend_from_slice(&x.to_le_bytes());
}

fn put_i64(v: &mut Vec<u8>, x: i64) {
    v.extend_from_slice(&x.to_le_bytes());
}

fn put_utf16(v: &mut Vec<u8>, s: &str) {
    for u in s.encode_utf16() {
        v.extend_from_slice(&u.to_le_bytes());
    }
    v.extend_from_slice(&[0, 0]);
}

/// A little-endian Dark Souls 1 FMG: one group of ids 100..=101, the first
/// with the text "Hi", the second without text.
fn ds1_file() -> Vec<u8> {
    let mut v = vec![0u8, 0, 1, 0];
    put_i32(&mut v, 54); // file size
    v.extend_from_slice(&[1, 0, 0, 0]); // unicode, 0, 0, 0
    put_i32(&mut v, 1); // group count
    put_i32(&mut v, 2); // string count
    put_i32(&mut v, 40); // string offsets offset
    put_i32(&mut v, 0);
    // group
    put_i32(&mut v, 0);
    put_i32(&mut v, 100);
    put_i32(&mut v, 101);
    // string offsets
    put_i32(&mut v, 48);
    put_i32(&mut v, 0);
    put_utf16(&mut v, "Hi");
    assert_eq!(v.len(), 54);
    v
}

/// A little-endian Elden Ring (wide) FMG with two groups.
fn er_file() -> Vec<u8> {
    let mut v = vec![0u8, 0, 2, 0];
    put_i32(&mut v, 0);
    v.extend_from_slice(&[1, 0, 0, 0]);
    put_i32(&mut v, 2); // groups
    put_i32(&mut v, 3); // strings
    put_i32(&mut v, 0xFF);
    put_i64(&mut v, 72); // string offsets offset
    put_i64(&mut v, 0);
    // group 0: ids 5..=6, offsets 0..2
    put_i32(&mut v, 0);
    put_i32(&mut v, 5);
    put_i32(&mut v, 6);
    put_i32(&mut v, 0);
    // group 1: id 20, offset 2
    put_i32(&mut v, 2);
    put_i32(&mut v, 20);
    put_i32(&mut v, 20);
    put_i32(&mut v, 0);
    assert_eq!(v.len(), 72);
    put_i64(&mut v, 96);
    put_i64(&mut v, 102);
    put_i64(&mut v, 0);
    assert_eq!(v.len(), 96);
    put_utf16(&mut v, "ab");
    put_utf16(&mut v, "\u{e9}\u{1F600}");
    v
}

#[test]
fn reads_a_dark_souls_1_file() {
    let fmg = Fmg::read(&ds1_file()).unwrap();
    assert_eq!(fmg.version, FmgVersion::DarkSouls1);
    assert!(!fmg.big_endian);
    assert!(fmg.unicode);
    assert!(!fmg.md5);
    assert_eq!(fmg.entries.len(), 2);
    assert_eq!(fmg.entries[0].id, 100);
    assert_eq!(fmg.entries[0].text.as_deref(), Some("Hi"));
    assert_eq!(fmg.entries[1].id, 101);
    assert_eq!(fmg.entries[1].text, None);
}

#[test]
fn reads_a_wide_file_with_several_groups() {
    let fmg = Fmg::read(&er_file()).unwrap();
    assert_eq!(fmg.version, FmgVersion::DarkSouls3);
    let ids: Vec<i32> = fmg.entries.iter().map(|e| e.id).collect();
    assert_eq!(ids, vec![5, 6, 20]);
    assert_eq!(fmg.entries[0].text.as_deref(), Some("ab"));
    assert_eq!(fmg.entries[1].text.as_deref(), Some("\u{e9}\u{1F600}"));
    assert_eq!(fmg.entries[2].text, None);
}

#[test]
fn reads_a_file_with_an_md5_prefix() {
    let plain = ds1_file();
    let mut v = vec![7u8; 16];
    v.extend_from_slice(&plain);
    let fmg = Fmg::read(&v).unwrap();
    assert!(fmg.md5);
    assert_eq!(fmg.entries.len(), 2);
    assert_eq!(fmg.entries[0].text.as_deref(), Some("Hi"));
}

#[test]
fn reads_a_big_endian_file() {
    let mut v = vec![0u8, 1, 1, 0];
    v.extend_from_slice(&54i32.to_be_bytes());
    v.extend_from_slice(&[1, 0, 0, 0]);
    v.extend_from_slice(&1i32.to_be_bytes());
    v.extend_from_slice(&1i32.to_be_bytes());
    v.extend_from_slice(&40i32.to_be_bytes());
    v.extend_from_slice(&0i32.to_be_bytes());
    v.extend_from_slice(&0i32.to_be_bytes());
    v.extend_from_slice(&7i32.to_be_bytes());
    v.extend_from_slice(&7i32.to_be_bytes());
    v.extend_from_slice(&44i32.to_be_bytes());
    v.extend_from_slice(&[0, 0x4F, 0, 0x4B, 0, 0]);
    let fmg = Fmg::read(&v).unwrap();
    assert!(fmg.big_endian);
    assert_eq!(fmg.entries.len(), 1);
    assert_eq!(fmg.entries[0].id, 7);
    assert_eq!(fmg.entries[0].text.as_deref(), Some("OK"));
}

#[test]
fn empty_file_reads_past_end() {
    assert_eq!(Fmg::read(&[]).err(), Some(FmgError::ReadPastEnd));
}

#[test]
fn unknown_version_is_rejected() {
    let mut v = ds1_file();
    v[2] = 3;
    assert_eq!(Fmg::read(&v).err(), Some(FmgError::UnknownVersion(3)));
}

#[test]
fn unexpected_byte_is_reported_with_its_offset() {
    let mut v = ds1_file();
    v[3] = 9;
    assert_eq!(
        Fmg::read(&v).err(),
        Some(FmgError::UnexpectedByte { offset: 3, expected: 0, found: 9 })
    );
}

#[test]
fn demons_souls_requires_ff_marker() {
    let mut v = ds1_file();
    v[2] = 0;
    assert_eq!(
        Fmg::read(&v).err(),
        Some(FmgError::UnexpectedByte { offset: 9, expected: 0xFF, found: 0 })
    );
}

#[test]
fn wide_file_requires_ff_word() {
    let mut v = er_file();
    v[20] = 0xFE;
    assert_eq!(
        Fmg::read(&v).err(),
        Some(FmgError::UnexpectedI32 { offset: 20, expected: 0xFF, found: 0xFE })
    );
}

#[test]
fn nonzero_reserved_varint_is_rejected() {
    let mut v = ds1_file();
    v[24] = 1;
    assert_eq!(
        Fmg::read(&v).err(),
        Some(FmgError::UnexpectedVarint { offset: 28, expected: 0, found: 1 })
    );
}

#[test]
fn negative_string_table_offset_is_rejected() {
    let mut v = ds1_file();
    v[20..24].copy_from_slice(&(-4i32).to_le_bytes());
    assert_eq!(Fmg::read(&v).err(), Some(FmgError::NegativeOffset));
}

#[test]
fn unterminated_string_runs_past_end() {
    let mut v = ds1_file();
    v.truncate(52);
    assert_eq!(Fmg::read(&v).err(), Some(FmgError::Utf16PastEnd));
}

#[test]
fn shift_jis_strings_are_unsupported() {
    let mut v = ds1_file();
    v[8] = 0;
    assert_eq!(Fmg::read(&v).err(), Some(FmgError::ShiftJisUnsupported));
}

#[test]
fn md5_offset_overflow_is_reported() {
    let mut v = vec![1u8; 16];
    let mut body = er_file();
    body[24..32].copy_from_slice(&i64::MAX.to_le_bytes());
    v.append(&mut body);
    assert_eq!(Fmg::read(&v).err(), Some(FmgError::Overflow));
}

#[test]
fn version_bytes_map_to_versions() {
    assert_eq!(FmgVersion::from_u8(0), Ok(FmgVersion::DemonsSouls));
    assert_eq!(FmgVersion::from_u8(1), Ok(FmgVersion::DarkSouls1));
    assert_eq!(FmgVersion::from_u8(2), Ok(FmgVersion::DarkSouls3));
    assert_eq!(FmgVersion::from_u8(200), Err(FmgError::UnknownVersion(200)));
}

#[test]
fn unpaired_surrogate_becomes_replacement_character() {
    let mut v = ds1_file();
    v.truncate(48);
    v.extend_from_slice(&[0x00, 0xD8, 0x41, 0x00, 0, 0]);
    let fmg = Fmg::read(&v).unwrap();
    assert_eq!(fmg.entries[0].text.as_deref(), Some("\u{FFFD}A"));
}
