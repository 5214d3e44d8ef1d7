//! Reader for FMG message files: the string tables of FromSoftware games,
//! whose item names tell which glyphs a font must carry.
//!
//! Layout (offsets from the header start, which is 16 when the first byte is
//! non-zero, the file then beginning with an MD5 hash):
//! `0` zero byte, `1` big-endian flag, `2` version, `3` zero byte,
//! `4` file size (i32), `8` unicode flag, `9` `0xFF` for Demon's Souls else zero,
//! `10`, `11` zero bytes, `12` group count (i32), `16` string count (i32),
//! then for the wide (Dark Souls 3) version an i32 `0xFF`; then a varint string
//! offset table offset and a varint zero. Varints are 8 bytes wide for the wide
//! version and 4 bytes otherwise. Each group holds an offset index, the first and
//! last id (i32s) and, when wide, an i32 zero; its strings are the varint offsets
//! found in the offset table at the offset index. A string offset that is not
//! positive marks an entry without text; others point at a null-terminated UTF-16
//! string.
use vstd::prelude::*;
use crate::utf16::{decode_utf16_lossy, utf16_lossy};

verus! {

/// Why reading an FMG file failed.
#[derive(Debug, Clone, Copy, PartialEq, Eq, Structural)]
pub enum FmgError {
    /// A read went past the end of the buffer.
    ReadPastEnd,
    /// An offset computation left the range of its integer type.
    Overflow,
    /// A byte at `offset` did not hold the value the format requires.
    UnexpectedByte { offset: usize, expected: u8, found: u8 },
    /// The version byte is not one of the known versions.
    UnknownVersion(u8),
    /// An i32 at `offset` did not hold the value the format requires.
    UnexpectedI32 { offset: usize, expected: i32, found: i32 },
    /// A varint did not hold the value the format requires (`offset` is where the read ended).
    UnexpectedVarint { offset: usize, expected: i64, found: i64 },
    /// An offset was negative or beyond the address range.
    NegativeOffset,
    /// The position stack was popped while empty.
    UnbalancedStepOut,
    /// A UTF-16 string ran past the end of the buffer before its terminator.
    Utf16PastEnd,
    /// The file stores Shift-JIS strings, which are not supported.
    ShiftJisUnsupported,
}

#[derive(Debug, Clone, Copy, PartialEq, Eq, Structural)]
pub enum FmgVersion {
    DemonsSouls,
    DarkSouls1,
    /// Also covers Bloodborne, Sekiro and Elden Ring.
    DarkSouls3,
}

pub open spec fn spec_version_from_u8(b: u8) -> Result<FmgVersion, FmgError> {
    if b == 0 {
        Ok(FmgVersion::DemonsSouls)
    } else if b == 1 {
        Ok(FmgVersion::DarkSouls1)
    } else if b == 2 {
        Ok(FmgVersion::DarkSouls3)
    } else {
        Err(FmgError::UnknownVersion(b))
    }
}

impl FmgVersion {
    pub fn from_u8(b: u8) -> (r: Result<FmgVersion, FmgError>)
        ensures
            r == spec_version_from_u8(b),
    {
        if b == 0 {
            Ok(FmgVersion::DemonsSouls)
        } else if b == 1 {
            Ok(FmgVersion::DarkSouls1)
        } else if b == 2 {
            Ok(FmgVersion::DarkSouls3)
        } else {
            Err(FmgError::UnknownVersion(b))
        }
    }
}

#[derive(Debug, Clone)]
pub struct FmgEntry {
    pub id: i32,
    pub text: Option<String>,
}

#[derive(Debug)]
pub struct Fmg {
    pub entries: Vec<FmgEntry>,
    pub version: FmgVersion,
    pub big_endian: bool,
    pub unicode: bool,
    pub md5: bool,
}

/// An entry as the contracts see it: its id and the characters of its text.
pub ghost struct FmgEntryView {
    pub id: i32,
    pub text: Option<Seq<char>>,
}

/// A whole file as the contracts see it.
pub ghost struct FmgView {
    pub entries: Seq<FmgEntryView>,
    pub version: FmgVersion,
    pub big_endian: bool,
    pub unicode: bool,
    pub md5: bool,
}

impl View for FmgEntry {
    type V = FmgEntryView;

    open spec fn view(&self) -> FmgEntryView {
        FmgEntryView {
            id: self.id,
            text: match self.text {
                Some(s) => Some(s@),
                None => None,
            },
        }
    }
}

pub open spec fn entries_view(v: Seq<FmgEntry>) -> Seq<FmgEntryView> {
    v.map_values(|e: FmgEntry| e@)
}

impl View for Fmg {
    type V = FmgView;

    open spec fn view(&self) -> FmgView {
        FmgView {
            entries: entries_view(self.entries@),
            version: self.version,
            big_endian: self.big_endian,
            unicode: self.unicode,
            md5: self.md5,
        }
    }
}

pub open spec fn fmg_result_view(r: Result<Fmg, FmgError>) -> Result<FmgView, FmgError> {
    match r {
        Ok(f) => Ok(f@),
        Err(e) => Err(e),
    }
}

// ---------------------------------------------------------------------------
// Reading primitives, at absolute offsets of the buffer `d`.
/// The unsigned value of four bytes in the given byte order.
pub open spec fn u32_of(b: Seq<u8>, be: bool) -> int {
    if be {
        b[0] * 0x100_0000 + b[1] * 0x1_0000 + b[2] * 0x100 + b[3]
    } else {
        b[3] * 0x100_0000 + b[2] * 0x1_0000 + b[1] * 0x100 + b[0]
    }
}

/// The two's complement value of four bytes in the given byte order.
pub open spec fn i32_of(b: Seq<u8>, be: bool) -> i32 {
    let u = u32_of(b, be);
    if u < 0x8000_0000 {
        u as i32
    } else {
        (u - 0x1_0000_0000) as i32
    }
}

/// The unsigned value of eight bytes in the given byte order.
pub open spec fn u64_of(b: Seq<u8>, be: bool) -> int {
    if be {
        u32_of(b.subrange(0, 4), true) * 0x1_0000_0000 + u32_of(b.subrange(4, 8), true)
    } else {
        u32_of(b.subrange(4, 8), false) * 0x1_0000_0000 + u32_of(b.subrange(0, 4), false)
    }
}

/// The two's complement value of eight bytes in the given byte order.
pub open spec fn i64_of(b: Seq<u8>, be: bool) -> i64 {
    let u = u64_of(b, be);
    if u < 0x8000_0000_0000_0000 {
        u as i64
    } else {
        (u - 0x1_0000_0000_0000_0000) as i64
    }
}

/// The byte at `pos`.
pub open spec fn rd_u8(d: Seq<u8>, pos: int) -> Result<u8, FmgError> {
    if 0 <= pos < d.len() {
        Ok(d[pos])
    } else {
        Err(FmgError::ReadPastEnd)
    }
}

/// The `n` bytes from `pos` on.
pub open spec fn rd_take(d: Seq<u8>, pos: int, n: int) -> Result<Seq<u8>, FmgError> {
    if pos + n > usize::MAX {
        Err(FmgError::Overflow)
    } else if pos + n > d.len() {
        Err(FmgError::ReadPastEnd)
    } else {
        Ok(d.subrange(pos, pos + n))
    }
}

pub open spec fn rd_i32(d: Seq<u8>, pos: int, be: bool) -> Result<i32, FmgError> {
    match rd_take(d, pos, 4) {
        Ok(b) => Ok(i32_of(b, be)),
        Err(e) => Err(e),
    }
}

pub open spec fn varint_width(wide: bool) -> int {
    if wide {
        8
    } else {
        4
    }
}

/// A varint: an i64 when wide, else an i32 widened to i64.
pub open spec fn rd_varint(d: Seq<u8>, pos: int, be: bool, wide: bool) -> Result<i64, FmgError> {
    if wide {
        match rd_take(d, pos, 8) {
            Ok(b) => Ok(i64_of(b, be)),
            Err(e) => Err(e),
        }
    } else {
        match rd_i32(d, pos, be) {
            Ok(v) => Ok(v as i64),
            Err(e) => Err(e),
        }
    }
}

pub open spec fn expect_u8(d: Seq<u8>, pos: int, expected: u8) -> Result<(), FmgError> {
    match rd_u8(d, pos) {
        Ok(b) => if b == expected {
            Ok(())
        } else {
            Err(FmgError::UnexpectedByte { offset: pos as usize, expected, found: b })
        },
        Err(e) => Err(e),
    }
}

pub open spec fn expect_i32(d: Seq<u8>, pos: int, be: bool, expected: i32) -> Result<(), FmgError> {
    match rd_i32(d, pos, be) {
        Ok(v) => if v == expected {
            Ok(())
        } else {
            Err(FmgError::UnexpectedI32 { offset: pos as usize, expected, found: v })
        },
        Err(e) => Err(e),
    }
}

pub open spec fn expect_varint(d: Seq<u8>, pos: int, be: bool, wide: bool, expected: i64) -> Result<
    (),
    FmgError,
> {
    match rd_varint(d, pos, be, wide) {
        Ok(v) => if v == expected {
            Ok(())
        } else {
            Err(
                FmgError::UnexpectedVarint {
                    offset: (pos + varint_width(wide)) as usize,
                    expected,
                    found: v,
                },
            )
        },
        Err(e) => Err(e),
    }
}

/// Adds 16 (the MD5 hash length) to an offset when the file carries a hash.
pub open spec fn md5_adjust(v: i64, md5: bool) -> Result<i64, FmgError> {
    if !md5 {
        Ok(v)
    } else if v + 16 > i64::MAX {
        Err(FmgError::Overflow)
    } else {
        Ok((v + 16) as i64)
    }
}

/// The UTF-16 code units of the null-terminated string at byte `i`.
pub open spec fn utf16_units(d: Seq<u8>, i: int, be: bool) -> Result<Seq<u16>, FmgError>
    decreases d.len() - i,
{
    if i < 0 || i + 2 > d.len() {
        Err(FmgError::Utf16PastEnd)
    } else {
        let unit = if be {
            (d[i] * 0x100 + d[i + 1]) as u16
        } else {
            (d[i + 1] * 0x100 + d[i]) as u16
        };
        if unit == 0 {
            Ok(Seq::empty())
        } else {
            match utf16_units(d, i + 2, be) {
                Ok(rest) => Ok(seq![unit] + rest),
                Err(e) => Err(e),
            }
        }
    }
}

/// The text of the null-terminated UTF-16 string at offset `offset`.
pub open spec fn utf16_text(d: Seq<u8>, offset: i64, be: bool) -> Result<Seq<char>, FmgError> {
    if offset < 0 || offset > usize::MAX {
        Err(FmgError::NegativeOffset)
    } else {
        match utf16_units(d, offset as int, be) {
            Ok(u) => Ok(utf16_lossy(u)),
            Err(e) => Err(e),
        }
    }
}

pub open spec fn prepend<T>(s: Seq<T>, r: Result<Seq<T>, FmgError>) -> Result<Seq<T>, FmgError> {
    match r {
        Ok(t) => Ok(s + t),
        Err(e) => Err(e),
    }
}

// ---------------------------------------------------------------------------
// The file format.
/// The first four header bytes: hash flag, byte order and version.
pub open spec fn spec_preamble(d: Seq<u8>) -> Result<(bool, bool, FmgVersion), FmgError> {
    match rd_u8(d, 0) {
        Err(e) => Err(e),
        Ok(b0) => {
            let md5 = b0 != 0;
            let p: int = if md5 {
                16
            } else {
                0
            };
            match expect_u8(d, p, 0) {
                Err(e) => Err(e),
                Ok(_) => match rd_u8(d, p + 1) {
                    Err(e) => Err(e),
                    Ok(be) => match rd_u8(d, p + 2) {
                        Err(e) => Err(e),
                        Ok(vb) => match spec_version_from_u8(vb) {
                            Err(e) => Err(e),
                            Ok(version) => match expect_u8(d, p + 3, 0) {
                                Err(e) => Err(e),
                                Ok(_) => Ok((md5, be != 0, version)),
                            },
                        },
                    },
                },
            }
        },
    }
}

/// What the header says about the rest of the file.
pub ghost struct FmgLayout {
    pub md5: bool,
    pub big_endian: bool,
    pub version: FmgVersion,
    pub wide: bool,
    pub unicode: bool,
    pub group_count: i32,
    pub string_offsets_offset: i64,
    pub groups_start: int,
}

/// The header after the preamble, at header start `p`.
pub open spec fn spec_header_rest(
    d: Seq<u8>,
    md5: bool,
    be: bool,
    version: FmgVersion,
) -> Result<FmgLayout, FmgError> {
    let p: int = if md5 {
        16
    } else {
        0
    };
    let wide = version == FmgVersion::DarkSouls3;
    let vw = varint_width(wide);
    let q = if wide {
        p + 24
    } else {
        p + 20
    };
    match rd_i32(d, p + 4, be) {
        Err(e) => Err(e),
        Ok(_file_size) => match rd_u8(d, p + 8) {
            Err(e) => Err(e),
            Ok(unicode) => match expect_u8(
                d,
                p + 9,
                if version == FmgVersion::DemonsSouls {
                    0xFFu8
                } else {
                    0u8
                },
            ) {
                Err(e) => Err(e),
                Ok(_) => match expect_u8(d, p + 10, 0) {
                    Err(e) => Err(e),
                    Ok(_) => match expect_u8(d, p + 11, 0) {
                        Err(e) => Err(e),
                        Ok(_) => match rd_i32(d, p + 12, be) {
                            Err(e) => Err(e),
                            Ok(group_count) => match rd_i32(d, p + 16, be) {
                                Err(e) => Err(e),
                                Ok(_string_count) => match (if wide {
                                    expect_i32(d, p + 20, be, 0xFF)
                                } else {
                                    Ok(())
                                }) {
                                    Err(e) => Err(e),
                                    Ok(_) => match rd_varint(d, q, be, wide) {
                                        Err(e) => Err(e),
                                        Ok(sso) => match md5_adjust(sso, md5) {
                                            Err(e) => Err(e),
                                            Ok(sso) => match expect_varint(d, q + vw, be, wide, 0) {
                                                Err(e) => Err(e),
                                                Ok(_) => Ok(
                                                    FmgLayout {
                                                        md5,
                                                        big_endian: be,
                                                        version,
                                                        wide,
                                                        unicode: unicode != 0,
                                                        group_count,
                                                        string_offsets_offset: sso,
                                                        groups_start: q + 2 * vw,
                                                    },
                                                ),
                                            },
                                        },
                                    },
                                },
                            },
                        },
                    },
                },
            },
        },
    }
}

pub open spec fn spec_layout(d: Seq<u8>) -> Result<FmgLayout, FmgError> {
    match spec_preamble(d) {
        Err(e) => Err(e),
        Ok((md5, be, version)) => spec_header_rest(d, md5, be, version),
    }
}

/// The entry with offset-table slot `j` of a group whose table starts at `base`.
pub open spec fn spec_entry(d: Seq<u8>, h: FmgLayout, base: int, first: i32, j: int) -> Result<
    FmgEntryView,
    FmgError,
> {
    let vw = varint_width(h.wide);
    match rd_varint(d, base + j * vw, h.big_endian, h.wide) {
        Err(e) => Err(e),
        Ok(so) => match md5_adjust(so, h.md5) {
            Err(e) => Err(e),
            Ok(so) => if so > 0 {
                if h.unicode {
                    match utf16_text(d, so, h.big_endian) {
                        Ok(t) => Ok(FmgEntryView { id: (first + j) as i32, text: Some(t) }),
                        Err(e) => Err(e),
                    }
                } else {
                    Err(FmgError::ShiftJisUnsupported)
                }
            } else {
                Ok(FmgEntryView { id: (first + j) as i32, text: None })
            },
        },
    }
}

/// The entries `j..count` of a group.
pub open spec fn spec_strings(
    d: Seq<u8>,
    h: FmgLayout,
    base: int,
    first: i32,
    j: int,
    count: int,
) -> Result<Seq<FmgEntryView>, FmgError>
    decreases count - j,
{
    if j >= count {
        Ok(Seq::empty())
    } else {
        match spec_entry(d, h, base, first, j) {
            Err(e) => Err(e),
            Ok(entry) => prepend(seq![entry], spec_strings(d, h, base, first, j + 1, count)),
        }
    }
}

pub open spec fn group_size(wide: bool) -> int {
    if wide {
        16
    } else {
        12
    }
}

/// The entries of group `k`.
pub open spec fn spec_group(d: Seq<u8>, h: FmgLayout, k: int) -> Result<
    Seq<FmgEntryView>,
    FmgError,
> {
    let gk = h.groups_start + k * group_size(h.wide);
    let be = h.big_endian;
    match rd_i32(d, gk, be) {
        Err(e) => Err(e),
        Ok(offset_index) => match rd_i32(d, gk + 4, be) {
            Err(e) => Err(e),
            Ok(first) => match rd_i32(d, gk + 8, be) {
                Err(e) => Err(e),
                Ok(last) => match (if h.wide {
                    expect_i32(d, gk + 12, be, 0)
                } else {
                    Ok(())
                }) {
                    Err(e) => Err(e),
                    Ok(_) => {
                        let target = h.string_offsets_offset + offset_index * varint_width(h.wide);
                        if target < i64::MIN || target > i64::MAX {
                            Err(FmgError::Overflow)
                        } else if target < 0 || target > usize::MAX {
                            Err(FmgError::NegativeOffset)
                        } else {
                            spec_strings(d, h, target, first, 0, last - first + 1)
                        }
                    },
                },
            },
        },
    }
}

/// The entries of groups `k..group_count`.
pub open spec fn spec_groups(d: Seq<u8>, h: FmgLayout, k: int) -> Result<
    Seq<FmgEntryView>,
    FmgError,
>
    decreases h.group_count - k,
{
    if k >= h.group_count {
        Ok(Seq::empty())
    } else {
        match spec_group(d, h, k) {
            Err(e) => Err(e),
            Ok(g) => prepend(g, spec_groups(d, h, k + 1)),
        }
    }
}

/// The FMG file that the bytes `d` encode, or the first error met reading them.
pub open spec fn spec_fmg_read(d: Seq<u8>) -> Result<FmgView, FmgError> {
    match spec_layout(d) {
        Err(e) => Err(e),
        Ok(h) => match spec_groups(d, h, 0) {
            Err(e) => Err(e),
            Ok(entries) => Ok(
                FmgView {
                    entries,
                    version: h.version,
                    big_endian: h.big_endian,
                    unicode: h.unicode,
                    md5: h.md5,
                },
            ),
        },
    }
}

// ---------------------------------------------------------------------------
// The cursor.
/// A cursor over the bytes with a stack of saved positions and a byte order;
/// `wide` makes varints 8 bytes long instead of 4.
struct Reader<'a> {
    data: &'a [u8],
    pos: usize,
    big_endian: bool,
    wide: bool,
    stack: Vec<usize>,
}

fn u32_from(b: &[u8], be: bool) -> (r: u32)
    requires
        b@.len() == 4,
    ensures
        r == u32_of(b@, be),
{
    if be {
        (b[0] as u32) * 0x100_0000 + (b[1] as u32) * 0x1_0000 + (b[2] as u32) * 0x100 + (b[3] as u32)
    } else {
        (b[3] as u32) * 0x100_0000 + (b[2] as u32) * 0x1_0000 + (b[1] as u32) * 0x100 + (b[0] as u32)
    }
}

fn i32_from(b: &[u8], be: bool) -> (r: i32)
    requires
        b@.len() == 4,
    ensures
        r == i32_of(b@, be),
{
    let u = u32_from(b, be);
    if u < 0x8000_0000 {
        u as i32
    } else {
        ((u - 0x8000_0000) as i32) - 0x7FFF_FFFF - 1
    }
}

fn i64_from(b: &[u8], be: bool) -> (r: i64)
    requires
        b@.len() == 8,
    ensures
        r == i64_of(b@, be),
{
    let lo = &b[0..4];
    let hi = &b[4..8];
    proof {
        assert(lo@ =~= b@.subrange(0, 4));
        assert(hi@ =~= b@.subrange(4, 8));
    }
    let u: u64 = if be {
        (u32_from(lo, true) as u64) * 0x1_0000_0000 + (u32_from(hi, true) as u64)
    } else {
        (u32_from(hi, false) as u64) * 0x1_0000_0000 + (u32_from(lo, false) as u64)
    };
    if u < 0x8000_0000_0000_0000 {
        u as i64
    } else {
        ((u - 0x8000_0000_0000_0000) as i64) - 0x7FFF_FFFF_FFFF_FFFF - 1
    }
}

impl<'a> Reader<'a> {
    fn new(data: &'a [u8]) -> (r: Self)
        ensures
            r.data@ == data@,
            r.pos == 0,
            !r.big_endian,
            !r.wide,
            r.stack@.len() == 0,
    {
        Self { data, pos: 0, big_endian: false, wide: false, stack: Vec::new() }
    }

    fn peek_u8(&self, at: usize) -> (r: Result<u8, FmgError>)
        ensures
            r == rd_u8(self.data@, at as int),
    {
        if at < self.data.len() {
            Ok(self.data[at])
        } else {
            Err(FmgError::ReadPastEnd)
        }
    }

    fn u8(&mut self) -> (r: Result<u8, FmgError>)
        ensures
            r == rd_u8(old(self).data@, old(self).pos as int),
            final(self).pos == if r is Ok {
                old(self).pos + 1
            } else {
                old(self).pos as int
            },
            final(self).data == old(self).data,
            final(self).big_endian == old(self).big_endian,
            final(self).wide == old(self).wide,
            final(self).stack == old(self).stack,
    {
        if self.pos < self.data.len() {
            let b = self.data[self.pos];
            self.pos += 1;
            Ok(b)
        } else {
            Err(FmgError::ReadPastEnd)
        }
    }

    fn assert_u8(&mut self, expected: u8) -> (r: Result<(), FmgError>)
        ensures
            r == expect_u8(old(self).data@, old(self).pos as int, expected),
            r is Ok ==> final(self).pos == old(self).pos + 1,
            rd_u8(old(self).data@, old(self).pos as int) is Err ==> final(self).pos == old(self).pos,
            rd_u8(old(self).data@, old(self).pos as int) is Ok ==> final(self).pos == old(self).pos + 1,
            final(self).data == old(self).data,
            final(self).big_endian == old(self).big_endian,
            final(self).wide == old(self).wide,
            final(self).stack == old(self).stack,
    {
        let b = self.u8()?;
        if b != expected {
            return Err(FmgError::UnexpectedByte { offset: self.pos - 1, expected, found: b });
        }
        Ok(())
    }

    fn bool8(&mut self) -> (r: Result<bool, FmgError>)
        ensures
            match rd_u8(old(self).data@, old(self).pos as int) {
                Ok(b) => r == Ok::<bool, FmgError>(b != 0),
                Err(e) => r == Err::<bool, FmgError>(e),
            },
            r is Ok ==> final(self).pos == old(self).pos + 1,
            r is Err ==> final(self).pos == old(self).pos,
            final(self).data == old(self).data,
            final(self).big_endian == old(self).big_endian,
            final(self).wide == old(self).wide,
            final(self).stack == old(self).stack,
    {
        Ok(self.u8()? != 0)
    }

    fn take(&mut self, n: usize) -> (r: Result<&'a [u8], FmgError>)
        ensures
            match rd_take(old(self).data@, old(self).pos as int, n as int) {
                Ok(s) => r matches Ok(t) && t@ == s,
                Err(e) => r == Err::<&'a [u8], FmgError>(e),
            },
            r is Ok ==> final(self).pos == old(self).pos + n,
            r is Err ==> final(self).pos == old(self).pos,
            final(self).data == old(self).data,
            final(self).big_endian == old(self).big_endian,
            final(self).wide == old(self).wide,
            final(self).stack == old(self).stack,
    {
        let end = match self.pos.checked_add(n) {
            Some(end) => end,
            None => return Err(FmgError::Overflow),
        };
        if end > self.data.len() {
            return Err(FmgError::ReadPastEnd);
        }
        let slice = &self.data[self.pos..end];
        self.pos = end;
        Ok(slice)
    }

    fn i32(&mut self) -> (r: Result<i32, FmgError>)
        ensures
            r == rd_i32(old(self).data@, old(self).pos as int, old(self).big_endian),
            r is Ok ==> final(self).pos == old(self).pos + 4,
            r is Err ==> final(self).pos == old(self).pos,
            final(self).data == old(self).data,
            final(self).big_endian == old(self).big_endian,
            final(self).wide == old(self).wide,
            final(self).stack == old(self).stack,
    {
        let bytes = self.take(4)?;
        Ok(i32_from(bytes, self.big_endian))
    }

    fn assert_i32(&mut self, expected: i32) -> (r: Result<(), FmgError>)
        ensures
            r == expect_i32(old(self).data@, old(self).pos as int, old(self).big_endian, expected),
            r is Ok ==> final(self).pos == old(self).pos + 4,
            rd_i32(old(self).data@, old(self).pos as int, old(self).big_endian) is Err
                ==> final(self).pos == old(self).pos,
            rd_i32(old(self).data@, old(self).pos as int, old(self).big_endian) is Ok
                ==> final(self).pos == old(self).pos + 4,
            final(self).data == old(self).data,
            final(self).big_endian == old(self).big_endian,
            final(self).wide == old(self).wide,
            final(self).stack == old(self).stack,
    {
        let v = self.i32()?;
        if v != expected {
            return Err(FmgError::UnexpectedI32 { offset: self.pos - 4, expected, found: v });
        }
        Ok(())
    }

    fn varint(&mut self) -> (r: Result<i64, FmgError>)
        ensures
            r == rd_varint(
                old(self).data@,
                old(self).pos as int,
                old(self).big_endian,
                old(self).wide,
            ),
            r is Ok ==> final(self).pos == old(self).pos + varint_width(old(self).wide),
            r is Err ==> final(self).pos == old(self).pos,
            final(self).data == old(self).data,
            final(self).big_endian == old(self).big_endian,
            final(self).wide == old(self).wide,
            final(self).stack == old(self).stack,
    {
        if self.wide {
            let bytes = self.take(8)?;
            Ok(i64_from(bytes, self.big_endian))
        } else {
            Ok(self.i32()? as i64)
        }
    }

    fn assert_varint(&mut self, expected: i64) -> (r: Result<(), FmgError>)
        ensures
            r == expect_varint(
                old(self).data@,
                old(self).pos as int,
                old(self).big_endian,
                old(self).wide,
                expected,
            ),
            r is Ok ==> final(self).pos == old(self).pos + varint_width(old(self).wide),
            rd_varint(old(self).data@, old(self).pos as int, old(self).big_endian, old(self).wide)
                is Err ==> final(self).pos == old(self).pos,
            rd_varint(old(self).data@, old(self).pos as int, old(self).big_endian, old(self).wide)
                is Ok ==> final(self).pos == old(self).pos + varint_width(old(self).wide),
            final(self).data == old(self).data,
            final(self).big_endian == old(self).big_endian,
            final(self).wide == old(self).wide,
            final(self).stack == old(self).stack,
    {
        let v = self.varint()?;
        if v != expected {
            return Err(FmgError::UnexpectedVarint { offset: self.pos, expected, found: v });
        }
        Ok(())
    }

    fn step_in(&mut self, at: i64) -> (r: Result<(), FmgError>)
        ensures
            r is Ok <==> 0 <= at <= usize::MAX,
            r is Err ==> r == Err::<(), FmgError>(FmgError::NegativeOffset),
            r is Ok ==> final(self).pos == at,
            r is Err ==> final(self).pos == old(self).pos,
            final(self).stack@ == old(self).stack@.push(old(self).pos),
            final(self).data == old(self).data,
            final(self).big_endian == old(self).big_endian,
            final(self).wide == old(self).wide,
    {
        self.stack.push(self.pos);
        if at < 0 || (at as u64) > (usize::MAX as u64) {
            return Err(FmgError::NegativeOffset);
        }
        self.pos = at as usize;
        Ok(())
    }

    fn step_out(&mut self) -> (r: Result<(), FmgError>)
        ensures
            old(self).stack@.len() == 0 ==> {
                &&& r == Err::<(), FmgError>(FmgError::UnbalancedStepOut)
                &&& final(self).pos == old(self).pos
                &&& final(self).stack@ == old(self).stack@
            },
            old(self).stack@.len() > 0 ==> {
                &&& r is Ok
                &&& final(self).pos == old(self).stack@.last()
                &&& final(self).stack@ == old(self).stack@.drop_last()
            },
            final(self).data == old(self).data,
            final(self).big_endian == old(self).big_endian,
            final(self).wide == old(self).wide,
    {
        match self.stack.pop() {
            Some(p) => {
                self.pos = p;
                Ok(())
            },
            None => Err(FmgError::UnbalancedStepOut),
        }
    }

    /// Null-terminated UTF-16 string at an absolute offset; the cursor stays put.
    fn get_utf16(&self, offset: i64) -> (r: Result<String, FmgError>)
        ensures
            match utf16_text(self.data@, offset, self.big_endian) {
                Ok(t) => r matches Ok(s) && s@ == t,
                Err(e) => r == Err::<String, FmgError>(e),
            },
    {
        if offset < 0 || (offset as u64) > (usize::MAX as u64) {
            return Err(FmgError::NegativeOffset);
        }
        let start = offset as usize;
        let mut i = start;
        let mut units: Vec<u16> = Vec::new();
        let len = self.data.len();
        let ghost d = self.data@;
        let ghost be = self.big_endian;
        loop
            invariant
                len == d.len(),
                d == self.data@,
                be == self.big_endian,
                start <= i,
                start as int == offset,
                utf16_units(d, start as int, be) == prepend(units@, utf16_units(d, i as int, be)),
            ensures
                utf16_units(d, start as int, be) == Ok::<Seq<u16>, FmgError>(units@),
            decreases len - i,
        {
            if i > len || len - i < 2 {
                assert(utf16_units(d, i as int, be) == Err::<Seq<u16>, FmgError>(
                    FmgError::Utf16PastEnd,
                ));
                assert(utf16_units(d, start as int, be) == Err::<Seq<u16>, FmgError>(
                    FmgError::Utf16PastEnd,
                ));
                return Err(FmgError::Utf16PastEnd);
            }
            let b0 = self.data[i];
            let b1 = self.data[i + 1];
            let unit: u16 = if self.big_endian {
                (b0 as u16) * 0x100 + (b1 as u16)
            } else {
                (b1 as u16) * 0x100 + (b0 as u16)
            };
            if unit == 0 {
                assert(units@ + Seq::<u16>::empty() =~= units@);
                break ;
            }
            i += 2;
            let ghost old_units = units@;
            units.push(unit);
            proof {
                let rest = utf16_units(d, i as int, be);
                match rest {
                    Ok(t) => {
                        assert(old_units + (seq![unit] + t) =~= units@ + t);
                    },
                    Err(_) => {},
                }
            }
        }
        Ok(decode_utf16_lossy(units.as_slice()))
    }

    /// Shift-JIS strings only occur in files of the oldest games; they are refused.
    fn get_shift_jis(&self, _offset: i64) -> (r: Result<String, FmgError>)
        ensures
            r == Err::<String, FmgError>(FmgError::ShiftJisUnsupported),
    {
        Err(FmgError::ShiftJisUnsupported)
    }
}


/// The header fields that the groups are read with.
struct Header {
    md5: bool,
    big_endian: bool,
    version: FmgVersion,
    wide: bool,
    unicode: bool,
    group_count: i32,
    string_offsets_offset: i64,
}

impl Header {
    spec fn layout(&self, groups_start: int) -> FmgLayout {
        FmgLayout {
            md5: self.md5,
            big_endian: self.big_endian,
            version: self.version,
            wide: self.wide,
            unicode: self.unicode,
            group_count: self.group_count,
            string_offsets_offset: self.string_offsets_offset,
            groups_start,
        }
    }
}

fn read_preamble(r: &mut Reader) -> (res: Result<(bool, bool, FmgVersion), FmgError>)
    requires
        old(r).pos == 0,
    ensures
        final(r).data == old(r).data,
        final(r).stack == old(r).stack,
        final(r).wide == old(r).wide,
        res == spec_preamble(old(r).data@),
        res matches Ok((md5, be, _)) ==> final(r).big_endian == be && final(r).pos == (if md5 {
            16int
        } else {
            0int
        }) + 4,
{
    let md5 = r.peek_u8(0)? != 0;
    if md5 {
        r.pos += 16;  // skip the MD5 hash
    }

    r.assert_u8(0)?;
    let big_endian = r.bool8()?;
    r.big_endian = big_endian;
    let version = FmgVersion::from_u8(r.u8()?)?;
    r.assert_u8(0)?;
    Ok((md5, big_endian, version))
}

#[verifier::rlimit(60)]
fn read_header(r: &mut Reader) -> (res: Result<Header, FmgError>)
    requires
        old(r).pos == 0,
        old(r).stack@.len() == 0,
    ensures
        final(r).data == old(r).data,
        final(r).stack@.len() == 0,
        match spec_layout(old(r).data@) {
            Err(e) => res == Err::<Header, FmgError>(e),
            Ok(h) => res matches Ok(hd) && hd.layout(final(r).pos as int) == h && final(r).big_endian
                == hd.big_endian && final(r).wide == hd.wide,
        },
{
    let (md5, big_endian, version) = match read_preamble(r) {
        Ok(t) => t,
        Err(e) => return Err(e),
    };

    let wide = version == FmgVersion::DarkSouls3;
    r.wide = wide;

    let _file_size = r.i32()?;
    let unicode = r.bool8()?;
    r.assert_u8(
        if version == FmgVersion::DemonsSouls {
            0xFF
        } else {
            0x00
        },
    )?;
    r.assert_u8(0)?;
    r.assert_u8(0)?;
    let group_count = r.i32()?;
    let _string_count = r.i32()?;

    if wide {
        r.assert_i32(0xFF)?;
    }

    let mut string_offsets_offset = r.varint()?;
    if md5 {
        string_offsets_offset = match string_offsets_offset.checked_add(16) {
            Some(v) => v,
            None => return Err(FmgError::Overflow),
        };
    }
    r.assert_varint(0)?;
    Ok(Header { md5, big_endian, version, wide, unicode, group_count, string_offsets_offset })
}

/// Reads the string offset at the cursor and the text it points at.
fn read_entry(r: &mut Reader, hd: &Header, Ghost(h): Ghost<FmgLayout>, base: i64, first_id: i32, j: i64) -> (res: Result<FmgEntry, FmgError>)
    requires
        h == hd.layout(h.groups_start),
        old(r).big_endian == hd.big_endian,
        old(r).wide == hd.wide,
        0 <= base,
        0 <= j,
        first_id + j <= i32::MAX,
        old(r).pos == base + j * varint_width(hd.wide),
    ensures
        final(r).data == old(r).data,
        final(r).big_endian == old(r).big_endian,
        final(r).wide == old(r).wide,
        final(r).stack == old(r).stack,
        match spec_entry(old(r).data@, h, base as int, first_id, j as int) {
            Err(e) => res == Err::<FmgEntry, FmgError>(e),
            Ok(ev) => res matches Ok(entry) && entry@ == ev && final(r).pos == old(r).pos
                + varint_width(hd.wide),
        },
{
    let mut string_offset = r.varint()?;
    if hd.md5 {
        string_offset = match string_offset.checked_add(16) {
            Some(v) => v,
            None => return Err(FmgError::Overflow),
        };
    }

    let text = if string_offset > 0 {
        Some(
            if hd.unicode {
                r.get_utf16(string_offset)?
            } else {
                r.get_shift_jis(string_offset)?
            },
        )
    } else {
        None
    };

    Ok(FmgEntry { id: (first_id as i64 + j) as i32, text })
}

/// Reads the group whose header is at the cursor, appending its entries.
#[verifier::rlimit(60)]
fn read_group(r: &mut Reader, hd: &Header, Ghost(h): Ghost<FmgLayout>, k: i32, entries: &mut Vec<FmgEntry>) -> (res: Result<(), FmgError>)
    requires
        h == hd.layout(h.groups_start),
        old(r).big_endian == hd.big_endian,
        old(r).wide == hd.wide,
        old(r).stack@.len() == 0,
        0 <= k,
        old(r).pos == h.groups_start + k * group_size(hd.wide),
    ensures
        match spec_group(old(r).data@, h, k as int) {
            Err(e) => res == Err::<(), FmgError>(e),
            Ok(g) => {
                &&& res is Ok
                &&& entries_view(final(entries)@) == entries_view(old(entries)@) + g
                &&& final(r).pos == old(r).pos + group_size(hd.wide)
                &&& final(r).data@ == old(r).data@
                &&& final(r).big_endian == old(r).big_endian
                &&& final(r).wide == old(r).wide
                &&& final(r).stack@.len() == 0
            },
        },
{
    let ghost d = r.data@;
    let offset_index = r.i32()?;
    let first_id = r.i32()?;
    let last_id = r.i32()?;

    if hd.wide {
        r.assert_i32(0)?;
    }

    let stride: i64 = if hd.wide {
        8
    } else {
        4
    };
    let target = match hd.string_offsets_offset.checked_add(offset_index as i64 * stride) {
        Some(t) => t,
        None => return Err(FmgError::Overflow),
    };
    let ghost saved = r.pos;
    r.step_in(target)?;

    let count: i64 = last_id as i64 - first_id as i64 + 1;
    let ghost before = entries_view(entries@);
    let ghost mut group: Seq<FmgEntryView> = Seq::empty();
    assert(spec_group(d, h, k as int) == spec_strings(
        d,
        h,
        target as int,
        first_id,
        0,
        count as int,
    ));
    let mut j: i64 = 0;
    while j < count
        invariant
            r.data@ == d,
            old(r).data@ == d,
            r.big_endian == hd.big_endian,
            r.wide == hd.wide,
            r.stack@ == seq![saved],
            h == hd.layout(h.groups_start),
            0 <= target,
            0 <= j,
            j <= count || j == 0,
            count == last_id - first_id + 1,
            r.pos == target + j * varint_width(hd.wide),
            entries_view(entries@) == before + group,
            spec_group(d, h, k as int) == prepend(
                group,
                spec_strings(d, h, target as int, first_id, j as int, count as int),
            ),
        decreases count - j,
    {
        let entry = match read_entry(r, hd, Ghost(h), target, first_id, j) {
            Ok(entry) => entry,
            Err(e) => {
                assert(spec_strings(d, h, target as int, first_id, j as int, count as int) == Err::<
                    Seq<FmgEntryView>,
                    FmgError,
                >(e));
                return Err(e);
            },
        };
        let ghost ev = entry@;
        let ghost old_entries = entries@;
        entries.push(entry);
        proof {
            assert(entries_view(entries@) =~= entries_view(old_entries).push(ev));
            assert(before + group.push(ev) =~= (before + group).push(ev));
            let rest = spec_strings(d, h, target as int, first_id, j + 1, count as int);
            match rest {
                Ok(t) => {
                    assert(group + (seq![ev] + t) =~= group.push(ev) + t);
                },
                Err(_) => {},
            }
            group = group.push(ev);
        }
        j += 1;
    }

    r.step_out()?;
    Ok(())
}

impl Fmg {
    /// Reads an FMG file. The result is exactly what `spec_fmg_read` says the
    /// bytes encode, including which error comes first.
    pub fn read(data: &[u8]) -> (r: Result<Fmg, FmgError>)
        ensures
            fmg_result_view(r) == spec_fmg_read(data@),
    {
        let ghost d = data@;
        let mut r = Reader::new(data);
        let hd = read_header(&mut r)?;
        let ghost h = hd.layout(r.pos as int);

        let mut entries: Vec<FmgEntry> = Vec::new();
        let mut k: i32 = 0;
        while k < hd.group_count
            invariant
                r.data@ == d,
                data@ == d,
                r.big_endian == hd.big_endian,
                r.wide == hd.wide,
                r.stack@.len() == 0,
                h == hd.layout(h.groups_start),
                spec_layout(d) == Ok::<FmgLayout, FmgError>(h),
                0 <= k,
                k <= hd.group_count || k == 0,
                r.pos == h.groups_start + k * group_size(hd.wide),
                spec_groups(d, h, 0) == prepend(entries_view(entries@), spec_groups(d, h, k as int)),
            decreases hd.group_count - k,
        {
            let ghost before = entries_view(entries@);
            match read_group(&mut r, &hd, Ghost(h), k, &mut entries) {
                Ok(()) => {},
                Err(e) => {
                    assert(spec_groups(d, h, k as int) == Err::<Seq<FmgEntryView>, FmgError>(e));
                    assert(spec_groups(d, h, 0) == Err::<Seq<FmgEntryView>, FmgError>(e));
                    assert(spec_fmg_read(d) == Err::<FmgView, FmgError>(e));
                    return Err(e);
                },
            }
            proof {
                let g = spec_group(d, h, k as int).unwrap();
                let rest = spec_groups(d, h, k + 1);
                match rest {
                    Ok(t) => {
                        assert(before + (g + t) =~= (before + g) + t);
                    },
                    Err(_) => {},
                }
            }
            k += 1;
        }

        Ok(Fmg { entries, version: hd.version, big_endian: hd.big_endian, unicode: hd.unicode, md5: hd.md5 })
    }
}

} // verus!
