//! Lossy UTF-16 decoding, as used for the names stored in FMG files and in
//! the game's message repository.
use vstd::prelude::*;

verus! {

/// The Unicode replacement character, substituted for every unpaired surrogate.
pub const REPLACEMENT_CHARACTER: char = '\u{FFFD}';

pub open spec fn is_high_surrogate(u: u16) -> bool {
    0xD800 <= u <= 0xDBFF
}

pub open spec fn is_low_surrogate(u: u16) -> bool {
    0xDC00 <= u <= 0xDFFF
}

pub open spec fn is_surrogate(u: u16) -> bool {
    0xD800 <= u <= 0xDFFF
}

/// The scalar value encoded by a high/low surrogate pair.
pub open spec fn pair_scalar(hi: u16, lo: u16) -> int {
    (hi - 0xD800) * 0x400 + (lo - 0xDC00) + 0x10000
}

/// Whether `v` is a Unicode scalar value (a code point that is not a surrogate).
pub open spec fn is_scalar(v: u32) -> bool {
    v <= 0x10FFFF && !(0xD800 <= v <= 0xDFFF)
}

/// Lossy UTF-16 decoding: surrogate pairs are combined, every other unit that
/// is not a surrogate stands for itself, and every unpaired surrogate becomes
/// U+FFFD. Decoding resumes at the unit right after an unpaired surrogate.
pub open spec fn utf16_lossy(s: Seq<u16>) -> Seq<char>
    decreases s.len(),
{
    if s.len() == 0 {
        Seq::empty()
    } else if !is_surrogate(s[0]) {
        seq![s[0] as char] + utf16_lossy(s.drop_first())
    } else if is_high_surrogate(s[0]) && s.len() >= 2 && is_low_surrogate(s[1]) {
        seq![pair_scalar(s[0], s[1]) as char] + utf16_lossy(s.subrange(2, s.len() as int))
    } else {
        seq![REPLACEMENT_CHARACTER] + utf16_lossy(s.drop_first())
    }
}

/// `char::from_u32`: the char with scalar value `v`, or `None` where `v` is a
/// surrogate or above U+10FFFF, as the standard library documents.
#[verifier::external_body]
pub(crate) fn char_from_u32(v: u32) -> (r: Option<char>)
    ensures
        is_scalar(v) ==> r == Some(v as char),
        !is_scalar(v) ==> r is None,
{
    char::from_u32(v)
}

/// `String::push`: appends `c` to the end of `s`, as the standard library documents.
#[verifier::external_body]
pub(crate) fn push_char(s: &mut String, c: char)
    ensures
        final(s)@ == old(s)@.push(c),
{
    s.push(c)
}

proof fn lemma_lossy_step(s: Seq<u16>, i: int)
    requires
        0 <= i < s.len(),
    ensures
        !is_surrogate(s[i]) ==> utf16_lossy(s.skip(i)) == seq![s[i] as char] + utf16_lossy(
            s.skip(i + 1),
        ),
        is_high_surrogate(s[i]) && i + 1 < s.len() && is_low_surrogate(s[i + 1])
            ==> utf16_lossy(s.skip(i)) == seq![pair_scalar(s[i], s[i + 1]) as char]
            + utf16_lossy(s.skip(i + 2)),
        is_surrogate(s[i]) && !(is_high_surrogate(s[i]) && i + 1 < s.len() && is_low_surrogate(
            s[i + 1],
        )) ==> utf16_lossy(s.skip(i)) == seq![REPLACEMENT_CHARACTER] + utf16_lossy(s.skip(i + 1)),
{
    let t = s.skip(i);
    assert(t.drop_first() =~= s.skip(i + 1));
    if i + 1 < s.len() {
        assert(t.subrange(2, t.len() as int) =~= s.skip(i + 2));
    }
}

/// Decodes UTF-16 code units into a `String`, replacing every unpaired
/// surrogate with U+FFFD (`String::from_utf16_lossy`).
pub fn decode_utf16_lossy(units: &[u16]) -> (r: String)
    ensures
        r@ == utf16_lossy(units@),
{
    let mut out = String::new();
    let n = units.len();
    let mut i: usize = 0;
    assert(units@.skip(0) =~= units@);
    while i < n
        invariant
            n == units@.len(),
            i <= n,
            out@ + utf16_lossy(units@.skip(i as int)) == utf16_lossy(units@),
        decreases n - i,
    {
        let u = units[i];
        proof {
            lemma_lossy_step(units@, i as int);
        }
        if u < 0xD800 || u > 0xDFFF {
            let c = char_from_u32(u as u32);
            match c {
                Some(c) => {
                    push_char(&mut out, c);
                },
                None => {},
            }
            i = i + 1;
        } else if u <= 0xDBFF && i + 1 < n && 0xDC00 <= units[i + 1] && units[i + 1] <= 0xDFFF {
            let lo = units[i + 1];
            let v: u32 = ((u - 0xD800) as u32) * 0x400 + ((lo - 0xDC00) as u32) + 0x10000;
            let c = char_from_u32(v);
            match c {
                Some(c) => {
                    push_char(&mut out, c);
                },
                None => {},
            }
            i = i + 2;
        } else {
            push_char(&mut out, REPLACEMENT_CHARACTER);
            i = i + 1;
        }
        assert(out@ + utf16_lossy(units@.skip(i as int)) == utf16_lossy(units@));
    }
    assert(units@.skip(n as int) =~= Seq::<u16>::empty());
    out
}

} // verus!
