//! Icon atlases: the goods id encoded in an atlas entry's name, how much
//! texture memory the atlases take, and the colour buckets used to pick an
//! icon's dominant colour.
use vstd::prelude::*;
use crate::text::chars_of;
use std::collections::HashMap;

pub mod primary_color;
pub mod sprite_layout;
pub mod dds;

verus! {

/// The prefix of an icon entry's name in the menu's sprite layouts.
pub open spec fn icon_prefix() -> Seq<char> {
    seq!['M', 'E', 'N', 'U', '_', 'I', 't', 'e', 'm', 'I', 'c', 'o', 'n', '_']
}

/// `s` with every repetition of `p` at its start removed
/// (`str::trim_start_matches`).
pub open spec fn strip_prefixes(s: Seq<char>, p: Seq<char>) -> Seq<char>
    decreases s.len(),
{
    if p.len() > 0 && s.len() >= p.len() && s.take(p.len() as int) == p {
        strip_prefixes(s.skip(p.len() as int), p)
    } else {
        s
    }
}

/// The position of the first `c` in `s`, if any.
pub open spec fn first_index_of(s: Seq<char>, c: char) -> Option<int>
    decreases s.len(),
{
    if s.len() == 0 {
        None
    } else if s[0] == c {
        Some(0)
    } else {
        match first_index_of(s.drop_first(), c) {
            Some(i) => Some(i + 1),
            None => None,
        }
    }
}

pub open spec fn is_digit(c: char) -> bool {
    '0' <= c <= '9'
}

pub open spec fn digit_value(c: char) -> int {
    c as int - '0' as int
}

/// The number that the decimal digits `d` spell.
pub open spec fn digits_value(d: Seq<char>) -> int
    decreases d.len(),
{
    if d.len() == 0 {
        0
    } else {
        digits_value(d.drop_last()) * 10 + digit_value(d.last())
    }
}

/// `s` without its leading `+`, if it has one.
pub open spec fn unsigned_digits(s: Seq<char>) -> Seq<char> {
    if s.len() > 0 && s[0] == '+' {
        s.drop_first()
    } else {
        s
    }
}

/// `str::parse` of an unsigned integer type whose largest value is `max`: an
/// optional `+`, then one or more decimal digits whose value is at most `max`.
pub open spec fn parse_unsigned(s: Seq<char>, max: int) -> Option<int> {
    let d = unsigned_digits(s);
    if d.len() > 0 && (forall|i: int| 0 <= i < d.len() ==> is_digit(#[trigger] d[i]))
        && digits_value(d) <= max {
        Some(digits_value(d))
    } else {
        None
    }
}

/// `str::parse::<u16>`.
pub open spec fn parse_u16(s: Seq<char>) -> Option<u16> {
    match parse_unsigned(s, u16::MAX as int) {
        Some(v) => Some(v as u16),
        None => None,
    }
}

/// `str::parse::<u32>`.
pub open spec fn parse_u32(s: Seq<char>) -> Option<u32> {
    match parse_unsigned(s, u32::MAX as int) {
        Some(v) => Some(v as u32),
        None => None,
    }
}

/// The goods id in an icon entry's name: the prefix must be there (repeats
/// of it are dropped), and the id is the text after it up to the first `.`.
pub open spec fn spec_parse_name(name: Seq<char>) -> Option<u16> {
    let rest = strip_prefixes(name, icon_prefix());
    if rest.len() == name.len() {
        None
    } else {
        match first_index_of(rest, '.') {
            Some(k) => parse_u16(rest.take(k)),
            None => None,
        }
    }
}

proof fn lemma_digits_value_nonneg(d: Seq<char>)
    requires
        forall|i: int| 0 <= i < d.len() ==> is_digit(#[trigger] d[i]),
    ensures
        digits_value(d) >= 0,
    decreases d.len(),
{
    if d.len() > 0 {
        lemma_digits_value_nonneg(d.drop_last());
    }
}

proof fn lemma_digits_value_monotone(d: Seq<char>, k: int)
    requires
        0 <= k <= d.len(),
        forall|i: int| 0 <= i < d.len() ==> is_digit(#[trigger] d[i]),
    ensures
        digits_value(d.take(k)) <= digits_value(d),
    decreases d.len() - k,
{
    if k < d.len() {
        lemma_digits_value_monotone(d, k + 1);
        assert(d.take(k + 1).drop_last() =~= d.take(k));
        lemma_digits_value_nonneg(d.take(k));
    } else {
        assert(d.take(k) =~= d);
    }
}

/// Parses the characters `start..end` of `s` as an unsigned integer of at
/// most `max`, as `str::parse` does (see `parse_unsigned`).
fn parse_decimal(s: &Vec<char>, start: usize, end: usize, max: u32) -> (r: Option<u32>)
    requires
        start <= end <= s@.len(),
    ensures
        r matches Some(v) ==> parse_unsigned(s@.subrange(start as int, end as int), max as int)
            == Some(v as int),
        r is None ==> parse_unsigned(s@.subrange(start as int, end as int), max as int) is None,
{
    let ghost t = s@.subrange(start as int, end as int);
    let mut i = start;
    if i < end && s[i] == '+' {
        i += 1;
    }
    let ghost d = s@.subrange(i as int, end as int);
    assert(d =~= unsigned_digits(t));
    if i == end {
        return None;
    }
    let d_start = i;
    let mut value: u64 = 0;
    while i < end
        invariant
            d_start <= i <= end,
            end <= s@.len(),
            d == s@.subrange(d_start as int, end as int),
            d == unsigned_digits(t),
            t == s@.subrange(start as int, end as int),
            forall|k: int| d_start <= k < i ==> is_digit(#[trigger] s@[k]),
            value == digits_value(s@.subrange(d_start as int, i as int)),
            value <= max,
        decreases end - i,
    {
        let c = s[i];
        assert(s@.subrange(d_start as int, i as int + 1).drop_last() =~= s@.subrange(
            d_start as int,
            i as int,
        ));
        if c < '0' || c > '9' {
            assert(d[i - d_start] == c);
            assert(!is_digit(d[i - d_start]));
            assert(!(forall|k: int| 0 <= k < d.len() ==> is_digit(#[trigger] d[k])));
            assert(unsigned_digits(t) == d);
            return None;
        }
        let dv = (c as u64) - ('0' as u64);
        let next = value * 10 + dv;
        if next > max as u64 {
            proof {
                let u = s@.subrange(d_start as int, i as int + 1);
                assert(u.last() == c);
                assert(digits_value(u) == value * 10 + dv);
                if forall|k: int| 0 <= k < d.len() ==> is_digit(#[trigger] d[k]) {
                    lemma_digits_value_monotone(d, i - d_start + 1);
                    assert(d.take(i - d_start + 1) =~= u);
                }
                assert(parse_unsigned(t, max as int) is None);
            }
            return None;
        }
        value = next;
        i += 1;
    }
    assert(s@.subrange(d_start as int, end as int) =~= d);
    Some(value as u32)
}

proof fn lemma_strip_step(s: Seq<char>, p: Seq<char>, k: int)
    requires
        p.len() > 0,
        0 <= k <= s.len(),
        strip_prefixes(s.skip(k), p) == strip_prefixes(s, p),
        s.len() - k >= p.len(),
        s.skip(k).take(p.len() as int) == p,
    ensures
        strip_prefixes(s.skip(k + p.len()), p) == strip_prefixes(s, p),
{
    assert(s.skip(k).skip(p.len() as int) =~= s.skip(k + p.len()));
}

/// The goods id in an icon entry's name (see `spec_parse_name`).
pub fn parse_name(name: String) -> (r: Option<u16>)
    ensures
        r == spec_parse_name(name@),
{
    let s = chars_of(name.as_str());
    let prefix: [char; 14] = ['M', 'E', 'N', 'U', '_', 'I', 't', 'e', 'm', 'I', 'c', 'o', 'n', '_'];
    assert(prefix@ == icon_prefix());
    let n = s.len();
    let pl: usize = 14;
    let mut k: usize = 0;
    assert(s@.skip(0) =~= s@);
    loop
        invariant
            n == s@.len(),
            k <= n,
            pl == prefix@.len(),
            prefix@ == icon_prefix(),
            strip_prefixes(s@.skip(k as int), icon_prefix()) == strip_prefixes(s@, icon_prefix()),
        ensures
            strip_prefixes(s@.skip(k as int), icon_prefix()) == s@.skip(k as int),
        decreases n - k,
    {
        if n - k < pl {
            assert(strip_prefixes(s@.skip(k as int), icon_prefix()) == s@.skip(k as int));
            break;
        }
        let mut j: usize = 0;
        let mut matched = true;
        while j < pl
            invariant
                n == s@.len(),
                k + pl <= n,
                pl == prefix@.len(),
                j <= pl,
                matched == (forall|m: int| 0 <= m < j ==> s@[k + m] == prefix@[m]),
            decreases pl - j,
        {
            if s[k + j] != prefix[j] {
                matched = false;
            }
            j += 1;
        }
        assert(matched == (s@.skip(k as int).take(pl as int) =~= icon_prefix()));
        if !matched {
            assert(strip_prefixes(s@.skip(k as int), icon_prefix()) == s@.skip(k as int));
            break;
        }
        proof {
            lemma_strip_step(s@, icon_prefix(), k as int);
        }
        k += pl;
    }
    let ghost rest = s@.skip(k as int);
    assert(strip_prefixes(rest, icon_prefix()) == rest);
    if k == 0 {
        return None;
    }
    let mut e = k;
    while e < n
        invariant
            k <= e <= n,
            n == s@.len(),
            rest == s@.skip(k as int),
            forall|m: int| k <= m < e ==> s@[m] != '.',
        ensures
            e < n ==> s@[e as int] == '.',
        decreases n - e,
    {
        if s[e] == '.' {
            break;
        }
        e += 1;
    }
    proof {
        lemma_first_index(rest, '.', (e - k) as int);
    }
    if e == n {
        return None;
    }
    assert(rest.take((e - k) as int) =~= s@.subrange(k as int, e as int));
    match parse_decimal(&s, k, e, 65535) {
        Some(v) => Some(v as u16),
        None => None,
    }
}

proof fn lemma_first_index(s: Seq<char>, c: char, e: int)
    requires
        0 <= e <= s.len(),
        forall|m: int| 0 <= m < e ==> s[m] != c,
        e < s.len() ==> s[e] == c,
    ensures
        e == s.len() ==> first_index_of(s, c) is None,
        e < s.len() ==> first_index_of(s, c) == Some(e),
    decreases s.len(),
{
    if s.len() > 0 && e > 0 {
        lemma_first_index(s.drop_first(), c, e - 1);
    }
}

/// The text of `s` before its first `.` (all of it if it has none), as the
/// first piece of `str::split(".")`.
pub open spec fn before_first_dot(s: Seq<char>) -> Seq<char> {
    match first_index_of(s, '.') {
        Some(k) => s.take(k),
        None => s,
    }
}

/// The spell id an icon file of the spell icon folder is named by: the
/// file name's text before its first `.`, read as a `u32`.
pub fn spell_id_of_file_name(name: &str) -> (r: Option<u32>)
    ensures
        r == parse_u32(before_first_dot(name@)),
{
    let s = chars_of(name);
    let n = s.len();
    let mut e: usize = 0;
    while e < n
        invariant
            e <= n,
            n == s@.len(),
            forall|m: int| 0 <= m < e ==> s@[m] != '.',
        ensures
            e < n ==> s@[e as int] == '.',
        decreases n - e,
    {
        if s[e] == '.' {
            break;
        }
        e += 1;
    }
    proof {
        lemma_first_index(s@, '.', e as int);
        assert(s@.subrange(0, e as int) =~= before_first_dot(s@));
    }
    parse_decimal(&s, 0, e, 0xFFFF_FFFF)
}

/// Bytes taken by the icon atlases' textures: those uploaded compressed, and
/// those decoded to RGBA first.
#[derive(Clone, Copy, Debug, PartialEq, Eq, Structural)]
pub struct AtlasSize {
    pub compressed: u32,
    pub uncompressed: u32,
}

impl AtlasSize {
    pub fn new(compressed: u32, uncompressed: u32) -> (r: Self)
        ensures
            r == (AtlasSize { compressed, uncompressed }),
    {
        Self { compressed, uncompressed }
    }
}

/// The icon textures of spells: those the mod ships, by spell id, and those
/// that modded spells bring along, which take precedence.
pub struct IconManager {
    spell_icons: HashMap<u32, u64>,
    modded_spell_icons: HashMap<u32, u64>,
}

impl IconManager {
    pub closed spec fn spell_icons(&self) -> Map<u32, u64> {
        self.spell_icons@
    }

    pub closed spec fn modded_spell_icons(&self) -> Map<u32, u64> {
        self.modded_spell_icons@
    }

    pub fn new(spell_icons: HashMap<u32, u64>, modded_spell_icons: HashMap<u32, u64>) -> (r: Self)
        ensures
            r.spell_icons() == spell_icons@,
            r.modded_spell_icons() == modded_spell_icons@,
    {
        Self { spell_icons, modded_spell_icons }
    }

    /// The texture of spell `spell_id`: a modded spell's icon where there is
    /// one, else the shipped icon, if any.
    pub fn get_inner(&self, spell_id: u32) -> (r: Option<u64>)
        ensures
            r == (if self.modded_spell_icons().contains_key(spell_id) {
                Some(self.modded_spell_icons()[spell_id])
            } else if self.spell_icons().contains_key(spell_id) {
                Some(self.spell_icons()[spell_id])
            } else {
                None
            }),
    {
        broadcast use vstd::std_specs::hash::group_hash_axioms;
        match self.modded_spell_icons.get(&spell_id) {
            Some(t) => Some(*t),
            None => match self.spell_icons.get(&spell_id) {
                Some(t) => Some(*t),
                None => None,
            },
        }
    }
}

} // verus!
