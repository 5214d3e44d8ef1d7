//! Reading the keyboard: which virtual-key code a key name in the settings
//! stands for, and when a key counts as pressed.
use vstd::prelude::*;
use crate::text::{chars_of, same_chars};

verus! {

/// Whether a key is pressed: the game's window has the focus and the key's
/// state (as `GetAsyncKeyState` reports it) has its most significant bit set,
/// that is, is negative.
pub fn is_pressed(focused: bool, key_state: i16) -> (r: bool)
    ensures
        r == (focused && key_state < 0),
{
    let down = key_state & (-32768i16) != 0;
    assert((key_state & (-32768i16) != 0) == (key_state < 0)) by (bit_vector);
    focused && down
}

/// `str::to_uppercase`: the text with every character replaced by its
/// uppercase mapping (which may be several characters), by Unicode's tables.
pub uninterp spec fn uppercase(s: Seq<char>) -> Seq<char>;

/// Whether every character of `s` is ASCII.
pub open spec fn is_ascii_text(s: Seq<char>) -> bool {
    forall|i: int| 0 <= i < s.len() ==> (#[trigger] s[i]) as u32 <= 0x7F
}

/// An ASCII small letter made capital; any other character kept.
pub open spec fn ascii_upper(c: char) -> char {
    if 'a' <= c <= 'z' {
        ((c as u32) - 32) as char
    } else {
        c
    }
}

/// The text with its ASCII small letters made capital.
pub open spec fn ascii_uppercase(s: Seq<char>) -> Seq<char> {
    s.map_values(|c: char| ascii_upper(c))
}

/// `str::to_uppercase` (see `uppercase`). Of an ASCII text the result is
/// stated: its small letters `a` to `z` become `A` to `Z` and every other
/// character stays, one for one, as Unicode's case mappings give for ASCII.
/// Of other texts nothing is claimed beyond the name.
#[verifier::external_body]
pub(crate) fn to_uppercase(s: &str) -> (r: String)
    ensures
        r@ == uppercase(s@),
        is_ascii_text(s@) ==> r@ == ascii_uppercase(s@),
{
    s.to_uppercase()
}

/// The code of the first entry of `table` named `name`, if any.
pub open spec fn table_lookup<T>(table: Seq<(Seq<char>, T)>, name: Seq<char>) -> Option<T>
    decreases table.len(),
{
    if table.len() == 0 {
        None
    } else if table[0].0 == name {
        Some(table[0].1)
    } else {
        table_lookup(table.drop_first(), name)
    }
}
pub open spec fn key_table_0() -> Seq<(Seq<char>, u16)> {
    seq![
        (seq!['0'], 48u16),
        (seq!['1'], 49u16),
        (seq!['2'], 50u16),
        (seq!['3'], 51u16),
        (seq!['4'], 52u16),
        (seq!['5'], 53u16),
        (seq!['6'], 54u16),
        (seq!['7'], 55u16),
        (seq!['8'], 56u16),
        (seq!['9'], 57u16),
        (seq!['A'], 65u16),
        (seq!['A', 'B', 'N', 'T', '_', 'C', '1'], 193u16),
        (seq!['A', 'B', 'N', 'T', '_', 'C', '2'], 194u16),
        (seq!['A', 'C', 'C', 'E', 'P', 'T'], 30u16),
        (seq!['A', 'D', 'D'], 107u16),
        (seq!['A', 'P', 'P', 'S'], 93u16),
        (seq!['A', 'T', 'T', 'N'], 246u16),
        (seq!['B'], 66u16),
        (seq!['B', 'A', 'C', 'K'], 8u16),
        (seq!['B', 'R', 'O', 'W', 'S', 'E', 'R', '_', 'B', 'A', 'C', 'K'], 166u16),
        (seq!['B', 'R', 'O', 'W', 'S', 'E', 'R', '_', 'F', 'A', 'V', 'O', 'R', 'I', 'T', 'E', 'S'], 171u16),
        (seq!['B', 'R', 'O', 'W', 'S', 'E', 'R', '_', 'F', 'O', 'R', 'W', 'A', 'R', 'D'], 167u16),
        (seq!['B', 'R', 'O', 'W', 'S', 'E', 'R', '_', 'H', 'O', 'M', 'E'], 172u16),
        (seq!['B', 'R', 'O', 'W', 'S', 'E', 'R', '_', 'R', 'E', 'F', 'R', 'E', 'S', 'H'], 168u16),
        (seq!['B', 'R', 'O', 'W', 'S', 'E', 'R', '_', 'S', 'E', 'A', 'R', 'C', 'H'], 170u16),
        (seq!['B', 'R', 'O', 'W', 'S', 'E', 'R', '_', 'S', 'T', 'O', 'P'], 169u16),
        (seq!['C'], 67u16),
        (seq!['C', 'A', 'N', 'C', 'E', 'L'], 3u16),
        (seq!['C', 'A', 'P', 'I', 'T', 'A', 'L'], 20u16),
        (seq!['C', 'L', 'E', 'A', 'R'], 12u16),
        (seq!['C', 'O', 'N', 'T', 'R', 'O', 'L'], 17u16),
        (seq!['C', 'O', 'N', 'V', 'E', 'R', 'T'], 28u16),
        (seq!['C', 'R', 'S', 'E', 'L'], 247u16),
        (seq!['D'], 68u16),
        (seq!['D', 'B', 'E', '_', 'A', 'L', 'P', 'H', 'A', 'N', 'U', 'M', 'E', 'R', 'I', 'C'], 240u16),
        (seq!['D', 'B', 'E', '_', 'C', 'O', 'D', 'E', 'I', 'N', 'P', 'U', 'T'], 250u16),
        (seq!['D', 'B', 'E', '_', 'D', 'B', 'C', 'S', 'C', 'H', 'A', 'R'], 244u16),
        (seq!['D', 'B', 'E', '_', 'D', 'E', 'T', 'E', 'R', 'M', 'I', 'N', 'E', 'S', 'T', 'R', 'I', 'N', 'G'], 252u16),
        (seq!['D', 'B', 'E', '_', 'E', 'N', 'T', 'E', 'R', 'D', 'L', 'G', 'C', 'O', 'N', 'V', 'E', 'R', 'S', 'I', 'O', 'N', 'M', 'O', 'D', 'E'], 253u16),
        (seq!['D', 'B', 'E', '_', 'E', 'N', 'T', 'E', 'R', 'I', 'M', 'E', 'C', 'O', 'N', 'F', 'I', 'G', 'M', 'O', 'D', 'E'], 248u16),
        (seq!['D', 'B', 'E', '_', 'E', 'N', 'T', 'E', 'R', 'W', 'O', 'R', 'D', 'R', 'E', 'G', 'I', 'S', 'T', 'E', 'R', 'M', 'O', 'D', 'E'], 247u16),
        (seq!['D', 'B', 'E', '_', 'F', 'L', 'U', 'S', 'H', 'S', 'T', 'R', 'I', 'N', 'G'], 249u16),
        (seq!['D', 'B', 'E', '_', 'H', 'I', 'R', 'A', 'G', 'A', 'N', 'A'], 242u16),
        (seq!['D', 'B', 'E', '_', 'K', 'A', 'T', 'A', 'K', 'A', 'N', 'A'], 241u16),
        (seq!['D', 'B', 'E', '_', 'N', 'O', 'C', 'O', 'D', 'E', 'I', 'N', 'P', 'U', 'T'], 251u16),
        (seq!['D', 'B', 'E', '_', 'N', 'O', 'R', 'O', 'M', 'A', 'N'], 246u16),
        (seq!['D', 'B', 'E', '_', 'R', 'O', 'M', 'A', 'N'], 245u16),
        (seq!['D', 'B', 'E', '_', 'S', 'B', 'C', 'S', 'C', 'H', 'A', 'R'], 243u16),
        (seq!['D', 'E', 'C', 'I', 'M', 'A', 'L'], 110u16),
        (seq!['D', 'E', 'L', 'E', 'T', 'E'], 46u16),
    ]
}

pub open spec fn key_table_1() -> Seq<(Seq<char>, u16)> {
    seq![
        (seq!['D', 'I', 'V', 'I', 'D', 'E'], 111u16),
        (seq!['D', 'O', 'W', 'N'], 40u16),
        (seq!['E'], 69u16),
        (seq!['E', 'N', 'D'], 35u16),
        (seq!['E', 'R', 'E', 'O', 'F'], 249u16),
        (seq!['E', 'S', 'C', 'A', 'P', 'E'], 27u16),
        (seq!['E', 'X', 'E', 'C', 'U', 'T', 'E'], 43u16),
        (seq!['E', 'X', 'S', 'E', 'L'], 248u16),
        (seq!['F'], 70u16),
        (seq!['F', '1'], 112u16),
        (seq!['F', '1', '0'], 121u16),
        (seq!['F', '1', '1'], 122u16),
        (seq!['F', '1', '2'], 123u16),
        (seq!['F', '1', '3'], 124u16),
        (seq!['F', '1', '4'], 125u16),
        (seq!['F', '1', '5'], 126u16),
        (seq!['F', '1', '6'], 127u16),
        (seq!['F', '1', '7'], 128u16),
        (seq!['F', '1', '8'], 129u16),
        (seq!['F', '1', '9'], 130u16),
        (seq!['F', '2'], 113u16),
        (seq!['F', '2', '0'], 131u16),
        (seq!['F', '2', '1'], 132u16),
        (seq!['F', '2', '2'], 133u16),
        (seq!['F', '2', '3'], 134u16),
        (seq!['F', '2', '4'], 135u16),
        (seq!['F', '3'], 114u16),
        (seq!['F', '4'], 115u16),
        (seq!['F', '5'], 116u16),
        (seq!['F', '6'], 117u16),
        (seq!['F', '7'], 118u16),
        (seq!['F', '8'], 119u16),
        (seq!['F', '9'], 120u16),
        (seq!['F', 'I', 'N', 'A', 'L'], 24u16),
        (seq!['G'], 71u16),
        (seq!['G', 'A', 'M', 'E', 'P', 'A', 'D', '_', 'A'], 195u16),
        (seq!['G', 'A', 'M', 'E', 'P', 'A', 'D', '_', 'B'], 196u16),
        (seq!['G', 'A', 'M', 'E', 'P', 'A', 'D', '_', 'D', 'P', 'A', 'D', '_', 'D', 'O', 'W', 'N'], 204u16),
        (seq!['G', 'A', 'M', 'E', 'P', 'A', 'D', '_', 'D', 'P', 'A', 'D', '_', 'L', 'E', 'F', 'T'], 205u16),
        (seq!['G', 'A', 'M', 'E', 'P', 'A', 'D', '_', 'D', 'P', 'A', 'D', '_', 'R', 'I', 'G', 'H', 'T'], 206u16),
        (seq!['G', 'A', 'M', 'E', 'P', 'A', 'D', '_', 'D', 'P', 'A', 'D', '_', 'U', 'P'], 203u16),
        (seq!['G', 'A', 'M', 'E', 'P', 'A', 'D', '_', 'L', 'E', 'F', 'T', '_', 'S', 'H', 'O', 'U', 'L', 'D', 'E', 'R'], 200u16),
        (seq!['G', 'A', 'M', 'E', 'P', 'A', 'D', '_', 'L', 'E', 'F', 'T', '_', 'T', 'H', 'U', 'M', 'B', 'S', 'T', 'I', 'C', 'K', '_', 'B', 'U', 'T', 'T', 'O', 'N'], 209u16),
        (seq!['G', 'A', 'M', 'E', 'P', 'A', 'D', '_', 'L', 'E', 'F', 'T', '_', 'T', 'H', 'U', 'M', 'B', 'S', 'T', 'I', 'C', 'K', '_', 'D', 'O', 'W', 'N'], 212u16),
        (seq!['G', 'A', 'M', 'E', 'P', 'A', 'D', '_', 'L', 'E', 'F', 'T', '_', 'T', 'H', 'U', 'M', 'B', 'S', 'T', 'I', 'C', 'K', '_', 'L', 'E', 'F', 'T'], 214u16),
        (seq!['G', 'A', 'M', 'E', 'P', 'A', 'D', '_', 'L', 'E', 'F', 'T', '_', 'T', 'H', 'U', 'M', 'B', 'S', 'T', 'I', 'C', 'K', '_', 'R', 'I', 'G', 'H', 'T'], 213u16),
        (seq!['G', 'A', 'M', 'E', 'P', 'A', 'D', '_', 'L', 'E', 'F', 'T', '_', 'T', 'H', 'U', 'M', 'B', 'S', 'T', 'I', 'C', 'K', '_', 'U', 'P'], 211u16),
        (seq!['G', 'A', 'M', 'E', 'P', 'A', 'D', '_', 'L', 'E', 'F', 'T', '_', 'T', 'R', 'I', 'G', 'G', 'E', 'R'], 201u16),
        (seq!['G', 'A', 'M', 'E', 'P', 'A', 'D', '_', 'M', 'E', 'N', 'U'], 207u16),
        (seq!['G', 'A', 'M', 'E', 'P', 'A', 'D', '_', 'R', 'I', 'G', 'H', 'T', '_', 'S', 'H', 'O', 'U', 'L', 'D', 'E', 'R'], 199u16),
    ]
}

pub open spec fn key_table_2() -> Seq<(Seq<char>, u16)> {
    seq![
        (seq!['G', 'A', 'M', 'E', 'P', 'A', 'D', '_', 'R', 'I', 'G', 'H', 'T', '_', 'T', 'H', 'U', 'M', 'B', 'S', 'T', 'I', 'C', 'K', '_', 'B', 'U', 'T', 'T', 'O', 'N'], 210u16),
        (seq!['G', 'A', 'M', 'E', 'P', 'A', 'D', '_', 'R', 'I', 'G', 'H', 'T', '_', 'T', 'H', 'U', 'M', 'B', 'S', 'T', 'I', 'C', 'K', '_', 'D', 'O', 'W', 'N'], 216u16),
        (seq!['G', 'A', 'M', 'E', 'P', 'A', 'D', '_', 'R', 'I', 'G', 'H', 'T', '_', 'T', 'H', 'U', 'M', 'B', 'S', 'T', 'I', 'C', 'K', '_', 'L', 'E', 'F', 'T'], 218u16),
        (seq!['G', 'A', 'M', 'E', 'P', 'A', 'D', '_', 'R', 'I', 'G', 'H', 'T', '_', 'T', 'H', 'U', 'M', 'B', 'S', 'T', 'I', 'C', 'K', '_', 'R', 'I', 'G', 'H', 'T'], 217u16),
        (seq!['G', 'A', 'M', 'E', 'P', 'A', 'D', '_', 'R', 'I', 'G', 'H', 'T', '_', 'T', 'H', 'U', 'M', 'B', 'S', 'T', 'I', 'C', 'K', '_', 'U', 'P'], 215u16),
        (seq!['G', 'A', 'M', 'E', 'P', 'A', 'D', '_', 'R', 'I', 'G', 'H', 'T', '_', 'T', 'R', 'I', 'G', 'G', 'E', 'R'], 202u16),
        (seq!['G', 'A', 'M', 'E', 'P', 'A', 'D', '_', 'V', 'I', 'E', 'W'], 208u16),
        (seq!['G', 'A', 'M', 'E', 'P', 'A', 'D', '_', 'X'], 197u16),
        (seq!['G', 'A', 'M', 'E', 'P', 'A', 'D', '_', 'Y'], 198u16),
        (seq!['H'], 72u16),
        (seq!['H', 'A', 'N', 'G', 'E', 'U', 'L'], 21u16),
        (seq!['H', 'A', 'N', 'G', 'U', 'L'], 21u16),
        (seq!['H', 'A', 'N', 'J', 'A'], 25u16),
        (seq!['H', 'E', 'L', 'P'], 47u16),
        (seq!['H', 'O', 'M', 'E'], 36u16),
        (seq!['I'], 73u16),
        (seq!['I', 'C', 'O', '_', '0', '0'], 228u16),
        (seq!['I', 'C', 'O', '_', 'C', 'L', 'E', 'A', 'R'], 230u16),
        (seq!['I', 'C', 'O', '_', 'H', 'E', 'L', 'P'], 227u16),
        (seq!['I', 'M', 'E', '_', 'O', 'F', 'F'], 26u16),
        (seq!['I', 'M', 'E', '_', 'O', 'N'], 22u16),
        (seq!['I', 'N', 'S', 'E', 'R', 'T'], 45u16),
        (seq!['J'], 74u16),
        (seq!['J', 'U', 'N', 'J', 'A'], 23u16),
        (seq!['K'], 75u16),
        (seq!['K', 'A', 'N', 'A'], 21u16),
        (seq!['K', 'A', 'N', 'J', 'I'], 25u16),
        (seq!['L'], 76u16),
        (seq!['L', 'A', 'U', 'N', 'C', 'H', '_', 'A', 'P', 'P', '1'], 182u16),
        (seq!['L', 'A', 'U', 'N', 'C', 'H', '_', 'A', 'P', 'P', '2'], 183u16),
        (seq!['L', 'A', 'U', 'N', 'C', 'H', '_', 'M', 'A', 'I', 'L'], 180u16),
        (seq!['L', 'A', 'U', 'N', 'C', 'H', '_', 'M', 'E', 'D', 'I', 'A', '_', 'S', 'E', 'L', 'E', 'C', 'T'], 181u16),
        (seq!['L', 'B', 'U', 'T', 'T', 'O', 'N'], 1u16),
        (seq!['L', 'C', 'O', 'N', 'T', 'R', 'O', 'L'], 162u16),
        (seq!['L', 'E', 'F', 'T'], 37u16),
        (seq!['L', 'M', 'E', 'N', 'U'], 164u16),
        (seq!['L', 'S', 'H', 'I', 'F', 'T'], 160u16),
        (seq!['L', 'W', 'I', 'N'], 91u16),
        (seq!['M'], 77u16),
        (seq!['M', 'B', 'U', 'T', 'T', 'O', 'N'], 4u16),
        (seq!['M', 'E', 'D', 'I', 'A', '_', 'N', 'E', 'X', 'T', '_', 'T', 'R', 'A', 'C', 'K'], 176u16),
        (seq!['M', 'E', 'D', 'I', 'A', '_', 'P', 'L', 'A', 'Y', '_', 'P', 'A', 'U', 'S', 'E'], 179u16),
        (seq!['M', 'E', 'D', 'I', 'A', '_', 'P', 'R', 'E', 'V', '_', 'T', 'R', 'A', 'C', 'K'], 177u16),
        (seq!['M', 'E', 'D', 'I', 'A', '_', 'S', 'T', 'O', 'P'], 178u16),
        (seq!['M', 'E', 'N', 'U'], 18u16),
        (seq!['M', 'O', 'D', 'E', 'C', 'H', 'A', 'N', 'G', 'E'], 31u16),
        (seq!['M', 'U', 'L', 'T', 'I', 'P', 'L', 'Y'], 106u16),
        (seq!['N'], 78u16),
        (seq!['N', 'A', 'V', 'I', 'G', 'A', 'T', 'I', 'O', 'N', '_', 'A', 'C', 'C', 'E', 'P', 'T'], 142u16),
        (seq!['N', 'A', 'V', 'I', 'G', 'A', 'T', 'I', 'O', 'N', '_', 'C', 'A', 'N', 'C', 'E', 'L'], 143u16),
    ]
}

pub open spec fn key_table_3() -> Seq<(Seq<char>, u16)> {
    seq![
        (seq!['N', 'A', 'V', 'I', 'G', 'A', 'T', 'I', 'O', 'N', '_', 'D', 'O', 'W', 'N'], 139u16),
        (seq!['N', 'A', 'V', 'I', 'G', 'A', 'T', 'I', 'O', 'N', '_', 'L', 'E', 'F', 'T'], 140u16),
        (seq!['N', 'A', 'V', 'I', 'G', 'A', 'T', 'I', 'O', 'N', '_', 'M', 'E', 'N', 'U'], 137u16),
        (seq!['N', 'A', 'V', 'I', 'G', 'A', 'T', 'I', 'O', 'N', '_', 'R', 'I', 'G', 'H', 'T'], 141u16),
        (seq!['N', 'A', 'V', 'I', 'G', 'A', 'T', 'I', 'O', 'N', '_', 'U', 'P'], 138u16),
        (seq!['N', 'A', 'V', 'I', 'G', 'A', 'T', 'I', 'O', 'N', '_', 'V', 'I', 'E', 'W'], 136u16),
        (seq!['N', 'E', 'X', 'T'], 34u16),
        (seq!['N', 'O', 'N', 'A', 'M', 'E'], 252u16),
        (seq!['N', 'O', 'N', 'C', 'O', 'N', 'V', 'E', 'R', 'T'], 29u16),
        (seq!['N', 'U', 'M', 'L', 'O', 'C', 'K'], 144u16),
        (seq!['N', 'U', 'M', 'P', 'A', 'D', '0'], 96u16),
        (seq!['N', 'U', 'M', 'P', 'A', 'D', '1'], 97u16),
        (seq!['N', 'U', 'M', 'P', 'A', 'D', '2'], 98u16),
        (seq!['N', 'U', 'M', 'P', 'A', 'D', '3'], 99u16),
        (seq!['N', 'U', 'M', 'P', 'A', 'D', '4'], 100u16),
        (seq!['N', 'U', 'M', 'P', 'A', 'D', '5'], 101u16),
        (seq!['N', 'U', 'M', 'P', 'A', 'D', '6'], 102u16),
        (seq!['N', 'U', 'M', 'P', 'A', 'D', '7'], 103u16),
        (seq!['N', 'U', 'M', 'P', 'A', 'D', '8'], 104u16),
        (seq!['N', 'U', 'M', 'P', 'A', 'D', '9'], 105u16),
        (seq!['O'], 79u16),
        (seq!['O', 'E', 'M', '_', '1'], 186u16),
        (seq!['O', 'E', 'M', '_', '1', '0', '2'], 226u16),
        (seq!['O', 'E', 'M', '_', '2'], 191u16),
        (seq!['O', 'E', 'M', '_', '3'], 192u16),
        (seq!['O', 'E', 'M', '_', '4'], 219u16),
        (seq!['O', 'E', 'M', '_', '5'], 220u16),
        (seq!['O', 'E', 'M', '_', '6'], 221u16),
        (seq!['O', 'E', 'M', '_', '7'], 222u16),
        (seq!['O', 'E', 'M', '_', '8'], 223u16),
        (seq!['O', 'E', 'M', '_', 'A', 'T', 'T', 'N'], 240u16),
        (seq!['O', 'E', 'M', '_', 'A', 'U', 'T', 'O'], 243u16),
        (seq!['O', 'E', 'M', '_', 'A', 'X'], 225u16),
        (seq!['O', 'E', 'M', '_', 'B', 'A', 'C', 'K', 'T', 'A', 'B'], 245u16),
        (seq!['O', 'E', 'M', '_', 'C', 'L', 'E', 'A', 'R'], 254u16),
        (seq!['O', 'E', 'M', '_', 'C', 'O', 'M', 'M', 'A'], 188u16),
        (seq!['O', 'E', 'M', '_', 'C', 'O', 'P', 'Y'], 242u16),
        (seq!['O', 'E', 'M', '_', 'C', 'U', 'S', 'E', 'L'], 239u16),
        (seq!['O', 'E', 'M', '_', 'E', 'N', 'L', 'W'], 244u16),
        (seq!['O', 'E', 'M', '_', 'F', 'I', 'N', 'I', 'S', 'H'], 241u16),
        (seq!['O', 'E', 'M', '_', 'F', 'J', '_', 'J', 'I', 'S', 'H', 'O'], 146u16),
        (seq!['O', 'E', 'M', '_', 'F', 'J', '_', 'L', 'O', 'Y', 'A'], 149u16),
        (seq!['O', 'E', 'M', '_', 'F', 'J', '_', 'M', 'A', 'S', 'S', 'H', 'O', 'U'], 147u16),
        (seq!['O', 'E', 'M', '_', 'F', 'J', '_', 'R', 'O', 'Y', 'A'], 150u16),
        (seq!['O', 'E', 'M', '_', 'F', 'J', '_', 'T', 'O', 'U', 'R', 'O', 'K', 'U'], 148u16),
        (seq!['O', 'E', 'M', '_', 'J', 'U', 'M', 'P'], 234u16),
        (seq!['O', 'E', 'M', '_', 'M', 'I', 'N', 'U', 'S'], 189u16),
        (seq!['O', 'E', 'M', '_', 'N', 'E', 'C', '_', 'E', 'Q', 'U', 'A', 'L'], 146u16),
        (seq!['O', 'E', 'M', '_', 'P', 'A', '1'], 235u16),
        (seq!['O', 'E', 'M', '_', 'P', 'A', '2'], 236u16),
    ]
}

pub open spec fn key_table_4() -> Seq<(Seq<char>, u16)> {
    seq![
        (seq!['O', 'E', 'M', '_', 'P', 'A', '3'], 237u16),
        (seq!['O', 'E', 'M', '_', 'P', 'E', 'R', 'I', 'O', 'D'], 190u16),
        (seq!['O', 'E', 'M', '_', 'P', 'L', 'U', 'S'], 187u16),
        (seq!['O', 'E', 'M', '_', 'R', 'E', 'S', 'E', 'T'], 233u16),
        (seq!['O', 'E', 'M', '_', 'W', 'S', 'C', 'T', 'R', 'L'], 238u16),
        (seq!['P'], 80u16),
        (seq!['P', 'A', '1'], 253u16),
        (seq!['P', 'A', 'C', 'K', 'E', 'T'], 231u16),
        (seq!['P', 'A', 'U', 'S', 'E'], 19u16),
        (seq!['P', 'L', 'A', 'Y'], 250u16),
        (seq!['P', 'R', 'I', 'N', 'T'], 42u16),
        (seq!['P', 'R', 'I', 'O', 'R'], 33u16),
        (seq!['P', 'R', 'O', 'C', 'E', 'S', 'S', 'K', 'E', 'Y'], 229u16),
        (seq!['Q'], 81u16),
        (seq!['R'], 82u16),
        (seq!['R', 'B', 'U', 'T', 'T', 'O', 'N'], 2u16),
        (seq!['R', 'C', 'O', 'N', 'T', 'R', 'O', 'L'], 163u16),
        (seq!['R', 'E', 'T', 'U', 'R', 'N'], 13u16),
        (seq!['R', 'I', 'G', 'H', 'T'], 39u16),
        (seq!['R', 'M', 'E', 'N', 'U'], 165u16),
        (seq!['R', 'S', 'H', 'I', 'F', 'T'], 161u16),
        (seq!['R', 'W', 'I', 'N'], 92u16),
        (seq!['S'], 83u16),
        (seq!['S', 'C', 'R', 'O', 'L', 'L'], 145u16),
        (seq!['S', 'E', 'L', 'E', 'C', 'T'], 41u16),
        (seq!['S', 'E', 'P', 'A', 'R', 'A', 'T', 'O', 'R'], 108u16),
        (seq!['S', 'H', 'I', 'F', 'T'], 16u16),
        (seq!['S', 'L', 'E', 'E', 'P'], 95u16),
        (seq!['S', 'N', 'A', 'P', 'S', 'H', 'O', 'T'], 44u16),
        (seq!['S', 'P', 'A', 'C', 'E'], 32u16),
        (seq!['S', 'U', 'B', 'T', 'R', 'A', 'C', 'T'], 109u16),
        (seq!['T'], 84u16),
        (seq!['T', 'A', 'B'], 9u16),
        (seq!['U'], 85u16),
        (seq!['U', 'P'], 38u16),
        (seq!['V'], 86u16),
        (seq!['V', 'O', 'L', 'U', 'M', 'E', '_', 'D', 'O', 'W', 'N'], 174u16),
        (seq!['V', 'O', 'L', 'U', 'M', 'E', '_', 'M', 'U', 'T', 'E'], 173u16),
        (seq!['V', 'O', 'L', 'U', 'M', 'E', '_', 'U', 'P'], 175u16),
        (seq!['W'], 87u16),
        (seq!['X'], 88u16),
        (seq!['X', 'B', 'U', 'T', 'T', 'O', 'N', '1'], 5u16),
        (seq!['X', 'B', 'U', 'T', 'T', 'O', 'N', '2'], 6u16),
        (seq!['Y'], 89u16),
        (seq!['Z'], 90u16),
        (seq!['Z', 'O', 'O', 'M'], 251u16),
        (seq!['_', 'n', 'o', 'n', 'e', '_'], 255u16),
    ]
}

/// The key names the settings may use, with their virtual-key codes.
pub open spec fn key_table() -> Seq<(Seq<char>, u16)> {
    key_table_0() + key_table_1() + key_table_2() + key_table_3() + key_table_4()
}

fn push_keys_0(v: &mut Vec<(Vec<char>, u16)>)
    ensures
        entries_view(final(v)@) == entries_view(old(v)@) + key_table_0(),
{
    let ghost start = v@;
    v.push((vec!['0'], 48u16));
    v.push((vec!['1'], 49u16));
    v.push((vec!['2'], 50u16));
    v.push((vec!['3'], 51u16));
    v.push((vec!['4'], 52u16));
    v.push((vec!['5'], 53u16));
    v.push((vec!['6'], 54u16));
    v.push((vec!['7'], 55u16));
    v.push((vec!['8'], 56u16));
    v.push((vec!['9'], 57u16));
    v.push((vec!['A'], 65u16));
    v.push((vec!['A', 'B', 'N', 'T', '_', 'C', '1'], 193u16));
    v.push((vec!['A', 'B', 'N', 'T', '_', 'C', '2'], 194u16));
    v.push((vec!['A', 'C', 'C', 'E', 'P', 'T'], 30u16));
    v.push((vec!['A', 'D', 'D'], 107u16));
    v.push((vec!['A', 'P', 'P', 'S'], 93u16));
    v.push((vec!['A', 'T', 'T', 'N'], 246u16));
    v.push((vec!['B'], 66u16));
    v.push((vec!['B', 'A', 'C', 'K'], 8u16));
    v.push((vec!['B', 'R', 'O', 'W', 'S', 'E', 'R', '_', 'B', 'A', 'C', 'K'], 166u16));
    v.push((vec!['B', 'R', 'O', 'W', 'S', 'E', 'R', '_', 'F', 'A', 'V', 'O', 'R', 'I', 'T', 'E', 'S'], 171u16));
    v.push((vec!['B', 'R', 'O', 'W', 'S', 'E', 'R', '_', 'F', 'O', 'R', 'W', 'A', 'R', 'D'], 167u16));
    v.push((vec!['B', 'R', 'O', 'W', 'S', 'E', 'R', '_', 'H', 'O', 'M', 'E'], 172u16));
    v.push((vec!['B', 'R', 'O', 'W', 'S', 'E', 'R', '_', 'R', 'E', 'F', 'R', 'E', 'S', 'H'], 168u16));
    v.push((vec!['B', 'R', 'O', 'W', 'S', 'E', 'R', '_', 'S', 'E', 'A', 'R', 'C', 'H'], 170u16));
    v.push((vec!['B', 'R', 'O', 'W', 'S', 'E', 'R', '_', 'S', 'T', 'O', 'P'], 169u16));
    v.push((vec!['C'], 67u16));
    v.push((vec!['C', 'A', 'N', 'C', 'E', 'L'], 3u16));
    v.push((vec!['C', 'A', 'P', 'I', 'T', 'A', 'L'], 20u16));
    v.push((vec!['C', 'L', 'E', 'A', 'R'], 12u16));
    v.push((vec!['C', 'O', 'N', 'T', 'R', 'O', 'L'], 17u16));
    v.push((vec!['C', 'O', 'N', 'V', 'E', 'R', 'T'], 28u16));
    v.push((vec!['C', 'R', 'S', 'E', 'L'], 247u16));
    v.push((vec!['D'], 68u16));
    v.push((vec!['D', 'B', 'E', '_', 'A', 'L', 'P', 'H', 'A', 'N', 'U', 'M', 'E', 'R', 'I', 'C'], 240u16));
    v.push((vec!['D', 'B', 'E', '_', 'C', 'O', 'D', 'E', 'I', 'N', 'P', 'U', 'T'], 250u16));
    v.push((vec!['D', 'B', 'E', '_', 'D', 'B', 'C', 'S', 'C', 'H', 'A', 'R'], 244u16));
    v.push((vec!['D', 'B', 'E', '_', 'D', 'E', 'T', 'E', 'R', 'M', 'I', 'N', 'E', 'S', 'T', 'R', 'I', 'N', 'G'], 252u16));
    v.push((vec!['D', 'B', 'E', '_', 'E', 'N', 'T', 'E', 'R', 'D', 'L', 'G', 'C', 'O', 'N', 'V', 'E', 'R', 'S', 'I', 'O', 'N', 'M', 'O', 'D', 'E'], 253u16));
    v.push((vec!['D', 'B', 'E', '_', 'E', 'N', 'T', 'E', 'R', 'I', 'M', 'E', 'C', 'O', 'N', 'F', 'I', 'G', 'M', 'O', 'D', 'E'], 248u16));
    v.push((vec!['D', 'B', 'E', '_', 'E', 'N', 'T', 'E', 'R', 'W', 'O', 'R', 'D', 'R', 'E', 'G', 'I', 'S', 'T', 'E', 'R', 'M', 'O', 'D', 'E'], 247u16));
    v.push((vec!['D', 'B', 'E', '_', 'F', 'L', 'U', 'S', 'H', 'S', 'T', 'R', 'I', 'N', 'G'], 249u16));
    v.push((vec!['D', 'B', 'E', '_', 'H', 'I', 'R', 'A', 'G', 'A', 'N', 'A'], 242u16));
    v.push((vec!['D', 'B', 'E', '_', 'K', 'A', 'T', 'A', 'K', 'A', 'N', 'A'], 241u16));
    v.push((vec!['D', 'B', 'E', '_', 'N', 'O', 'C', 'O', 'D', 'E', 'I', 'N', 'P', 'U', 'T'], 251u16));
    v.push((vec!['D', 'B', 'E', '_', 'N', 'O', 'R', 'O', 'M', 'A', 'N'], 246u16));
    v.push((vec!['D', 'B', 'E', '_', 'R', 'O', 'M', 'A', 'N'], 245u16));
    v.push((vec!['D', 'B', 'E', '_', 'S', 'B', 'C', 'S', 'C', 'H', 'A', 'R'], 243u16));
    v.push((vec!['D', 'E', 'C', 'I', 'M', 'A', 'L'], 110u16));
    v.push((vec!['D', 'E', 'L', 'E', 'T', 'E'], 46u16));
    assert(entries_view(v@) =~~= entries_view(start) + key_table_0());
}

fn push_keys_1(v: &mut Vec<(Vec<char>, u16)>)
    ensures
        entries_view(final(v)@) == entries_view(old(v)@) + key_table_1(),
{
    let ghost start = v@;
    v.push((vec!['D', 'I', 'V', 'I', 'D', 'E'], 111u16));
    v.push((vec!['D', 'O', 'W', 'N'], 40u16));
    v.push((vec!['E'], 69u16));
    v.push((vec!['E', 'N', 'D'], 35u16));
    v.push((vec!['E', 'R', 'E', 'O', 'F'], 249u16));
    v.push((vec!['E', 'S', 'C', 'A', 'P', 'E'], 27u16));
    v.push((vec!['E', 'X', 'E', 'C', 'U', 'T', 'E'], 43u16));
    v.push((vec!['E', 'X', 'S', 'E', 'L'], 248u16));
    v.push((vec!['F'], 70u16));
    v.push((vec!['F', '1'], 112u16));
    v.push((vec!['F', '1', '0'], 121u16));
    v.push((vec!['F', '1', '1'], 122u16));
    v.push((vec!['F', '1', '2'], 123u16));
    v.push((vec!['F', '1', '3'], 124u16));
    v.push((vec!['F', '1', '4'], 125u16));
    v.push((vec!['F', '1', '5'], 126u16));
    v.push((vec!['F', '1', '6'], 127u16));
    v.push((vec!['F', '1', '7'], 128u16));
    v.push((vec!['F', '1', '8'], 129u16));
    v.push((vec!['F', '1', '9'], 130u16));
    v.push((vec!['F', '2'], 113u16));
    v.push((vec!['F', '2', '0'], 131u16));
    v.push((vec!['F', '2', '1'], 132u16));
    v.push((vec!['F', '2', '2'], 133u16));
    v.push((vec!['F', '2', '3'], 134u16));
    v.push((vec!['F', '2', '4'], 135u16));
    v.push((vec!['F', '3'], 114u16));
    v.push((vec!['F', '4'], 115u16));
    v.push((vec!['F', '5'], 116u16));
    v.push((vec!['F', '6'], 117u16));
    v.push((vec!['F', '7'], 118u16));
    v.push((vec!['F', '8'], 119u16));
    v.push((vec!['F', '9'], 120u16));
    v.push((vec!['F', 'I', 'N', 'A', 'L'], 24u16));
    v.push((vec!['G'], 71u16));
    v.push((vec!['G', 'A', 'M', 'E', 'P', 'A', 'D', '_', 'A'], 195u16));
    v.push((vec!['G', 'A', 'M', 'E', 'P', 'A', 'D', '_', 'B'], 196u16));
    v.push((vec!['G', 'A', 'M', 'E', 'P', 'A', 'D', '_', 'D', 'P', 'A', 'D', '_', 'D', 'O', 'W', 'N'], 204u16));
    v.push((vec!['G', 'A', 'M', 'E', 'P', 'A', 'D', '_', 'D', 'P', 'A', 'D', '_', 'L', 'E', 'F', 'T'], 205u16));
    v.push((vec!['G', 'A', 'M', 'E', 'P', 'A', 'D', '_', 'D', 'P', 'A', 'D', '_', 'R', 'I', 'G', 'H', 'T'], 206u16));
    v.push((vec!['G', 'A', 'M', 'E', 'P', 'A', 'D', '_', 'D', 'P', 'A', 'D', '_', 'U', 'P'], 203u16));
    v.push((vec!['G', 'A', 'M', 'E', 'P', 'A', 'D', '_', 'L', 'E', 'F', 'T', '_', 'S', 'H', 'O', 'U', 'L', 'D', 'E', 'R'], 200u16));
    v.push((vec!['G', 'A', 'M', 'E', 'P', 'A', 'D', '_', 'L', 'E', 'F', 'T', '_', 'T', 'H', 'U', 'M', 'B', 'S', 'T', 'I', 'C', 'K', '_', 'B', 'U', 'T', 'T', 'O', 'N'], 209u16));
    v.push((vec!['G', 'A', 'M', 'E', 'P', 'A', 'D', '_', 'L', 'E', 'F', 'T', '_', 'T', 'H', 'U', 'M', 'B', 'S', 'T', 'I', 'C', 'K', '_', 'D', 'O', 'W', 'N'], 212u16));
    v.push((vec!['G', 'A', 'M', 'E', 'P', 'A', 'D', '_', 'L', 'E', 'F', 'T', '_', 'T', 'H', 'U', 'M', 'B', 'S', 'T', 'I', 'C', 'K', '_', 'L', 'E', 'F', 'T'], 214u16));
    v.push((vec!['G', 'A', 'M', 'E', 'P', 'A', 'D', '_', 'L', 'E', 'F', 'T', '_', 'T', 'H', 'U', 'M', 'B', 'S', 'T', 'I', 'C', 'K', '_', 'R', 'I', 'G', 'H', 'T'], 213u16));
    v.push((vec!['G', 'A', 'M', 'E', 'P', 'A', 'D', '_', 'L', 'E', 'F', 'T', '_', 'T', 'H', 'U', 'M', 'B', 'S', 'T', 'I', 'C', 'K', '_', 'U', 'P'], 211u16));
    v.push((vec!['G', 'A', 'M', 'E', 'P', 'A', 'D', '_', 'L', 'E', 'F', 'T', '_', 'T', 'R', 'I', 'G', 'G', 'E', 'R'], 201u16));
    v.push((vec!['G', 'A', 'M', 'E', 'P', 'A', 'D', '_', 'M', 'E', 'N', 'U'], 207u16));
    v.push((vec!['G', 'A', 'M', 'E', 'P', 'A', 'D', '_', 'R', 'I', 'G', 'H', 'T', '_', 'S', 'H', 'O', 'U', 'L', 'D', 'E', 'R'], 199u16));
    assert(entries_view(v@) =~~= entries_view(start) + key_table_1());
}

fn push_keys_2(v: &mut Vec<(Vec<char>, u16)>)
    ensures
        entries_view(final(v)@) == entries_view(old(v)@) + key_table_2(),
{
    let ghost start = v@;
    v.push((vec!['G', 'A', 'M', 'E', 'P', 'A', 'D', '_', 'R', 'I', 'G', 'H', 'T', '_', 'T', 'H', 'U', 'M', 'B', 'S', 'T', 'I', 'C', 'K', '_', 'B', 'U', 'T', 'T', 'O', 'N'], 210u16));
    v.push((vec!['G', 'A', 'M', 'E', 'P', 'A', 'D', '_', 'R', 'I', 'G', 'H', 'T', '_', 'T', 'H', 'U', 'M', 'B', 'S', 'T', 'I', 'C', 'K', '_', 'D', 'O', 'W', 'N'], 216u16));
    v.push((vec!['G', 'A', 'M', 'E', 'P', 'A', 'D', '_', 'R', 'I', 'G', 'H', 'T', '_', 'T', 'H', 'U', 'M', 'B', 'S', 'T', 'I', 'C', 'K', '_', 'L', 'E', 'F', 'T'], 218u16));
    v.push((vec!['G', 'A', 'M', 'E', 'P', 'A', 'D', '_', 'R', 'I', 'G', 'H', 'T', '_', 'T', 'H', 'U', 'M', 'B', 'S', 'T', 'I', 'C', 'K', '_', 'R', 'I', 'G', 'H', 'T'], 217u16));
    v.push((vec!['G', 'A', 'M', 'E', 'P', 'A', 'D', '_', 'R', 'I', 'G', 'H', 'T', '_', 'T', 'H', 'U', 'M', 'B', 'S', 'T', 'I', 'C', 'K', '_', 'U', 'P'], 215u16));
    v.push((vec!['G', 'A', 'M', 'E', 'P', 'A', 'D', '_', 'R', 'I', 'G', 'H', 'T', '_', 'T', 'R', 'I', 'G', 'G', 'E', 'R'], 202u16));
    v.push((vec!['G', 'A', 'M', 'E', 'P', 'A', 'D', '_', 'V', 'I', 'E', 'W'], 208u16));
    v.push((vec!['G', 'A', 'M', 'E', 'P', 'A', 'D', '_', 'X'], 197u16));
    v.push((vec!['G', 'A', 'M', 'E', 'P', 'A', 'D', '_', 'Y'], 198u16));
    v.push((vec!['H'], 72u16));
    v.push((vec!['H', 'A', 'N', 'G', 'E', 'U', 'L'], 21u16));
    v.push((vec!['H', 'A', 'N', 'G', 'U', 'L'], 21u16));
    v.push((vec!['H', 'A', 'N', 'J', 'A'], 25u16));
    v.push((vec!['H', 'E', 'L', 'P'], 47u16));
    v.push((vec!['H', 'O', 'M', 'E'], 36u16));
    v.push((vec!['I'], 73u16));
    v.push((vec!['I', 'C', 'O', '_', '0', '0'], 228u16));
    v.push((vec!['I', 'C', 'O', '_', 'C', 'L', 'E', 'A', 'R'], 230u16));
    v.push((vec!['I', 'C', 'O', '_', 'H', 'E', 'L', 'P'], 227u16));
    v.push((vec!['I', 'M', 'E', '_', 'O', 'F', 'F'], 26u16));
    v.push((vec!['I', 'M', 'E', '_', 'O', 'N'], 22u16));
    v.push((vec!['I', 'N', 'S', 'E', 'R', 'T'], 45u16));
    v.push((vec!['J'], 74u16));
    v.push((vec!['J', 'U', 'N', 'J', 'A'], 23u16));
    v.push((vec!['K'], 75u16));
    v.push((vec!['K', 'A', 'N', 'A'], 21u16));
    v.push((vec!['K', 'A', 'N', 'J', 'I'], 25u16));
    v.push((vec!['L'], 76u16));
    v.push((vec!['L', 'A', 'U', 'N', 'C', 'H', '_', 'A', 'P', 'P', '1'], 182u16));
    v.push((vec!['L', 'A', 'U', 'N', 'C', 'H', '_', 'A', 'P', 'P', '2'], 183u16));
    v.push((vec!['L', 'A', 'U', 'N', 'C', 'H', '_', 'M', 'A', 'I', 'L'], 180u16));
    v.push((vec!['L', 'A', 'U', 'N', 'C', 'H', '_', 'M', 'E', 'D', 'I', 'A', '_', 'S', 'E', 'L', 'E', 'C', 'T'], 181u16));
    v.push((vec!['L', 'B', 'U', 'T', 'T', 'O', 'N'], 1u16));
    v.push((vec!['L', 'C', 'O', 'N', 'T', 'R', 'O', 'L'], 162u16));
    v.push((vec!['L', 'E', 'F', 'T'], 37u16));
    v.push((vec!['L', 'M', 'E', 'N', 'U'], 164u16));
    v.push((vec!['L', 'S', 'H', 'I', 'F', 'T'], 160u16));
    v.push((vec!['L', 'W', 'I', 'N'], 91u16));
    v.push((vec!['M'], 77u16));
    v.push((vec!['M', 'B', 'U', 'T', 'T', 'O', 'N'], 4u16));
    v.push((vec!['M', 'E', 'D', 'I', 'A', '_', 'N', 'E', 'X', 'T', '_', 'T', 'R', 'A', 'C', 'K'], 176u16));
    v.push((vec!['M', 'E', 'D', 'I', 'A', '_', 'P', 'L', 'A', 'Y', '_', 'P', 'A', 'U', 'S', 'E'], 179u16));
    v.push((vec!['M', 'E', 'D', 'I', 'A', '_', 'P', 'R', 'E', 'V', '_', 'T', 'R', 'A', 'C', 'K'], 177u16));
    v.push((vec!['M', 'E', 'D', 'I', 'A', '_', 'S', 'T', 'O', 'P'], 178u16));
    v.push((vec!['M', 'E', 'N', 'U'], 18u16));
    v.push((vec!['M', 'O', 'D', 'E', 'C', 'H', 'A', 'N', 'G', 'E'], 31u16));
    v.push((vec!['M', 'U', 'L', 'T', 'I', 'P', 'L', 'Y'], 106u16));
    v.push((vec!['N'], 78u16));
    v.push((vec!['N', 'A', 'V', 'I', 'G', 'A', 'T', 'I', 'O', 'N', '_', 'A', 'C', 'C', 'E', 'P', 'T'], 142u16));
    v.push((vec!['N', 'A', 'V', 'I', 'G', 'A', 'T', 'I', 'O', 'N', '_', 'C', 'A', 'N', 'C', 'E', 'L'], 143u16));
    assert(entries_view(v@) =~~= entries_view(start) + key_table_2());
}

fn push_keys_3(v: &mut Vec<(Vec<char>, u16)>)
    ensures
        entries_view(final(v)@) == entries_view(old(v)@) + key_table_3(),
{
    let ghost start = v@;
    v.push((vec!['N', 'A', 'V', 'I', 'G', 'A', 'T', 'I', 'O', 'N', '_', 'D', 'O', 'W', 'N'], 139u16));
    v.push((vec!['N', 'A', 'V', 'I', 'G', 'A', 'T', 'I', 'O', 'N', '_', 'L', 'E', 'F', 'T'], 140u16));
    v.push((vec!['N', 'A', 'V', 'I', 'G', 'A', 'T', 'I', 'O', 'N', '_', 'M', 'E', 'N', 'U'], 137u16));
    v.push((vec!['N', 'A', 'V', 'I', 'G', 'A', 'T', 'I', 'O', 'N', '_', 'R', 'I', 'G', 'H', 'T'], 141u16));
    v.push((vec!['N', 'A', 'V', 'I', 'G', 'A', 'T', 'I', 'O', 'N', '_', 'U', 'P'], 138u16));
    v.push((vec!['N', 'A', 'V', 'I', 'G', 'A', 'T', 'I', 'O', 'N', '_', 'V', 'I', 'E', 'W'], 136u16));
    v.push((vec!['N', 'E', 'X', 'T'], 34u16));
    v.push((vec!['N', 'O', 'N', 'A', 'M', 'E'], 252u16));
    v.push((vec!['N', 'O', 'N', 'C', 'O', 'N', 'V', 'E', 'R', 'T'], 29u16));
    v.push((vec!['N', 'U', 'M', 'L', 'O', 'C', 'K'], 144u16));
    v.push((vec!['N', 'U', 'M', 'P', 'A', 'D', '0'], 96u16));
    v.push((vec!['N', 'U', 'M', 'P', 'A', 'D', '1'], 97u16));
    v.push((vec!['N', 'U', 'M', 'P', 'A', 'D', '2'], 98u16));
    v.push((vec!['N', 'U', 'M', 'P', 'A', 'D', '3'], 99u16));
    v.push((vec!['N', 'U', 'M', 'P', 'A', 'D', '4'], 100u16));
    v.push((vec!['N', 'U', 'M', 'P', 'A', 'D', '5'], 101u16));
    v.push((vec!['N', 'U', 'M', 'P', 'A', 'D', '6'], 102u16));
    v.push((vec!['N', 'U', 'M', 'P', 'A', 'D', '7'], 103u16));
    v.push((vec!['N', 'U', 'M', 'P', 'A', 'D', '8'], 104u16));
    v.push((vec!['N', 'U', 'M', 'P', 'A', 'D', '9'], 105u16));
    v.push((vec!['O'], 79u16));
    v.push((vec!['O', 'E', 'M', '_', '1'], 186u16));
    v.push((vec!['O', 'E', 'M', '_', '1', '0', '2'], 226u16));
    v.push((vec!['O', 'E', 'M', '_', '2'], 191u16));
    v.push((vec!['O', 'E', 'M', '_', '3'], 192u16));
    v.push((vec!['O', 'E', 'M', '_', '4'], 219u16));
    v.push((vec!['O', 'E', 'M', '_', '5'], 220u16));
    v.push((vec!['O', 'E', 'M', '_', '6'], 221u16));
    v.push((vec!['O', 'E', 'M', '_', '7'], 222u16));
    v.push((vec!['O', 'E', 'M', '_', '8'], 223u16));
    v.push((vec!['O', 'E', 'M', '_', 'A', 'T', 'T', 'N'], 240u16));
    v.push((vec!['O', 'E', 'M', '_', 'A', 'U', 'T', 'O'], 243u16));
    v.push((vec!['O', 'E', 'M', '_', 'A', 'X'], 225u16));
    v.push((vec!['O', 'E', 'M', '_', 'B', 'A', 'C', 'K', 'T', 'A', 'B'], 245u16));
    v.push((vec!['O', 'E', 'M', '_', 'C', 'L', 'E', 'A', 'R'], 254u16));
    v.push((vec!['O', 'E', 'M', '_', 'C', 'O', 'M', 'M', 'A'], 188u16));
    v.push((vec!['O', 'E', 'M', '_', 'C', 'O', 'P', 'Y'], 242u16));
    v.push((vec!['O', 'E', 'M', '_', 'C', 'U', 'S', 'E', 'L'], 239u16));
    v.push((vec!['O', 'E', 'M', '_', 'E', 'N', 'L', 'W'], 244u16));
    v.push((vec!['O', 'E', 'M', '_', 'F', 'I', 'N', 'I', 'S', 'H'], 241u16));
    v.push((vec!['O', 'E', 'M', '_', 'F', 'J', '_', 'J', 'I', 'S', 'H', 'O'], 146u16));
    v.push((vec!['O', 'E', 'M', '_', 'F', 'J', '_', 'L', 'O', 'Y', 'A'], 149u16));
    v.push((vec!['O', 'E', 'M', '_', 'F', 'J', '_', 'M', 'A', 'S', 'S', 'H', 'O', 'U'], 147u16));
    v.push((vec!['O', 'E', 'M', '_', 'F', 'J', '_', 'R', 'O', 'Y', 'A'], 150u16));
    v.push((vec!['O', 'E', 'M', '_', 'F', 'J', '_', 'T', 'O', 'U', 'R', 'O', 'K', 'U'], 148u16));
    v.push((vec!['O', 'E', 'M', '_', 'J', 'U', 'M', 'P'], 234u16));
    v.push((vec!['O', 'E', 'M', '_', 'M', 'I', 'N', 'U', 'S'], 189u16));
    v.push((vec!['O', 'E', 'M', '_', 'N', 'E', 'C', '_', 'E', 'Q', 'U', 'A', 'L'], 146u16));
    v.push((vec!['O', 'E', 'M', '_', 'P', 'A', '1'], 235u16));
    v.push((vec!['O', 'E', 'M', '_', 'P', 'A', '2'], 236u16));
    assert(entries_view(v@) =~~= entries_view(start) + key_table_3());
}

fn push_keys_4(v: &mut Vec<(Vec<char>, u16)>)
    ensures
        entries_view(final(v)@) == entries_view(old(v)@) + key_table_4(),
{
    let ghost start = v@;
    v.push((vec!['O', 'E', 'M', '_', 'P', 'A', '3'], 237u16));
    v.push((vec!['O', 'E', 'M', '_', 'P', 'E', 'R', 'I', 'O', 'D'], 190u16));
    v.push((vec!['O', 'E', 'M', '_', 'P', 'L', 'U', 'S'], 187u16));
    v.push((vec!['O', 'E', 'M', '_', 'R', 'E', 'S', 'E', 'T'], 233u16));
    v.push((vec!['O', 'E', 'M', '_', 'W', 'S', 'C', 'T', 'R', 'L'], 238u16));
    v.push((vec!['P'], 80u16));
    v.push((vec!['P', 'A', '1'], 253u16));
    v.push((vec!['P', 'A', 'C', 'K', 'E', 'T'], 231u16));
    v.push((vec!['P', 'A', 'U', 'S', 'E'], 19u16));
    v.push((vec!['P', 'L', 'A', 'Y'], 250u16));
    v.push((vec!['P', 'R', 'I', 'N', 'T'], 42u16));
    v.push((vec!['P', 'R', 'I', 'O', 'R'], 33u16));
    v.push((vec!['P', 'R', 'O', 'C', 'E', 'S', 'S', 'K', 'E', 'Y'], 229u16));
    v.push((vec!['Q'], 81u16));
    v.push((vec!['R'], 82u16));
    v.push((vec!['R', 'B', 'U', 'T', 'T', 'O', 'N'], 2u16));
    v.push((vec!['R', 'C', 'O', 'N', 'T', 'R', 'O', 'L'], 163u16));
    v.push((vec!['R', 'E', 'T', 'U', 'R', 'N'], 13u16));
    v.push((vec!['R', 'I', 'G', 'H', 'T'], 39u16));
    v.push((vec!['R', 'M', 'E', 'N', 'U'], 165u16));
    v.push((vec!['R', 'S', 'H', 'I', 'F', 'T'], 161u16));
    v.push((vec!['R', 'W', 'I', 'N'], 92u16));
    v.push((vec!['S'], 83u16));
    v.push((vec!['S', 'C', 'R', 'O', 'L', 'L'], 145u16));
    v.push((vec!['S', 'E', 'L', 'E', 'C', 'T'], 41u16));
    v.push((vec!['S', 'E', 'P', 'A', 'R', 'A', 'T', 'O', 'R'], 108u16));
    v.push((vec!['S', 'H', 'I', 'F', 'T'], 16u16));
    v.push((vec!['S', 'L', 'E', 'E', 'P'], 95u16));
    v.push((vec!['S', 'N', 'A', 'P', 'S', 'H', 'O', 'T'], 44u16));
    v.push((vec!['S', 'P', 'A', 'C', 'E'], 32u16));
    v.push((vec!['S', 'U', 'B', 'T', 'R', 'A', 'C', 'T'], 109u16));
    v.push((vec!['T'], 84u16));
    v.push((vec!['T', 'A', 'B'], 9u16));
    v.push((vec!['U'], 85u16));
    v.push((vec!['U', 'P'], 38u16));
    v.push((vec!['V'], 86u16));
    v.push((vec!['V', 'O', 'L', 'U', 'M', 'E', '_', 'D', 'O', 'W', 'N'], 174u16));
    v.push((vec!['V', 'O', 'L', 'U', 'M', 'E', '_', 'M', 'U', 'T', 'E'], 173u16));
    v.push((vec!['V', 'O', 'L', 'U', 'M', 'E', '_', 'U', 'P'], 175u16));
    v.push((vec!['W'], 87u16));
    v.push((vec!['X'], 88u16));
    v.push((vec!['X', 'B', 'U', 'T', 'T', 'O', 'N', '1'], 5u16));
    v.push((vec!['X', 'B', 'U', 'T', 'T', 'O', 'N', '2'], 6u16));
    v.push((vec!['Y'], 89u16));
    v.push((vec!['Z'], 90u16));
    v.push((vec!['Z', 'O', 'O', 'M'], 251u16));
    v.push((vec!['_', 'n', 'o', 'n', 'e', '_'], 255u16));
    assert(entries_view(v@) =~~= entries_view(start) + key_table_4());
}

pub open spec fn entries_view<T>(s: Seq<(Vec<char>, T)>) -> Seq<(Seq<char>, T)> {
    s.map_values(|e: (Vec<char>, T)| (e.0@, e.1))
}

/// Looks `name` up in a table of named codes: the first entry with that name.
pub fn lookup_in<T: Copy>(entries: &Vec<(Vec<char>, T)>, name: &Vec<char>) -> (r: Option<T>)
    ensures
        r == table_lookup(entries_view(entries@), name@),
{
    let n = entries.len();
    let mut i: usize = 0;
    let ghost t = entries_view(entries@);
    assert(t.skip(0) =~= t);
    while i < n
        invariant
            n == entries@.len(),
            t == entries_view(entries@),
            i <= n,
            table_lookup(t, name@) == table_lookup(t.skip(i as int), name@),
        decreases n - i,
    {
        assert(t.skip(i as int).drop_first() =~= t.skip(i + 1));
        assert(t.skip(i as int)[0] == (entries@[i as int].0@, entries@[i as int].1));
        if same_chars(&entries[i].0, name) {
            return Some(entries[i].1);
        }
        i += 1;
    }
    None
}

/// The key names the settings may use and their virtual-key codes, ready
/// for lookups.
pub struct KeyTable {
    entries: Vec<(Vec<char>, u16)>,
}

impl KeyTable {
    #[verifier::type_invariant]
    spec fn holds_the_table(&self) -> bool {
        entries_view(self.entries@) == key_table()
    }

    /// The names and codes the table holds, in order.
    pub closed spec fn table(&self) -> Seq<(Seq<char>, u16)> {
        entries_view(self.entries@)
    }

    pub fn new() -> (r: Self)
        ensures
            r.table() == key_table(),
    {
        let mut v: Vec<(Vec<char>, u16)> = Vec::new();
        assert(entries_view(v@) =~= Seq::<(Seq<char>, u16)>::empty());
        push_keys_0(&mut v);
        push_keys_1(&mut v);
        push_keys_2(&mut v);
        push_keys_3(&mut v);
        push_keys_4(&mut v);
        assert(entries_view(v@) =~= key_table());
        KeyTable { entries: v }
    }

    /// The code of the key named `upper`, an already uppercased name.
    pub fn lookup_upper(&self, upper: &str) -> (r: Option<u16>)
        ensures
            r == table_lookup(key_table(), upper@),
    {
        proof {
            use_type_invariant(self);
        }
        let name = chars_of(upper);
        lookup_in(&self.entries, &name)
    }

    /// The code of the key named `name`, in any letter case (the name is
    /// uppercased first).
    pub fn lookup(&self, name: &str) -> (r: Option<u16>)
        ensures
            r == table_lookup(key_table(), uppercase(name@)),
            is_ascii_text(name@) ==> r == table_lookup(key_table(), ascii_uppercase(name@)),
    {
        let upper = to_uppercase(name);
        self.lookup_upper(upper.as_str())
    }
}

impl KeyTable {
    /// The virtual-key code a wheel's setting names, or the wheel's own
    /// default key where the name is unknown.
    pub fn code_or(&self, name: &str, default: u16) -> (r: i32)
        ensures
            r == match table_lookup(key_table(), uppercase(name@)) {
                Some(c) => c,
                None => default,
            },
            is_ascii_text(name@) ==> r == match table_lookup(key_table(), ascii_uppercase(name@)) {
                Some(c) => c,
                None => default,
            },
    {
        match self.lookup(name) {
            Some(c) => c as i32,
            None => default as i32,
        }
    }
}

} // verus!
