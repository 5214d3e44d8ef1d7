//! The goods parameter file's header, as far as it locates the row lookup
//! table, and the characters of the goods names found through it.
use vstd::prelude::*;
use crate::text::chars_of;

verus! {

/// The four words that precede a parameter file in memory.
#[derive(Clone, Copy, Debug)]
pub struct ParamFileMetadata(pub [u32; 4]);

impl ParamFileMetadata {
    /// The parameter file's size in bytes.
    pub fn file_size(&self) -> (r: u32)
        ensures
            r == self.0[0],
    {
        self.0[0]
    }

    /// The number of rows, and so of lookup table entries.
    pub fn row_count(&self) -> (r: u32)
        ensures
            r == self.0[1],
    {
        self.0[1]
    }

    /// Where the lookup table starts, in bytes after the metadata: the file
    /// size rounded up to a multiple of 16 (`u32::next_multiple_of`, which
    /// would overflow past the largest multiple of 16).
    pub fn lookup_table_offset(&self) -> (r: u32)
        requires
            self.0[0] <= 0xFFFF_FFF0,
        ensures
            r % 16 == 0,
            self.0[0] <= r < self.0[0] + 16,
    {
        let size = self.0[0];
        let rem = size % 16;
        if rem == 0 {
            size
        } else {
            size + (16 - rem)
        }
    }
}

/// The characters of the names found for the goods rows, base game name then
/// expansion name per row, those present.
pub open spec fn names_chars(names: Seq<(Option<String>, Option<String>)>) -> Seq<char>
    decreases names.len(),
{
    if names.len() == 0 {
        Seq::empty()
    } else {
        let (base, dlc) = names.last();
        names_chars(names.drop_last()) + match base {
            Some(b) => b@,
            None => Seq::empty(),
        } + match dlc {
            Some(d) => d@,
            None => Seq::empty(),
        }
    }
}

fn push_all(out: &mut Vec<char>, s: &Option<String>)
    ensures
        final(out)@ == old(out)@ + match s {
            Some(t) => t@,
            None => Seq::<char>::empty(),
        },
{
    match s {
        Some(t) => {
            let mut cs = chars_of(t.as_str());
            out.append(&mut cs);
        },
        None => {
            assert(out@ =~= out@ + Seq::<char>::empty());
        },
    }
}

/// The characters used by the goods names: for each row, those of its base
/// game name and of its expansion name, where present.
pub fn read_text(names: &[(Option<String>, Option<String>)]) -> (r: Vec<char>)
    ensures
        r@ == names_chars(names@),
{
    let mut out: Vec<char> = Vec::new();
    let n = names.len();
    let mut i: usize = 0;
    while i < n
        invariant
            n == names@.len(),
            i <= n,
            out@ == names_chars(names@.take(i as int)),
        decreases n - i,
    {
        let ghost before = out@;
        push_all(&mut out, &names[i].0);
        push_all(&mut out, &names[i].1);
        assert(names@.take(i + 1).drop_last() =~= names@.take(i as int));
        assert(out@ =~= names_chars(names@.take(i + 1)));
        i += 1;
    }
    assert(names@.take(n as int) =~= names@);
    out
}

} // verus!
