//! Item-name characters of the game's own message archives.
use vstd::prelude::*;
use crate::glyphs::generic_reader::{BndFile, goods_chars, files_view, read as read_archive};

verus! {

/// The outcome of reading the game's archives in order (`None` for one that
/// could not be decompressed): the characters collected, and whether an
/// archive failed. An archive with an unreadable item-name file contributes
/// its characters up to that file; a failed archive stops the reading.
pub open spec fn vanilla_chars(archives: Seq<Option<Vec<BndFile>>>) -> (Seq<char>, bool)
    decreases archives.len(),
{
    if archives.len() == 0 {
        (Seq::empty(), false)
    } else {
        match archives[0] {
            None => (Seq::empty(), true),
            Some(files) => {
                let rest = vanilla_chars(archives.drop_first());
                (goods_chars(files_view(files@), 0).0 + rest.0, rest.1)
            },
        }
    }
}

/// Appends the item-name characters of the game's archives; `Err` where an
/// archive could not be decompressed, with the characters of those before it
/// already appended.
pub fn read(archives: &[Option<Vec<BndFile>>], out: &mut Vec<char>) -> (r: Result<(), ()>)
    ensures
        final(out)@ == old(out)@ + vanilla_chars(archives@).0,
        r is Err <==> vanilla_chars(archives@).1,
{
    let n = archives.len();
    let mut i: usize = 0;
    let ghost mut acc: Seq<char> = Seq::empty();
    assert(archives@.skip(0) =~= archives@);
    while i < n
        invariant
            n == archives@.len(),
            i <= n,
            out@ == old(out)@ + acc,
            vanilla_chars(archives@).0 == acc + vanilla_chars(archives@.skip(i as int)).0,
            vanilla_chars(archives@).1 == vanilla_chars(archives@.skip(i as int)).1,
        decreases n - i,
    {
        assert(archives@.skip(i as int).drop_first() =~= archives@.skip(i + 1));
        assert(archives@.skip(i as int)[0] == archives@[i as int]);
        match &archives[i] {
            Some(files) => {
                let ghost before = out@;
                let _ = read_archive(files.as_slice(), out);
                proof {
                    let g = goods_chars(files_view(files@), 0).0;
                    assert(acc + (g + vanilla_chars(archives@.skip(i + 1)).0) =~= (acc + g)
                        + vanilla_chars(archives@.skip(i + 1)).0);
                    acc = acc + g;
                }
            },
            None => {
                assert(acc + Seq::<char>::empty() =~= acc);
                return Err(());
            },
        }
        i += 1;
    }
    assert(archives@.skip(n as int) =~= Seq::<Option<Vec<BndFile>>>::empty());
    assert(acc + Seq::<char>::empty() =~= acc);
    Ok(())
}

} // verus!
