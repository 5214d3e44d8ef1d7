//! Item-name characters of a mod's message archives, and finding the folder
//! that holds a mod's files.
use vstd::prelude::*;
use crate::glyphs::generic_reader::{BndFile, goods_chars, files_view, read as read_archive};

verus! {

/// The first of `ancestors` (the folders above the mod's DLL, nearest first)
/// that holds the mod folder, by `has_mod_folder`.
pub open spec fn first_with_mod(ancestors: Seq<String>, has_mod_folder: Seq<bool>) -> Option<int>
    decreases ancestors.len(),
{
    if ancestors.len() == 0 || has_mod_folder.len() == 0 {
        None
    } else if has_mod_folder[0] {
        Some(0)
    } else {
        match first_with_mod(ancestors.drop_first(), has_mod_folder.drop_first()) {
            Some(i) => Some(i + 1),
            None => None,
        }
    }
}

/// The nearest folder above the DLL that holds a mod folder: `ancestors` are
/// those folders, nearest first, and `has_mod_folder` says of each whether it
/// holds one.
pub fn search_for_mod_folder(ancestors: &[String], has_mod_folder: &[bool]) -> (r: Option<usize>)
    requires
        ancestors@.len() == has_mod_folder@.len(),
    ensures
        r matches Some(i) ==> first_with_mod(ancestors@, has_mod_folder@) == Some(i as int),
        r is None ==> first_with_mod(ancestors@, has_mod_folder@) is None,
{
    let n = has_mod_folder.len();
    let mut i: usize = 0;
    assert(ancestors@.skip(0) =~= ancestors@);
    assert(has_mod_folder@.skip(0) =~= has_mod_folder@);
    while i < n
        invariant
            n == has_mod_folder@.len(),
            n == ancestors@.len(),
            i <= n,
            first_with_mod(ancestors@, has_mod_folder@) == match first_with_mod(
                ancestors@.skip(i as int),
                has_mod_folder@.skip(i as int),
            ) {
                Some(k) => Some(k + i),
                None => None,
            },
        decreases n - i,
    {
        assert(ancestors@.skip(i as int).drop_first() =~= ancestors@.skip(i + 1));
        assert(has_mod_folder@.skip(i as int).drop_first() =~= has_mod_folder@.skip(i + 1));
        if has_mod_folder[i] {
            return Some(i);
        }
        i += 1;
    }
    None
}

/// The characters that reading the archives collects: each archive that could
/// be read is scanned in turn, up to its first unreadable item-name file.
pub open spec fn archives_chars(archives: Seq<Option<Vec<BndFile>>>) -> Seq<char>
    decreases archives.len(),
{
    if archives.len() == 0 {
        Seq::empty()
    } else {
        archives_chars(archives.drop_last()) + match archives.last() {
            Some(files) => goods_chars(files_view(files@), 0).0,
            None => Seq::empty(),
        }
    }
}

/// Appends the item-name characters of a mod's archives (`None` for one that
/// could not be read); an error in one archive ends only that archive.
pub fn read(archives: &[Option<Vec<BndFile>>], out: &mut Vec<char>)
    ensures
        final(out)@ == old(out)@ + archives_chars(archives@),
{
    let n = archives.len();
    let mut i: usize = 0;
    while i < n
        invariant
            n == archives@.len(),
            i <= n,
            out@ == old(out)@ + archives_chars(archives@.take(i as int)),
        decreases n - i,
    {
        let ghost before = out@;
        match &archives[i] {
            Some(files) => {
                let _ = read_archive(files.as_slice(), out);
            },
            None => {},
        }
        assert(archives@.take(i + 1).drop_last() =~= archives@.take(i as int));
        assert(out@ =~= old(out)@ + archives_chars(archives@.take(i + 1)));
        i += 1;
    }
    assert(archives@.take(n as int) =~= archives@);
}

} // verus!
