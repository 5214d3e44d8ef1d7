//! Collects the characters of the item names (`GoodsName` message files)
//! stored in a message archive.
use vstd::prelude::*;
use crate::glyphs::fmg::{Fmg, FmgError, FmgView, FmgEntryView, spec_fmg_read, entries_view};
use crate::text::{contains_str, contains_run, chars_of};

verus! {

/// A file of a BND4 archive: its path inside the archive and its bytes.
pub struct BndFile {
    pub path: String,
    pub data: Vec<u8>,
}

/// The archive files whose path names them as item-name tables.
pub open spec fn is_goods_name_path(path: Seq<char>) -> bool {
    contains_run(path, goods_name_marker())
}

pub open spec fn goods_name_marker() -> Seq<char> {
    seq!['G', 'o', 'o', 'd', 's', 'N', 'a', 'm', 'e']
}

/// The characters of the texts of `entries`, in order.
pub open spec fn entry_chars(entries: Seq<FmgEntryView>) -> Seq<char>
    decreases entries.len(),
{
    if entries.len() == 0 {
        Seq::empty()
    } else {
        (match entries[0].text {
            Some(t) => t,
            None => Seq::empty(),
        }) + entry_chars(entries.drop_first())
    }
}

/// The characters collected from files `i..` of an archive, and the error that
/// stopped the collection, if any.
pub open spec fn goods_chars(files: Seq<(Seq<char>, Seq<u8>)>, i: int) -> (Seq<char>, Option<FmgError>)
    decreases files.len() - i,
{
    if i < 0 || i >= files.len() {
        (Seq::empty(), None)
    } else if !is_goods_name_path(files[i].0) {
        goods_chars(files, i + 1)
    } else {
        match spec_fmg_read(files[i].1) {
            Err(e) => (Seq::empty(), Some(e)),
            Ok(f) => {
                let rest = goods_chars(files, i + 1);
                (entry_chars(f.entries) + rest.0, rest.1)
            },
        }
    }
}

/// The `m`-th character of the text of the `k`-th entry that the FMG bytes
/// `data` read to, where there is one.
pub open spec fn fmg_text_char(data: Seq<u8>, k: int, m: int) -> Option<char> {
    match spec_fmg_read(data) {
        Ok(f) => if 0 <= k < f.entries.len() {
            match f.entries[k].text {
                Some(t) => if 0 <= m < t.len() {
                    Some(t[m])
                } else {
                    None
                },
                None => None,
            }
        } else {
            None
        },
        Err(_) => None,
    }
}

/// Whether every item-name file among files `i..j` reads.
pub open spec fn goods_read(files: Seq<(Seq<char>, Seq<u8>)>, i: int, j: int) -> bool {
    forall|l: int|
        i <= l < j && is_goods_name_path(files[l].0) ==> #[trigger] spec_fmg_read(files[l].1) is Ok
}

proof fn lemma_entry_chars_contains(es: Seq<FmgEntryView>, k: int, m: int)
    requires
        0 <= k < es.len(),
        es[k].text is Some,
        0 <= m < es[k].text->0.len(),
    ensures
        entry_chars(es).contains(es[k].text->0[m]),
    decreases k,
{
    let h = match es[0].text {
        Some(t) => t,
        None => Seq::<char>::empty(),
    };
    let rest = entry_chars(es.drop_first());
    assert(entry_chars(es) == h + rest);
    if k == 0 {
        assert((h + rest)[m] == h[m]);
    } else {
        assert(es.drop_first()[k - 1] == es[k]);
        lemma_entry_chars_contains(es.drop_first(), k - 1, m);
        let idx = choose|idx: int| 0 <= idx < rest.len() && rest[idx] == es[k].text->0[m];
        assert((h + rest)[h.len() + idx] == rest[idx]);
    }
}

/// Every character of every entry's text of an item-name file is collected
/// from files `i..`, provided the item-name files from `i` up to it read.
pub proof fn lemma_goods_chars_cover(files: Seq<(Seq<char>, Seq<u8>)>, i: int, j: int, k: int, m: int)
    requires
        0 <= i <= j < files.len(),
        is_goods_name_path(files[j].0),
        goods_read(files, i, j),
        fmg_text_char(files[j].1, k, m) is Some,
    ensures
        goods_chars(files, i).0.contains(fmg_text_char(files[j].1, k, m)->0),
    decreases j - i,
{
    let c = fmg_text_char(files[j].1, k, m)->0;
    if i == j {
        let f = spec_fmg_read(files[j].1)->Ok_0;
        lemma_entry_chars_contains(f.entries, k, m);
        let rest = goods_chars(files, i + 1);
        let ec = entry_chars(f.entries);
        let idx = choose|idx: int| 0 <= idx < ec.len() && ec[idx] == c;
        assert((ec + rest.0)[idx] == c);
    } else {
        lemma_goods_chars_cover(files, i + 1, j, k, m);
        let rest = goods_chars(files, i + 1);
        if is_goods_name_path(files[i].0) {
            assert(spec_fmg_read(files[i].1) is Ok);
            let f = spec_fmg_read(files[i].1)->Ok_0;
            let ec = entry_chars(f.entries);
            let idx = choose|idx: int| 0 <= idx < rest.0.len() && rest.0[idx] == c;
            assert((ec + rest.0)[ec.len() + idx] == c);
        }
    }
}

/// The collection from files `i..` stops on an error exactly when one of
/// their item-name files does not read.
pub proof fn lemma_goods_chars_error(files: Seq<(Seq<char>, Seq<u8>)>, i: int)
    requires
        0 <= i <= files.len(),
    ensures
        goods_chars(files, i).1 is None <==> goods_read(files, i, files.len() as int),
    decreases files.len() - i,
{
    if i < files.len() {
        lemma_goods_chars_error(files, i + 1);
        if goods_read(files, i, files.len() as int) {
            assert(goods_read(files, i + 1, files.len() as int));
        }
        if !is_goods_name_path(files[i].0) || spec_fmg_read(files[i].1) is Ok {
            if goods_read(files, i + 1, files.len() as int) {
                assert forall|l: int|
                    i <= l < files.len() && is_goods_name_path(files[l].0) implies #[trigger] spec_fmg_read(
                    files[l].1,
                ) is Ok by {
                    if l > i {
                    }
                }
            }
        }
    }
}

proof fn lemma_read_covers(files: Seq<BndFile>, prefix: Seq<char>)
    ensures
        goods_chars(files_view(files), 0).1 is None <==> goods_read(
            files_view(files),
            0,
            files.len() as int,
        ),
        forall|j: int, k: int, m: int|
            0 <= j < files.len() && is_goods_name_path(files[j].path@) && goods_read(
                files_view(files),
                0,
                j,
            ) && (#[trigger] fmg_text_char(files[j].data@, k, m)) is Some ==> (prefix + goods_chars(
                files_view(files),
                0,
            ).0).contains(fmg_text_char(files[j].data@, k, m)->0),
{
    let fv = files_view(files);
    lemma_goods_chars_error(fv, 0);
    assert forall|j: int, k: int, m: int|
        0 <= j < files.len() && is_goods_name_path(files[j].path@) && goods_read(fv, 0, j) && (
        #[trigger] fmg_text_char(files[j].data@, k, m)) is Some implies (prefix + goods_chars(
        fv,
        0,
    ).0).contains(fmg_text_char(files[j].data@, k, m)->0) by {
        assert(fv[j] == (files[j].path@, files[j].data@));
        lemma_goods_chars_cover(fv, 0, j, k, m);
        let g = goods_chars(fv, 0).0;
        let c = fmg_text_char(files[j].data@, k, m)->0;
        let idx = choose|idx: int| 0 <= idx < g.len() && g[idx] == c;
        assert((prefix + g)[prefix.len() + idx] == c);
    }
}

pub open spec fn files_view(files: Seq<BndFile>) -> Seq<(Seq<char>, Seq<u8>)> {
    files.map_values(|f: BndFile| (f.path@, f.data@))
}

proof fn lemma_entry_chars_push(es: Seq<FmgEntryView>, e: FmgEntryView)
    ensures
        entry_chars(es.push(e)) == entry_chars(es) + (match e.text {
            Some(t) => t,
            None => Seq::<char>::empty(),
        }),
    decreases es.len(),
{
    if es.len() == 0 {
        assert(es.push(e).drop_first() =~= Seq::<FmgEntryView>::empty());
        assert(entry_chars(Seq::<FmgEntryView>::empty()) == Seq::<char>::empty());
        assert(entry_chars(es.push(e)) =~= entry_chars(es) + (match e.text {
            Some(t) => t,
            None => Seq::<char>::empty(),
        }));
    } else {
        lemma_entry_chars_push(es.drop_first(), e);
        assert(es.push(e).drop_first() =~= es.drop_first().push(e));
        let t = match e.text {
            Some(t) => t,
            None => Seq::<char>::empty(),
        };
        let h = match es[0].text {
            Some(t) => t,
            None => Seq::<char>::empty(),
        };
        assert(h + (entry_chars(es.drop_first()) + t) =~= (h + entry_chars(es.drop_first())) + t);
    }
}

/// Appends the characters of the texts of `fmg` to `out`.
fn append_fmg_chars(fmg: &Fmg, out: &mut Vec<char>)
    ensures
        final(out)@ == old(out)@ + entry_chars(fmg@.entries),
{
    let n = fmg.entries.len();
    let mut i: usize = 0;
    let ghost start = out@;
    assert(entries_view(fmg.entries@).take(0) =~= Seq::<FmgEntryView>::empty());
    while i < n
        invariant
            n == fmg.entries@.len(),
            i <= n,
            out@ == start + entry_chars(entries_view(fmg.entries@).take(i as int)),
        decreases n - i,
    {
        let ghost es = entries_view(fmg.entries@);
        proof {
            assert(es.take(i + 1) =~= es.take(i as int).push(es[i as int]));
            lemma_entry_chars_push(es.take(i as int), es[i as int]);
        }
        match &fmg.entries[i].text {
            Some(text) => {
                let cs = chars_of(text.as_str());
                let m = cs.len();
                let mut j: usize = 0;
                let ghost mid = out@;
                while j < m
                    invariant
                        m == cs@.len(),
                        j <= m,
                        out@ == mid + cs@.take(j as int),
                    decreases m - j,
                {
                    out.push(cs[j]);
                    assert(cs@.take(j + 1) =~= cs@.take(j as int).push(cs@[j as int]));
                    j += 1;
                }
                assert(cs@.take(m as int) =~= cs@);
                assert(start + entry_chars(es.take(i as int)) + cs@ =~= start + (entry_chars(
                    es.take(i as int),
                ) + cs@));
            },
            None => {
                assert(out@ =~= start + (entry_chars(es.take(i as int)) + Seq::<char>::empty()));
            },
        }
        i += 1;
    }
    assert(entries_view(fmg.entries@).take(n as int) =~= fmg@.entries);
}

/// Appends to `out` the characters of every item-name text of the archive
/// `files`: the files whose path contains `GoodsName` are read as FMG files, in
/// order. The first such file that fails to read stops the collection with its
/// error; the characters of the files before it stay in `out`.
pub fn read(files: &[BndFile], out: &mut Vec<char>) -> (r: Result<(), FmgError>)
    ensures
        final(out)@ == old(out)@ + goods_chars(files_view(files@), 0).0,
        r == match goods_chars(files_view(files@), 0).1 {
            None => Ok::<(), FmgError>(()),
            Some(e) => Err(e),
        },
        r is Ok <==> goods_read(files_view(files@), 0, files@.len() as int),
        forall|j: int, k: int, m: int|
            0 <= j < files@.len() && is_goods_name_path(files@[j].path@) && goods_read(
                files_view(files@),
                0,
                j,
            ) && (#[trigger] fmg_text_char(files@[j].data@, k, m)) is Some ==> final(out)@.contains(fmg_text_char(files@[j].data@, k, m)->0),
{
    let ghost fv = files_view(files@);
    let ghost start = out@;
    let n = files.len();
    let marker = "GoodsName";
    proof {
        reveal_strlit("GoodsName");
        assert(marker@ =~= goods_name_marker());
    }
    let mut i: usize = 0;
    let ghost mut acc: Seq<char> = Seq::empty();
    while i < n
        invariant
            n == files@.len(),
            fv == files_view(files@),
            marker@ == goods_name_marker(),
            i <= n,
            old(out)@ == start,
            out@ == start + acc,
            goods_chars(fv, 0).0 == acc + goods_chars(fv, i as int).0,
            goods_chars(fv, 0).1 == goods_chars(fv, i as int).1,
        decreases n - i,
    {
        let file = &files[i];
        assert(fv[i as int] == (file.path@, file.data@));
        if !contains_str(file.path.as_str(), marker) {
            assert(goods_chars(fv, i as int) == goods_chars(fv, i + 1));
            i += 1;
            continue;
        }
        let fmg = match Fmg::read(file.data.as_slice()) {
            Ok(f) => f,
            Err(e) => {
                assert(goods_chars(fv, i as int) == (Seq::<char>::empty(), Some(e)));
                assert(acc + Seq::<char>::empty() =~= acc);
                proof {
                    lemma_read_covers(files@, start);
                }
                return Err(e);
            },
        };
        let ghost before = out@;
        append_fmg_chars(&fmg, out);
        proof {
            let rest = goods_chars(fv, i + 1);
            assert(goods_chars(fv, i as int) == (entry_chars(fmg@.entries) + rest.0, rest.1));
            assert(acc + (entry_chars(fmg@.entries) + rest.0) =~= (acc + entry_chars(fmg@.entries)) + rest.0);
            acc = acc + entry_chars(fmg@.entries);
        }
        i += 1;
    }
    assert(acc + Seq::<char>::empty() =~= acc);
    proof {
        lemma_read_covers(files@, start);
    }
    Ok(())
}

} // verus!
