//! Glyph ranges: the zero-terminated list of inclusive `[start, end]` code
//! point pairs that a font atlas is built from.
use std::collections::BTreeSet;
use vstd::prelude::*;
use vstd::std_specs::btree::increasing_seq;
use vstd::std_specs::iter::IteratorSpec;
use vstd::std_specs::cmp::OrdSpec;

verus! {

/// The code points of `chars` that lie in the Basic Multilingual Plane.
pub open spec fn bmp_codepoints(chars: Seq<char>) -> Set<u32> {
    Set::new(|cp: u32| cp <= 0xFFFF && exists|i: int| 0 <= i < chars.len() && chars[i] as u32 == cp)
}

pub open spec fn range_start(r: Seq<u32>, k: int) -> u32 {
    r[2 * k]
}

pub open spec fn range_end(r: Seq<u32>, k: int) -> u32 {
    r[2 * k + 1]
}

/// Whether `y` lies in the `k`-th pair of the flat pair list `r`.
pub open spec fn in_range(r: Seq<u32>, k: int, y: int) -> bool {
    range_start(r, k) <= y <= range_end(r, k)
}

/// The number of complete pairs in `r`.
pub open spec fn pair_count(r: Seq<u32>) -> int {
    r.len() as int / 2
}

pub open spec fn covered(r: Seq<u32>, y: int) -> bool {
    exists|k: int| 0 <= k < pair_count(r) && #[trigger] in_range(r, k, y)
}

/// The pairs of `r` are non-empty, increasing and separated by at least one
/// missing code point, so each one is a maximal run.
pub open spec fn maximal_runs(r: Seq<u32>) -> bool {
    &&& forall|k: int| 0 <= k < pair_count(r) ==> range_start(r, k) <= #[trigger] range_end(r, k)
    &&& forall|k: int|
        0 <= k && k + 1 < pair_count(r) ==> #[trigger] range_end(r, k) + 1 < range_start(r, k + 1)
}

/// `r` lists exactly the code points of `cps` as sorted maximal runs, as
/// pairs followed by a single terminating zero.
pub open spec fn is_glyph_ranges(r: Seq<u32>, cps: Set<u32>) -> bool {
    &&& r.len() % 2 == 1
    &&& r.last() == 0
    &&& maximal_runs(r.drop_last())
    &&& forall|y: u32| cps.contains(y) <==> covered(r.drop_last(), y as int)
}

proof fn lemma_push_pair(r: Seq<u32>, s: u32, e: u32)
    requires
        r.len() % 2 == 0,
        maximal_runs(r),
        s <= e,
        pair_count(r) > 0 ==> range_end(r, pair_count(r) - 1) + 1 < s,
    ensures
        ({
            let r2 = r.push(s).push(e);
            &&& r2.len() % 2 == 0
            &&& pair_count(r2) == pair_count(r) + 1
            &&& maximal_runs(r2)
            &&& forall|k: int|
                0 <= k < pair_count(r) ==> #[trigger] range_start(r2, k) == range_start(r, k)
                    && range_end(r2, k) == range_end(r, k)
            &&& forall|k: int| 0 <= k < pair_count(r) ==> #[trigger] range_end(r2, k) == range_end(r, k)
            &&& range_start(r2, pair_count(r)) == s
            &&& range_end(r2, pair_count(r)) == e
            &&& forall|z: int| #[trigger] covered(r2, z) <==> (covered(r, z) || (s <= z <= e))
        }),
{
    let r2 = r.push(s).push(e);
    let m = pair_count(r);
    assert(pair_count(r2) == m + 1);
    assert forall|k: int| 0 <= k < m implies #[trigger] range_start(r2, k) == range_start(r, k)
        && range_end(r2, k) == range_end(r, k) by {
        assert(r2[2 * k] == r[2 * k]);
        assert(r2[2 * k + 1] == r[2 * k + 1]);
    }
    assert forall|k: int| 0 <= k < m implies #[trigger] range_end(r2, k) == range_end(r, k) by {
        assert(range_start(r2, k) == range_start(r, k));
    }
    assert(range_start(r2, m) == s);
    assert(range_end(r2, m) == e);
    assert forall|k: int| 0 <= k < pair_count(r2) implies range_start(r2, k) <= #[trigger] range_end(r2, k) by {
        if k < m {
            assert(range_start(r2, k) == range_start(r, k));
        }
    }
    assert forall|k: int| 0 <= k && k + 1 < pair_count(r2) implies #[trigger] range_end(r2, k) + 1 < range_start(r2, k + 1) by {
        if k + 1 < m {
            assert(range_start(r2, k + 1) == range_start(r, k + 1));
        }
    }
    assert forall|z: int| #[trigger] covered(r2, z) <==> (covered(r, z) || (s <= z <= e)) by {
        if covered(r, z) {
            let k = choose|k: int| 0 <= k < pair_count(r) && #[trigger] in_range(r, k, z);
            assert(range_start(r2, k) == range_start(r, k));
            assert(in_range(r2, k, z));
        }
        if s <= z <= e {
            assert(in_range(r2, m, z));
        }
        if covered(r2, z) {
            let k = choose|k: int| 0 <= k < pair_count(r2) && #[trigger] in_range(r2, k, z);
            if k < m {
                assert(range_start(r2, k) == range_start(r, k));
                assert(in_range(r, k, z));
            }
        }
    }
}

/// A sequence of keys in increasing order holds them strictly ascending.
proof fn lemma_increasing_keys(keys: Seq<&u32>)
    requires
        increasing_seq(keys),
    ensures
        forall|a: int, b: int| 0 <= a < b < keys.len() ==> *keys[a] < *keys[b],
{
    assert(vstd::laws_cmp::obeys_cmp::<u32>());
    assert(vstd::laws_cmp::obeys_cmp::<&u32>());
    assert forall|a: int, b: int| 0 <= a < b < keys.len() implies *keys[a] < *keys[b] by {
        assert(OrdSpec::cmp_spec(&keys[a], &keys[b]) is Less);
    }
}

/// Whether `z` is one of the first `n` keys of `keys`.
pub open spec fn listed(keys: Seq<&u32>, n: int, z: int) -> bool {
    exists|j: int| 0 <= j < n && *keys[j] == z
}

/// Builds the glyph ranges of the Basic Multilingual Plane characters of `chars`.
pub fn build_glyph_ranges(chars: &[char]) -> (ranges: Vec<u32>)
    ensures
        is_glyph_ranges(ranges@, bmp_codepoints(chars@)),
{
    let ghost cps = bmp_codepoints(chars@);
    let mut codepoints: BTreeSet<u32> = BTreeSet::new();
    let n = chars.len();
    let mut i: usize = 0;
    while i < n
        invariant
            n == chars@.len(),
            i <= n,
            forall|z: u32|
                #[trigger] codepoints@.contains(z) <==> (z <= 0xFFFF && exists|j: int|
                    0 <= j < i && chars@[j] as u32 == z),
        decreases n - i,
    {
        let cp = chars[i] as u32;
        if cp <= 0xFFFF {
            codepoints.insert(cp);
        }
        proof {
            assert forall|z: u32| #[trigger] codepoints@.contains(z) <==> (z <= 0xFFFF && exists|j: int|
                0 <= j < i + 1 && chars@[j] as u32 == z) by {
                if exists|j: int| 0 <= j < i + 1 && chars@[j] as u32 == z {
                    let j = choose|j: int| 0 <= j < i + 1 && chars@[j] as u32 == z;
                    if j == i {
                        assert(z == cp);
                    }
                }
            }
        }
        i += 1;
    }
    assert(codepoints@ =~= cps);

    let ghost keys = codepoints.iter().remaining();
    proof {
        assert(keys.unref().to_set() == codepoints@);
        assert(increasing_seq(keys));
    }
    proof {
        lemma_increasing_keys(keys);
    }
    assert forall|a: int| 0 <= a < keys.len() implies *keys[a] <= 0xFFFF by {
        assert(keys.unref()[a] == *keys[a]);
        assert(keys.unref().to_set().contains(*keys[a]));
    }

    let mut ranges: Vec<u32> = Vec::new();
    let mut open: Option<(u32, u32)> = None;
    for cp in it: codepoints.iter()
        invariant
            it.seq() == keys,
            forall|a: int, b: int| 0 <= a < b < keys.len() ==> *keys[a] < *keys[b],
            forall|a: int| 0 <= a < keys.len() ==> *keys[a] <= 0xFFFF,
            ranges@.len() % 2 == 0,
            maximal_runs(ranges@),
            open is None <==> it.index() == 0,
            open is None ==> ranges@.len() == 0,
            open matches Some((s, e)) ==> s <= e && e == *keys[it.index() - 1],
            open matches Some((s, e)) ==> pair_count(ranges@) > 0 ==> range_end(ranges@, pair_count(ranges@) - 1) + 1 < s,
            forall|z: int|
                #![trigger covered(ranges@, z)]
                #![trigger listed(keys, it.index(), z)]
                listed(keys, it.index(), z) <==> (covered(ranges@, z) || (open matches Some((s, e)) && s <= z <= e)),
    {
        let c: u32 = *cp;
        let ghost idx = it.index();
        let ghost old_ranges = ranges@;
        let ghost old_open = open;
        assert(c == *keys[idx]);
        match open {
            None => {
                open = Some((c, c));
            },
            Some((s, e)) => {
                if c == e + 1 {
                    open = Some((s, c));
                } else {
                    proof {
                        lemma_push_pair(old_ranges, s, e);
                    }
                    ranges.push(s);
                    ranges.push(e);
                    open = Some((c, c));
                    assert(*keys[idx - 1] < *keys[idx]);
                    assert(range_end(ranges@, pair_count(ranges@) - 1) == e);
                }
            },
        }
        proof {
            assert forall|z: int|
                #![trigger covered(ranges@, z)]
                #![trigger listed(keys, idx + 1, z)]
                listed(keys, idx + 1, z) <==> (covered(ranges@, z) || (open matches Some((s, e)) && s <= z <= e)) by {
                if listed(keys, idx + 1, z) {
                    let j = choose|j: int| 0 <= j < idx + 1 && *keys[j] == z;
                    if j < idx {
                        assert(listed(keys, idx, z));
                    }
                }
                if listed(keys, idx, z) {
                    let j = choose|j: int| 0 <= j < idx && *keys[j] == z;
                    assert(listed(keys, idx + 1, z));
                }
                if z == c {
                    assert(listed(keys, idx + 1, z));
                }
                if covered(old_ranges, z) || (old_open matches Some((s, e)) && s <= z <= e) {
                    assert(listed(keys, idx, z));
                }
            }
        }
    }
    if let Some((s, e)) = open {
        let ghost old_ranges = ranges@;
        proof {
            lemma_push_pair(old_ranges, s, e);
        }
        ranges.push(s);
        ranges.push(e);
    }
    let ghost pairs = ranges@;
    ranges.push(0);
    proof {
        assert(ranges@.drop_last() =~= pairs);
        assert forall|z: u32| cps.contains(z) <==> covered(pairs, z as int) by {
            if cps.contains(z) {
                assert(keys.unref().to_set().contains(z));
                let j = choose|j: int| 0 <= j < keys.unref().len() && keys.unref()[j] == z;
                assert(listed(keys, keys.len() as int, z as int));
            }
            if covered(pairs, z as int) {
                assert(listed(keys, keys.len() as int, z as int));
                let j = choose|j: int| 0 <= j < keys.len() && *keys[j] == z;
                assert(keys.unref()[j] == z);
                assert(keys.unref().to_set().contains(z));
            }
        }
        assert(ranges@.len() % 2 == 1);
        assert(ranges@.last() == 0);
        assert(maximal_runs(ranges@.drop_last()));
    }
    ranges
}

} // verus!
