//! Small text helpers over the characters of strings.
use vstd::prelude::*;
use vstd::std_specs::iter::IteratorSpec;

verus! {

broadcast use vstd::string::group_string_axioms;

/// The characters of `s`, in order.
pub fn chars_of(s: &str) -> (v: Vec<char>)
    ensures
        v@ == s@,
{
    let mut v: Vec<char> = Vec::new();
    let mut it = s.chars();
    loop
        invariant
            it.obeys_prophetic_iter_laws(),
            it.decrease() is Some,
            v@ + it.remaining() == s@,
        decreases it.decrease()->0,
    {
        let ghost before = it.remaining();
        match it.next() {
            Some(c) => {
                let ghost old_v = v@;
                v.push(c);
                assert(v@ + it.remaining() =~= old_v + before);
            },
            None => {
                assert(v@ =~= s@);
                return v;
            },
        }
    }
}

/// Whether `needle` occurs in `hay` as a contiguous run.
pub open spec fn contains_run(hay: Seq<char>, needle: Seq<char>) -> bool {
    exists|i: int|
        0 <= i && i + needle.len() <= hay.len() && #[trigger] hay.subrange(i, i + needle.len())
            == needle
}

/// Whether `needle` occurs in `hay` at character position `i`.
pub open spec fn occurs_at(hay: Seq<char>, needle: Seq<char>, i: int) -> bool {
    0 <= i && i + needle.len() <= hay.len() && hay.subrange(i, i + needle.len()) == needle
}

fn occurs_at_exec(hay: &Vec<char>, needle: &Vec<char>, i: usize) -> (r: bool)
    requires
        i + needle@.len() <= hay@.len(),
    ensures
        r == occurs_at(hay@, needle@, i as int),
{
    let m = needle.len();
    let hl = hay.len();
    let mut j: usize = 0;
    while j < m
        invariant
            m == needle@.len(),
            hl == hay@.len(),
            i + m <= hay@.len(),
            j <= m,
            forall|t: int| 0 <= t < j ==> hay@[i + t] == needle@[t],
        decreases m - j,
    {
        if hay[i + j] != needle[j] {
            assert(hay@.subrange(i as int, i + m)[j as int] != needle@[j as int]);
            return false;
        }
        j += 1;
    }
    assert(hay@.subrange(i as int, i + m) =~= needle@);
    true
}

/// `str::contains` for a string needle.
pub fn contains_str(hay: &str, needle: &str) -> (r: bool)
    ensures
        r == contains_run(hay@, needle@),
{
    let h = chars_of(hay);
    let n = chars_of(needle);
    if n.len() > h.len() {
        return false;
    }
    let last = h.len() - n.len();
    let mut i: usize = 0;
    loop
        invariant
            h@ == hay@,
            n@ == needle@,
            last == h@.len() - n@.len(),
            i <= last,
            forall|t: int| 0 <= t < i ==> !occurs_at(h@, n@, t),
        ensures
            forall|t: int| 0 <= t <= last ==> !occurs_at(h@, n@, t),
        decreases last - i,
    {
        if occurs_at_exec(&h, &n, i) {
            assert(hay@.subrange(i as int, i + n@.len()) == needle@);
            return true;
        }
        if i == last {
            break;
        }
        i += 1;
    }
    assert forall|t: int| 0 <= t && t + needle@.len() <= hay@.len() implies #[trigger] hay@.subrange(t, t + needle@.len()) != needle@ by {
        assert(!occurs_at(h@, n@, t));
    }
    false
}

/// Whether two character vectors hold the same characters.
pub fn same_chars(a: &Vec<char>, b: &Vec<char>) -> (r: bool)
    ensures
        r == (a@ == b@),
{
    if a.len() != b.len() {
        return false;
    }
    let n = a.len();
    let mut i: usize = 0;
    while i < n
        invariant
            n == a@.len(),
            n == b@.len(),
            i <= n,
            forall|k: int| 0 <= k < i ==> a@[k] == b@[k],
        decreases n - i,
    {
        if a[i] != b[i] {
            return false;
        }
        i += 1;
    }
    assert(a@ =~= b@);
    true
}

/// Whether two strings hold the same characters.
pub fn str_eq(a: &str, b: &str) -> (r: bool)
    ensures
        r == (a@ == b@),
{
    let x = chars_of(a);
    let y = chars_of(b);
    same_chars(&x, &y)
}

} // verus!
