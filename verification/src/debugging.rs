//! Rate limiting of recurring debug output, and the lines of debug text drawn
//! on screen once per frame.
use vstd::prelude::*;

verus! {

broadcast use vstd::string::group_string_axioms;

/// One second in nanoseconds.
pub const SECOND_NANOS: u128 = 1_000_000_000;

/// The period with which `run_once` registers its name: `u64::MAX` seconds, in
/// nanoseconds. No two instants of one process are that far apart.
pub const RUN_ONCE_NANOS: u128 = 18_446_744_073_709_551_615_000_000_000;

/// A registered piece of recurring code: its name, its period in nanoseconds
/// and when it last ran, in nanoseconds since the program started.
pub struct RunEntry {
    pub name: String,
    pub every: u128,
    pub start: u64,
}

/// Remembers, per name, how often the code may run and when it last ran.
pub struct RunEveryRegistry {
    code: Vec<RunEntry>,
}

/// The names and their (period, last start) as a map.
pub open spec fn entries_map(s: Seq<RunEntry>) -> Map<Seq<char>, (u128, u64)>
    decreases s.len(),
{
    if s.len() == 0 {
        Map::empty()
    } else {
        entries_map(s.drop_last()).insert(s.last().name@, (s.last().every, s.last().start))
    }
}

pub open spec fn distinct_names(s: Seq<RunEntry>) -> bool {
    forall|i: int, j: int| 0 <= i < j < s.len() ==> s[i].name@ != s[j].name@
}

/// The time that passed from `start` to `now`; zero if `now` is earlier
/// (instants subtract with saturation).
pub open spec fn elapsed(start: u64, now: u64) -> int {
    if now >= start {
        now - start
    } else {
        0
    }
}

/// Whether code registered in `m` under `name` may run at `now`, with period
/// `every` used if the name is new.
pub open spec fn spec_can_run(m: Map<Seq<char>, (u128, u64)>, name: Seq<char>, now: u64) -> bool {
    match m.get(name) {
        Some((duration, start)) => elapsed(start, now) >= duration,
        None => true,
    }
}

/// The registry after a call at `now`.
pub open spec fn spec_after_run(
    m: Map<Seq<char>, (u128, u64)>,
    name: Seq<char>,
    every: u128,
    now: u64,
) -> Map<Seq<char>, (u128, u64)> {
    match m.get(name) {
        Some((duration, start)) => if elapsed(start, now) >= duration {
            m.insert(name, (duration, now))
        } else {
            m
        },
        None => m.insert(name, (every, now)),
    }
}

proof fn lemma_entries_map_contains(s: Seq<RunEntry>, i: int)
    requires
        distinct_names(s),
        0 <= i < s.len(),
    ensures
        entries_map(s).contains_key(s[i].name@),
        entries_map(s)[s[i].name@] == (s[i].every, s[i].start),
    decreases s.len(),
{
    if i < s.len() - 1 {
        lemma_entries_map_contains(s.drop_last(), i);
    }
}

proof fn lemma_entries_map_absent(s: Seq<RunEntry>, name: Seq<char>)
    requires
        forall|i: int| 0 <= i < s.len() ==> s[i].name@ != name,
    ensures
        !entries_map(s).contains_key(name),
    decreases s.len(),
{
    if s.len() > 0 {
        lemma_entries_map_absent(s.drop_last(), name);
    }
}

proof fn lemma_entries_map_update(s: Seq<RunEntry>, i: int, e: RunEntry)
    requires
        distinct_names(s),
        0 <= i < s.len(),
        e.name@ == s[i].name@,
    ensures
        distinct_names(s.update(i, e)),
        entries_map(s.update(i, e)) == entries_map(s).insert(e.name@, (e.every, e.start)),
    decreases s.len(),
{
    let t = s.update(i, e);
    if i == s.len() - 1 {
        assert(t.drop_last() =~= s.drop_last());
        assert forall|k: int| 0 <= k < s.len() - 1 implies s[k].name@ != e.name@ by {}
        lemma_entries_map_absent(s.drop_last(), e.name@);
        assert(entries_map(t) =~= entries_map(s).insert(e.name@, (e.every, e.start)));
    } else {
        lemma_entries_map_update(s.drop_last(), i, e);
        assert(t.drop_last() =~= s.drop_last().update(i, e));
        assert(s.last().name@ != e.name@);
        assert(entries_map(t) =~= entries_map(s).insert(e.name@, (e.every, e.start)));
    }
}

impl RunEveryRegistry {
    pub closed spec fn view(&self) -> Map<Seq<char>, (u128, u64)> {
        entries_map(self.code@)
    }

    pub closed spec fn wf(&self) -> bool {
        distinct_names(self.code@)
    }

    pub fn new() -> (r: Self)
        ensures
            r.wf(),
            r.view() == Map::<Seq<char>, (u128, u64)>::empty(),
    {
        Self { code: Vec::new() }
    }

    /// Whether the code named `name` may run at `now` (nanoseconds since the
    /// program started). A new name runs at once and is registered with period
    /// `every`; a known name runs when at least its registered period has passed
    /// since it last ran, and that run becomes its last start.
    pub fn can_run(&mut self, name: &str, every: u128, now: u64) -> (r: bool)
        requires
            old(self).wf(),
        ensures
            final(self).wf(),
            r == spec_can_run(old(self).view(), name@, now),
            final(self).view() == spec_after_run(old(self).view(), name@, every, now),
    {
        let ghost s = self.code@;
        let key = name.to_string();
        let n = self.code.len();
        let mut i: usize = 0;
        while i < n
            invariant
                n == self.code@.len(),
                s == self.code@,
                s == old(self).code@,
                distinct_names(s),
                key@ == name@,
                i <= n,
                forall|k: int| 0 <= k < i ==> self.code@[k].name@ != name@,
            decreases n - i,
        {
            if self.code[i].name == key {
                proof {
                    lemma_entries_map_contains(s, i as int);
                }
                let duration = self.code[i].every;
                let start = self.code[i].start;
                let passed: u64 = if now >= start {
                    now - start
                } else {
                    0
                };
                if passed as u128 >= duration {
                    let entry = RunEntry { name: self.code[i].name.clone(), every: duration, start: now };
                    proof {
                        lemma_entries_map_update(s, i as int, entry);
                    }
                    self.code.set(i, entry);
                    return true;
                }
                return false;
            }
            i += 1;
        }
        proof {
            lemma_entries_map_absent(s, name@);
        }
        let entry = RunEntry { name: key, every, start: now };
        self.code.push(entry);
        proof {
            assert(self.code@.drop_last() =~= s);
        }
        true
    }
}

/// Code registered under `run_once`'s period never runs a second time.
pub proof fn lemma_run_once_runs_once(m: Map<Seq<char>, (u128, u64)>, name: Seq<char>, now: u64)
    requires
        m.contains_key(name),
        m[name].0 == RUN_ONCE_NANOS,
    ensures
        !spec_can_run(m, name, now),
        spec_after_run(m, name, RUN_ONCE_NANOS, now) == m,
{
}

/// Code that just ran at `now` with a positive period does not run again at `now`.
pub proof fn lemma_no_rerun_at_same_instant(
    m: Map<Seq<char>, (u128, u64)>,
    name: Seq<char>,
    every: u128,
    now: u64,
)
    requires
        spec_can_run(m, name, now),
        m.contains_key(name) ==> m[name].0 > 0,
        !m.contains_key(name) ==> every > 0,
    ensures
        !spec_can_run(spec_after_run(m, name, every, now), name, now),
{
}

/// Code that runs at `t` runs again at a later instant exactly when its
/// period has passed since `t`.
pub proof fn lemma_runs_again_after_period(
    m: Map<Seq<char>, (u128, u64)>,
    name: Seq<char>,
    every: u128,
    t: u64,
    later: u64,
)
    requires
        spec_can_run(m, name, t),
        m.contains_key(name) ==> m[name].0 == every,
        t <= later,
    ensures
        spec_can_run(spec_after_run(m, name, every, t), name, later) <==> later - t >= every,
{
}

/// The lines of debug text drawn on screen: those added during the current
/// frame, and those of the last committed frame.
pub struct ScreenDebug {
    pending: Vec<String>,
    committed: Vec<String>,
}

impl ScreenDebug {
    pub closed spec fn pending_lines(&self) -> Seq<String> {
        self.pending@
    }

    pub closed spec fn committed_lines(&self) -> Seq<String> {
        self.committed@
    }

    pub fn new() -> (r: Self)
        ensures
            r.pending_lines() == Seq::<String>::empty(),
            r.committed_lines() == Seq::<String>::empty(),
    {
        Self { pending: Vec::new(), committed: Vec::new() }
    }
}

/// A frame's lines after `line` is added.
pub open spec fn spec_add(pending: Seq<String>, line: String) -> Seq<String> {
    pending.push(line)
}

/// The committed lines and the new frame's lines after a commit: the frame's
/// lines, and none.
pub open spec fn spec_commit(pending: Seq<String>) -> (Seq<String>, Seq<String>) {
    (pending, Seq::empty())
}

/// The lines a read gives back, and the committed lines left after it: all
/// of them, and none.
pub open spec fn spec_read(committed: Seq<String>) -> (Seq<String>, Seq<String>) {
    (committed, Seq::empty())
}

/// Adds a line to the current frame.
pub fn add_to_screen_debug(dbg: &mut ScreenDebug, add: String)
    ensures
        final(dbg).pending_lines() == spec_add(old(dbg).pending_lines(), add),
        final(dbg).committed_lines() == old(dbg).committed_lines(),
{
    dbg.pending.push(add);
}

/// Ends the frame: its lines replace the committed ones and a new frame begins.
pub fn commit_screen_debug(dbg: &mut ScreenDebug)
    ensures
        (final(dbg).committed_lines(), final(dbg).pending_lines()) == spec_commit(
            old(dbg).pending_lines(),
        ),
{
    std::mem::swap(&mut dbg.committed, &mut dbg.pending);
    dbg.pending.clear();
}

/// Takes the committed lines, leaving none behind.
pub fn read_committed_screen_debug(dbg: &mut ScreenDebug) -> (r: Vec<String>)
    ensures
        (r@, final(dbg).committed_lines()) == spec_read(old(dbg).committed_lines()),
        final(dbg).pending_lines() == old(dbg).pending_lines(),
{
    let mut out: Vec<String> = Vec::new();
    std::mem::swap(&mut out, &mut dbg.committed);
    out
}

/// The lines added during a frame are, once it is committed, what a read
/// gives back, in order; a second read gives back none, and the next frame
/// starts empty.
pub proof fn lemma_frame_lines_read_once(pending: Seq<String>, line: String)
    ensures
        spec_read(spec_commit(spec_add(pending, line)).0).0 == pending.push(line),
        spec_read(spec_read(spec_commit(spec_add(pending, line)).0).1).0 == Seq::<String>::empty(),
        spec_commit(spec_add(pending, line)).1 == Seq::<String>::empty(),
{
}

} // verus!
