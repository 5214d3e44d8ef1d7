//! Controller state: since when each button (and each trigger) has been held,
//! kept up to date from XInput's report once per frame.
//!
//! Instants are nanoseconds since the program started; the instant 0 (the
//! start itself) marks a button that is not held.
use vstd::prelude::*;
use vstd::std_specs::bits::u16_trailing_zeros;
use crate::keyboard::{
    ascii_uppercase, entries_view, is_ascii_text, lookup_in, table_lookup, to_uppercase, uppercase,
};

verus! {

/// `XINPUT_GAMEPAD_TRIGGER_THRESHOLD`: a trigger counts as pressed above this.
pub const TRIGGER_THRESHOLD: u8 = 30;

/// The instant that marks "not held": the start of the program.
pub const NOT_HELD: u64 = 0;

/// A button as the settings name it: a bit of XInput's button mask, or a
/// trigger (`Err(true)` for R2, `Err(false)` for L2).
pub type GamepadButton = Result<u16, bool>;

#[derive(Clone, Debug)]
pub struct GamepadState {
    /// Per bit of the button mask, since when it is held.
    pub pressed: [u64; 16],
    pub r2: u64,
    pub l2: u64,
    /// The right stick's raw X and Y (`sThumbRX`, `sThumbRY`).
    pub right_stick: [i16; 2],
}

/// One XInput report, as far as this state reads it.
#[derive(Clone, Copy, Debug)]
pub struct GamepadReport {
    pub buttons: u16,
    pub right_trigger: u8,
    pub left_trigger: u8,
    pub thumb_rx: i16,
    pub thumb_ry: i16,
}

pub ghost struct GamepadView {
    pub pressed: Seq<u64>,
    pub r2: u64,
    pub l2: u64,
    pub right_stick: Seq<i16>,
}

impl View for GamepadState {
    type V = GamepadView;

    open spec fn view(&self) -> GamepadView {
        GamepadView {
            pressed: self.pressed@,
            r2: self.r2,
            l2: self.l2,
            right_stick: self.right_stick@,
        }
    }
}

/// Whether bit `i` of the mask is set.
pub open spec fn bit_set(mask: u16, i: int) -> bool {
    (mask >> (i as u16)) % 2 == 1
}

/// The instant a held input started after a report: reset when released,
/// set to `now` when newly pressed, kept while held.
pub open spec fn next_start(start: u64, down: bool, now: u64) -> u64 {
    if !down {
        NOT_HELD
    } else if start == NOT_HELD {
        now
    } else {
        start
    }
}

/// The state after a report at `now`.
pub open spec fn spec_update(s: GamepadView, rep: GamepadReport, now: u64) -> GamepadView {
    GamepadView {
        pressed: Seq::new(16, |i: int| next_start(s.pressed[i], bit_set(rep.buttons, i), now)),
        r2: next_start(s.r2, rep.right_trigger > TRIGGER_THRESHOLD, now),
        l2: next_start(s.l2, rep.left_trigger > TRIGGER_THRESHOLD, now),
        right_stick: seq![rep.thumb_rx, rep.thumb_ry],
    }
}

/// Time passed from `start` to `now`, zero if `now` is earlier.
pub open spec fn since(start: u64, now: u64) -> u64 {
    if now >= start {
        (now - start) as u64
    } else {
        0
    }
}

/// Since when `button` is held, by the state.
pub open spec fn held_since(s: GamepadView, button: GamepadButton) -> u64 {
    match button {
        Ok(flag) => s.pressed[u16_trailing_zeros(flag) as int],
        Err(is_r2) => if is_r2 {
            s.r2
        } else {
            s.l2
        },
    }
}

/// How long `button` has been held at `now`, or `None` where it is not held.
pub open spec fn spec_pressed_duration(s: GamepadView, button: GamepadButton, now: u64) -> Option<
    u64,
> {
    let start = held_since(s, button);
    if start == NOT_HELD {
        None
    } else {
        Some(since(start, now))
    }
}

/// A button the state can answer for: a trigger, or a mask with a bit set
/// (its lowest set bit names the button).
pub open spec fn valid_button(button: GamepadButton) -> bool {
    match button {
        Ok(flag) => flag != 0,
        Err(_) => true,
    }
}

impl GamepadState {
    /// No button held, the stick centred.
    pub fn new() -> (r: Self)
        ensures
            r@.pressed == Seq::new(16, |i: int| NOT_HELD),
            r@.r2 == NOT_HELD,
            r@.l2 == NOT_HELD,
            r@.right_stick == seq![0i16, 0i16],
    {
        let r = Self { pressed: [NOT_HELD; 16], r2: NOT_HELD, l2: NOT_HELD, right_stick: [0, 0] };
        assert(r@.pressed =~= Seq::new(16, |i: int| NOT_HELD));
        assert(r@.right_stick =~= seq![0i16, 0i16]);
        r
    }

    /// How long `button` has been held at `now`; `None` where it is not held.
    pub fn pressed_duration(&self, button: GamepadButton, now: u64) -> (r: Option<u64>)
        requires
            valid_button(button),
        ensures
            r == spec_pressed_duration(self@, button, now),
    {
        let start = match button {
            Ok(flag) => {
                proof {
                    vstd::std_specs::bits::axiom_u16_trailing_zeros(flag);
                }
                let i = flag.trailing_zeros() as usize;
                self.pressed[i]
            },
            Err(is_r2) => if is_r2 {
                self.r2
            } else {
                self.l2
            },
        };
        if start == NOT_HELD {
            return None;
        }
        Some(if now >= start {
            now - start
        } else {
            0
        })
    }

    /// Takes in the report read at `now`: released inputs stop being held,
    /// newly pressed ones are held from `now`, held ones keep their start.
    pub fn update(&mut self, rep: GamepadReport, now: u64)
        ensures
            final(self)@ == spec_update(old(self)@, rep, now),
    {
        let currently_pressed = rep.buttons;
        let r2_currently_pressed = rep.right_trigger > TRIGGER_THRESHOLD;
        let l2_currently_pressed = rep.left_trigger > TRIGGER_THRESHOLD;
        let ghost old_pressed = self.pressed@;
        let mut i: u16 = 0;
        while i < 16
            invariant
                0 <= i <= 16,
                self.r2 == old(self).r2,
                self.l2 == old(self).l2,
                old_pressed == old(self).pressed@,
                self.pressed@.len() == 16,
                old_pressed.len() == 16,
                forall|k: int|
                    0 <= k < i ==> #[trigger] self.pressed@[k] == next_start(
                        old_pressed[k],
                        bit_set(currently_pressed, k),
                        now,
                    ),
                forall|k: int| i <= k < 16 ==> #[trigger] self.pressed@[k] == old_pressed[k],
            decreases 16 - i,
        {
            let idx = i as usize;
            if (currently_pressed >> i) % 2 == 0 {
                self.pressed[idx] = NOT_HELD;
            } else if self.pressed[idx] == NOT_HELD {
                self.pressed[idx] = now;
            }
            i += 1;
        }
        if !r2_currently_pressed {
            self.r2 = NOT_HELD;
        } else if self.r2 == NOT_HELD {
            self.r2 = now;
        }
        if !l2_currently_pressed {
            self.l2 = NOT_HELD;
        } else if self.l2 == NOT_HELD {
            self.l2 = now;
        }
        self.right_stick = [rep.thumb_rx, rep.thumb_ry];
        assert(self@.pressed =~= spec_update(old(self)@, rep, now).pressed);
        assert(self@.right_stick =~= spec_update(old(self)@, rep, now).right_stick);
    }
}

/// Whether the report has `button` down.
pub open spec fn spec_down(rep: GamepadReport, button: GamepadButton) -> bool {
    match button {
        Ok(flag) => bit_set(rep.buttons, u16_trailing_zeros(flag) as int),
        Err(is_r2) => if is_r2 {
            rep.right_trigger > TRIGGER_THRESHOLD
        } else {
            rep.left_trigger > TRIGGER_THRESHOLD
        },
    }
}

proof fn lemma_update_held_since(s: GamepadView, rep: GamepadReport, button: GamepadButton, now: u64)
    requires
        s.pressed.len() == 16,
        valid_button(button),
    ensures
        held_since(spec_update(s, rep, now), button) == next_start(
            held_since(s, button),
            spec_down(rep, button),
            now,
        ),
{
    if let Ok(flag) = button {
        vstd::std_specs::bits::axiom_u16_trailing_zeros(flag);
    }
}

/// While a button stays down it keeps the instant it was first pressed, so
/// the time it has been held keeps growing with `now`.
pub proof fn lemma_held_button_keeps_start(
    s: GamepadView,
    rep: GamepadReport,
    button: GamepadButton,
    now: u64,
    later: u64,
)
    requires
        s.pressed.len() == 16,
        valid_button(button),
        held_since(s, button) != NOT_HELD,
        spec_down(rep, button),
    ensures
        held_since(spec_update(s, rep, now), button) == held_since(s, button),
        spec_pressed_duration(spec_update(s, rep, now), button, later) == Some(
            since(held_since(s, button), later),
        ),
{
    lemma_update_held_since(s, rep, button, now);
}

/// A button reported up is not held afterwards, whatever it was before.
pub proof fn lemma_release_resets(
    s: GamepadView,
    rep: GamepadReport,
    button: GamepadButton,
    now: u64,
    later: u64,
)
    requires
        s.pressed.len() == 16,
        valid_button(button),
        !spec_down(rep, button),
    ensures
        spec_pressed_duration(spec_update(s, rep, now), button, later) is None,
{
    lemma_update_held_since(s, rep, button, now);
}

/// A button newly pressed in a report at a time after the start has been held
/// for no time at that instant.
pub proof fn lemma_fresh_press_starts_now(
    s: GamepadView,
    rep: GamepadReport,
    button: GamepadButton,
    now: u64,
)
    requires
        s.pressed.len() == 16,
        valid_button(button),
        held_since(s, button) == NOT_HELD,
        spec_down(rep, button),
        now != NOT_HELD,
    ensures
        spec_pressed_duration(spec_update(s, rep, now), button, now) == Some(0u64),
{
    lemma_update_held_since(s, rep, button, now);
}

/// The button names the settings may use: a bit of the button mask
/// (`XINPUT_GAMEPAD_*`), or a trigger.
pub open spec fn button_table() -> Seq<(Seq<char>, GamepadButton)> {
    seq![
        (seq!['U', 'P'], Ok(0x0001u16)),
        (seq!['D', 'O', 'W', 'N'], Ok(0x0002u16)),
        (seq!['L', 'E', 'F', 'T'], Ok(0x0004u16)),
        (seq!['R', 'I', 'G', 'H', 'T'], Ok(0x0008u16)),
        (seq!['A'], Ok(0x1000u16)),
        (seq!['B'], Ok(0x2000u16)),
        (seq!['X'], Ok(0x4000u16)),
        (seq!['Y'], Ok(0x8000u16)),
        (seq!['R', '1'], Ok(0x0200u16)),
        (seq!['R', '2'], Err(true)),
        (seq!['R', '3'], Ok(0x0080u16)),
        (seq!['L', '1'], Ok(0x0100u16)),
        (seq!['L', '2'], Err(false)),
        (seq!['L', '3'], Ok(0x0040u16)),
    ]
}

proof fn lemma_lookup_valid(t: Seq<(Seq<char>, GamepadButton)>, name: Seq<char>)
    requires
        forall|i: int| 0 <= i < t.len() ==> valid_button(#[trigger] t[i].1),
    ensures
        table_lookup(t, name) matches Some(b) ==> valid_button(b),
    decreases t.len(),
{
    if t.len() > 0 && t[0].0 != name {
        assert forall|i: int| 0 <= i < t.drop_first().len() implies valid_button(
            #[trigger] t.drop_first()[i].1,
        ) by {
            assert(t.drop_first()[i] == t[i + 1]);
        }
        lemma_lookup_valid(t.drop_first(), name);
    }
}

/// The button names the settings may use, ready for lookups.
pub struct ButtonTable {
    entries: Vec<(Vec<char>, GamepadButton)>,
}

impl ButtonTable {
    #[verifier::type_invariant]
    spec fn holds_the_table(&self) -> bool {
        entries_view(self.entries@) == button_table()
    }

    /// The names and codes the table holds, in order.
    pub closed spec fn table(&self) -> Seq<(Seq<char>, GamepadButton)> {
        entries_view(self.entries@)
    }

    pub fn new() -> (r: Self)
        ensures
            r.table() == button_table(),
    {
        let mut v: Vec<(Vec<char>, GamepadButton)> = Vec::new();
        v.push((vec!['U', 'P'], Ok(0x0001u16)));
        v.push((vec!['D', 'O', 'W', 'N'], Ok(0x0002u16)));
        v.push((vec!['L', 'E', 'F', 'T'], Ok(0x0004u16)));
        v.push((vec!['R', 'I', 'G', 'H', 'T'], Ok(0x0008u16)));
        v.push((vec!['A'], Ok(0x1000u16)));
        v.push((vec!['B'], Ok(0x2000u16)));
        v.push((vec!['X'], Ok(0x4000u16)));
        v.push((vec!['Y'], Ok(0x8000u16)));
        v.push((vec!['R', '1'], Ok(0x0200u16)));
        v.push((vec!['R', '2'], Err(true)));
        v.push((vec!['R', '3'], Ok(0x0080u16)));
        v.push((vec!['L', '1'], Ok(0x0100u16)));
        v.push((vec!['L', '2'], Err(false)));
        v.push((vec!['L', '3'], Ok(0x0040u16)));
        assert(entries_view(v@) =~~= button_table());
        ButtonTable { entries: v }
    }

    /// The button named `upper`, an already uppercased name.
    pub fn lookup_upper(&self, upper: &str) -> (r: Option<GamepadButton>)
        ensures
            r == table_lookup(button_table(), upper@),
    {
        proof {
            use_type_invariant(self);
        }
        let chars = crate::text::chars_of(upper);
        lookup_in(&self.entries, &chars)
    }

    /// The button named `name`, in any letter case (the name is uppercased
    /// first).
    pub fn lookup(&self, name: &str) -> (r: Option<GamepadButton>)
        ensures
            r == table_lookup(button_table(), uppercase(name@)),
            is_ascii_text(name@) ==> r == table_lookup(button_table(), ascii_uppercase(name@)),
    {
        let upper = to_uppercase(name);
        self.lookup_upper(upper.as_str())
    }

    /// The button a wheel's setting names, or the wheel's own default where
    /// the name is unknown; a button the state can answer for.
    pub fn code_or(&self, name: &str, default: GamepadButton) -> (r: GamepadButton)
        requires
            valid_button(default),
        ensures
            r == match table_lookup(button_table(), uppercase(name@)) {
                Some(b) => b,
                None => default,
            },
            is_ascii_text(name@) ==> r == match table_lookup(button_table(), ascii_uppercase(name@)) {
                Some(b) => b,
                None => default,
            },
            valid_button(r),
    {
        proof {
            assert forall|i: int| 0 <= i < button_table().len() implies valid_button(
                #[trigger] button_table()[i].1,
            ) by {}
            lemma_lookup_valid(button_table(), uppercase(name@));
        }
        match self.lookup(name) {
            Some(b) => b,
            None => default,
        }
    }
}

} // verus!
