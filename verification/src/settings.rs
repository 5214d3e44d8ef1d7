//! The user's settings (`spellwheel.toml`): defaults, how a file's keys
//! override them, and the once-a-second reload cache.
//!
//! Settings that the game uses as floats are kept here as the bit patterns of
//! their `f32` values (`f32::to_bits`); the drawing code turns them back.
use vstd::prelude::*;
use crate::debugging::{RunEveryRegistry, SECOND_NANOS, spec_can_run, spec_after_run};

verus! {

broadcast use vstd::string::group_string_axioms;

pub struct Settings {
    pub spells_key: String,
    pub quick_items_key: String,
    pub spells_button: String,
    pub quick_items_button: String,
    pub using_controller: bool,
    /// Bits of an `f32` (seconds).
    pub controller_wheel_open_delay: u32,
    pub switch_instantly: bool,
    pub item_names: String,
    pub text_shadows: bool,
    /// Bits of an `f32`.
    pub font_scale_multiplier: u32,
    /// Bits of an `f32`.
    pub icon_scale_multiplier: u32,
    /// Bits of an `f32`.
    pub radius_multiplier: u32,
    /// Bits of an `f32`.
    pub min_radius: u32,
    pub modded_spells: Vec<String>,
    pub await_xinput_hook: bool,
    pub debugging: bool,
    /// Bits of an `f32` (seconds).
    pub timing_offset: u32,
}

/// The settings as the contracts see them.
pub ghost struct SettingsView {
    pub spells_key: Seq<char>,
    pub quick_items_key: Seq<char>,
    pub spells_button: Seq<char>,
    pub quick_items_button: Seq<char>,
    pub using_controller: bool,
    pub controller_wheel_open_delay: u32,
    pub switch_instantly: bool,
    pub item_names: Seq<char>,
    pub text_shadows: bool,
    pub font_scale_multiplier: u32,
    pub icon_scale_multiplier: u32,
    pub radius_multiplier: u32,
    pub min_radius: u32,
    pub modded_spells: Seq<Seq<char>>,
    pub await_xinput_hook: bool,
    pub debugging: bool,
    pub timing_offset: u32,
}

pub open spec fn strings_view(v: Seq<String>) -> Seq<Seq<char>> {
    v.map_values(|s: String| s@)
}

impl View for Settings {
    type V = SettingsView;

    open spec fn view(&self) -> SettingsView {
        SettingsView {
            spells_key: self.spells_key@,
            quick_items_key: self.quick_items_key@,
            spells_button: self.spells_button@,
            quick_items_button: self.quick_items_button@,
            using_controller: self.using_controller,
            controller_wheel_open_delay: self.controller_wheel_open_delay,
            switch_instantly: self.switch_instantly,
            item_names: self.item_names@,
            text_shadows: self.text_shadows,
            font_scale_multiplier: self.font_scale_multiplier,
            icon_scale_multiplier: self.icon_scale_multiplier,
            radius_multiplier: self.radius_multiplier,
            min_radius: self.min_radius,
            modded_spells: strings_view(self.modded_spells@),
            await_xinput_hook: self.await_xinput_hook,
            debugging: self.debugging,
            timing_offset: self.timing_offset,
        }
    }
}

/// The default settings.
pub open spec fn default_settings() -> SettingsView {
    SettingsView {
        spells_key: seq!['T', 'A', 'B'],
        quick_items_key: seq!['C', 'A', 'P', 'I', 'T', 'A', 'L'],
        spells_button: seq!['U', 'P'],
        quick_items_button: seq!['D', 'O', 'W', 'N'],
        using_controller: false,
        controller_wheel_open_delay: 0x3F00_0000,
        switch_instantly: true,
        item_names: seq!['s', 'h', 'o', 'w'],
        text_shadows: true,
        font_scale_multiplier: 0x3F80_0000,
        icon_scale_multiplier: 0x3E19_999A,
        radius_multiplier: 0x3E99_999A,
        min_radius: 0x3E99_999A,
        modded_spells: Seq::empty(),
        await_xinput_hook: false,
        debugging: false,
        timing_offset: 0,
    }
}

pub fn spells_key() -> (r: String)
    ensures
        r@ == default_settings().spells_key,
{
    let s = "TAB";
    proof {
        reveal_strlit("TAB");
    }
    s.to_string()
}

pub fn quick_items_key() -> (r: String)
    ensures
        r@ == default_settings().quick_items_key,
{
    let s = "CAPITAL";
    proof {
        reveal_strlit("CAPITAL");
    }
    s.to_string()
}

pub fn spells_button() -> (r: String)
    ensures
        r@ == default_settings().spells_button,
{
    let s = "UP";
    proof {
        reveal_strlit("UP");
    }
    s.to_string()
}

pub fn quick_items_button() -> (r: String)
    ensures
        r@ == default_settings().quick_items_button,
{
    let s = "DOWN";
    proof {
        reveal_strlit("DOWN");
    }
    s.to_string()
}

pub fn using_controller() -> (r: bool)
    ensures
        r == default_settings().using_controller,
{
    false
}

/// Bits of `0.5f32`.
pub fn controller_wheel_open_delay() -> (r: u32)
    ensures
        r == default_settings().controller_wheel_open_delay,
{
    0x3F00_0000
}

pub fn switch_instantly() -> (r: bool)
    ensures
        r == default_settings().switch_instantly,
{
    true
}

pub fn item_names() -> (r: String)
    ensures
        r@ == default_settings().item_names,
{
    let s = "show";
    proof {
        reveal_strlit("show");
    }
    s.to_string()
}

pub fn text_shadows() -> (r: bool)
    ensures
        r == default_settings().text_shadows,
{
    true
}

pub fn debugging() -> (r: bool)
    ensures
        r == default_settings().debugging,
{
    false
}

/// Bits of `1.0f32`.
pub fn font_scale_multiplier() -> (r: u32)
    ensures
        r == default_settings().font_scale_multiplier,
{
    0x3F80_0000
}

/// Bits of `0.15f32`.
pub fn icon_scale_multiplier() -> (r: u32)
    ensures
        r == default_settings().icon_scale_multiplier,
{
    0x3E19_999A
}

/// Bits of `0.3f32`.
pub fn radius_multiplier() -> (r: u32)
    ensures
        r == default_settings().radius_multiplier,
{
    0x3E99_999A
}

pub fn modded_spells() -> (r: Vec<String>)
    ensures
        strings_view(r@) == default_settings().modded_spells,
{
    let r: Vec<String> = Vec::new();
    assert(strings_view(r@) =~= Seq::<Seq<char>>::empty());
    r
}

pub fn await_xinput_hook() -> (r: bool)
    ensures
        r == default_settings().await_xinput_hook,
{
    false
}

/// Bits of `0.3f32`.
pub fn min_radius() -> (r: u32)
    ensures
        r == default_settings().min_radius,
{
    0x3E99_999A
}

/// Bits of `0.0f32`.
pub fn timing_offset() -> (r: u32)
    ensures
        r == default_settings().timing_offset,
{
    0
}

fn clone_strings(v: &Vec<String>) -> (r: Vec<String>)
    ensures
        r@ == v@,
{
    let r = v.clone();
    assert(r@ =~= v@);
    r
}

impl Settings {
    /// The default settings.
    pub fn new_default() -> (r: Settings)
        ensures
            r@ == default_settings(),
    {
        Settings {
            spells_key: spells_key(),
            quick_items_key: quick_items_key(),
            spells_button: spells_button(),
            quick_items_button: quick_items_button(),
            using_controller: using_controller(),
            controller_wheel_open_delay: controller_wheel_open_delay(),
            switch_instantly: switch_instantly(),
            item_names: item_names(),
            text_shadows: text_shadows(),
            font_scale_multiplier: font_scale_multiplier(),
            icon_scale_multiplier: icon_scale_multiplier(),
            radius_multiplier: radius_multiplier(),
            min_radius: min_radius(),
            modded_spells: modded_spells(),
            await_xinput_hook: await_xinput_hook(),
            debugging: debugging(),
            timing_offset: timing_offset(),
        }
    }

    /// A copy of these settings.
    pub fn duplicate(&self) -> (r: Settings)
        ensures
            r@ == self@,
    {
        Settings {
            spells_key: self.spells_key.clone(),
            quick_items_key: self.quick_items_key.clone(),
            spells_button: self.spells_button.clone(),
            quick_items_button: self.quick_items_button.clone(),
            using_controller: self.using_controller,
            controller_wheel_open_delay: self.controller_wheel_open_delay,
            switch_instantly: self.switch_instantly,
            item_names: self.item_names.clone(),
            text_shadows: self.text_shadows,
            font_scale_multiplier: self.font_scale_multiplier,
            icon_scale_multiplier: self.icon_scale_multiplier,
            radius_multiplier: self.radius_multiplier,
            min_radius: self.min_radius,
            modded_spells: clone_strings(&self.modded_spells),
            await_xinput_hook: self.await_xinput_hook,
            debugging: self.debugging,
            timing_offset: self.timing_offset,
        }
    }
}

impl Default for Settings {
    /// The default settings.
    fn default() -> (r: Settings)
        ensures
            r@ == default_settings(),
    {
        Settings::new_default()
    }
}

/// The keys that a settings file sets; a key the file does not name is `None`.
pub struct SettingsFile {
    pub spells_key: Option<String>,
    pub quick_items_key: Option<String>,
    pub spells_button: Option<String>,
    pub quick_items_button: Option<String>,
    pub using_controller: Option<bool>,
    pub controller_wheel_open_delay: Option<u32>,
    pub switch_instantly: Option<bool>,
    pub item_names: Option<String>,
    pub text_shadows: Option<bool>,
    pub font_scale_multiplier: Option<u32>,
    pub icon_scale_multiplier: Option<u32>,
    pub radius_multiplier: Option<u32>,
    pub min_radius: Option<u32>,
    pub modded_spells: Option<Vec<String>>,
    pub await_xinput_hook: Option<bool>,
    pub debugging: Option<bool>,
    pub timing_offset: Option<u32>,
}

pub open spec fn or_default<T>(o: Option<T>, d: T) -> T {
    match o {
        Some(v) => v,
        None => d,
    }
}

pub open spec fn string_or(o: Option<String>, d: Seq<char>) -> Seq<char> {
    match o {
        Some(v) => v@,
        None => d,
    }
}

/// The settings a file gives: each key it names takes the file's value, every
/// other key keeps its default.
pub open spec fn settings_from_file(f: SettingsFile) -> SettingsView {
    let d = default_settings();
    SettingsView {
        spells_key: string_or(f.spells_key, d.spells_key),
        quick_items_key: string_or(f.quick_items_key, d.quick_items_key),
        spells_button: string_or(f.spells_button, d.spells_button),
        quick_items_button: string_or(f.quick_items_button, d.quick_items_button),
        using_controller: or_default(f.using_controller, d.using_controller),
        controller_wheel_open_delay: or_default(
            f.controller_wheel_open_delay,
            d.controller_wheel_open_delay,
        ),
        switch_instantly: or_default(f.switch_instantly, d.switch_instantly),
        item_names: string_or(f.item_names, d.item_names),
        text_shadows: or_default(f.text_shadows, d.text_shadows),
        font_scale_multiplier: or_default(f.font_scale_multiplier, d.font_scale_multiplier),
        icon_scale_multiplier: or_default(f.icon_scale_multiplier, d.icon_scale_multiplier),
        radius_multiplier: or_default(f.radius_multiplier, d.radius_multiplier),
        min_radius: or_default(f.min_radius, d.min_radius),
        modded_spells: match f.modded_spells {
            Some(v) => strings_view(v@),
            None => d.modded_spells,
        },
        await_xinput_hook: or_default(f.await_xinput_hook, d.await_xinput_hook),
        debugging: or_default(f.debugging, d.debugging),
        timing_offset: or_default(f.timing_offset, d.timing_offset),
    }
}

/// A settings file overrides exactly the keys it names: each named key takes
/// the file's value, and every other key keeps its default.
pub proof fn lemma_file_keys_override(f: SettingsFile)
    ensures
        f.spells_key matches Some(v) ==> settings_from_file(f).spells_key == v@,
        f.spells_key is None ==> settings_from_file(f).spells_key == default_settings().spells_key,
        f.quick_items_key matches Some(v) ==> settings_from_file(f).quick_items_key == v@,
        f.quick_items_key is None ==> settings_from_file(f).quick_items_key == default_settings().quick_items_key,
        f.spells_button matches Some(v) ==> settings_from_file(f).spells_button == v@,
        f.spells_button is None ==> settings_from_file(f).spells_button == default_settings().spells_button,
        f.quick_items_button matches Some(v) ==> settings_from_file(f).quick_items_button == v@,
        f.quick_items_button is None ==> settings_from_file(f).quick_items_button == default_settings().quick_items_button,
        f.item_names matches Some(v) ==> settings_from_file(f).item_names == v@,
        f.item_names is None ==> settings_from_file(f).item_names == default_settings().item_names,
        f.using_controller matches Some(v) ==> settings_from_file(f).using_controller == v,
        f.using_controller is None ==> settings_from_file(f).using_controller == default_settings().using_controller,
        f.controller_wheel_open_delay matches Some(v) ==> settings_from_file(f).controller_wheel_open_delay == v,
        f.controller_wheel_open_delay is None ==> settings_from_file(f).controller_wheel_open_delay == default_settings().controller_wheel_open_delay,
        f.switch_instantly matches Some(v) ==> settings_from_file(f).switch_instantly == v,
        f.switch_instantly is None ==> settings_from_file(f).switch_instantly == default_settings().switch_instantly,
        f.text_shadows matches Some(v) ==> settings_from_file(f).text_shadows == v,
        f.text_shadows is None ==> settings_from_file(f).text_shadows == default_settings().text_shadows,
        f.font_scale_multiplier matches Some(v) ==> settings_from_file(f).font_scale_multiplier == v,
        f.font_scale_multiplier is None ==> settings_from_file(f).font_scale_multiplier == default_settings().font_scale_multiplier,
        f.icon_scale_multiplier matches Some(v) ==> settings_from_file(f).icon_scale_multiplier == v,
        f.icon_scale_multiplier is None ==> settings_from_file(f).icon_scale_multiplier == default_settings().icon_scale_multiplier,
        f.radius_multiplier matches Some(v) ==> settings_from_file(f).radius_multiplier == v,
        f.radius_multiplier is None ==> settings_from_file(f).radius_multiplier == default_settings().radius_multiplier,
        f.min_radius matches Some(v) ==> settings_from_file(f).min_radius == v,
        f.min_radius is None ==> settings_from_file(f).min_radius == default_settings().min_radius,
        f.await_xinput_hook matches Some(v) ==> settings_from_file(f).await_xinput_hook == v,
        f.await_xinput_hook is None ==> settings_from_file(f).await_xinput_hook == default_settings().await_xinput_hook,
        f.debugging matches Some(v) ==> settings_from_file(f).debugging == v,
        f.debugging is None ==> settings_from_file(f).debugging == default_settings().debugging,
        f.timing_offset matches Some(v) ==> settings_from_file(f).timing_offset == v,
        f.timing_offset is None ==> settings_from_file(f).timing_offset == default_settings().timing_offset,
        f.modded_spells matches Some(v) ==> settings_from_file(f).modded_spells == strings_view(v@),
        f.modded_spells is None ==> settings_from_file(f).modded_spells == default_settings().modded_spells,
{
}

impl SettingsFile {
    /// The settings this file gives: its keys over the defaults.
    pub fn into_settings(self) -> (r: Settings)
        ensures
            r@ == settings_from_file(self),
            self.spells_key matches Some(v) ==> r@.spells_key == v@,
            self.spells_key is None ==> r@.spells_key == default_settings().spells_key,
            self.quick_items_key matches Some(v) ==> r@.quick_items_key == v@,
            self.quick_items_key is None ==> r@.quick_items_key == default_settings().quick_items_key,
            self.spells_button matches Some(v) ==> r@.spells_button == v@,
            self.spells_button is None ==> r@.spells_button == default_settings().spells_button,
            self.quick_items_button matches Some(v) ==> r@.quick_items_button == v@,
            self.quick_items_button is None ==> r@.quick_items_button == default_settings().quick_items_button,
            self.item_names matches Some(v) ==> r@.item_names == v@,
            self.item_names is None ==> r@.item_names == default_settings().item_names,
            self.using_controller matches Some(v) ==> r@.using_controller == v,
            self.using_controller is None ==> r@.using_controller == default_settings().using_controller,
            self.controller_wheel_open_delay matches Some(v) ==> r@.controller_wheel_open_delay == v,
            self.controller_wheel_open_delay is None ==> r@.controller_wheel_open_delay == default_settings().controller_wheel_open_delay,
            self.switch_instantly matches Some(v) ==> r@.switch_instantly == v,
            self.switch_instantly is None ==> r@.switch_instantly == default_settings().switch_instantly,
            self.text_shadows matches Some(v) ==> r@.text_shadows == v,
            self.text_shadows is None ==> r@.text_shadows == default_settings().text_shadows,
            self.font_scale_multiplier matches Some(v) ==> r@.font_scale_multiplier == v,
            self.font_scale_multiplier is None ==> r@.font_scale_multiplier == default_settings().font_scale_multiplier,
            self.icon_scale_multiplier matches Some(v) ==> r@.icon_scale_multiplier == v,
            self.icon_scale_multiplier is None ==> r@.icon_scale_multiplier == default_settings().icon_scale_multiplier,
            self.radius_multiplier matches Some(v) ==> r@.radius_multiplier == v,
            self.radius_multiplier is None ==> r@.radius_multiplier == default_settings().radius_multiplier,
            self.min_radius matches Some(v) ==> r@.min_radius == v,
            self.min_radius is None ==> r@.min_radius == default_settings().min_radius,
            self.await_xinput_hook matches Some(v) ==> r@.await_xinput_hook == v,
            self.await_xinput_hook is None ==> r@.await_xinput_hook == default_settings().await_xinput_hook,
            self.debugging matches Some(v) ==> r@.debugging == v,
            self.debugging is None ==> r@.debugging == default_settings().debugging,
            self.timing_offset matches Some(v) ==> r@.timing_offset == v,
            self.timing_offset is None ==> r@.timing_offset == default_settings().timing_offset,
            self.modded_spells matches Some(v) ==> r@.modded_spells == strings_view(v@),
            self.modded_spells is None ==> r@.modded_spells == default_settings().modded_spells,
    {
        let ghost f = self;
        let r = self.overlay_defaults();
        proof {
            lemma_file_keys_override(f);
        }
        r
    }

    /// Each key of the file over the default settings.
    fn overlay_defaults(self) -> (r: Settings)
        ensures
            r@ == settings_from_file(self),
    {
        let d = Settings::new_default();
        let r = Settings {
            spells_key: match self.spells_key {
                Some(v) => v,
                None => d.spells_key,
            },
            quick_items_key: match self.quick_items_key {
                Some(v) => v,
                None => d.quick_items_key,
            },
            spells_button: match self.spells_button {
                Some(v) => v,
                None => d.spells_button,
            },
            quick_items_button: match self.quick_items_button {
                Some(v) => v,
                None => d.quick_items_button,
            },
            using_controller: match self.using_controller {
                Some(v) => v,
                None => d.using_controller,
            },
            controller_wheel_open_delay: match self.controller_wheel_open_delay {
                Some(v) => v,
                None => d.controller_wheel_open_delay,
            },
            switch_instantly: match self.switch_instantly {
                Some(v) => v,
                None => d.switch_instantly,
            },
            item_names: match self.item_names {
                Some(v) => v,
                None => d.item_names,
            },
            text_shadows: match self.text_shadows {
                Some(v) => v,
                None => d.text_shadows,
            },
            font_scale_multiplier: match self.font_scale_multiplier {
                Some(v) => v,
                None => d.font_scale_multiplier,
            },
            icon_scale_multiplier: match self.icon_scale_multiplier {
                Some(v) => v,
                None => d.icon_scale_multiplier,
            },
            radius_multiplier: match self.radius_multiplier {
                Some(v) => v,
                None => d.radius_multiplier,
            },
            min_radius: match self.min_radius {
                Some(v) => v,
                None => d.min_radius,
            },
            modded_spells: match self.modded_spells {
                Some(v) => v,
                None => d.modded_spells,
            },
            await_xinput_hook: match self.await_xinput_hook {
                Some(v) => v,
                None => d.await_xinput_hook,
            },
            debugging: match self.debugging {
                Some(v) => v,
                None => d.debugging,
            },
            timing_offset: match self.timing_offset {
                Some(v) => v,
                None => d.timing_offset,
            },
        };
        r
    }
}


/// How the wheel shows item names.
#[derive(Clone, Copy, Debug, PartialEq, Eq, Structural)]
pub enum ItemNames {
    Show,
    Center,
    Hide,
}

/// Whether `s` spells the word whose small letters are `lower` and capitals
/// `upper`, each letter in either case.
pub open spec fn spells_word(s: Seq<char>, lower: Seq<char>, upper: Seq<char>) -> bool {
    &&& s.len() == lower.len()
    &&& forall|i: int| 0 <= i < s.len() ==> s[i] == lower[i] || s[i] == upper[i]
}

/// The setting `item_names` read from its text: "show", "center" or "hide",
/// in any letter case; anything else shows the names.
pub open spec fn item_names_of(s: Seq<char>) -> ItemNames {
    if spells_word(s, seq!['c', 'e', 'n', 't', 'e', 'r'], seq!['C', 'E', 'N', 'T', 'E', 'R']) {
        ItemNames::Center
    } else if spells_word(s, seq!['h', 'i', 'd', 'e'], seq!['H', 'I', 'D', 'E']) {
        ItemNames::Hide
    } else {
        ItemNames::Show
    }
}

fn spells_word_exec(s: &Vec<char>, lower: &[char], upper: &[char]) -> (r: bool)
    requires
        lower@.len() == upper@.len(),
    ensures
        r == spells_word(s@, lower@, upper@),
{
    if s.len() != lower.len() {
        return false;
    }
    let n = s.len();
    let mut i: usize = 0;
    while i < n
        invariant
            n == s@.len(),
            n == lower@.len(),
            n == upper@.len(),
            i <= n,
            forall|k: int| 0 <= k < i ==> s@[k] == lower@[k] || s@[k] == upper@[k],
        decreases n - i,
    {
        if s[i] != lower[i] && s[i] != upper[i] {
            return false;
        }
        i += 1;
    }
    true
}

impl ItemNames {
    /// Reads the setting from its text, ignoring letter case; an unknown
    /// name means `Show`.
    pub fn from_name(name: &str) -> (r: ItemNames)
        ensures
            r == item_names_of(name@),
    {
        let s = crate::text::chars_of(name);
        let center_lower: [char; 6] = ['c', 'e', 'n', 't', 'e', 'r'];
        let center_upper: [char; 6] = ['C', 'E', 'N', 'T', 'E', 'R'];
        let hide_lower: [char; 4] = ['h', 'i', 'd', 'e'];
        let hide_upper: [char; 4] = ['H', 'I', 'D', 'E'];
        assert(center_lower@ == seq!['c', 'e', 'n', 't', 'e', 'r']);
        assert(center_upper@ == seq!['C', 'E', 'N', 'T', 'E', 'R']);
        assert(hide_lower@ == seq!['h', 'i', 'd', 'e']);
        assert(hide_upper@ == seq!['H', 'I', 'D', 'E']);
        if spells_word_exec(&s, center_lower.as_slice(), center_upper.as_slice()) {
            ItemNames::Center
        } else if spells_word_exec(&s, hide_lower.as_slice(), hide_upper.as_slice()) {
            ItemNames::Hide
        } else {
            ItemNames::Show
        }
    }
}

/// The name under which the settings reload registers in the run registry.
pub open spec fn reload_name() -> Seq<char> {
    "Settings::read_or_default"@
}

/// What a reload gives: the file's settings, or the defaults where it could
/// not be read.
pub open spec fn loaded_or_default(loaded: Option<Settings>) -> SettingsView {
    match loaded {
        Some(s) => s@,
        None => default_settings(),
    }
}

impl Settings {
    /// How this setting shows item names.
    pub fn item_names(&self) -> (r: ItemNames)
        ensures
            r == item_names_of(self.item_names@),
    {
        ItemNames::from_name(self.item_names.as_str())
    }

    /// The current settings. At most once a second (by the registry's entry
    /// for the reload) the file is read again through `open_toml`; its result,
    /// or the defaults where it gives none, replaces the cached settings.
    /// Between reloads the cached settings are returned.
    pub fn read_or_default<F: FnOnce() -> Option<Settings>>(
        registry: &mut RunEveryRegistry,
        cache: &mut Settings,
        now: u64,
        open_toml: F,
    ) -> (r: Settings)
        requires
            old(registry).wf(),
            open_toml.requires(()),
        ensures
            final(registry).wf(),
            final(registry).view() == spec_after_run(
                old(registry).view(),
                reload_name(),
                SECOND_NANOS,
                now,
            ),
            spec_can_run(old(registry).view(), reload_name(), now) ==> exists|loaded: Option<
                Settings,
            >| #[trigger] open_toml.ensures((), loaded) && r@ == loaded_or_default(loaded),
            !spec_can_run(old(registry).view(), reload_name(), now) ==> r@ == old(cache)@,
            final(cache)@ == r@,
    {
        let name = "Settings::read_or_default";
        if registry.can_run(name, SECOND_NANOS, now) {
            let loaded = open_toml();
            let settings = match loaded {
                Some(s) => s,
                None => Settings::new_default(),
            };
            *cache = settings.duplicate();
            return settings;
        }
        cache.duplicate()
    }
}

/// Whether debugging output is on, by the current settings (see
/// `Settings::read_or_default`, which this calls).
pub fn is_debugging<F: FnOnce() -> Option<Settings>>(
    registry: &mut RunEveryRegistry,
    cache: &mut Settings,
    now: u64,
    open_toml: F,
) -> (r: bool)
    requires
        old(registry).wf(),
        open_toml.requires(()),
    ensures
        final(registry).wf(),
        final(registry).view() == spec_after_run(old(registry).view(), reload_name(), SECOND_NANOS, now),
        spec_can_run(old(registry).view(), reload_name(), now) ==> exists|loaded: Option<Settings>|
            #[trigger] open_toml.ensures((), loaded) && final(cache)@ == loaded_or_default(loaded),
        !spec_can_run(old(registry).view(), reload_name(), now) ==> final(cache)@ == old(cache)@,
        r == final(cache)@.debugging,
{
    let s = Settings::read_or_default(registry, cache, now, open_toml);
    s.debugging
}

} // verus!
