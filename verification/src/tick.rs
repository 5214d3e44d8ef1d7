//! The decisions the mod takes once per game frame: pending slot selections,
//! whether the player is in a menu, which wheel the held input opens, and
//! what changes when the open wheel changes.
use vstd::prelude::*;
use crate::rendering::WheelType;

verus! {

/// The value of a selection slot that holds no pending selection.
pub const NO_SELECTION: i32 = -1;

/// State shared between the frame task, the wheel and the input hook.
pub struct ModState {
    selected_spell_index: i32,
    selected_quick_item_index: i32,
    in_menus: bool,
    prev_wheel_type: WheelType,
    suppress_camera: bool,
}

pub ghost struct ModStateView {
    pub selected_spell_index: i32,
    pub selected_quick_item_index: i32,
    pub in_menus: bool,
    pub prev_wheel_type: WheelType,
    pub suppress_camera: bool,
}

impl View for ModState {
    type V = ModStateView;

    closed spec fn view(&self) -> ModStateView {
        ModStateView {
            selected_spell_index: self.selected_spell_index,
            selected_quick_item_index: self.selected_quick_item_index,
            in_menus: self.in_menus,
            prev_wheel_type: self.prev_wheel_type,
            suppress_camera: self.suppress_camera,
        }
    }
}

impl ModState {
    /// No pending selection, in a menu (until a frame says otherwise), no
    /// wheel open, camera free.
    pub fn new() -> (r: Self)
        ensures
            r@ == (ModStateView {
                selected_spell_index: NO_SELECTION,
                selected_quick_item_index: NO_SELECTION,
                in_menus: true,
                prev_wheel_type: WheelType::Closed,
                suppress_camera: false,
            }),
            camera_follows_wheel(r@),
    {
        Self {
            selected_spell_index: NO_SELECTION,
            selected_quick_item_index: NO_SELECTION,
            in_menus: true,
            prev_wheel_type: WheelType::Closed,
            suppress_camera: false,
        }
    }

    /// Whether the right stick's input is being withheld from the camera.
    pub fn suppress_camera(&self) -> (r: bool)
        ensures
            r == self@.suppress_camera,
    {
        self.suppress_camera
    }
}

/// Asks the next frame to select spell slot `idx`.
pub fn set_selected_spell_index(state: &mut ModState, idx: i32)
    ensures
        final(state)@ == (ModStateView { selected_spell_index: idx, ..old(state)@ }),
{
    state.selected_spell_index = idx;
}

/// Asks the next frame to select quick item slot `idx`.
pub fn set_selected_quick_item_index(state: &mut ModState, idx: i32)
    ensures
        final(state)@ == (ModStateView { selected_quick_item_index: idx, ..old(state)@ }),
{
    state.selected_quick_item_index = idx;
}

/// A pending selection read from its slot: none where the slot is empty.
pub open spec fn pending(slot: i32) -> Option<i32> {
    if slot == NO_SELECTION {
        None
    } else {
        Some(slot)
    }
}

/// The pending spell selection and the state after it is taken: the slot is
/// emptied.
pub open spec fn spec_take_spell(s: ModStateView) -> (Option<i32>, ModStateView) {
    (pending(s.selected_spell_index), ModStateView { selected_spell_index: NO_SELECTION, ..s })
}

/// The pending quick item selection and the state after it is taken.
pub open spec fn spec_take_quick_item(s: ModStateView) -> (Option<i32>, ModStateView) {
    (
        pending(s.selected_quick_item_index),
        ModStateView { selected_quick_item_index: NO_SELECTION, ..s },
    )
}

/// Takes the pending spell selection, if any (see `spec_take_spell`).
pub fn take_selected_spell_index(state: &mut ModState) -> (r: Option<i32>)
    ensures
        (r, final(state)@) == spec_take_spell(old(state)@),
{
    let idx = state.selected_spell_index;
    if idx != NO_SELECTION {
        state.selected_spell_index = NO_SELECTION;
        Some(idx)
    } else {
        None
    }
}

/// Takes the pending quick item selection, if any (see
/// `spec_take_quick_item`).
pub fn take_selected_quick_item_index(state: &mut ModState) -> (r: Option<i32>)
    ensures
        (r, final(state)@) == spec_take_quick_item(old(state)@),
{
    let idx = state.selected_quick_item_index;
    if idx != NO_SELECTION {
        state.selected_quick_item_index = NO_SELECTION;
        Some(idx)
    } else {
        None
    }
}

/// Whether the player was in a menu at the last frame.
pub fn in_menus(state: &ModState) -> (r: bool)
    ensures
        r == state@.in_menus,
{
    state.in_menus
}

/// Records the frame's menu state: in a menu when no character is loaded or
/// the HUD is not in its default state.
pub fn set_in_menus(state: &mut ModState, not_in_game: bool, paused: bool)
    ensures
        final(state)@ == (ModStateView { in_menus: not_in_game || paused, ..old(state)@ }),
{
    state.in_menus = not_in_game || paused;
}

/// Withholds (or releases) the right stick's input from the camera.
pub fn set_suppress_camera(state: &mut ModState, suppress_camera: bool)
    ensures
        final(state)@ == (ModStateView { suppress_camera, ..old(state)@ }),
{
    state.suppress_camera = suppress_camera;
}

/// The state after the frame's wheel is `selected`, and whether a wheel is
/// open where it changed: the new wheel becomes the last one, and the camera
/// is withheld exactly while a wheel is open. An unchanged wheel changes
/// nothing.
pub open spec fn spec_change_wheel(s: ModStateView, selected: WheelType) -> (Option<bool>, ModStateView) {
    if s.prev_wheel_type == selected {
        (None, s)
    } else {
        (
            Some(selected != WheelType::Closed),
            ModStateView {
                prev_wheel_type: selected,
                suppress_camera: selected != WheelType::Closed,
                ..s
            },
        )
    }
}

/// Takes in the frame's wheel (see `spec_change_wheel`); the result, where
/// the wheel changed, says whether one is open, and the mouse cursor shows
/// only then.
pub fn change_wheel(state: &mut ModState, selected: WheelType) -> (r: Option<bool>)
    ensures
        (r, final(state)@) == spec_change_wheel(old(state)@, selected),
{
    if state.prev_wheel_type != selected {
        state.prev_wheel_type = selected;
        let is_wheel_open = selected != WheelType::Closed;
        set_suppress_camera(state, is_wheel_open);
        Some(is_wheel_open)
    } else {
        None
    }
}

/// The camera is withheld exactly while the last frame's wheel is open.
pub open spec fn camera_follows_wheel(s: ModStateView) -> bool {
    s.suppress_camera == (s.prev_wheel_type != WheelType::Closed)
}

/// Once a change of wheel has been taken in, taking in the same wheel again
/// changes nothing and reports nothing.
pub proof fn lemma_change_wheel_idempotent(s: ModStateView, selected: WheelType)
    ensures
        spec_change_wheel(spec_change_wheel(s, selected).1, selected) == (
            None::<bool>,
            spec_change_wheel(s, selected).1,
        ),
{
}

/// Taking in the frames' wheels keeps the camera withheld exactly while a
/// wheel is open, from the initial state on.
pub proof fn lemma_camera_follows_wheel(s: ModStateView, selected: WheelType)
    requires
        camera_follows_wheel(s),
    ensures
        camera_follows_wheel(spec_change_wheel(s, selected).1),
{
}

/// The wheel the player's input opens: none in a menu; else the spell wheel
/// when its input is active, else the quick item wheel when its input is.
pub open spec fn spec_selected_wheel_type(
    in_menus: bool,
    spells_active: bool,
    quick_items_active: bool,
) -> WheelType {
    if in_menus {
        WheelType::Closed
    } else if spells_active {
        WheelType::Spells
    } else if quick_items_active {
        WheelType::QuickItems
    } else {
        WheelType::Closed
    }
}

/// No wheel opens while the player is in a menu, whatever is held; out of a
/// menu the spell input wins over the quick item input, and with neither held
/// no wheel opens.
pub proof fn lemma_selected_wheel_type(in_menus: bool, spells_active: bool, quick_items_active: bool)
    ensures
        in_menus ==> spec_selected_wheel_type(in_menus, spells_active, quick_items_active)
            == WheelType::Closed,
        !in_menus && spells_active ==> spec_selected_wheel_type(
            in_menus,
            spells_active,
            quick_items_active,
        ) == WheelType::Spells,
        !in_menus && !spells_active && quick_items_active ==> spec_selected_wheel_type(
            in_menus,
            spells_active,
            quick_items_active,
        ) == WheelType::QuickItems,
        !spells_active && !quick_items_active ==> spec_selected_wheel_type(
            in_menus,
            spells_active,
            quick_items_active,
        ) == WheelType::Closed,
{
}

/// The wheel the player's input opens (see `spec_selected_wheel_type`).
pub fn selected_wheel_type(in_menus: bool, spells_active: bool, quick_items_active: bool) -> (r:
    WheelType)
    ensures
        r == spec_selected_wheel_type(in_menus, spells_active, quick_items_active),
        in_menus ==> r == WheelType::Closed,
        !in_menus && spells_active ==> r == WheelType::Spells,
        !in_menus && !spells_active && quick_items_active ==> r == WheelType::QuickItems,
        !spells_active && !quick_items_active ==> r == WheelType::Closed,
{
    if in_menus {
        return WheelType::Closed;
    }
    if spells_active {
        WheelType::Spells
    } else if quick_items_active {
        WheelType::QuickItems
    } else {
        WheelType::Closed
    }
}

/// The right stick as the game sees it: centred while the camera is withheld.
pub fn stick_for_game(suppress_camera: bool, thumb_rx: i16, thumb_ry: i16) -> (r: (i16, i16))
    ensures
        suppress_camera ==> r == (0i16, 0i16),
        !suppress_camera ==> r == (thumb_rx, thumb_ry),
{
    if suppress_camera {
        (0, 0)
    } else {
        (thumb_rx, thumb_ry)
    }
}

/// The slot of the first highlighted entry of a wheel (entries as slot and
/// whether highlighted), if any.
pub open spec fn first_highlighted(entries: Seq<(i32, bool)>) -> Option<i32>
    decreases entries.len(),
{
    if entries.len() == 0 {
        None
    } else if entries[0].1 {
        Some(entries[0].0)
    } else {
        first_highlighted(entries.drop_first())
    }
}

fn find_highlighted(entries: &[(i32, bool)]) -> (r: Option<i32>)
    ensures
        r == first_highlighted(entries@),
{
    let n = entries.len();
    let mut i: usize = 0;
    assert(entries@.skip(0) =~= entries@);
    while i < n
        invariant
            n == entries@.len(),
            i <= n,
            first_highlighted(entries@) == first_highlighted(entries@.skip(i as int)),
        decreases n - i,
    {
        assert(entries@.skip(i as int).drop_first() =~= entries@.skip(i + 1));
        if entries[i].1 {
            return Some(entries[i].0);
        }
        i += 1;
    }
    None
}

/// Whether a frame selects what the wheel highlights: every frame when
/// switching instantly, else when the open wheel changes (closes, mostly).
pub fn should_switch_items(switch_instantly: bool, prev_type: WheelType, wheel_type: WheelType) -> (r:
    bool)
    ensures
        r == (switch_instantly || prev_type != wheel_type),
{
    switch_instantly || prev_type != wheel_type
}

/// The state after selecting what the last frame's wheel highlighted: the
/// first highlighted entry's slot becomes the pending selection of that
/// wheel's kind; without a wheel or a highlighted entry nothing changes.
pub open spec fn spec_switch_item(
    s: ModStateView,
    prev_type: WheelType,
    spells: Seq<(i32, bool)>,
    quick_items: Seq<(i32, bool)>,
) -> ModStateView {
    match prev_type {
        WheelType::Spells => match first_highlighted(spells) {
            Some(i) => ModStateView { selected_spell_index: i, ..s },
            None => s,
        },
        WheelType::QuickItems => match first_highlighted(quick_items) {
            Some(i) => ModStateView { selected_quick_item_index: i, ..s },
            None => s,
        },
        WheelType::Closed => s,
    }
}

/// Selects what the last frame's wheel highlighted (see `spec_switch_item`).
pub fn switch_item(
    state: &mut ModState,
    prev_type: WheelType,
    spells: &[(i32, bool)],
    quick_items: &[(i32, bool)],
)
    ensures
        final(state)@ == spec_switch_item(old(state)@, prev_type, spells@, quick_items@),
{
    match prev_type {
        WheelType::Spells => {
            if let Some(i) = find_highlighted(spells) {
                set_selected_spell_index(state, i);
            }
        },
        WheelType::QuickItems => {
            if let Some(i) = find_highlighted(quick_items) {
                set_selected_quick_item_index(state, i);
            }
        },
        WheelType::Closed => {},
    }
}

/// A spell slot that the wheel selects is applied by the next frame, and
/// only once: the frame after finds no pending selection.
pub proof fn lemma_spell_selection_applied_once(
    s: ModStateView,
    spells: Seq<(i32, bool)>,
    quick_items: Seq<(i32, bool)>,
)
    requires
        first_highlighted(spells) matches Some(i) && i != NO_SELECTION,
    ensures
        spec_take_spell(spec_switch_item(s, WheelType::Spells, spells, quick_items)).0
            == first_highlighted(spells),
        spec_take_spell(
            spec_take_spell(spec_switch_item(s, WheelType::Spells, spells, quick_items)).1,
        ).0 is None,
{
}

/// The same for a quick item slot.
pub proof fn lemma_quick_item_selection_applied_once(
    s: ModStateView,
    spells: Seq<(i32, bool)>,
    quick_items: Seq<(i32, bool)>,
)
    requires
        first_highlighted(quick_items) matches Some(i) && i != NO_SELECTION,
    ensures
        spec_take_quick_item(spec_switch_item(s, WheelType::QuickItems, spells, quick_items)).0
            == first_highlighted(quick_items),
        spec_take_quick_item(
            spec_take_quick_item(
                spec_switch_item(s, WheelType::QuickItems, spells, quick_items),
            ).1,
        ).0 is None,
{
}

} // verus!
