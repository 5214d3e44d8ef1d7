//! Equipped goods (quick items, and spells shown through the same wheel):
//! their slot, parameter id, icon and display name.
use vstd::prelude::*;
use crate::utf16::{decode_utf16_lossy, utf16_lossy};

verus! {

/// The message table holding the base game's goods names.
pub const BASE_GAME_ITEM_NAME: u32 = 10;

/// The message table holding the expansion's goods names.
pub const DLC_ITEM_NAME: u32 = 319;

#[derive(Clone, Debug, PartialEq)]
pub struct Item {
    index: i32,
    id: u32,
    icon_id: u16,
    name: String,
}

pub ghost struct ItemView {
    pub index: i32,
    pub id: u32,
    pub icon_id: u16,
    pub name: Seq<char>,
}

impl View for Item {
    type V = ItemView;

    closed spec fn view(&self) -> ItemView {
        ItemView { index: self.index, id: self.id, icon_id: self.icon_id, name: self.name@ }
    }
}

/// A message's text decoded from its UTF-16 units, where there is a message.
pub open spec fn decoded(units: Option<Seq<u16>>) -> Option<Seq<char>> {
    match units {
        Some(u) => Some(utf16_lossy(u)),
        None => None,
    }
}

/// The name of an entry: the base game's message if there is one, else the
/// expansion's.
pub open spec fn name_of(base: Option<Seq<u16>>, dlc: Option<Seq<u16>>) -> Option<Seq<char>> {
    match decoded(base) {
        Some(n) => Some(n),
        None => decoded(dlc),
    }
}

pub open spec fn units_view(units: Option<&[u16]>) -> Option<Seq<u16>> {
    match units {
        Some(u) => Some(u@),
        None => None,
    }
}

pub open spec fn string_view(s: Option<String>) -> Option<Seq<char>> {
    match s {
        Some(s) => Some(s@),
        None => None,
    }
}

/// Decodes a message's UTF-16 units (up to, not including, its terminating
/// zero), replacing unpaired surrogates with U+FFFD.
pub fn read_utf16_string(units: Option<&[u16]>) -> (r: Option<String>)
    ensures
        string_view(r) == decoded(units_view(units)),
{
    match units {
        Some(u) => Some(decode_utf16_lossy(u)),
        None => None,
    }
}

impl Item {
    /// The item in slot `index` with parameter id `id`; `None` where the goods
    /// parameter has no row for it (`icon_id` is `None`) or neither message
    /// table names it.
    pub fn try_new(
        index: i32,
        id: u32,
        icon_id: Option<u16>,
        base_name: Option<&[u16]>,
        dlc_name: Option<&[u16]>,
    ) -> (r: Option<Item>)
        ensures
            r is None <==> (icon_id is None || name_of(units_view(base_name), units_view(dlc_name)) is None),
            r matches Some(item) ==> item@ == (ItemView {
                index,
                id,
                icon_id: icon_id->0,
                name: name_of(units_view(base_name), units_view(dlc_name))->0,
            }),
    {
        let icon_id = match icon_id {
            Some(i) => i,
            None => return None,
        };
        let name = match Self::get_name(base_name, dlc_name) {
            Some(n) => n,
            None => return None,
        };
        Some(Item { index, id, icon_id, name })
    }

    pub fn index(&self) -> (r: i32)
        ensures
            r == self@.index,
    {
        self.index
    }

    pub fn id(&self) -> (r: u32)
        ensures
            r == self@.id,
    {
        self.id
    }

    pub fn icon_id(&self) -> (r: u16)
        ensures
            r == self@.icon_id,
    {
        self.icon_id
    }

    pub fn name(&self) -> (r: &str)
        ensures
            r@ == self@.name,
    {
        self.name.as_str()
    }

    /// The name from the base game's message, or else from the expansion's.
    pub fn get_name(base_name: Option<&[u16]>, dlc_name: Option<&[u16]>) -> (r: Option<String>)
        ensures
            string_view(r) == name_of(units_view(base_name), units_view(dlc_name)),
    {
        match read_utf16_string(base_name) {
            Some(n) => Some(n),
            None => read_utf16_string(dlc_name),
        }
    }
}

/// What the game holds for one equipment slot: the slot, the parameter id,
/// the goods row's icon where there is a row, and the two messages.
pub struct ItemCandidate {
    pub index: i32,
    pub id: u32,
    pub icon_id: Option<u16>,
    pub base_name: Option<Vec<u16>>,
    pub dlc_name: Option<Vec<u16>>,
}

pub open spec fn vec_units_view(units: Option<Vec<u16>>) -> Option<Seq<u16>> {
    match units {
        Some(u) => Some(u@),
        None => None,
    }
}

/// The item a slot yields, if any.
pub open spec fn candidate_item(c: ItemCandidate) -> Option<ItemView> {
    let name = name_of(vec_units_view(c.base_name), vec_units_view(c.dlc_name));
    if c.icon_id is None || name is None {
        None
    } else {
        Some(ItemView { index: c.index, id: c.id, icon_id: c.icon_id->0, name: name->0 })
    }
}

/// The items that the slots yield, in slot order, skipping slots that yield
/// none.
pub open spec fn equipped_view(cs: Seq<ItemCandidate>) -> Seq<ItemView>
    decreases cs.len(),
{
    if cs.len() == 0 {
        Seq::empty()
    } else {
        match candidate_item(cs.last()) {
            Some(v) => equipped_view(cs.drop_last()).push(v),
            None => equipped_view(cs.drop_last()),
        }
    }
}

pub open spec fn items_view(v: Seq<Item>) -> Seq<ItemView> {
    v.map_values(|i: Item| i@)
}

fn as_units(v: &Option<Vec<u16>>) -> (r: Option<&[u16]>)
    ensures
        units_view(r) == vec_units_view(*v),
{
    match v {
        Some(u) => Some(u.as_slice()),
        None => None,
    }
}

/// The equipped items of a list of slots: each slot that yields an item, in
/// order.
pub fn equipped_items(slots: &[ItemCandidate]) -> (r: Vec<Item>)
    ensures
        items_view(r@) == equipped_view(slots@),
{
    let mut out: Vec<Item> = Vec::new();
    let n = slots.len();
    let mut i: usize = 0;
    while i < n
        invariant
            n == slots@.len(),
            i <= n,
            items_view(out@) == equipped_view(slots@.take(i as int)),
        decreases n - i,
    {
        let c = &slots[i];
        let item = Item::try_new(c.index, c.id, c.icon_id, as_units(&c.base_name), as_units(&c.dlc_name));
        proof {
            assert(slots@.take(i as int + 1).drop_last() =~= slots@.take(i as int));
        }
        match item {
            Some(it) => {
                out.push(it);
                assert(items_view(out@) =~= equipped_view(slots@.take(i as int + 1)));
            },
            None => {
                assert(items_view(out@) =~= equipped_view(slots@.take(i as int + 1)));
            },
        }
        i += 1;
    }
    assert(slots@.take(n as int) =~= slots@);
    out
}

} // verus!
