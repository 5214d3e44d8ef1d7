//! Equipped spells: their slot, parameter id and display name.
use vstd::prelude::*;
use crate::items::{name_of, read_utf16_string, string_view, units_view};

verus! {

/// The message table holding the base game's spell names.
pub const BASE_GAME_SPELL_NAME: u32 = 10;

/// The message table holding the expansion's spell names.
pub const DLC_SPELL_NAME: u32 = 319;

#[derive(Clone, Debug, PartialEq)]
pub struct Spell {
    index: i32,
    id: u32,
    name: String,
}

pub ghost struct SpellView {
    pub index: i32,
    pub id: u32,
    pub name: Seq<char>,
}

impl View for Spell {
    type V = SpellView;

    closed spec fn view(&self) -> SpellView {
        SpellView { index: self.index, id: self.id, name: self.name@ }
    }
}

impl Spell {
    /// The spell in slot `index` with parameter id `id`; `None` where neither
    /// message table names it.
    pub fn try_new(index: i32, id: u32, base_name: Option<&[u16]>, dlc_name: Option<&[u16]>) -> (r:
        Option<Spell>)
        ensures
            r is None <==> name_of(units_view(base_name), units_view(dlc_name)) is None,
            r matches Some(s) ==> s@ == (SpellView {
                index,
                id,
                name: name_of(units_view(base_name), units_view(dlc_name))->0,
            }),
    {
        match Self::get_name(base_name, dlc_name) {
            Some(name) => Some(Spell { index, id, name }),
            None => None,
        }
    }

    pub fn index(&self) -> (r: i32)
        ensures
            r == self@.index,
    {
        self.index
    }

    pub fn id(&self) -> (r: u32)
        ensures
            r == self@.id,
    {
        self.id
    }

    pub fn name(&self) -> (r: &str)
        ensures
            r@ == self@.name,
    {
        self.name.as_str()
    }

    /// The name from the base game's message, or else from the expansion's.
    pub fn get_name(base_name: Option<&[u16]>, dlc_name: Option<&[u16]>) -> (r: Option<String>)
        ensures
            string_view(r) == name_of(units_view(base_name), units_view(dlc_name)),
    {
        match read_utf16_string(base_name) {
            Some(n) => Some(n),
            None => read_utf16_string(dlc_name),
        }
    }
}

} // verus!
