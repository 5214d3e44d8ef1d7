//! What the wheel draws: which wheel is open, the equipped entries it shows,
//! and how text is centred.
use vstd::prelude::*;
use crate::items::Item;
use crate::spells::Spell;

verus! {

/// Which wheel is open, if any.
#[derive(Clone, Copy, Debug, PartialEq, Eq, Structural)]
pub enum WheelType {
    Spells,
    QuickItems,
    /// No wheel is open.
    Closed,
}

/// Along which axes a text is centred on its anchor.
#[derive(Clone, Copy, Debug, PartialEq, Eq, Structural)]
pub enum Centered {
    XY,
    X,
    Y,
    /// Not centred on either axis.
    Neither,
}

impl Centered {
    /// Whether the text is centred horizontally.
    pub fn x(&self) -> (r: bool)
        ensures
            r == (*self == Centered::X || *self == Centered::XY),
    {
        match self {
            Centered::X | Centered::XY => true,
            _ => false,
        }
    }

    /// Whether the text is centred vertically.
    pub fn y(&self) -> (r: bool)
        ensures
            r == (*self == Centered::Y || *self == Centered::XY),
    {
        match self {
            Centered::Y | Centered::XY => true,
            _ => false,
        }
    }
}

/// The spells shown by the spell wheel, and whether it draws.
pub struct SpellWheelData {
    pub spells: Vec<Spell>,
    pub do_render: bool,
}

impl SpellWheelData {
    /// No spells, not drawing.
    pub fn new() -> (r: Self)
        ensures
            r.spells@ == Seq::<Spell>::empty(),
            !r.do_render,
    {
        Self { spells: Vec::new(), do_render: false }
    }

    /// Hands the data to `f` to change it.
    pub fn mutate<F: FnOnce(Self) -> Self>(self, f: F) -> (r: Self)
        requires
            f.requires((self,)),
        ensures
            f.ensures((self,), r),
    {
        f(self)
    }

    /// What `f` reads from the data.
    pub fn get<T, F: FnOnce(&Self) -> T>(&self, f: F) -> (r: T)
        requires
            f.requires((self,)),
        ensures
            f.ensures((self,), r),
    {
        f(self)
    }
}

/// The equipped spells and quick items shown by the wheels, and which wheel
/// is open.
pub struct ItemWheelData {
    pub spells: Vec<Item>,
    pub quick_items: Vec<Item>,
    pub wheel_type: WheelType,
}

impl ItemWheelData {
    /// Nothing equipped, no wheel open.
    pub fn new() -> (r: Self)
        ensures
            r.spells@ == Seq::<Item>::empty(),
            r.quick_items@ == Seq::<Item>::empty(),
            r.wheel_type == WheelType::Closed,
    {
        Self { spells: Vec::new(), quick_items: Vec::new(), wheel_type: WheelType::Closed }
    }

    /// Hands the data to `f` to change it.
    pub fn mutate<F: FnOnce(Self) -> Self>(self, f: F) -> (r: Self)
        requires
            f.requires((self,)),
        ensures
            f.ensures((self,), r),
    {
        f(self)
    }

    /// What `f` reads from the data.
    pub fn get<T, F: FnOnce(&Self) -> T>(&self, f: F) -> (r: T)
        requires
            f.requires((self,)),
        ensures
            f.ensures((self,), r),
    {
        f(self)
    }
}

} // verus!
