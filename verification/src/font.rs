//! Handles to the renderer's fonts and glyph range lists, kept as the plain
//! words the renderer uses for them.
use vstd::prelude::*;

verus! {

/// A font of the renderer: the address of its font object, or none.
#[derive(Clone, Copy, Debug, PartialEq, Eq, Structural)]
pub struct FontId {
    ptr: Option<usize>,
}

impl FontId {
    #[verifier::type_invariant]
    spec fn no_null_address(&self) -> bool {
        self.ptr != Some(0usize)
    }

    /// The address, where there is a font.
    pub closed spec fn addr(&self) -> Option<usize> {
        self.ptr
    }

    /// No font.
    pub fn none() -> (r: FontId)
        ensures
            r.addr() is None,
    {
        Self { ptr: None }
    }

    /// The font at address `raw`; address 0 is no font.
    pub fn from_raw(raw: usize) -> (r: FontId)
        ensures
            raw == 0 ==> r.addr() is None,
            raw != 0 ==> r.addr() == Some(raw),
    {
        if raw == 0 {
            Self { ptr: None }
        } else {
            Self { ptr: Some(raw) }
        }
    }

    /// The address as a word, 0 for no font.
    pub fn to_raw(&self) -> (r: usize)
        ensures
            self.addr() is None ==> r == 0,
            self.addr() matches Some(a) ==> r == a,
    {
        proof {
            use_type_invariant(self);
        }
        match self.ptr {
            Some(p) => p,
            None => 0,
        }
    }
}

/// A glyph range list of the renderer, as the bits of its handle.
#[derive(Clone, Copy, Debug, PartialEq, Eq, Structural)]
pub struct FontChars(pub u128);

} // verus!
