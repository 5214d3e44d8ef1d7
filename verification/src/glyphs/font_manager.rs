//! The fonts the wheel loads besides its Latin one: each font file's bytes
//! and the glyph ranges that the item names of its language need.
use vstd::prelude::*;
use crate::glyphs::builder::{build_glyph_ranges, bmp_codepoints, is_glyph_ranges};

verus! {

/// A font file's bytes and the glyph ranges to build from it.
pub struct FontData {
    pub font_bytes: Vec<u8>,
    pub msg_char_ranges: Vec<u32>,
}

impl FontData {
    pub fn new(font_bytes: Vec<u8>, msg_char_ranges: Vec<u32>) -> (r: Self)
        ensures
            r.font_bytes@ == font_bytes@,
            r.msg_char_ranges@ == msg_char_ranges@,
    {
        Self { font_bytes, msg_char_ranges }
    }
}

/// What was read for one language's font: the font file's bytes (`None`
/// where the file is not there), the characters of the game's own item names
/// (`None` where they could not be read), and those of the mods' item names.
pub struct FontInput {
    pub font_file: String,
    pub font_bytes: Option<Vec<u8>>,
    pub vanilla_chars: Option<Vec<char>>,
    pub modded_chars: Vec<char>,
}

/// The loaded fonts, by file name.
pub struct FontManager {
    font_data: Vec<(String, FontData)>,
}

/// Whether an input yields a font: its file is there and the game's names
/// could be read.
pub open spec fn yields_font(i: FontInput) -> bool {
    i.font_bytes is Some && i.vanilla_chars is Some
}

/// The characters a loaded font must cover: the game's names, then the mods'.
pub open spec fn font_chars(i: FontInput) -> Seq<char> {
    i.vanilla_chars->0@ + i.modded_chars@
}

/// The file names of the fonts that the inputs yield, in order.
pub open spec fn loaded_files(inputs: Seq<FontInput>) -> Seq<Seq<char>>
    decreases inputs.len(),
{
    if inputs.len() == 0 {
        Seq::empty()
    } else if yields_font(inputs.last()) {
        loaded_files(inputs.drop_last()).push(inputs.last().font_file@)
    } else {
        loaded_files(inputs.drop_last())
    }
}

/// The inputs that yield a font, in order.
pub open spec fn yielding(inputs: Seq<FontInput>) -> Seq<FontInput>
    decreases inputs.len(),
{
    if inputs.len() == 0 {
        Seq::empty()
    } else if yields_font(inputs.last()) {
        yielding(inputs.drop_last()).push(inputs.last())
    } else {
        yielding(inputs.drop_last())
    }
}

/// The inputs that have both their font bytes and the game's names, in order.
pub open spec fn with_font(inputs: Seq<FontInput>) -> Seq<FontInput> {
    inputs.filter(|i: FontInput| yields_font(i))
}

/// The inputs that yield a font are the inputs filtered by `yields_font`, in
/// order, and the loaded files are their file names: every input that has
/// both its font bytes and the game's names loads, and no other does.
pub proof fn lemma_loaded_are_the_yielding_inputs(inputs: Seq<FontInput>)
    ensures
        yielding(inputs) == with_font(inputs),
        loaded_files(inputs) == with_font(inputs).map_values(
            |i: FontInput| i.font_file@,
        ),
        forall|j: int|
            0 <= j < inputs.len() && yields_font(#[trigger] inputs[j]) ==> loaded_files(
                inputs,
            ).contains(inputs[j].font_file@),
    decreases inputs.len(),
{
    reveal(Seq::filter);
    let p = |i: FontInput| yields_font(i);
    assert(with_font(inputs) == inputs.filter(p));
    if inputs.len() > 0 {
        let init = inputs.drop_last();
        lemma_loaded_are_the_yielding_inputs(init);
        assert(with_font(init) == init.filter(p));
        assert(inputs.filter(p) == if p(inputs.last()) {
            init.filter(p).push(inputs.last())
        } else {
            init.filter(p)
        });
        if p(inputs.last()) {
            assert(init.filter(p).push(inputs.last()).map_values(|i: FontInput| i.font_file@)
                =~= init.filter(p).map_values(|i: FontInput| i.font_file@).push(
                inputs.last().font_file@,
            ));
        }
        assert forall|j: int|
            0 <= j < inputs.len() && yields_font(#[trigger] inputs[j]) implies loaded_files(
                inputs,
            ).contains(inputs[j].font_file@) by {
            if j < inputs.len() - 1 {
                assert(init[j] == inputs[j]);
                let k = choose|k: int|
                    0 <= k < loaded_files(init).len() && loaded_files(init)[k] == init[j].font_file@;
                if yields_font(inputs.last()) {
                    assert(loaded_files(inputs)[k] == loaded_files(init)[k]);
                }
            } else {
                assert(loaded_files(inputs).last() == inputs[j].font_file@);
            }
        }
    } else {
        assert(inputs.filter(p) =~= Seq::<FontInput>::empty());
        assert(inputs.filter(p).map_values(|i: FontInput| i.font_file@) =~= Seq::<Seq<char>>::empty());
    }
}

impl FontManager {
    /// The loaded fonts with their file names, in load order.
    pub closed spec fn entries(&self) -> Seq<(String, FontData)> {
        self.font_data@
    }

    /// The file names of the loaded fonts, in load order.
    pub open spec fn files(&self) -> Seq<Seq<char>> {
        self.entries().map_values(|e: (String, FontData)| e.0@)
    }

    /// Whether the `k`-th loaded font holds `bytes` and glyph ranges that
    /// cover exactly the characters `chars`.
    pub open spec fn holds(&self, k: int, bytes: Seq<u8>, chars: Seq<char>) -> bool {
        &&& self.entries()[k].1.font_bytes@ == bytes
        &&& is_glyph_ranges(self.entries()[k].1.msg_char_ranges@, bmp_codepoints(chars))
    }

    /// The loaded fonts with their file names, in load order.
    pub fn fonts(&self) -> (r: &Vec<(String, FontData)>)
        ensures
            r@ == self.entries(),
    {
        &self.font_data
    }

    /// Loads the fonts that the inputs yield, one per input that has both its
    /// file and the game's names, in order, each with glyph ranges covering
    /// exactly the characters of the game's and the mods' names.
    pub fn init(inputs: Vec<FontInput>) -> (r: Self)
        ensures
            r.files() == loaded_files(inputs@),
            r.files().len() == yielding(inputs@).len(),
            forall|k: int|
                0 <= k < r.files().len() ==> r.holds(
                    k,
                    yielding(inputs@)[k].font_bytes->0@,
                    font_chars(yielding(inputs@)[k]),
                ),
            r.files() == with_font(inputs@).map_values(
                |i: FontInput| i.font_file@,
            ),
            r.files().len() == with_font(inputs@).len(),
            forall|k: int|
                0 <= k < r.files().len() ==> #[trigger] r.holds(
                    k,
                    with_font(inputs@)[k].font_bytes->0@,
                    font_chars(with_font(inputs@)[k]),
                ),
    {
        let mut font_data: Vec<(String, FontData)> = Vec::new();
        let ghost all = inputs@;
        let mut inputs = inputs;
        let n = inputs.len();
        let mut i: usize = 0;
        assert(all.skip(0) =~= all);
        assert(all.take(0) =~= Seq::<FontInput>::empty());
        assert(font_data@.map_values(|e: (String, FontData)| e.0@) =~= Seq::<Seq<char>>::empty());
        while i < n
            invariant
                n == all.len(),
                i <= n,
                inputs@ == all.skip(i as int),
                font_data@.map_values(|e: (String, FontData)| e.0@) == loaded_files(all.take(i as int)),
                font_data@.len() == yielding(all.take(i as int)).len(),
                forall|k: int|
                    0 <= k < font_data@.len() ==> (#[trigger] font_data@[k]).1.font_bytes@
                        == yielding(all.take(i as int))[k].font_bytes->0@ && is_glyph_ranges(
                        font_data@[k].1.msg_char_ranges@,
                        bmp_codepoints(font_chars(yielding(all.take(i as int))[k])),
                    ),
            decreases n - i,
        {
            let input = inputs.remove(0);
            let ghost prev = all.take(i as int);
            assert(all.take(i + 1).drop_last() =~= prev);
            assert(input == all[i as int]);
            assert(inputs@ =~= all.skip(i + 1));
            let FontInput { font_file, font_bytes, vanilla_chars, modded_chars } = input;
            match (font_bytes, vanilla_chars) {
                (Some(bytes), Some(vanilla)) => {
                    let mut chars = vanilla;
                    let mut modded = modded_chars;
                    chars.append(&mut modded);
                    assert(chars@ == font_chars(all[i as int]));
                    let ranges = build_glyph_ranges(chars.as_slice());
                    let ghost old_data = font_data@;
                    font_data.push((font_file, FontData::new(bytes, ranges)));
                    assert(font_data@.map_values(|e: (String, FontData)| e.0@) =~= old_data.map_values(
                        |e: (String, FontData)| e.0@,
                    ).push(all[i as int].font_file@));
                },
                _ => {},
            }
            i += 1;
        }
        assert(all.take(n as int) =~= all);
        proof {
            lemma_loaded_are_the_yielding_inputs(all);
        }
        FontManager { font_data }
    }
}

} // verus!
