//! Compatibility with the Expanded Memory Slots mod: checking the spell slot
//! layout it reports, reading the spell ids it copies out, and what a
//! selection through it came to.
use vstd::prelude::*;

verus! {

/// The most spell slots the layout may report.
pub const MAX_SPELL_RECORDS: usize = 24;

/// The size in bytes of `SpellLayoutV1` (seven `u32`s).
pub const SPELL_LAYOUT_SIZE: u32 = 28;

/// The spell slot layout, as the other mod's `QuerySpellLayout` fills it in.
#[derive(Clone, Copy, Debug, Default)]
pub struct SpellLayoutV1 {
    pub struct_size: u32,
    pub api_version: u32,
    pub spell_record_count: u32,
    pub spell_record_stride: u32,
    pub spell_records_offset: u32,
    pub selected_spell_index_offset: u32,
    pub equip_magic_data_size: u32,
}

/// A layout this mod understands: at least as large as `SpellLayoutV1`,
/// version 1, between one and `MAX_SPELL_RECORDS` slots of 8 bytes each.
pub open spec fn layout_valid(l: SpellLayoutV1) -> bool {
    &&& l.struct_size >= SPELL_LAYOUT_SIZE
    &&& l.api_version == 1
    &&& l.spell_record_count != 0
    &&& l.spell_record_count <= MAX_SPELL_RECORDS
    &&& l.spell_record_stride == 8
}

/// The layout in force, given what `QuerySpellLayout` returned (`available`)
/// and filled in: none where it returned 0, the layout where it is valid, an
/// error otherwise.
pub fn active_layout(available: u32, layout: SpellLayoutV1) -> (r: Result<Option<SpellLayoutV1>, ()>)
    ensures
        available == 0 ==> r == Ok::<Option<SpellLayoutV1>, ()>(None),
        available != 0 && layout_valid(layout) ==> r == Ok::<Option<SpellLayoutV1>, ()>(
            Some(layout),
        ),
        available != 0 && !layout_valid(layout) ==> r == Err::<Option<SpellLayoutV1>, ()>(()),
{
    if available == 0 {
        return Ok(None);
    }
    if layout.struct_size < SPELL_LAYOUT_SIZE || layout.api_version != 1
        || layout.spell_record_count == 0 || layout.spell_record_count as usize
        > MAX_SPELL_RECORDS || layout.spell_record_stride != 8 {
        return Err(());
    }
    Ok(Some(layout))
}

/// The occupied slots among the ids `ids` (a negative id is an empty slot):
/// each slot's position and id, in order.
pub open spec fn occupied(ids: Seq<i32>) -> Seq<(usize, u32)>
    decreases ids.len(),
{
    if ids.len() == 0 {
        Seq::empty()
    } else if ids.last() >= 0 {
        occupied(ids.drop_last()).push(((ids.len() - 1) as usize, ids.last() as u32))
    } else {
        occupied(ids.drop_last())
    }
}

/// The equipped spells' slots and ids, from the buffer that `CopySpellIds`
/// filled and the count it returned: `None` unless it copied exactly the
/// buffer's length.
pub fn spell_ids(copied: u32, ids: &[i32]) -> (r: Option<Vec<(usize, u32)>>)
    ensures
        copied as int != ids@.len() ==> r is None,
        copied as int == ids@.len() ==> (r matches Some(v) && v@ == occupied(ids@)),
{
    if copied as usize != ids.len() {
        return None;
    }
    let mut out: Vec<(usize, u32)> = Vec::new();
    let n = ids.len();
    let mut i: usize = 0;
    while i < n
        invariant
            n == ids@.len(),
            i <= n,
            out@ == occupied(ids@.take(i as int)),
        decreases n - i,
    {
        let id = ids[i];
        proof {
            assert(ids@.take(i as int + 1).drop_last() =~= ids@.take(i as int));
        }
        if id >= 0 {
            out.push((i, id as u32));
        }
        i += 1;
    }
    assert(ids@.take(n as int) =~= ids@);
    Some(out)
}

/// What selecting a spell slot through the other mod came to.
#[derive(Clone, Copy, Debug, PartialEq, Eq, Structural)]
pub enum SelectionResult {
    Unavailable,
    Applied,
    Rejected,
}

/// Whether a selection can be attempted: `Some` with the result where it
/// cannot (the other mod is absent or reports no layout: unavailable; its
/// layout is invalid: rejected), `None` where `SetSelectedSpellIndex` is to be
/// called.
pub fn selection_precheck(api_found: bool, layout: Result<Option<SpellLayoutV1>, ()>) -> (r: Option<
    SelectionResult,
>)
    ensures
        !api_found ==> r == Some(SelectionResult::Unavailable),
        api_found ==> r == match layout {
            Ok(Some(_)) => None,
            Ok(None) => Some(SelectionResult::Unavailable),
            Err(()) => Some(SelectionResult::Rejected),
        },
{
    if !api_found {
        return Some(SelectionResult::Unavailable);
    }
    match layout {
        Ok(Some(_)) => None,
        Ok(None) => Some(SelectionResult::Unavailable),
        Err(()) => Some(SelectionResult::Rejected),
    }
}

/// The result of a selection from what `SetSelectedSpellIndex` returned:
/// applied where it returned nonzero.
pub fn selection_outcome(set_result: u32) -> (r: SelectionResult)
    ensures
        set_result != 0 ==> r == SelectionResult::Applied,
        set_result == 0 ==> r == SelectionResult::Rejected,
{
    if set_result != 0 {
        SelectionResult::Applied
    } else {
        SelectionResult::Rejected
    }
}

} // verus!
