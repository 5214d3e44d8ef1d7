use spellwheel::items::{equipped_items, read_utf16_string, Item, ItemCandidate};
use spellwheel::spells::Spell;
use spellwheel::utf16::decode_utf16_lossy;

fn units(s: &str) -> Vec<u16> {
    s.encode_utf16().collect()
}

#[test]
fn utf16_decoding_pairs_surrogates_and_replaces_unpaired_ones() {
    let mut u = units("a\u{1F600}b");
    assert_eq!(decode_utf16_lossy(&u), "a\u{1F600}b");
    u.push(0xD83D);
    assert_eq!(decode_utf16_lossy(&u), "a\u{1F600}b\u{FFFD}");
    assert_eq!(decode_utf16_lossy(&[0xDC00, 0x41]), "\u{FFFD}A");
    assert_eq!(decode_utf16_lossy(&[]), "");
}

#[test]
fn read_utf16_string_decodes_present_messages() {
    assert_eq!(read_utf16_string(Some(&units("Flask"))), Some("Flask".to_string()));
    assert_eq!(read_utf16_string(None), None);
}

#[test]
fn item_names_prefer_the_base_game() {
    let base = units("Flask");
    let dlc = units("Scadutree");
    assert_eq!(Item::get_name(Some(&base), Some(&dlc)), Some("Flask".to_string()));
    assert_eq!(Item::get_name(None, Some(&dlc)), Some("Scadutree".to_string()));
    assert_eq!(Item::get_name(None, None), None);
}

#[test]
fn items_need_an_icon_and_a_name() {
    let base = units("Torch");
    let it = Item::try_new(3, 1000, Some(7), Some(&base), None).unwrap();
    assert_eq!(it.index(), 3);
    assert_eq!(it.id(), 1000);
    assert_eq!(it.icon_id(), 7);
    assert_eq!(it.name(), "Torch");
    assert!(Item::try_new(3, 1000, None, Some(&base), None).is_none());
    assert!(Item::try_new(3, 1000, Some(7), None, None).is_none());
}

#[test]
fn equipped_items_keep_the_slots_that_yield_an_item() {
    let slots = vec![
        ItemCandidate { index: 0, id: 1, icon_id: Some(10), base_name: Some(units("A")), dlc_name: None },
        ItemCandidate { index: 1, id: 2, icon_id: None, base_name: Some(units("B")), dlc_name: None },
        ItemCandidate { index: 2, id: 3, icon_id: Some(30), base_name: None, dlc_name: Some(units("C")) },
        ItemCandidate { index: 3, id: 4, icon_id: Some(40), base_name: None, dlc_name: None },
    ];
    let items = equipped_items(&slots);
    assert_eq!(items.len(), 2);
    assert_eq!((items[0].index(), items[0].name()), (0, "A"));
    assert_eq!((items[1].index(), items[1].id(), items[1].icon_id(), items[1].name()), (2, 3, 30, "C"));
}

#[test]
fn spells_need_a_name() {
    let dlc = units("Glintblade");
    let s = Spell::try_new(2, 4000, None, Some(&dlc)).unwrap();
    assert_eq!((s.index(), s.id(), s.name()), (2, 4000, "Glintblade"));
    assert!(Spell::try_new(2, 4000, None, None).is_none());
    assert_eq!(Spell::get_name(Some(&units("x")), Some(&dlc)), Some("x".to_string()));
}
