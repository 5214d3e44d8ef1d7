use spellwheel::expanded_memory_slots::{
    active_layout, selection_outcome, selection_precheck, spell_ids, SelectionResult, SpellLayoutV1,
};
use spellwheel::font::{FontChars, FontId};
use spellwheel::icons::{parse_name, AtlasSize};
use spellwheel::icons::primary_color::bucket_key;
use spellwheel::rendering::{Centered, ItemWheelData, SpellWheelData, WheelType};
use spellwheel::tick::{
    change_wheel, in_menus, selected_wheel_type, set_in_menus, set_selected_quick_item_index,
    set_selected_spell_index, set_suppress_camera, should_switch_items, stick_for_game, switch_item,
    take_selected_quick_item_index, take_selected_spell_index, ModState,
};

#[test]
fn a_selection_is_taken_once() {
    let mut s = ModState::new();
    assert_eq!(take_selected_spell_index(&mut s), None);
    set_selected_spell_index(&mut s, 4);
    set_selected_quick_item_index(&mut s, 2);
    assert_eq!(take_selected_spell_index(&mut s), Some(4));
    assert_eq!(take_selected_spell_index(&mut s), None);
    assert_eq!(take_selected_quick_item_index(&mut s), Some(2));
    assert_eq!(take_selected_quick_item_index(&mut s), None);
}

#[test]
fn menus_are_reported_until_a_frame_says_otherwise() {
    let mut s = ModState::new();
    assert!(in_menus(&s));
    set_in_menus(&mut s, false, false);
    assert!(!in_menus(&s));
    set_in_menus(&mut s, false, true);
    assert!(in_menus(&s));
    set_in_menus(&mut s, true, false);
    assert!(in_menus(&s));
}

#[test]
fn a_change_of_wheel_is_reported_once() {
    let mut s = ModState::new();
    assert_eq!(change_wheel(&mut s, WheelType::Closed), None);
    assert_eq!(change_wheel(&mut s, WheelType::Spells), Some(true));
    assert!(s.suppress_camera());
    assert_eq!(change_wheel(&mut s, WheelType::Spells), None);
    assert_eq!(change_wheel(&mut s, WheelType::QuickItems), Some(true));
    assert_eq!(change_wheel(&mut s, WheelType::Closed), Some(false));
    assert!(!s.suppress_camera());
    set_suppress_camera(&mut s, true);
    assert!(s.suppress_camera());
}

#[test]
fn the_wheel_follows_the_inputs_outside_menus() {
    assert_eq!(selected_wheel_type(true, true, true), WheelType::Closed);
    assert_eq!(selected_wheel_type(false, true, true), WheelType::Spells);
    assert_eq!(selected_wheel_type(false, false, true), WheelType::QuickItems);
    assert_eq!(selected_wheel_type(false, false, false), WheelType::Closed);
}

#[test]
fn the_camera_gets_a_centred_stick_while_suppressed() {
    assert_eq!(stick_for_game(true, 100, -5), (0, 0));
    assert_eq!(stick_for_game(false, 100, -5), (100, -5));
}

#[test]
fn the_highlighted_entry_of_the_last_wheel_is_selected() {
    let mut s = ModState::new();
    let spells = [(0, false), (3, true), (5, true)];
    let items = [(1, true)];
    switch_item(&mut s, WheelType::Spells, &spells, &items);
    assert_eq!(take_selected_spell_index(&mut s), Some(3));
    assert_eq!(take_selected_quick_item_index(&mut s), None);
    switch_item(&mut s, WheelType::QuickItems, &spells, &items);
    assert_eq!(take_selected_quick_item_index(&mut s), Some(1));
    switch_item(&mut s, WheelType::Closed, &spells, &items);
    switch_item(&mut s, WheelType::Spells, &[(0, false)], &items);
    assert_eq!(take_selected_spell_index(&mut s), None);
    assert_eq!(take_selected_quick_item_index(&mut s), None);
}

#[test]
fn items_switch_instantly_or_on_a_change_of_wheel() {
    assert!(should_switch_items(true, WheelType::Spells, WheelType::Spells));
    assert!(!should_switch_items(false, WheelType::Spells, WheelType::Spells));
    assert!(should_switch_items(false, WheelType::Spells, WheelType::Closed));
}

fn layout(count: u32) -> SpellLayoutV1 {
    SpellLayoutV1 {
        struct_size: 28,
        api_version: 1,
        spell_record_count: count,
        spell_record_stride: 8,
        spell_records_offset: 0x10,
        selected_spell_index_offset: 0x80,
        equip_magic_data_size: 0x100,
    }
}

#[test]
fn layouts_are_checked() {
    assert!(matches!(active_layout(0, layout(0)), Ok(None)));
    assert!(matches!(active_layout(1, layout(14)), Ok(Some(l)) if l.spell_record_count == 14));
    assert!(matches!(active_layout(1, layout(24)), Ok(Some(_))));
    assert_eq!(active_layout(1, layout(25)).err(), Some(()));
    assert_eq!(active_layout(1, layout(0)).err(), Some(()));
    let mut l = layout(10);
    l.struct_size = 27;
    assert_eq!(active_layout(1, l).err(), Some(()));
    let mut l = layout(10);
    l.api_version = 2;
    assert_eq!(active_layout(1, l).err(), Some(()));
    let mut l = layout(10);
    l.spell_record_stride = 4;
    assert_eq!(active_layout(1, l).err(), Some(()));
}

#[test]
fn spell_ids_keep_occupied_slots() {
    assert_eq!(spell_ids(4, &[5, -1, 0, 7]), Some(vec![(0, 5), (2, 0), (3, 7)]));
    assert_eq!(spell_ids(3, &[5, -1, 0, 7]), None);
    assert_eq!(spell_ids(0, &[]), Some(vec![]));
}

#[test]
fn selections_report_what_they_came_to() {
    assert_eq!(selection_precheck(false, Ok(Some(layout(1)))), Some(SelectionResult::Unavailable));
    assert_eq!(selection_precheck(true, Ok(None)), Some(SelectionResult::Unavailable));
    assert_eq!(selection_precheck(true, Err(())), Some(SelectionResult::Rejected));
    assert_eq!(selection_precheck(true, Ok(Some(layout(1)))), None);
    assert_eq!(selection_outcome(1), SelectionResult::Applied);
    assert_eq!(selection_outcome(0), SelectionResult::Rejected);
}

#[test]
fn icon_names_give_goods_ids() {
    assert_eq!(parse_name("MENU_ItemIcon_123.png".to_string()), Some(123));
    assert_eq!(parse_name("MENU_ItemIcon_MENU_ItemIcon_7.x".to_string()), Some(7));
    assert_eq!(parse_name("MENU_ItemIcon_00042.tif".to_string()), Some(42));
    assert_eq!(parse_name("MENU_ItemIcon_+5.png".to_string()), Some(5));
    assert_eq!(parse_name("MENU_ItemIcon_65535.png".to_string()), Some(65535));
    assert_eq!(parse_name("MENU_ItemIcon_65536.png".to_string()), None);
    assert_eq!(parse_name("MENU_ItemIcon_-5.png".to_string()), None);
    assert_eq!(parse_name("MENU_ItemIcon_.png".to_string()), None);
    assert_eq!(parse_name("MENU_ItemIcon_12".to_string()), None);
    assert_eq!(parse_name("MENU_ItemIcon_1a.png".to_string()), None);
    assert_eq!(parse_name("Icon_1.png".to_string()), None);
    assert_eq!(parse_name("".to_string()), None);
}

#[test]
fn colour_buckets_are_the_top_four_bits() {
    assert_eq!(bucket_key([255, 16, 15]), (15, 1, 0));
    assert_eq!(bucket_key([0, 0, 0]), (0, 0, 0));
}

#[test]
fn atlas_sizes_keep_both_counts() {
    let s = AtlasSize::new(10, 20);
    assert_eq!((s.compressed, s.uncompressed), (10, 20));
}

#[test]
fn font_ids_map_address_zero_to_none() {
    assert_eq!(FontId::none().to_raw(), 0);
    assert_eq!(FontId::from_raw(0), FontId::none());
    assert_eq!(FontId::from_raw(0x1234).to_raw(), 0x1234);
    assert_eq!(FontChars(7).0, 7);
}

#[test]
fn centring_axes() {
    assert!(Centered::XY.x() && Centered::XY.y());
    assert!(Centered::X.x() && !Centered::X.y());
    assert!(!Centered::Y.x() && Centered::Y.y());
    assert!(!Centered::Neither.x() && !Centered::Neither.y());
}

#[test]
fn wheel_data_starts_empty_and_takes_changes() {
    let d = ItemWheelData::new();
    assert!(d.spells.is_empty() && d.quick_items.is_empty());
    assert_eq!(d.wheel_type, WheelType::Closed);
    let d = d.mutate(|mut d| {
        d.wheel_type = WheelType::Spells;
        d
    });
    assert_eq!(d.get(|d| d.wheel_type), WheelType::Spells);
    let s = SpellWheelData::new();
    assert!(!s.do_render && s.spells.is_empty());
    let s = s.mutate(|mut s| {
        s.do_render = true;
        s
    });
    assert!(s.get(|s| s.do_render));
}
