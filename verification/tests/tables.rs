use spellwheel::gamepad::ButtonTable;
use spellwheel::icons::primary_color::{block_average, bucket_key, PrimaryColors, EMPTY_SPREAD};
use spellwheel::keyboard::KeyTable;
use spellwheel::icons::{spell_id_of_file_name, IconManager};
use std::collections::HashMap;
use image_dds::ddsfile::{D3DFormat, Dds, NewD3dParams};

#[test]
fn key_names_are_looked_up_in_any_case() {
    let keys = KeyTable::new();
    assert_eq!(keys.lookup("TAB"), Some(9));
    assert_eq!(keys.lookup("tab"), Some(9));
    assert_eq!(keys.lookup("Capital"), Some(20));
    assert_eq!(keys.lookup("f1"), Some(112));
    assert_eq!(keys.lookup("no such key"), None);
    // The uppercased name is looked up, so the one lowercase entry is never found.
    assert_eq!(keys.lookup("_none_"), None);
    assert_eq!(keys.lookup_upper("_none_"), Some(255));
}

#[test]
fn unknown_key_names_fall_back_to_the_default() {
    let keys = KeyTable::new();
    assert_eq!(keys.code_or("space", 9), 32);
    assert_eq!(keys.code_or("nonsense", 9), 9);
}

#[test]
fn button_names_are_looked_up_in_any_case() {
    let buttons = ButtonTable::new();
    assert_eq!(buttons.lookup("up"), Some(Ok(0x0001)));
    assert_eq!(buttons.lookup("Y"), Some(Ok(0x8000)));
    assert_eq!(buttons.lookup("r2"), Some(Err(true)));
    assert_eq!(buttons.lookup("L2"), Some(Err(false)));
    assert_eq!(buttons.lookup("start"), None);
    // Unicode uppercasing: a dotless i uppercases to I.
    assert_eq!(buttons.lookup("r\u{131}ght"), Some(Ok(0x0008)));
    assert_eq!(buttons.lookup_upper("right"), None);
    assert_eq!(buttons.code_or("x", Ok(1)), Ok(0x4000));
    assert_eq!(buttons.code_or("?", Ok(2)), Ok(2));
}

fn image(w: usize, h: usize) -> Vec<u8> {
    let mut d = Vec::new();
    for y in 0..h {
        for x in 0..w {
            d.extend_from_slice(&[(x * 10) as u8, (y * 20) as u8, 100, 255]);
        }
    }
    d
}

#[test]
fn block_statistics_average_and_spread() {
    let d = image(2, 2);
    // Red 0,10,0,10; green 0,0,20,20; blue all 100.
    assert_eq!(block_average(&d, 2, 0, 0, 2, 2), ([5, 10, 100], 30));
    assert_eq!(block_average(&d, 2, 1, 1, 2, 2), ([10, 20, 100], 0));
    assert_eq!(block_average(&d, 2, 1, 0, 1, 2), ([0, 0, 0], EMPTY_SPREAD));
    assert_eq!(block_average(&d, 2, 2, 0, 1, 2), ([0, 0, 0], EMPTY_SPREAD));
}

#[test]
fn statistics_cover_the_image_in_four_pixel_blocks() {
    let d = image(5, 6);
    let pc = PrimaryColors::build_from_rgba(5, 6, &d);
    // Block (0, 0): x 0..4, y 0..4.
    assert_eq!(pc.get(0, 0), Some(([15, 30, 100], 90)));
    assert_eq!(pc.get(3, 3), Some(([15, 30, 100], 90)));
    // Block (1, 1): x 4..5, y 4..6.
    assert_eq!(pc.get(4, 5), Some(([40, 90, 100], 20)));
    assert_eq!(pc.get(8, 0), None);
    assert_eq!(pc.get(0, 8), None);
    let empty = PrimaryColors::build_from_rgba(0, 0, &[]);
    assert_eq!(empty.get(0, 0), None);
}

#[test]
fn buckets_of_similar_colours_agree() {
    assert_eq!(bucket_key([0x12, 0x34, 0x56]), bucket_key([0x1F, 0x3A, 0x50]));
    assert_ne!(bucket_key([0x12, 0x34, 0x56]), bucket_key([0x22, 0x34, 0x56]));
}

#[test]
fn spell_icon_files_are_named_by_spell_id() {
    assert_eq!(spell_id_of_file_name("4000.png"), Some(4000));
    assert_eq!(spell_id_of_file_name("4294967295.dds"), Some(u32::MAX));
    assert_eq!(spell_id_of_file_name("4294967296.png"), None);
    assert_eq!(spell_id_of_file_name("77"), Some(77));
    assert_eq!(spell_id_of_file_name("12.5.png"), Some(12));
    assert_eq!(spell_id_of_file_name("abc.png"), None);
    assert_eq!(spell_id_of_file_name(".png"), None);
}

#[test]
fn modded_spell_icons_take_precedence() {
    let shipped = HashMap::from([(1u32, 10u64), (2, 20)]);
    let modded = HashMap::from([(2u32, 200u64), (3, 300)]);
    let m = IconManager::new(shipped, modded);
    assert_eq!(m.get_inner(1), Some(10));
    assert_eq!(m.get_inner(2), Some(200));
    assert_eq!(m.get_inner(3), Some(300));
    assert_eq!(m.get_inner(4), None);
}

fn dds_bytes(w: u32, h: u32, pixels: &[u8]) -> Vec<u8> {
    let mut dds = Dds::new_d3d(NewD3dParams {
        height: h,
        width: w,
        depth: None,
        format: D3DFormat::A8B8G8R8,
        mipmap_levels: None,
        caps2: None,
    })
    .unwrap();
    dds.data = pixels.to_vec();
    let mut bytes = Vec::new();
    dds.write(&mut bytes).unwrap();
    bytes
}

#[test]
fn dds_textures_decode_to_block_statistics() {
    let pixels = image(2, 2);
    let pc = PrimaryColors::try_from_dds(&dds_bytes(2, 2, &pixels)).unwrap();
    assert_eq!(pc.get(1, 1), Some(([5, 10, 100], 30)));
    assert!(PrimaryColors::try_from_dds(&[1, 2, 3]).is_none());
}
