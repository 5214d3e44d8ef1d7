use spellwheel::glyphs::builder::build_glyph_ranges;
use spellwheel::glyphs::font_manager::{FontData, FontInput, FontManager};
use spellwheel::glyphs::generic_reader::{read, BndFile};
use spellwheel::glyphs::modded_reader;
use spellwheel::glyphs::reader::{read_text, ParamFileMetadata};
use spellwheel::glyphs::vanilla_reader;
use spellwheel::glyphs::fmg::FmgError;

fn fmg_with(text: &str) -> Vec<u8> {
    let mut v = vec![0u8, 0, 1, 0];
    v.extend_from_slice(&0i32.to_le_bytes());
    v.extend_from_slice(&[1, 0, 0, 0]);
    v.extend_from_slice(&1i32.to_le_bytes());
    v.extend_from_slice(&1i32.to_le_bytes());
    v.extend_from_slice(&40i32.to_le_bytes());
    v.extend_from_slice(&0i32.to_le_bytes());
    v.extend_from_slice(&0i32.to_le_bytes());
    v.extend_from_slice(&1i32.to_le_bytes());
    v.extend_from_slice(&1i32.to_le_bytes());
    v.extend_from_slice(&44i32.to_le_bytes());
    for u in text.encode_utf16() {
        v.extend_from_slice(&u.to_le_bytes());
    }
    v.extend_from_slice(&[0, 0]);
    v
}

fn file(path: &str, data: Vec<u8>) -> BndFile {
    BndFile { path: path.to_string(), data }
}

#[test]
fn glyph_ranges_merge_runs_and_end_with_zero() {
    let r = build_glyph_ranges(&['c', 'a', 'b', 'x', 'a']);
    assert_eq!(r, vec![97, 99, 120, 120, 0]);
}

#[test]
fn glyph_ranges_of_nothing_is_the_terminator() {
    assert_eq!(build_glyph_ranges(&[]), vec![0]);
}

#[test]
fn glyph_ranges_leave_out_characters_beyond_the_bmp() {
    let r = build_glyph_ranges(&['\u{1F600}', '\u{FFFF}', '\u{FFFE}', '\0']);
    assert_eq!(r, vec![0, 0, 0xFFFE, 0xFFFF, 0]);
}

#[test]
fn goods_name_files_give_their_characters() {
    let files = vec![
        file("N:\\msg\\engUS\\GoodsName.fmg", fmg_with("Flask")),
        file("N:\\msg\\engUS\\WeaponName.fmg", fmg_with("Sword")),
        file("N:\\msg\\engUS\\GoodsName_dlc01.fmg", fmg_with("Orb")),
    ];
    let mut out = vec!['z'];
    assert_eq!(read(&files, &mut out), Ok(()));
    let s: String = out.into_iter().collect();
    assert_eq!(s, "zFlaskOrb");
}

#[test]
fn unreadable_goods_name_file_stops_with_its_error() {
    let files = vec![
        file("GoodsName.fmg", fmg_with("Ok")),
        file("GoodsName2.fmg", vec![0, 0, 9, 0]),
        file("GoodsName3.fmg", fmg_with("Never")),
    ];
    let mut out = Vec::new();
    assert_eq!(read(&files, &mut out), Err(FmgError::UnknownVersion(9)));
    let s: String = out.into_iter().collect();
    assert_eq!(s, "Ok");
}

#[test]
fn modded_archives_skip_unreadable_ones_and_errors() {
    let archives = vec![
        Some(vec![file("GoodsName.fmg", fmg_with("A")), file("GoodsName.fmg", vec![])]),
        None,
        Some(vec![file("GoodsName.fmg", fmg_with("B"))]),
    ];
    let mut out = Vec::new();
    modded_reader::read(&archives, &mut out);
    assert_eq!(out, vec!['A', 'B']);
}

#[test]
fn vanilla_archives_fail_at_an_undecodable_one() {
    let archives = vec![
        Some(vec![file("GoodsName.fmg", fmg_with("A"))]),
        None,
        Some(vec![file("GoodsName.fmg", fmg_with("B"))]),
    ];
    let mut out = Vec::new();
    assert_eq!(vanilla_reader::read(&archives, &mut out), Err(()));
    assert_eq!(out, vec!['A']);
    let all = vec![Some(vec![file("GoodsName.fmg", fmg_with("C"))])];
    let mut out = Vec::new();
    assert_eq!(vanilla_reader::read(&all, &mut out), Ok(()));
    assert_eq!(out, vec!['C']);
}

#[test]
fn mod_folder_is_the_nearest_ancestor_with_one() {
    let ancestors = vec!["C:\\g\\mods\\x".to_string(), "C:\\g\\mods".to_string(), "C:\\g".to_string()];
    assert_eq!(modded_reader::search_for_mod_folder(&ancestors, &[false, true, true]), Some(1));
    assert_eq!(modded_reader::search_for_mod_folder(&ancestors, &[false, false, false]), None);
    assert_eq!(modded_reader::search_for_mod_folder(&[], &[]), None);
}

#[test]
fn font_manager_loads_fonts_with_their_glyphs() {
    let inputs = vec![
        FontInput {
            font_file: "cyrillic.ttf".to_string(),
            font_bytes: Some(vec![1, 2, 3]),
            vanilla_chars: Some(vec!['\u{410}', '\u{411}']),
            modded_chars: vec!['\u{413}'],
        },
        FontInput {
            font_file: "japanese.ttf".to_string(),
            font_bytes: None,
            vanilla_chars: Some(vec!['\u{3042}']),
            modded_chars: vec![],
        },
        FontInput {
            font_file: "korean.ttf".to_string(),
            font_bytes: Some(vec![4]),
            vanilla_chars: None,
            modded_chars: vec!['\u{AC00}'],
        },
    ];
    let fm = FontManager::init(inputs);
    let fonts = fm.fonts();
    assert_eq!(fonts.len(), 1);
    assert_eq!(fonts[0].0, "cyrillic.ttf");
    assert_eq!(fonts[0].1.font_bytes, vec![1, 2, 3]);
    assert_eq!(fonts[0].1.msg_char_ranges, vec![0x410, 0x411, 0x413, 0x413, 0]);
}

#[test]
fn font_data_keeps_what_it_is_given() {
    let d = FontData::new(vec![9, 8], vec![65, 90, 0]);
    assert_eq!(d.font_bytes, vec![9, 8]);
    assert_eq!(d.msg_char_ranges, vec![65, 90, 0]);
}

#[test]
fn lookup_table_starts_at_the_next_multiple_of_sixteen() {
    let m = ParamFileMetadata([0x21, 5, 0, 0]);
    assert_eq!(m.file_size(), 0x21);
    assert_eq!(m.row_count(), 5);
    assert_eq!(m.lookup_table_offset(), 0x30);
    assert_eq!(ParamFileMetadata([0x30, 0, 0, 0]).lookup_table_offset(), 0x30);
    assert_eq!(ParamFileMetadata([0, 0, 0, 0]).lookup_table_offset(), 0);
    assert_eq!(ParamFileMetadata([0xFFFF_FFF0, 0, 0, 0]).lookup_table_offset(), 0xFFFF_FFF0);
}

#[test]
fn read_text_collects_both_names_of_each_row() {
    let names = vec![
        (Some("Ab".to_string()), None),
        (None, None),
        (Some("c".to_string()), Some("D".to_string())),
    ];
    assert_eq!(read_text(&names), vec!['A', 'b', 'c', 'D']);
}
