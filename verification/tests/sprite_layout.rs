use spellwheel::icons::sprite_layout::{parse_layout, SpriteLayoutError};

#[test]
fn layouts_name_their_atlas_and_icons() {
    let xml = r#"<?xml version="1.0"?>
<!-- menu icons -->
<TextureAtlas imagePath="SB_Icons_01.png">
  <SubTexture name="MENU_ItemIcon_00123.png" x="0" y="16" width="32" height="48"/>
  <SubTexture name="MENU_Frame.png" x="1" y="1" width="1" height="1"/>
  <Other name="MENU_ItemIcon_9.png"/>
  <SubTexture name="MENU_ItemIcon_7.png" x="5"/>
</TextureAtlas>"#;
    let layout = parse_layout(xml).unwrap();
    assert_eq!(layout.atlas_name, "SB_Icons_01");
    assert_eq!(layout.icons.len(), 2);
    let a = &layout.icons[0];
    assert_eq!(a.id, 123);
    assert_eq!(
        (a.x.as_deref(), a.y.as_deref(), a.width.as_deref(), a.height.as_deref()),
        (Some("0"), Some("16"), Some("32"), Some("48"))
    );
    let b = &layout.icons[1];
    assert_eq!(b.id, 7);
    assert_eq!((b.x.as_deref(), b.y.as_deref()), (Some("5"), None));
}

#[test]
fn every_png_ending_is_trimmed_from_the_atlas_name() {
    let layout = parse_layout(r#"<A imagePath="icons.png.png"/>"#).unwrap();
    assert_eq!(layout.atlas_name, "icons");
    assert!(layout.icons.is_empty());
}

#[test]
fn malformed_layouts_are_reported() {
    assert_eq!(parse_layout("<A imagePath='x.png'>").err(), Some(SpriteLayoutError::NotXml));
    assert_eq!(parse_layout("<A/>").err(), Some(SpriteLayoutError::NoImagePath));
    assert_eq!(
        parse_layout("<A imagePath='x.png'><SubTexture x='1'/></A>").err(),
        Some(SpriteLayoutError::SubTextureWithoutName)
    );
}
