use image_dds::ddsfile::{
    AlphaMode, D3D10ResourceDimension, D3DFormat, Dds, DxgiFormat, NewD3dParams, NewDxgiParams,
};
use spellwheel::icons::dds::{
    atlas_sizes, atlas_texture, decode_dds, decode_may_panic, parse_atlases, AtlasTexture,
};

fn rgba_dds(w: u32, h: u32, pixels: &[u8]) -> Vec<u8> {
    let mut dds = Dds::new_d3d(NewD3dParams {
        height: h,
        width: w,
        depth: None,
        format: D3DFormat::A8B8G8R8,
        mipmap_levels: None,
        caps2: None,
    })
    .unwrap();
    dds.data = pixels.to_vec();
    let mut bytes = Vec::new();
    dds.write(&mut bytes).unwrap();
    bytes
}

fn bc1_dds(cube: bool) -> Vec<u8> {
    let mut dds = Dds::new_dxgi(NewDxgiParams {
        height: 4,
        width: 4,
        depth: None,
        format: DxgiFormat::BC1_UNorm,
        mipmap_levels: None,
        array_layers: None,
        caps2: None,
        is_cubemap: cube,
        resource_dimension: D3D10ResourceDimension::Texture2D,
        alpha_mode: AlphaMode::Unknown,
    })
    .unwrap();
    for b in dds.data.iter_mut() {
        *b = 0x11;
    }
    let mut bytes = Vec::new();
    dds.write(&mut bytes).unwrap();
    bytes
}

fn pixels(w: usize, h: usize) -> Vec<u8> {
    let mut d = Vec::new();
    for i in 0..w * h {
        d.extend_from_slice(&[i as u8, 2 * i as u8, 3 * i as u8, 255]);
    }
    d
}

#[test]
fn uncompressed_textures_are_decoded() {
    let px = pixels(2, 3);
    match atlas_texture(&rgba_dds(2, 3, &px)) {
        Some(AtlasTexture::Decoded { data, width, height }) => {
            assert_eq!(data, px);
            assert_eq!((width, height), (2, 3));
        }
        _ => panic!("expected a decoded texture"),
    }
}

#[test]
fn dxgi_textures_are_uploaded_as_they_are() {
    let bytes = bc1_dds(false);
    match atlas_texture(&bytes) {
        Some(AtlasTexture::Compressed { format, len }) => {
            assert_eq!(format, DxgiFormat::BC1_UNorm as u32);
            assert_eq!(len, bytes.len());
        }
        _ => panic!("expected a compressed texture"),
    }
}

#[test]
fn unreadable_textures_give_none() {
    assert!(atlas_texture(&[1, 2, 3]).is_none());
    assert!(decode_dds(&[1, 2, 3]).is_none());
    let good = rgba_dds(1, 1, &pixels(1, 1));
    assert!(parse_atlases(&[good, vec![0; 10]]).is_none());
}

#[test]
fn decoding_gives_pixels_and_size() {
    let px = pixels(3, 1);
    assert_eq!(decode_dds(&rgba_dds(3, 1, &px)), Some((px, 3, 1)));
}

#[test]
fn cube_maps_with_too_many_layers_are_refused() {
    let mut bytes = bc1_dds(true);
    assert!(!decode_may_panic(&bytes));
    bytes[140..144].copy_from_slice(&0x3000_0000u32.to_le_bytes());
    assert!(decode_may_panic(&bytes));
    assert!(decode_dds(&bytes).is_none());
    // Such a texture is still uploaded in its own format.
    assert!(matches!(atlas_texture(&bytes), Some(AtlasTexture::Compressed { .. })));
}

#[test]
fn huge_base_levels_are_refused() {
    let mut bytes = rgba_dds(1, 1, &pixels(1, 1));
    bytes[12..16].copy_from_slice(&0x10000u32.to_le_bytes());
    bytes[16..20].copy_from_slice(&0x10000u32.to_le_bytes());
    assert!(decode_may_panic(&bytes));
    assert!(decode_dds(&bytes).is_none());
    assert!(!decode_may_panic(&[0; 10]));
}

#[test]
fn atlas_sizes_sum_each_kind() {
    let ts = vec![
        AtlasTexture::Compressed { format: 71, len: 100 },
        AtlasTexture::Decoded { data: vec![], width: 2, height: 3 },
        AtlasTexture::Compressed { format: 71, len: 5 },
        AtlasTexture::Decoded { data: vec![], width: 4, height: 1 },
    ];
    let size = atlas_sizes(&ts).unwrap();
    assert_eq!(size.compressed, 105);
    assert_eq!(size.uncompressed, 40);
    let empty = atlas_sizes(&[]).unwrap();
    assert_eq!((empty.compressed, empty.uncompressed), (0, 0));
}

#[test]
fn atlas_sizes_over_a_u32_give_none() {
    let ts = vec![
        AtlasTexture::Compressed { format: 71, len: u32::MAX as usize },
        AtlasTexture::Compressed { format: 71, len: 1 },
    ];
    assert!(atlas_sizes(&ts).is_none());
    let ts = vec![AtlasTexture::Decoded { data: vec![], width: 0x10000, height: 0x4000 }];
    assert!(atlas_sizes(&ts).is_none());
    let ts = vec![AtlasTexture::Decoded { data: vec![], width: 0x10000, height: 0x3FFF }];
    assert_eq!(atlas_sizes(&ts).unwrap().uncompressed, 0x10000 * 0x3FFF * 4);
}

#[test]
fn parse_atlases_reads_every_texture_in_order() {
    let a = rgba_dds(2, 2, &pixels(2, 2));
    let b = bc1_dds(false);
    let (ts, size) = parse_atlases(&[a, b.clone()]).unwrap();
    assert_eq!(ts.len(), 2);
    assert!(matches!(ts[0], AtlasTexture::Decoded { width: 2, height: 2, .. }));
    assert!(matches!(ts[1], AtlasTexture::Compressed { .. }));
    assert_eq!(size.compressed, b.len() as u32);
    assert_eq!(size.uncompressed, 16);
}
