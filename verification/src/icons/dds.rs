//! The menu's DDS textures: which are uploaded in their own compressed
//! format and which are decoded to RGBA8 first, and how many bytes the
//! atlases take.
use vstd::prelude::*;
use crate::icons::AtlasSize;

verus! {

/// The little-endian `u32` at byte `at`.
pub open spec fn le_u32(b: Seq<u8>, at: int) -> int {
    b[at] + b[at + 1] * 0x100 + b[at + 2] * 0x1_0000 + b[at + 3] * 0x100_0000
}

/// `"DX10"` as a little-endian four-character code.
pub const DX10_FOURCC: u32 = 0x3031_5844;

/// Whether the DDS header in `b` describes a texture whose decoding
/// overflows a `u32` in image_dds: a base level of more than `u32::MAX`
/// pixels (its RGBA decoder counts them in a `u32`), or a DX10 cube map
/// (pixel format flag 0x4 and four-character code `DX10`, misc flag 0x4)
/// with more than `u32::MAX / 6` array layers (its layer count is six per
/// cube). The header starts after the four magic bytes: height at byte 12,
/// width at 16, pixel format flags at 80, four-character code at 84, and the
/// DX10 header's misc flag at 136 and array size at 140.
pub open spec fn dds_decode_may_panic(b: Seq<u8>) -> bool {
    ||| b.len() >= 20 && le_u32(b, 12) * le_u32(b, 16) > u32::MAX
    ||| {
        &&& b.len() >= 144
        &&& (le_u32(b, 80) / 4) % 2 == 1
        &&& le_u32(b, 84) == DX10_FOURCC
        &&& (le_u32(b, 136) / 4) % 2 == 1
        &&& le_u32(b, 140) > u32::MAX / 6
    }
}

fn read_le_u32(b: &[u8], at: usize) -> (r: u64)
    requires
        at + 4 <= b@.len(),
    ensures
        r == le_u32(b@, at as int),
{
    (b[at] as u64) + (b[at + 1] as u64) * 0x100 + (b[at + 2] as u64) * 0x1_0000 + (b[at + 3] as u64)
        * 0x100_0000
}

/// Whether decoding the DDS texture `b` would overflow (see
/// `dds_decode_may_panic`).
pub fn decode_may_panic(b: &[u8]) -> (r: bool)
    ensures
        r == dds_decode_may_panic(b@),
{
    let n = b.len();
    let mut big = false;
    if n >= 20 {
        let h = read_le_u32(b, 12);
        let w = read_le_u32(b, 16);
        assert(h * w <= 0xFFFF_FFFF * 0xFFFF_FFFF) by (nonlinear_arith)
            requires
                h <= 0xFFFF_FFFF,
                w <= 0xFFFF_FFFF,
        ;
        big = (h as u128) * (w as u128) > 0xFFFF_FFFF;
    }
    let mut cube = false;
    if n >= 144 {
        cube = (read_le_u32(b, 80) / 4) % 2 == 1 && read_le_u32(b, 84) == DX10_FOURCC as u64 && (
        read_le_u32(b, 136) / 4) % 2 == 1 && read_le_u32(b, 140) > 0xFFFF_FFFF / 6;
    }
    big || cube
}

/// The pixels of a DDS texture decoded to RGBA8, with the texture's width
/// and height: what image_dds's `SurfaceRgba8::decode_dds` gives for the
/// texture that ddsfile's `Dds::read` parses from the bytes (every layer and
/// mipmap, the full-size level first), or `None` where either fails.
pub uninterp spec fn dds_rgba8(bytes: Seq<u8>) -> Option<(Seq<u8>, u32, u32)>;

/// ddsfile's `Dds::read` on the bytes, then image_dds's
/// `SurfaceRgba8::decode_dds`; the result is `dds_rgba8` of the bytes. Nothing
/// is claimed of what the decoded pixels are. The inputs on which the decoder
/// overflows (`dds_decode_may_panic`) are left out.
#[verifier::external_body]
fn decode_dds_rgba8(bytes: &[u8]) -> (r: Option<(Vec<u8>, u32, u32)>)
    requires
        !dds_decode_may_panic(bytes@),
    ensures
        match r {
            Some((data, width, height)) => dds_rgba8(bytes@) == Some((data@, width, height)),
            None => dds_rgba8(bytes@) is None,
        },
{
    let dds = image_dds::ddsfile::Dds::read(bytes).ok()?;
    let surface = image_dds::SurfaceRgba8::decode_dds(&dds).ok()?;
    Some((surface.data, surface.width, surface.height))
}

/// The DXGI format of a DDS texture: `None` where ddsfile's `Dds::read`
/// fails on the bytes, else `Dds::get_dxgi_format` as its numeric value
/// (`None` inside for a texture in a legacy Direct3D format).
pub uninterp spec fn dds_dxgi_format(bytes: Seq<u8>) -> Option<Option<u32>>;

/// ddsfile's `Dds::read` on the bytes, then `Dds::get_dxgi_format`; the
/// result is `dds_dxgi_format` of the bytes. Nothing is claimed of how the
/// header is read.
#[verifier::external_body]
fn read_dds_format(bytes: &[u8]) -> (r: Option<Option<u32>>)
    ensures
        r == dds_dxgi_format(bytes@),
{
    let dds = image_dds::ddsfile::Dds::read(bytes).ok()?;
    Some(dds.get_dxgi_format().map(|f| f as u32))
}

/// Decodes a DDS texture to RGBA8 pixels with its width and height; `None`
/// where it does not decode, or would overflow while decoding.
pub fn decode_dds(bytes: &[u8]) -> (r: Option<(Vec<u8>, u32, u32)>)
    ensures
        dds_decode_may_panic(bytes@) ==> r is None,
        !dds_decode_may_panic(bytes@) ==> match r {
            Some((data, width, height)) => dds_rgba8(bytes@) == Some((data@, width, height)),
            None => dds_rgba8(bytes@) is None,
        },
{
    if decode_may_panic(bytes) {
        return None;
    }
    decode_dds_rgba8(bytes)
}

/// An atlas texture as it is to be uploaded: in its DXGI format, as is, or
/// decoded to RGBA8.
pub enum AtlasTexture {
    Compressed { format: u32, len: usize },
    Decoded { data: Vec<u8>, width: u32, height: u32 },
}

/// How a DDS texture is uploaded: a texture in a DXGI format as it is
/// (counted by its length), any other decoded to RGBA8; `None` where the file
/// does not read or decode (or would overflow while decoding).
pub open spec fn spec_atlas_texture(bytes: Seq<u8>, r: Option<AtlasTexture>) -> bool {
    match dds_dxgi_format(bytes) {
        None => r is None,
        Some(Some(f)) => r matches Some(AtlasTexture::Compressed { format, len }) && format == f
            && len == bytes.len(),
        Some(None) => if dds_decode_may_panic(bytes) {
            r is None
        } else {
            match dds_rgba8(bytes) {
                None => r is None,
                Some((d, w, h)) => r matches Some(AtlasTexture::Decoded { data, width, height })
                    && data@ == d && width == w && height == h,
            }
        },
    }
}

/// How the DDS texture `dds_bytes` is uploaded (see `spec_atlas_texture`).
pub fn atlas_texture(dds_bytes: &[u8]) -> (r: Option<AtlasTexture>)
    ensures
        spec_atlas_texture(dds_bytes@, r),
{
    match read_dds_format(dds_bytes) {
        None => None,
        Some(Some(format)) => Some(AtlasTexture::Compressed { format, len: dds_bytes.len() }),
        Some(None) => match decode_dds(dds_bytes) {
            None => None,
            Some((data, width, height)) => Some(AtlasTexture::Decoded { data, width, height }),
        },
    }
}

/// The bytes of the textures uploaded as they are.
pub open spec fn compressed_total(ts: Seq<AtlasTexture>) -> int
    decreases ts.len(),
{
    if ts.len() == 0 {
        0
    } else {
        compressed_total(ts.drop_last()) + match ts.last() {
            AtlasTexture::Compressed { len, .. } => len as int,
            AtlasTexture::Decoded { .. } => 0,
        }
    }
}

/// The bytes of the decoded textures: four per pixel.
pub open spec fn uncompressed_total(ts: Seq<AtlasTexture>) -> int
    decreases ts.len(),
{
    if ts.len() == 0 {
        0
    } else {
        uncompressed_total(ts.drop_last()) + match ts.last() {
            AtlasTexture::Compressed { .. } => 0,
            AtlasTexture::Decoded { width, height, .. } => width * height * 4,
        }
    }
}

proof fn lemma_totals_grow(ts: Seq<AtlasTexture>, k: int)
    requires
        0 <= k <= ts.len(),
    ensures
        compressed_total(ts.take(k)) <= compressed_total(ts),
        uncompressed_total(ts.take(k)) <= uncompressed_total(ts),
    decreases ts.len() - k,
{
    if k < ts.len() {
        lemma_totals_grow(ts, k + 1);
        assert(ts.take(k + 1).drop_last() =~= ts.take(k));
        let t = ts.take(k + 1).last();
        match t {
            AtlasTexture::Decoded { width, height, .. } => {
                assert(width * height * 4 >= 0) by (nonlinear_arith);
            },
            _ => {},
        }
    } else {
        assert(ts.take(k) =~= ts);
    }
}

/// The bytes the atlases take, compressed and decoded; `None` where either
/// total exceeds a `u32`.
pub fn atlas_sizes(ts: &[AtlasTexture]) -> (r: Option<AtlasSize>)
    ensures
        r is None <==> compressed_total(ts@) > u32::MAX || uncompressed_total(ts@) > u32::MAX,
        r matches Some(s) ==> s.compressed == compressed_total(ts@) && s.uncompressed
            == uncompressed_total(ts@),
{
    let mut size_c: u32 = 0;
    let mut size_u: u32 = 0;
    let n = ts.len();
    let mut i: usize = 0;
    while i < n
        invariant
            n == ts@.len(),
            i <= n,
            size_c == compressed_total(ts@.take(i as int)),
            size_u == uncompressed_total(ts@.take(i as int)),
        decreases n - i,
    {
        proof {
            assert(ts@.take(i + 1).drop_last() =~= ts@.take(i as int));
            lemma_totals_grow(ts@, i + 1);
        }
        match &ts[i] {
            AtlasTexture::Compressed { len, .. } => {
                if *len > (u32::MAX - size_c) as usize {
                    return None;
                }
                size_c = size_c + (*len as u32);
            },
            AtlasTexture::Decoded { width, height, .. } => {
                assert((*width as u64) * (*height as u64) <= 0xFFFF_FFFF * 0xFFFF_FFFF) by (nonlinear_arith)
                    requires
                        *width <= 0xFFFF_FFFFu32,
                        *height <= 0xFFFF_FFFFu32,
                ;
                let px = (*width as u64) * (*height as u64);
                assert(px == *width * *height);
                if px > ((u32::MAX - size_u) / 4) as u64 {
                    return None;
                }
                size_u = size_u + (px as u32) * 4;
            },
        }
        i += 1;
    }
    assert(ts@.take(n as int) =~= ts@);
    Some(AtlasSize::new(size_c, size_u))
}

/// Whether every texture reads: none of its DDS files gives `None` (see
/// `spec_atlas_texture`).
pub open spec fn all_read(dds: Seq<Vec<u8>>) -> bool {
    forall|i: int| 0 <= i < dds.len() ==> !(#[trigger] dds_fails(dds[i]@))
}

/// Whether a DDS file gives no texture: it does not read, or it is to be
/// decoded and does not decode (or would overflow while decoding).
pub open spec fn dds_fails(bytes: Seq<u8>) -> bool {
    match dds_dxgi_format(bytes) {
        None => true,
        Some(Some(_)) => false,
        Some(None) => dds_decode_may_panic(bytes) || dds_rgba8(bytes) is None,
    }
}

/// The atlas textures of the menu's DDS files, in order, and the bytes they
/// take: `None` where one of them gives no texture (see `spec_atlas_texture`)
/// or a total exceeds a `u32`.
pub fn parse_atlases(dds: &[Vec<u8>]) -> (r: Option<(Vec<AtlasTexture>, AtlasSize)>)
    ensures
        !all_read(dds@) ==> r is None,
        all_read(dds@) ==> match r {
            None => exists|ts: Seq<AtlasTexture>|
                ts.len() == dds@.len() && (forall|i: int| 0 <= i < ts.len() ==> spec_atlas_texture(
                    #[trigger] dds@[i]@,
                    Some(ts[i]),
                )) && (compressed_total(ts) > u32::MAX || uncompressed_total(ts) > u32::MAX),
            Some((ts, size)) => ts@.len() == dds@.len() && (forall|i: int|
                0 <= i < ts@.len() ==> spec_atlas_texture(#[trigger] dds@[i]@, Some(ts@[i])))
                && size.compressed == compressed_total(ts@) && size.uncompressed
                == uncompressed_total(ts@),
        },
{
    let mut ts: Vec<AtlasTexture> = Vec::new();
    let n = dds.len();
    let mut i: usize = 0;
    while i < n
        invariant
            n == dds@.len(),
            i <= n,
            ts@.len() == i,
            forall|k: int| 0 <= k < i ==> spec_atlas_texture(#[trigger] dds@[k]@, Some(ts@[k])),
            forall|k: int| 0 <= k < i ==> !(#[trigger] dds_fails(dds@[k]@)),
        decreases n - i,
    {
        match atlas_texture(dds[i].as_slice()) {
            Some(t) => {
                ts.push(t);
            },
            None => {
                assert(dds_fails(dds@[i as int]@));
                return None;
            },
        }
        i += 1;
    }
    match atlas_sizes(ts.as_slice()) {
        Some(size) => Some((ts, size)),
        None => None,
    }
}

} // verus!
