use vstd::prelude::*;

verus! {

#[verifier::external_type_specification]
#[verifier::external_body]
pub struct ExImageError(image::ImageError);

/// Holds when `image` decoded the bytes into an image of this width and height
/// with these RGBA pixels, row by row. A relation, not a function: the format
/// detection and decoders that `image` uses can be changed at run time through
/// `image::hooks`, so the same bytes may decode differently in two calls.
pub uninterp spec fn decodes_to(bytes: Seq<u8>, width: u32, height: u32, pixels: Seq<[u8; 4]>) -> bool;

/// Calls `image::load_from_memory` and converts the image with `into_rgba8`,
/// handing out its width, height and pixels in `pixels()` order (row by row,
/// top row first). Claims that on success the result is a decoding of the
/// bytes (`decodes_to`), and that `pixels()` walks exactly `width * height`
/// pixels. Which image comes out, and whether decoding succeeds, is not
/// stated: both rest on the decoders registered in the process.
#[verifier::external_body]
fn decode_rgba8(bytes: &[u8]) -> (r: Result<(u32, u32, Vec<[u8; 4]>), image::ImageError>)
    ensures
        r matches Ok((width, height, pixels)) ==> pixels@.len() == width * height && decodes_to(
            bytes@,
            width,
            height,
            pixels@,
        ),
{
    match image::load_from_memory(bytes) {
        Ok(img) => {
            let rgba = img.into_rgba8();
            let (width, height) = rgba.dimensions();
            Ok((width, height, rgba.pixels().map(|px| px.0).collect()))
        },
        Err(e) => Err(e),
    }
}

/// The tray icon's pixels, ready for a 32-bit top-down device-independent
/// bitmap: four bytes per pixel in the order blue, green, red, alpha.
pub struct IconImage {
    pub width: u32,
    pub height: u32,
    pub bgra: Vec<u8>,
}

/// Why the icon could not be prepared.
#[derive(Debug)]
pub enum IconError {
    /// The embedded image could not be decoded.
    Decode(image::ImageError),
}

/// The bytes of RGBA pixels rearranged into blue, green, red, alpha order.
pub open spec fn spec_bgra(pixels: Seq<[u8; 4]>) -> Seq<u8> {
    Seq::new(
        pixels.len() * 4,
        |i: int|
            {
                let px = pixels[i / 4];
                if i % 4 == 0 {
                    px[2]
                } else if i % 4 == 1 {
                    px[1]
                } else if i % 4 == 2 {
                    px[0]
                } else {
                    px[3]
                }
            },
    )
}

/// Rearranges RGBA pixels into the byte order of a Windows bitmap (BGRA).
pub fn rgba_to_bgra(pixels: &[[u8; 4]]) -> (r: Vec<u8>)
    ensures
        r@ == spec_bgra(pixels@),
        r@.len() == 4 * pixels@.len(),
        forall|i: int|
            0 <= i < pixels@.len() ==> {
                &&& #[trigger] r@[4 * i] == pixels@[i][2]
                &&& r@[4 * i + 1] == pixels@[i][1]
                &&& r@[4 * i + 2] == pixels@[i][0]
                &&& r@[4 * i + 3] == pixels@[i][3]
            },
{
    proof {
        law_bgra_per_pixel(pixels@);
    }
    let mut bgra: Vec<u8> = Vec::new();
    let n = pixels.len();
    for k in 0..n
        invariant
            n == pixels@.len(),
            bgra@ =~= spec_bgra(pixels@.take(k as int)),
    {
        let px = pixels[k];
        bgra.push(px[2]);
        bgra.push(px[1]);
        bgra.push(px[0]);
        bgra.push(px[3]);
        proof {
            let next = spec_bgra(pixels@.take(k + 1));
            assert forall|i: int| 0 <= i < next.len() implies #[trigger] bgra@[i] == next[i] by {
                if i < k * 4 {
                    assert(pixels@.take(k + 1)[i / 4] == pixels@.take(k as int)[i / 4]);
                } else {
                    assert(i / 4 == k);
                }
            }
            assert(bgra@ =~= next);
        }
    }
    assert(pixels@.take(n as int) =~= pixels@);
    bgra
}

/// The icon made of `width * height` RGBA pixels, row by row.
pub fn icon_from_rgba(width: u32, height: u32, pixels: &[[u8; 4]]) -> (r: IconImage)
    requires
        pixels@.len() == width * height,
    ensures
        r.width == width,
        r.height == height,
        r.bgra@ == spec_bgra(pixels@),
        r.bgra@.len() == 4 * width * height,
{
    let bgra = rgba_to_bgra(pixels);
    assert(pixels@.len() * 4 == 4 * width * height) by (nonlinear_arith)
        requires
            pixels@.len() == width * height,
    ;
    IconImage { width, height, bgra }
}

/// Decodes the embedded tray icon and converts its pixels to BGRA: on success
/// the icon has the size of a decoding of the bytes, and the buffer holds
/// exactly four bytes for each of its `width * height` pixels, in row order,
/// each pixel's bytes as blue, green, red, alpha.
pub fn icon_pixels(bytes: &[u8]) -> (r: Result<IconImage, IconError>)
    ensures
        r matches Ok(icon) ==> {
            &&& icon.bgra@.len() == 4 * icon.width * icon.height
            &&& exists|pixels: Seq<[u8; 4]>|
                #[trigger] decodes_to(bytes@, icon.width, icon.height, pixels) && pixels.len()
                    == icon.width * icon.height && icon.bgra@ == spec_bgra(pixels)
        },
{
    match decode_rgba8(bytes) {
        Ok((width, height, pixels)) => {
            let icon = icon_from_rgba(width, height, pixels.as_slice());
            assert(decodes_to(bytes@, icon.width, icon.height, pixels@));
            Ok(icon)
        },
        Err(e) => Err(IconError::Decode(e)),
    }
}

/// The BGRA buffer has four bytes per pixel, and pixel `i` occupies bytes
/// `4i` to `4i + 3` as its blue, green, red and alpha values: every channel,
/// alpha included, is copied unchanged, and no pixel moves.
pub proof fn law_bgra_per_pixel(pixels: Seq<[u8; 4]>)
    ensures
        spec_bgra(pixels).len() == 4 * pixels.len(),
        forall|i: int|
            0 <= i < pixels.len() ==> {
                &&& #[trigger] spec_bgra(pixels)[4 * i] == pixels[i][2]
                &&& spec_bgra(pixels)[4 * i + 1] == pixels[i][1]
                &&& spec_bgra(pixels)[4 * i + 2] == pixels[i][0]
                &&& spec_bgra(pixels)[4 * i + 3] == pixels[i][3]
            },
{
    assert forall|i: int| 0 <= i < pixels.len() implies {
        &&& #[trigger] spec_bgra(pixels)[4 * i] == pixels[i][2]
        &&& spec_bgra(pixels)[4 * i + 1] == pixels[i][1]
        &&& spec_bgra(pixels)[4 * i + 2] == pixels[i][0]
        &&& spec_bgra(pixels)[4 * i + 3] == pixels[i][3]
    } by {
        assert((4 * i) / 4 == i && (4 * i) % 4 == 0);
        assert((4 * i + 1) / 4 == i && (4 * i + 1) % 4 == 1);
        assert((4 * i + 2) / 4 == i && (4 * i + 2) % 4 == 2);
        assert((4 * i + 3) / 4 == i && (4 * i + 3) % 4 == 3);
    }
}

} // verus!
