use vstd::prelude::*;

use crate::Pixel;
use crate::grid::Grid;
use crate::palette::extract_spec;
use crate::palette::get_palette;
use crate::palette::lemma_extract_invariants;
use crate::remap::merge_palette;
use crate::remap::remap_grid_spec;
use vstd::string::StringSliceAdditionalSpecFns;

verus! {

/// The raw `r, g, b, a` byte stream of a pixel sequence in row-major order.
pub open spec fn rgba_bytes_spec(pixels: Seq<Pixel>) -> Seq<u8> {
    Seq::new(
        4 * pixels.len(),
        |j: int|
            {
                let p = pixels[j / 4];
                if j % 4 == 0 {
                    p.r
                } else if j % 4 == 1 {
                    p.g
                } else if j % 4 == 2 {
                    p.b
                } else {
                    p.a
                }
            },
    )
}

/// Digit `v` of the standard base64 alphabet.
#[verifier::opaque]
pub open spec fn b64_digit(v: int) -> char {
    if v <= 0 {
        'A'
    } else if v == 1 {
        'B'
    } else if v == 2 {
        'C'
    } else if v == 3 {
        'D'
    } else if v == 4 {
        'E'
    } else if v == 5 {
        'F'
    } else if v == 6 {
        'G'
    } else if v == 7 {
        'H'
    } else if v == 8 {
        'I'
    } else if v == 9 {
        'J'
    } else if v == 10 {
        'K'
    } else if v == 11 {
        'L'
    } else if v == 12 {
        'M'
    } else if v == 13 {
        'N'
    } else if v == 14 {
        'O'
    } else if v == 15 {
        'P'
    } else if v == 16 {
        'Q'
    } else if v == 17 {
        'R'
    } else if v == 18 {
        'S'
    } else if v == 19 {
        'T'
    } else if v == 20 {
        'U'
    } else if v == 21 {
        'V'
    } else if v == 22 {
        'W'
    } else if v == 23 {
        'X'
    } else if v == 24 {
        'Y'
    } else if v == 25 {
        'Z'
    } else if v == 26 {
        'a'
    } else if v == 27 {
        'b'
    } else if v == 28 {
        'c'
    } else if v == 29 {
        'd'
    } else if v == 30 {
        'e'
    } else if v == 31 {
        'f'
    } else if v == 32 {
        'g'
    } else if v == 33 {
        'h'
    } else if v == 34 {
        'i'
    } else if v == 35 {
        'j'
    } else if v == 36 {
        'k'
    } else if v == 37 {
        'l'
    } else if v == 38 {
        'm'
    } else if v == 39 {
        'n'
    } else if v == 40 {
        'o'
    } else if v == 41 {
        'p'
    } else if v == 42 {
        'q'
    } else if v == 43 {
        'r'
    } else if v == 44 {
        's'
    } else if v == 45 {
        't'
    } else if v == 46 {
        'u'
    } else if v == 47 {
        'v'
    } else if v == 48 {
        'w'
    } else if v == 49 {
        'x'
    } else if v == 50 {
        'y'
    } else if v == 51 {
        'z'
    } else if v == 52 {
        '0'
    } else if v == 53 {
        '1'
    } else if v == 54 {
        '2'
    } else if v == 55 {
        '3'
    } else if v == 56 {
        '4'
    } else if v == 57 {
        '5'
    } else if v == 58 {
        '6'
    } else if v == 59 {
        '7'
    } else if v == 60 {
        '8'
    } else if v == 61 {
        '9'
    } else if v == 62 {
        '+'
    } else {
        '/'
    }
}

/// Standard base64 with `=` padding: three input bytes become four digits
/// of six bits each; a final group of one or two bytes is padded.
pub open spec fn base64_spec(s: Seq<u8>) -> Seq<char>
    decreases s.len(),
{
    if s.len() == 0 {
        Seq::empty()
    } else if s.len() == 1 {
        let b0 = s[0] as int;
        seq![b64_digit(b0 / 4), b64_digit((b0 % 4) * 16), '=', '=']
    } else if s.len() == 2 {
        let b0 = s[0] as int;
        let b1 = s[1] as int;
        seq![
            b64_digit(b0 / 4),
            b64_digit((b0 % 4) * 16 + b1 / 16),
            b64_digit((b1 % 16) * 4),
            '=',
        ]
    } else {
        let b0 = s[0] as int;
        let b1 = s[1] as int;
        let b2 = s[2] as int;
        seq![
            b64_digit(b0 / 4),
            b64_digit((b0 % 4) * 16 + b1 / 16),
            b64_digit((b1 % 16) * 4 + b2 / 64),
            b64_digit(b2 % 64),
        ] + base64_spec(s.skip(3))
    }
}

/// The PNG encoding of an RGBA8 pixel buffer with the given dimensions,
/// as the image codec produces it: a function of the dimensions and the
/// pixel bytes alone.
pub uninterp spec fn png_bytes_of(width: u32, height: u32, data: Seq<u8>) -> Seq<u8>;

/// Relies on image::ImageBuffer::from_raw and ImageBuffer::write_to with
/// the PNG format: encodes an RGBA8 pixel buffer as PNG bytes, which
/// depend only on the dimensions and the pixel data. With an exact-length
/// buffer written to an in-memory vector, the encoder's only error paths
/// are a zero width or height.
#[verifier::external_body]
fn png_encode(width: u32, height: u32, data: &Vec<u8>) -> (r: Option<Vec<u8>>)
    requires
        data@.len() == 4 * (width * height),
    ensures
        r matches Some(b) ==> b@ == png_bytes_of(width, height, data@),
        width >= 1 && height >= 1 ==> r matches Some(_),
{
    let img: image::RgbaImage = match image::ImageBuffer::from_raw(width, height, data.clone()) {
        Some(img) => img,
        None => {
            return None;
        },
    };
    let mut buffer: Vec<u8> = Vec::new();
    let mut cursor = std::io::Cursor::new(&mut buffer);
    match img.write_to(&mut cursor, image::ImageOutputFormat::Png) {
        Ok(()) => Some(buffer),
        Err(_) => None,
    }
}

/// Relies on base64::encode: standard alphabet with `=` padding. The
/// length bound keeps the encoder's output-size computation from
/// overflowing, on which it would panic.
#[verifier::external_body]
fn base64_encode(bytes: &Vec<u8>) -> (r: String)
    requires
        bytes@.len() <= usize::MAX / 2,
    ensures
        r@ == base64_spec(bytes@),
{
    base64::encode(bytes)
}

/// The flag text selects interpolation: exactly the four letters of
/// "true" in any ASCII case.
pub open spec fn is_true_flag(bs: Seq<u8>) -> bool {
    bs.len() == 4 && (bs[0] == 't' as u8 || bs[0] == 'T' as u8) && (bs[1] == 'r' as u8 || bs[1]
        == 'R' as u8) && (bs[2] == 'u' as u8 || bs[2] == 'U' as u8) && (bs[3] == 'e' as u8 || bs[3]
        == 'E' as u8)
}

/// Reads the interpolation flag: "true" in any ASCII case selects
/// interpolation; every other value, "false" included, selects nearest
/// mode.
pub fn parse_interpolate(s: &str) -> (r: bool)
    ensures
        r == is_true_flag(s.spec_bytes()),
{
    let b: &[u8] = s.as_bytes();
    b.len() == 4 && (b[0] == 116 || b[0] == 84) && (b[1] == 114 || b[1] == 82) && (b[2] == 117
        || b[2] == 85) && (b[3] == 101 || b[3] == 69)
}

/// Why a palette swap could not produce an output string.
#[derive(Clone, Copy, PartialEq, Eq, Structural, Debug)]
pub enum SwapError {
    /// An input image has no pixel with a non-zero alpha, so its palette
    /// is empty and no index mapping exists.
    EmptyPalette,
    /// The PNG encoder failed, or the image is too large to serialize.
    EncodeFailed,
}

/// The PNG bytes the pipeline emits for the given images: the encoding of
/// the remapped texture grid.
pub open spec fn output_png_spec(texture_img: Grid, palette_img: Grid, interpolate: bool) -> Seq<
    u8,
> {
    png_bytes_of(
        texture_img.width,
        texture_img.height,
        rgba_bytes_spec(
            remap_grid_spec(
                texture_img.pixels@,
                extract_spec(texture_img.pixels@),
                extract_spec(palette_img.pixels@),
                interpolate,
            ),
        ),
    )
}

/// The whole pipeline: extracts the palettes of both images, recolors the
/// texture by mapping its palette onto the reference palette, and returns
/// the remapped image as base64-encoded PNG. Success is owed whenever both
/// palettes are non-empty and the pixel and PNG byte counts stay within
/// the machine's addressable size.
pub fn swap_palette(texture_img: &Grid, palette_img: &Grid, interpolate: bool) -> (r: Result<
    String,
    SwapError,
>)
    requires
        texture_img.wf(),
        palette_img.wf(),
    ensures
        r == Result::<String, SwapError>::Err(SwapError::EmptyPalette) <==> (extract_spec(
            texture_img.pixels@,
        ).len() == 0 || extract_spec(palette_img.pixels@).len() == 0),
        r matches Ok(s) ==> s@ == base64_spec(
            output_png_spec(*texture_img, *palette_img, interpolate),
        ),
        (extract_spec(texture_img.pixels@).len() > 0 && extract_spec(palette_img.pixels@).len() > 0
            && texture_img.pixels@.len() <= usize::MAX / 4 && output_png_spec(
            *texture_img,
            *palette_img,
            interpolate,
        ).len() <= usize::MAX / 2) ==> r matches Ok(_),
{
    let palette = get_palette(palette_img);
    let texture_palette = get_palette(texture_img);
    if palette.len() == 0 || texture_palette.len() == 0 {
        return Err(SwapError::EmptyPalette);
    }
    proof {
        lemma_extract_invariants(texture_img.pixels@);
        // A non-empty texture palette forces a non-empty grid, so both
        // dimensions are at least 1.
        assert(texture_img.pixels@.len() > 0);
        if texture_img.width == 0 || texture_img.height == 0 {
            assert(texture_img.pixels@.len() == 0);
        }
    }
    let merged = merge_palette(texture_img, &texture_palette, &palette, interpolate);
    if merged.pixels.len() > usize::MAX / 4 {
        return Err(SwapError::EncodeFailed);
    }
    let bytes = merged.to_rgba_bytes();
    proof {
        assert(bytes@ =~= rgba_bytes_spec(merged.pixels@)) by {
            assert forall|j: int| 0 <= j < 4 * merged.pixels@.len() implies bytes@[j]
                == rgba_bytes_spec(merged.pixels@)[j] by {
                let k = j / 4;
                vstd::arithmetic::div_mod::lemma_fundamental_div_mod(j, 4);
                assert(j == 4 * k + j % 4);
            }
        }
    }
    let png = match png_encode(merged.width, merged.height, &bytes) {
        Some(p) => p,
        None => {
            proof {
                assert(false);
            }
            return Err(SwapError::EncodeFailed);
        },
    };
    proof {
        assert(png@ == output_png_spec(*texture_img, *palette_img, interpolate));
    }
    if png.len() > usize::MAX / 2 {
        return Err(SwapError::EncodeFailed);
    }
    Ok(base64_encode(&png))
}

} // verus!
