use palette_swap::Pixel;
use palette_swap::codec::SwapError;
use palette_swap::codec::swap_palette;
use palette_swap::grid::Grid;
use palette_swap::palette::get_palette;
use palette_swap::remap::merge_palette;

fn px(r: u8, g: u8, b: u8, a: u8) -> Pixel {
    Pixel { r, g, b, a }
}

fn grid_of(width: u32, height: u32, pixels: Vec<Pixel>) -> Grid {
    Grid { width, height, pixels }
}

const BLACK: Pixel = Pixel { r: 0, g: 0, b: 0, a: 255 };
const BLUE: Pixel = Pixel { r: 0, g: 0, b: 255, a: 255 };
const RED: Pixel = Pixel { r: 255, g: 0, b: 0, a: 255 };
const WHITE: Pixel = Pixel { r: 255, g: 255, b: 255, a: 255 };

#[test]
fn concrete_two_to_three_scenario() {
    // Texture palette [A, B]; reference palette [X, Y, Z]. A (index 0)
    // maps to scaled index 0 -> X; B (index 1) maps to scaled index 2 -> Z.
    // With only whole-number targets, interpolation matches nearest mode.
    let a = px(10, 10, 10, 255);
    let b = px(200, 200, 200, 255);
    let texture = grid_of(2, 1, vec![a, b]);
    let reference = grid_of(3, 1, vec![BLACK, RED, WHITE]);
    let tex_pal = get_palette(&texture);
    let ref_pal = get_palette(&reference);
    assert_eq!(tex_pal, vec![a, b]);
    assert_eq!(ref_pal, vec![BLACK, RED, WHITE]);
    for interpolate in [false, true] {
        let out = merge_palette(&texture, &tex_pal, &ref_pal, interpolate);
        assert_eq!(out.pixels, vec![BLACK, WHITE]);
    }
}

#[test]
fn black_white_texture_onto_three_entry_palette() {
    // Texture palette exactly [A=(0,0,0,255), B=(255,255,255,255)];
    // reference palette [X, Y, Z] with X=blue, Y=red, Z=green in
    // luminance order. A maps to X, B maps to Z, in both modes.
    let texture = grid_of(2, 1, vec![BLACK, WHITE]);
    let x = px(0, 0, 255, 255);
    let y = px(255, 0, 0, 255);
    let z = px(0, 255, 0, 255);
    let reference = grid_of(3, 1, vec![z, y, x]);
    let tex_pal = get_palette(&texture);
    let ref_pal = get_palette(&reference);
    assert_eq!(tex_pal, vec![BLACK, WHITE]);
    assert_eq!(ref_pal, vec![x, y, z]);
    for interpolate in [false, true] {
        let out = merge_palette(&texture, &tex_pal, &ref_pal, interpolate);
        assert_eq!(out.pixels, vec![x, z]);
    }
}

#[test]
fn repeated_runs_are_identical() {
    let texture = grid_of(
        2,
        2,
        vec![px(10, 10, 10, 255), px(200, 200, 200, 9), px(0, 0, 0, 0), px(10, 10, 10, 128)],
    );
    let reference = grid_of(2, 1, vec![BLACK, WHITE]);
    let pal1 = get_palette(&reference);
    let pal2 = get_palette(&reference);
    assert_eq!(pal1, pal2);
    let tex_pal = get_palette(&texture);
    for interpolate in [false, true] {
        let out1 = merge_palette(&texture, &tex_pal, &pal1, interpolate);
        let out2 = merge_palette(&texture, &tex_pal, &pal1, interpolate);
        assert_eq!(out1.pixels, out2.pixels);
    }
}

#[test]
fn alpha_is_preserved() {
    let texture = grid_of(
        3,
        1,
        vec![px(10, 10, 10, 0), px(10, 10, 10, 7), px(200, 200, 200, 128)],
    );
    let reference = grid_of(2, 1, vec![BLACK, WHITE]);
    let tex_pal = get_palette(&texture);
    let ref_pal = get_palette(&reference);
    for interpolate in [false, true] {
        let out = merge_palette(&texture, &tex_pal, &ref_pal, interpolate);
        // A transparent texel stays the untouched zero pixel.
        assert_eq!(out.pixels[0], px(0, 0, 0, 0));
        // Every other texel keeps its alpha exactly.
        assert_eq!(out.pixels[1].a, 7);
        assert_eq!(out.pixels[2].a, 128);
    }
}

#[test]
fn single_entry_reference_palette() {
    let texture = grid_of(
        3,
        1,
        vec![px(10, 10, 10, 255), px(200, 200, 200, 64), px(90, 90, 90, 255)],
    );
    let reference = grid_of(1, 1, vec![RED]);
    let tex_pal = get_palette(&texture);
    let ref_pal = get_palette(&reference);
    for interpolate in [false, true] {
        let out = merge_palette(&texture, &tex_pal, &ref_pal, interpolate);
        assert_eq!(out.pixels[0], px(255, 0, 0, 255));
        assert_eq!(out.pixels[1], px(255, 0, 0, 64));
        assert_eq!(out.pixels[2], px(255, 0, 0, 255));
    }
}

#[test]
fn identical_palettes_reproduce_texture() {
    let texture = grid_of(
        2,
        2,
        vec![BLACK, BLUE, RED, px(255, 255, 255, 31)],
    );
    let tex_pal = get_palette(&texture);
    let out = merge_palette(&texture, &tex_pal, &tex_pal, false);
    assert_eq!(out.pixels, texture.pixels);
}

#[test]
fn interpolation_blends_between_bracketing_entries() {
    // Three texture-palette entries onto two reference entries: the middle
    // index resolves to target 1/2 and blends black and white; the whole
    // numbered targets hit the reference entries exactly.
    let a = px(10, 10, 10, 255);
    let b = px(100, 100, 100, 255);
    let c = px(200, 200, 200, 255);
    let texture = grid_of(3, 1, vec![a, b, c]);
    let reference = grid_of(2, 1, vec![BLACK, WHITE]);
    let tex_pal = get_palette(&texture);
    let ref_pal = get_palette(&reference);
    assert_eq!(tex_pal, vec![a, b, c]);
    let out = merge_palette(&texture, &tex_pal, &ref_pal, true);
    assert_eq!(out.pixels[0], BLACK);
    assert_eq!(out.pixels[1], px(186, 186, 186, 255));
    assert_eq!(out.pixels[2], WHITE);
}

#[test]
fn nearest_mode_rounds_ties_away_from_zero() {
    // Three texture entries onto four reference entries: the middle index
    // resolves to target 3/2, and the tie rounds up to reference index 2.
    let a = px(10, 10, 10, 255);
    let b = px(100, 100, 100, 255);
    let c = px(200, 200, 200, 255);
    let texture = grid_of(3, 1, vec![a, b, c]);
    let reference = grid_of(4, 1, vec![BLACK, BLUE, RED, WHITE]);
    let tex_pal = get_palette(&texture);
    let ref_pal = get_palette(&reference);
    assert_eq!(ref_pal, vec![BLACK, BLUE, RED, WHITE]);
    let out = merge_palette(&texture, &tex_pal, &ref_pal, false);
    assert_eq!(out.pixels, vec![BLACK, RED, WHITE]);
}

#[test]
fn empty_palette_is_an_error() {
    let texture = grid_of(1, 1, vec![px(1, 2, 3, 0)]);
    let reference = grid_of(1, 1, vec![RED]);
    assert_eq!(swap_palette(&texture, &reference, false), Err(SwapError::EmptyPalette));
    let texture2 = grid_of(1, 1, vec![RED]);
    let reference2 = grid_of(1, 1, vec![px(1, 2, 3, 0)]);
    assert_eq!(swap_palette(&texture2, &reference2, false), Err(SwapError::EmptyPalette));
}

#[test]
fn swap_palette_emits_base64_png_of_remapped_texture() {
    let a = px(10, 10, 10, 255);
    let b = px(200, 200, 200, 200);
    let texture = grid_of(2, 1, vec![a, b]);
    let reference = grid_of(3, 1, vec![BLACK, RED, WHITE]);
    let encoded = swap_palette(&texture, &reference, false).unwrap();
    let png_bytes = base64::decode(&encoded).unwrap();
    let decoded = image::load_from_memory(&png_bytes).unwrap().to_rgba8();
    assert_eq!(decoded.dimensions(), (2, 1));
    let flat: Vec<u8> = decoded.into_raw();
    assert_eq!(flat, vec![0, 0, 0, 255, 255, 255, 255, 200]);
}

#[test]
fn swap_palette_runs_are_byte_identical() {
    let texture = grid_of(2, 1, vec![px(10, 10, 10, 255), px(200, 200, 200, 200)]);
    let reference = grid_of(2, 1, vec![BLACK, WHITE]);
    let s1 = swap_palette(&texture, &reference, true).unwrap();
    let s2 = swap_palette(&texture, &reference, true).unwrap();
    assert_eq!(s1, s2);
}
