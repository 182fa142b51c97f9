use palette_swap::Pixel;
use palette_swap::codec::parse_interpolate;
use palette_swap::gamma::gamma_expand;
use palette_swap::grid::Grid;
use palette_swap::palette::find_index;
use palette_swap::palette::get_lum;
use palette_swap::palette::get_palette;
use palette_swap::remap::color_interpolate;

fn px(r: u8, g: u8, b: u8, a: u8) -> Pixel {
    Pixel { r, g, b, a }
}

fn grid_of(width: u32, height: u32, pixels: Vec<Pixel>) -> Grid {
    Grid { width, height, pixels }
}

#[test]
fn gamma_table_exact_values() {
    assert_eq!(gamma_expand(0), 0);
    assert_eq!(gamma_expand(1), 128);
    assert_eq!(gamma_expand(2), 588);
    assert_eq!(gamma_expand(128), 5534417);
    assert_eq!(gamma_expand(255), 25211481);
}

#[test]
fn luminance_exact_values() {
    assert_eq!(get_lum(&px(0, 0, 0, 255)), 0);
    assert_eq!(get_lum(&px(255, 255, 255, 255)), 252114810000);
    assert_eq!(get_lum(&px(255, 0, 0, 255)), 53599608606);
    assert_eq!(get_lum(&px(0, 255, 0, 255)), 180312512112);
    assert_eq!(get_lum(&px(0, 0, 255, 255)), 18202689282);
}

#[test]
fn luminance_orders_primaries() {
    let blue = get_lum(&px(0, 0, 255, 255));
    let red = get_lum(&px(255, 0, 0, 255));
    let green = get_lum(&px(0, 255, 0, 255));
    assert!(blue < red);
    assert!(red < green);
}

#[test]
fn find_index_first_match() {
    let v = vec![px(1, 2, 3, 4), px(5, 6, 7, 8), px(1, 2, 3, 4)];
    assert_eq!(find_index(&v, &px(5, 6, 7, 8)), Some(1));
    assert_eq!(find_index(&v, &px(1, 2, 3, 4)), Some(0));
    assert_eq!(find_index(&v, &px(9, 9, 9, 9)), None);
}

#[test]
fn palette_sorted_and_deduplicated() {
    // Scrambled colors with a duplicate and a transparent pixel.
    let g = grid_of(
        6,
        1,
        vec![
            px(0, 255, 0, 255),   // green
            px(9, 9, 9, 0),       // transparent: skipped
            px(255, 0, 0, 255),   // red
            px(0, 0, 255, 255),   // blue
            px(255, 0, 0, 255),   // duplicate red
            px(0, 0, 0, 255),     // black
        ],
    );
    let pal = get_palette(&g);
    assert_eq!(
        pal,
        vec![
            px(0, 0, 0, 255),
            px(0, 0, 255, 255),
            px(255, 0, 0, 255),
            px(0, 255, 0, 255),
        ]
    );
    // Invariants hold: strictly one copy of each color, luminance
    // non-decreasing across the sequence.
    for i in 0..pal.len() {
        for j in (i + 1)..pal.len() {
            assert_ne!(pal[i], pal[j]);
        }
        if i + 1 < pal.len() {
            assert!(get_lum(&pal[i]) <= get_lum(&pal[i + 1]));
        }
        assert_ne!(pal[i].a, 0);
    }
}

#[test]
fn tied_luminance_keeps_scan_order() {
    // These two distinct colors share the exact same luminance key, so the
    // first one encountered in the scan stands first in the palette.
    let c1 = px(3, 5, 67, 255);
    let c2 = px(1, 19, 45, 255);
    assert_eq!(get_lum(&c1), get_lum(&c2));
    let pal_a = get_palette(&grid_of(2, 1, vec![c1, c2]));
    assert_eq!(pal_a, vec![c1, c2]);
    let pal_b = get_palette(&grid_of(2, 1, vec![c2, c1]));
    assert_eq!(pal_b, vec![c2, c1]);
}

#[test]
fn palette_of_transparent_grid_is_empty() {
    let g = grid_of(2, 1, vec![px(1, 2, 3, 0), px(4, 5, 6, 0)]);
    assert_eq!(get_palette(&g), vec![]);
}

#[test]
fn color_interpolate_midpoint() {
    let black = px(0, 0, 0, 255);
    let white = px(255, 255, 255, 255);
    let c = color_interpolate(&black, &white, 1, 2);
    assert_eq!(c, px(186, 186, 186, 1));
}

#[test]
fn color_interpolate_thirds() {
    let a = px(10, 10, 10, 255);
    let b = px(200, 200, 200, 255);
    assert_eq!(color_interpolate(&a, &b, 1, 3), px(121, 121, 121, 1));
    assert_eq!(color_interpolate(&a, &b, 2, 3), px(166, 166, 166, 1));
}

#[test]
fn parse_interpolate_cases() {
    assert!(parse_interpolate("true"));
    assert!(parse_interpolate("TRUE"));
    assert!(parse_interpolate("TrUe"));
    assert!(!parse_interpolate("false"));
    assert!(!parse_interpolate("FALSE"));
    assert!(!parse_interpolate(""));
    assert!(!parse_interpolate("yes"));
    assert!(!parse_interpolate("truee"));
}

#[test]
fn grid_round_trips_rgba_bytes() {
    let bytes = vec![1, 2, 3, 4, 5, 6, 7, 8];
    let g = Grid::from_rgba_bytes(2, 1, &bytes).unwrap();
    assert_eq!(g.pixels, vec![px(1, 2, 3, 4), px(5, 6, 7, 8)]);
    assert_eq!(g.at(0, 0), px(1, 2, 3, 4));
    assert_eq!(g.at(1, 0), px(5, 6, 7, 8));
    assert_eq!(g.to_rgba_bytes(), bytes);
}

#[test]
fn grid_rejects_wrong_byte_count() {
    let bytes = vec![1, 2, 3, 4, 5];
    assert!(Grid::from_rgba_bytes(2, 1, &bytes).is_none());
}
