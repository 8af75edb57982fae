use fractal_zoom::palette::{mirror_palette, parse_color, parse_palette, to_rgb, PaletteError};
use fractal_zoom::MAX_ITERATIONS;

const A: [u8; 3] = [1, 2, 3];
const B: [u8; 3] = [40, 50, 60];
const C: [u8; 3] = [255, 0, 128];

#[test]
fn to_rgb_cap_gives_sentinel() {
    let colors = vec![A, B, C];
    assert_eq!(to_rgb(MAX_ITERATIONS, &colors), [0, 0, 0]);
    assert_eq!(to_rgb(MAX_ITERATIONS + 7, &colors), [0, 0, 0]);
}

#[test]
fn to_rgb_cap_with_empty_palette() {
    let colors: Vec<[u8; 3]> = Vec::new();
    assert_eq!(to_rgb(MAX_ITERATIONS, &colors), [0, 0, 0]);
}

#[test]
fn to_rgb_cycles_through_palette() {
    let colors = vec![A, B, C];
    assert_eq!(to_rgb(0, &colors), A);
    assert_eq!(to_rgb(1, &colors), B);
    assert_eq!(to_rgb(5, &colors), C);
    assert_eq!(to_rgb(MAX_ITERATIONS - 1, &colors), B);
}

#[test]
fn to_rgb_every_count_in_range() {
    let colors = vec![A, B];
    for count in 0..=MAX_ITERATIONS {
        let c = to_rgb(count, &colors);
        if count == MAX_ITERATIONS {
            assert_eq!(c, [0, 0, 0]);
        } else if count % 2 == 0 {
            assert_eq!(c, A);
        } else {
            assert_eq!(c, B);
        }
    }
}

#[test]
fn mirror_three_colors() {
    assert_eq!(mirror_palette(vec![A, B, C]), vec![A, B, C, C, B, A]);
}

#[test]
fn mirror_single_and_empty() {
    assert_eq!(mirror_palette(vec![B]), vec![B, B]);
    assert_eq!(mirror_palette(Vec::new()), Vec::<[u8; 3]>::new());
}

#[test]
fn parse_color_rgb_and_rgba() {
    assert_eq!(parse_color("#FF8000"), Some([255, 128, 0]));
    assert_eq!(parse_color("#0a1B2c"), Some([10, 27, 44]));
    assert_eq!(parse_color("#ff800080"), Some([255, 128, 0]));
}

#[test]
fn parse_color_plus_sign_field() {
    assert_eq!(parse_color("#+F0000"), Some([15, 0, 0]));
}

#[test]
fn parse_color_rejects_malformed() {
    assert_eq!(parse_color("FF8000"), None);
    assert_eq!(parse_color("#FF80"), None);
    assert_eq!(parse_color("#GG0000"), None);
    assert_eq!(parse_color("#-10000"), None);
    assert_eq!(parse_color("#FF8000F"), None);
    assert_eq!(parse_color(""), None);
}

#[test]
fn parse_color_rejects_non_ascii() {
    assert_eq!(parse_color("#a\u{e9}123"), None);
    assert_eq!(parse_color("#\u{e9}1234"), None);
}

#[test]
fn parse_palette_mirrors_lines() {
    let lines = vec!["#010203".to_string(), "#28323C".to_string(), "#FF0080".to_string()];
    assert_eq!(parse_palette(&lines), Ok(vec![A, B, C, C, B, A]));
}

#[test]
fn parse_palette_empty() {
    assert_eq!(parse_palette(&Vec::new()), Err(PaletteError::Empty));
}

#[test]
fn parse_palette_reports_first_bad_line() {
    let lines = vec![
        "#010203".to_string(),
        "oops".to_string(),
        "#zz0000".to_string(),
    ];
    assert_eq!(parse_palette(&lines), Err(PaletteError::InvalidColor { line: 1 }));
}
