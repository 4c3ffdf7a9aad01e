use canvas_core::font::{is_font_size, is_font_style, is_font_weight, parse_font};

#[test]
fn token_sniffing_uses_containment() {
    assert!(is_font_weight("bold"));
    assert!(is_font_weight("bolder"));
    assert!(is_font_weight("x700y"));
    assert!(!is_font_weight("575"));
    assert!(is_font_style("italic"));
    assert!(is_font_style("oblique"));
    assert!(!is_font_style("bold"));
    assert!(is_font_size("15px"));
    assert!(!is_font_size("15pt"));
}

#[test]
fn three_token_form_reads_weight_size_family() {
    let f = parse_font("bold 15px Arial");
    assert_eq!(f.weight, 700);
    assert_eq!(f.size, 150000);
    assert_eq!(f.family.as_deref(), Some("Arial"));
}

#[test]
fn five_token_form_reads_positions_two_three_four() {
    let f = parse_font("italic small-caps lighter 24px serif");
    assert_eq!(f.weight, 300);
    assert_eq!(f.size, 240000);
    assert_eq!(f.family.as_deref(), Some("serif"));
}

#[test]
fn numeric_weights_parse_and_bad_ones_default() {
    // "700" makes the token a weight token and it parses as a number.
    let f = parse_font("700 12px mono");
    assert_eq!(f.weight, 700);
    // Sniffing is by containment, so "7000" counts as a weight token too
    // and its full numeric value is kept.
    let g = parse_font("7000 12px mono");
    assert_eq!(g.weight, 7000);
    // A token that mentions no weight at all falls back to normal.
    let h = parse_font("350 12px mono");
    assert_eq!(h.weight, 400);
}

#[test]
fn two_and_one_token_forms() {
    let f = parse_font("18px cursive");
    assert_eq!(f.weight, 400);
    assert_eq!(f.size, 180000);
    assert_eq!(f.family.as_deref(), Some("cursive"));
    let g = parse_font("fantasy");
    assert_eq!(g.size, 100000);
    assert_eq!(g.family.as_deref(), Some("fantasy"));
}

#[test]
fn malformed_sizes_fall_back_to_ten_pixels() {
    assert_eq!(parse_font("bold bogus-pxx serif").size, 100000);
    assert_eq!(parse_font("bold 1e3px serif").size, 100000);
    assert_eq!(parse_font("bold px serif").size, 100000);
}

#[test]
fn fractional_sizes_keep_four_decimal_places() {
    assert_eq!(parse_font("12.5px serif").size, 125000);
    assert_eq!(parse_font(".5px serif").size, 5000);
    assert_eq!(parse_font("3.px serif").size, 30000);
    assert_eq!(parse_font("1.23456px serif").size, 12345);
}

#[test]
fn too_many_tokens_give_all_defaults() {
    let f = parse_font("a b c d e f");
    assert_eq!(f.weight, 400);
    assert_eq!(f.size, 100000);
    assert!(f.family.is_none());
}
