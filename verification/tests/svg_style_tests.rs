use canvas_core::svg::{ColorParser, StyleParser};

#[test]
fn style_lists_split_into_pairs() {
    let pairs = StyleParser::from_str("width:10;height:20");
    assert_eq!(pairs.len(), 2);
    assert_eq!(pairs[0], ("width".to_string(), "10".to_string()));
    assert_eq!(pairs[1], ("height".to_string(), "20".to_string()));
}

#[test]
fn style_entries_without_values_read_as_empty() {
    let pairs = StyleParser::from_str("stroke;fill:red;");
    assert_eq!(pairs.len(), 3);
    assert_eq!(pairs[0], ("stroke".to_string(), "".to_string()));
    assert_eq!(pairs[1], ("fill".to_string(), "red".to_string()));
    assert_eq!(pairs[2], ("".to_string(), "".to_string()));
}

#[test]
fn color_shapes_are_recognized_by_prefix() {
    assert!(ColorParser::is_color("#fff"));
    assert!(ColorParser::is_color("rgb(1,2,3)"));
    assert!(ColorParser::is_color("hsl(0,0%,0%)"));
    assert!(!ColorParser::is_color("red"));
}

#[test]
fn rgb_components_pack_into_argb() {
    assert_eq!(ColorParser::from_str("rgb(255,0,0)"), 0xffff0000);
    assert_eq!(ColorParser::from_str("rgba(1,2,3,4)"), 0x04010203);
    // Missing or malformed components read as 255.
    assert_eq!(ColorParser::from_str("rgb(10)"), 0xff0affff);
    assert_eq!(ColorParser::from_str("rgb(300,0,0)"), 0xffff0000);
}

#[test]
fn keywords_and_fallbacks() {
    assert_eq!(ColorParser::from_str("red"), 0xffff0000);
    assert_eq!(ColorParser::from_str("RED"), 0xffff0000);
    assert_eq!(ColorParser::from_str("blue"), 0xff0000ff);
    assert_eq!(ColorParser::from_str("green"), 0xff00ff00);
    assert_eq!(ColorParser::from_str("pink"), 0xffffc0cb);
    assert_eq!(ColorParser::from_str("#123456"), 0xff000000);
    assert_eq!(ColorParser::from_str("hsl(1,2%,3%)"), 0xff000000);
    assert_eq!(ColorParser::from_str("chartreuse"), 0xff000000);
}
