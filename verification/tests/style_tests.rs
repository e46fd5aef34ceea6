use smart_prtscr::style::{
    banner_height, get_banner_color, get_text_color, parse_display_mode, parse_output_format,
    parse_position, parse_text_align, same_text, Color, DisplayMode, OutputFormat, Position,
    TextAlign, TimestampOptions,
};

fn rgb(red: u8, green: u8, blue: u8) -> Color {
    Color { red, green, blue, alpha: 255 }
}

#[test]
fn named_colors_resolve_to_the_table() {
    assert_eq!(get_text_color("white"), rgb(255, 255, 255));
    assert_eq!(get_text_color("black"), rgb(0, 0, 0));
    assert_eq!(get_text_color("gray"), rgb(128, 128, 128));
    assert_eq!(get_text_color("red"), rgb(255, 0, 0));
    assert_eq!(get_text_color("green"), rgb(0, 255, 0));
    assert_eq!(get_text_color("blue"), rgb(0, 0, 255));
    assert_eq!(get_text_color("yellow"), rgb(255, 255, 0));
    assert_eq!(get_text_color("cyan"), rgb(0, 255, 255));
    assert_eq!(get_text_color("magenta"), rgb(255, 0, 255));
}

#[test]
fn unknown_color_resolves_to_white() {
    assert_eq!(get_text_color("purple"), rgb(255, 255, 255));
    assert_eq!(get_text_color(""), rgb(255, 255, 255));
    assert_eq!(get_text_color("White"), rgb(255, 255, 255));
    assert_eq!(get_text_color("Black"), rgb(255, 255, 255));
}

#[test]
fn banner_color_is_light_only_for_the_light_banner() {
    assert_eq!(get_banner_color("banner-light"), rgb(245, 245, 245));
    assert_eq!(get_banner_color("banner-dark"), rgb(51, 51, 51));
    assert_eq!(get_banner_color("overlay"), rgb(51, 51, 51));
    assert_eq!(get_banner_color("anything"), rgb(51, 51, 51));
}

#[test]
fn banner_height_is_font_size_plus_twenty_and_at_least_thirty() {
    assert_eq!(banner_height(14), Some(34));
    assert_eq!(banner_height(10), Some(30));
    assert_eq!(banner_height(9), Some(30));
    assert_eq!(banner_height(0), Some(30));
    assert_eq!(banner_height(11), Some(31));
    assert_eq!(banner_height(100), Some(120));
    assert_eq!(banner_height(u32::MAX - 20), Some(u32::MAX));
    assert_eq!(banner_height(u32::MAX - 19), None);
    assert_eq!(banner_height(u32::MAX), None);
}

#[test]
fn names_resolve_with_their_fallbacks() {
    assert_eq!(parse_display_mode("overlay"), DisplayMode::Overlay);
    assert_eq!(parse_display_mode("banner-light"), DisplayMode::BannerLight);
    assert_eq!(parse_display_mode("banner-dark"), DisplayMode::BannerDark);
    assert_eq!(parse_display_mode("other"), DisplayMode::BannerDark);
    assert_eq!(parse_text_align("left"), TextAlign::Left);
    assert_eq!(parse_text_align("right"), TextAlign::Right);
    assert_eq!(parse_text_align("center"), TextAlign::Center);
    assert_eq!(parse_text_align("justify"), TextAlign::Center);
    assert_eq!(parse_position("top"), Position::Top);
    assert_eq!(parse_position("bottom"), Position::Bottom);
    assert_eq!(parse_position("middle"), Position::Bottom);
    assert_eq!(parse_output_format("png"), OutputFormat::Png);
    assert_eq!(parse_output_format("jpg"), OutputFormat::Jpeg);
    assert_eq!(parse_output_format("gif"), OutputFormat::Jpeg);
    assert_eq!(parse_output_format("PNG"), OutputFormat::Jpeg);
}

#[test]
fn same_text_compares_characters() {
    assert!(same_text("abc", "abc"));
    assert!(!same_text("abc", "abd"));
    assert!(!same_text("abc", "ab"));
    assert!(same_text("", ""));
}

#[test]
fn default_options_are_the_dark_bottom_banner() {
    let options = TimestampOptions::default();
    assert!(options.enabled);
    assert_eq!(options.font_size, 14);
    assert_eq!(options.display_type, "banner-dark");
    assert_eq!(options.text_color, "white");
    assert_eq!(options.text_align, "center");
    assert_eq!(options.position, "bottom");
    assert!(!options.bold && !options.italic && !options.underline);
    let style = options.resolve();
    assert_eq!(style.font_size, 14);
    assert_eq!(style.mode, DisplayMode::BannerDark);
    assert_eq!(style.color, rgb(255, 255, 255));
    assert_eq!(style.align, TextAlign::Center);
    assert_eq!(style.position, Position::Bottom);
}
