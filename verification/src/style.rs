//! Timestamp style options and the fixed tables that resolve their names.

use vstd::prelude::*;

verus! {

/// An RGBA colour, eight bits per channel, alpha not premultiplied.
#[derive(Clone, Copy, Debug, PartialEq, Eq, Structural)]
pub struct Color {
    pub red: u8,
    pub green: u8,
    pub blue: u8,
    pub alpha: u8,
}

impl Color {
    /// The four channel bytes in the order in which a frame stores them.
    pub open spec fn bytes(self) -> Seq<u8> {
        seq![self.red, self.green, self.blue, self.alpha]
    }

    /// An opaque colour.
    pub open spec fn opaque(red: u8, green: u8, blue: u8) -> Color {
        Color { red, green, blue, alpha: 255 }
    }
}

/// How the timestamp is composited.
#[derive(Clone, Copy, Debug, PartialEq, Eq, Structural)]
pub enum DisplayMode {
    /// Drawn onto the image itself.
    Overlay,
    /// Drawn onto an added strip of dark background.
    BannerDark,
    /// Drawn onto an added strip of light background.
    BannerLight,
}

/// Horizontal placement of the timestamp.
#[derive(Clone, Copy, Debug, PartialEq, Eq, Structural)]
pub enum TextAlign {
    Left,
    Center,
    Right,
}

/// Vertical placement of the timestamp or of its banner.
#[derive(Clone, Copy, Debug, PartialEq, Eq, Structural)]
pub enum Position {
    Top,
    Bottom,
}

/// Target encoding of a finished image.
#[derive(Clone, Copy, Debug, PartialEq, Eq, Structural)]
pub enum OutputFormat {
    Png,
    Jpeg,
}

/// Style of the timestamp, in the textual form in which settings store it.
#[derive(Clone, Debug)]
pub struct TimestampOptions {
    pub enabled: bool,
    pub font_size: u32,
    pub display_type: String,
    pub text_color: String,
    pub text_align: String,
    pub position: String,
    pub bold: bool,
    pub italic: bool,
    pub underline: bool,
}

/// A style with its names resolved.
#[derive(Clone, Copy, Debug, PartialEq, Eq, Structural)]
pub struct TimestampStyle {
    pub font_size: u32,
    pub mode: DisplayMode,
    pub color: Color,
    pub align: TextAlign,
    pub position: Position,
}

impl TimestampOptions {
    /// The style that the options stand for.
    pub open spec fn style(&self) -> TimestampStyle {
        TimestampStyle {
            font_size: self.font_size,
            mode: display_mode_of(self.display_type@),
            color: text_color_of(self.text_color@),
            align: text_align_of(self.text_align@),
            position: position_of(self.position@),
        }
    }

    /// Resolves the names of the options.
    pub fn resolve(&self) -> (r: TimestampStyle)
        ensures
            r == self.style(),
    {
        TimestampStyle {
            font_size: self.font_size,
            mode: parse_display_mode(self.display_type.as_str()),
            color: get_text_color(self.text_color.as_str()),
            align: parse_text_align(self.text_align.as_str()),
            position: parse_position(self.position.as_str()),
        }
    }
}

impl Default for TimestampOptions {
    /// Enabled, 14 px, white centred text on a dark banner below the image.
    fn default() -> (r: TimestampOptions)
        ensures
            r.enabled,
            r.font_size == 14,
            r.display_type@ == "banner-dark"@,
            r.text_color@ == "white"@,
            r.text_align@ == "center"@,
            r.position@ == "bottom"@,
            !r.bold && !r.italic && !r.underline,
    {
        TimestampOptions {
            enabled: true,
            font_size: 14,
            display_type: "banner-dark".to_owned(),
            text_color: "white".to_owned(),
            text_align: "center".to_owned(),
            position: "bottom".to_owned(),
            bold: false,
            italic: false,
            underline: false,
        }
    }
}

/// The colour that a colour name stands for: one of nine named colours, and
/// white for every other name.
pub open spec fn text_color_of(name: Seq<char>) -> Color {
    if name == "white"@ {
        Color::opaque(255, 255, 255)
    } else if name == "black"@ {
        Color::opaque(0, 0, 0)
    } else if name == "gray"@ {
        Color::opaque(128, 128, 128)
    } else if name == "red"@ {
        Color::opaque(255, 0, 0)
    } else if name == "green"@ {
        Color::opaque(0, 255, 0)
    } else if name == "blue"@ {
        Color::opaque(0, 0, 255)
    } else if name == "yellow"@ {
        Color::opaque(255, 255, 0)
    } else if name == "cyan"@ {
        Color::opaque(0, 255, 255)
    } else if name == "magenta"@ {
        Color::opaque(255, 0, 255)
    } else {
        Color::opaque(255, 255, 255)
    }
}

/// The name is one of the nine entries of the colour table.
pub open spec fn is_named_color(name: Seq<char>) -> bool {
    name == "white"@ || name == "black"@ || name == "gray"@ || name == "red"@ || name == "green"@
        || name == "blue"@ || name == "yellow"@ || name == "cyan"@ || name == "magenta"@
}

/// The display mode that a type name stands for: banner on dark background
/// unless the name is `overlay` or `banner-light`.
pub open spec fn display_mode_of(name: Seq<char>) -> DisplayMode {
    if name == "overlay"@ {
        DisplayMode::Overlay
    } else if name == "banner-light"@ {
        DisplayMode::BannerLight
    } else {
        DisplayMode::BannerDark
    }
}

/// The alignment that a name stands for: centred unless `left` or `right`.
pub open spec fn text_align_of(name: Seq<char>) -> TextAlign {
    if name == "left"@ {
        TextAlign::Left
    } else if name == "right"@ {
        TextAlign::Right
    } else {
        TextAlign::Center
    }
}

/// The position that a name stands for: bottom unless `top`.
pub open spec fn position_of(name: Seq<char>) -> Position {
    if name == "top"@ {
        Position::Top
    } else {
        Position::Bottom
    }
}

/// The format that a name stands for: JPEG unless `png`.
pub open spec fn output_format_of(name: Seq<char>) -> OutputFormat {
    if name == "png"@ {
        OutputFormat::Png
    } else {
        OutputFormat::Jpeg
    }
}

/// Background of the banner strip: `#F5F5F5` for the light banner, `#333333`
/// otherwise.
pub open spec fn banner_color_of(mode: DisplayMode) -> Color {
    if mode == DisplayMode::BannerLight {
        Color::opaque(245, 245, 245)
    } else {
        Color::opaque(51, 51, 51)
    }
}

/// Height of the banner strip for a font size: the font size and 20 px of
/// padding, and never less than 30 px.
pub open spec fn banner_height_of(font_size: int) -> int {
    if font_size + 20 >= 30 {
        font_size + 20
    } else {
        30
    }
}

/// Whether two strings hold the same characters.
pub fn same_text(a: &str, b: &str) -> (r: bool)
    ensures
        r == (a@ == b@),
{
    let x = a.to_owned();
    let y = b.to_owned();
    x == y
}

/// Resolves a colour name; an unknown name is white, not an error.
pub fn get_text_color(color_name: &str) -> (r: Color)
    ensures
        r == text_color_of(color_name@),
{
    if same_text(color_name, "white") {
        Color { red: 255, green: 255, blue: 255, alpha: 255 }
    } else if same_text(color_name, "black") {
        Color { red: 0, green: 0, blue: 0, alpha: 255 }
    } else if same_text(color_name, "gray") {
        Color { red: 128, green: 128, blue: 128, alpha: 255 }
    } else if same_text(color_name, "red") {
        Color { red: 255, green: 0, blue: 0, alpha: 255 }
    } else if same_text(color_name, "green") {
        Color { red: 0, green: 255, blue: 0, alpha: 255 }
    } else if same_text(color_name, "blue") {
        Color { red: 0, green: 0, blue: 255, alpha: 255 }
    } else if same_text(color_name, "yellow") {
        Color { red: 255, green: 255, blue: 0, alpha: 255 }
    } else if same_text(color_name, "cyan") {
        Color { red: 0, green: 255, blue: 255, alpha: 255 }
    } else if same_text(color_name, "magenta") {
        Color { red: 255, green: 0, blue: 255, alpha: 255 }
    } else {
        Color { red: 255, green: 255, blue: 255, alpha: 255 }
    }
}

/// Every name outside the colour table resolves to opaque white.
pub proof fn unknown_color_is_white(name: Seq<char>)
    requires
        !is_named_color(name),
    ensures
        text_color_of(name) == Color::opaque(255, 255, 255),
{
}

/// Resolves a display type name.
pub fn parse_display_mode(display_type: &str) -> (r: DisplayMode)
    ensures
        r == display_mode_of(display_type@),
{
    if same_text(display_type, "overlay") {
        DisplayMode::Overlay
    } else if same_text(display_type, "banner-light") {
        DisplayMode::BannerLight
    } else {
        DisplayMode::BannerDark
    }
}

/// Resolves an alignment name.
pub fn parse_text_align(text_align: &str) -> (r: TextAlign)
    ensures
        r == text_align_of(text_align@),
{
    if same_text(text_align, "left") {
        TextAlign::Left
    } else if same_text(text_align, "right") {
        TextAlign::Right
    } else {
        TextAlign::Center
    }
}

/// Resolves a position name.
pub fn parse_position(position: &str) -> (r: Position)
    ensures
        r == position_of(position@),
{
    if same_text(position, "top") {
        Position::Top
    } else {
        Position::Bottom
    }
}

/// Resolves a format name.
pub fn parse_output_format(format: &str) -> (r: OutputFormat)
    ensures
        r == output_format_of(format@),
{
    if same_text(format, "png") {
        OutputFormat::Png
    } else {
        OutputFormat::Jpeg
    }
}

/// Background colour of the banner strip of a display mode.
pub fn banner_color(mode: DisplayMode) -> (r: Color)
    ensures
        r == banner_color_of(mode),
{
    match mode {
        DisplayMode::BannerLight => Color { red: 245, green: 245, blue: 245, alpha: 255 },
        _ => Color { red: 51, green: 51, blue: 51, alpha: 255 },
    }
}

/// Background colour of the banner for a display type name.
pub fn get_banner_color(display_type: &str) -> (r: Color)
    ensures
        r == banner_color_of(display_mode_of(display_type@)),
{
    banner_color(parse_display_mode(display_type))
}

/// Height of the banner strip; `None` where it does not fit in 32 bits.
pub fn banner_height(font_size: u32) -> (r: Option<u32>)
    ensures
        r is Some <==> banner_height_of(font_size as int) <= u32::MAX,
        r is Some ==> r.unwrap() == banner_height_of(font_size as int),
{
    if font_size > u32::MAX - 20 {
        None
    } else if font_size + 20 >= 30 {
        Some(font_size + 20)
    } else {
        Some(30)
    }
}

} // verus!
