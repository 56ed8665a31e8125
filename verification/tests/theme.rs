use chat_cli::theme::{color_to_ansi_code, theme, Color, StyledText};

#[test]
fn test_styled_text_string_methods() {
    assert!(!StyledText::error("test").is_empty());
    assert!(!StyledText::info("test").is_empty());
    assert!(!StyledText::emphasis("test").is_empty());
    assert!(!StyledText::command("test").is_empty());
    assert!(!StyledText::prompt("test").is_empty());
    assert!(!StyledText::profile("test").is_empty());
    assert!(!StyledText::tangent("test").is_empty());
    assert!(!StyledText::usage_low("test").is_empty());
    assert!(!StyledText::usage_medium("test").is_empty());
    assert!(!StyledText::usage_high("test").is_empty());
}

#[test]
fn test_color_to_ansi_code() {
    assert_eq!(color_to_ansi_code(Color::Red), 31);
    assert_eq!(color_to_ansi_code(Color::Green), 32);
    assert_eq!(color_to_ansi_code(Color::Blue), 34);
    assert_eq!(color_to_ansi_code(Color::Yellow), 33);
    assert_eq!(color_to_ansi_code(Color::Cyan), 36);
    assert_eq!(color_to_ansi_code(Color::Magenta), 35);
    assert_eq!(color_to_ansi_code(Color::White), 37);
    assert_eq!(color_to_ansi_code(Color::Black), 30);
}

#[test]
fn ansi_codes_of_rgb_and_palette_colors() {
    assert_eq!(color_to_ansi_code(Color::Rgb { r: 255, g: 0, b: 0 }), 31);
    assert_eq!(color_to_ansi_code(Color::Rgb { r: 0, g: 255, b: 255 }), 36);
    assert_eq!(color_to_ansi_code(Color::Rgb { r: 160, g: 160, b: 160 }), 37);
    assert_eq!(color_to_ansi_code(Color::Rgb { r: 120, g: 120, b: 120 }), 30);
    assert_eq!(color_to_ansi_code(Color::AnsiValue(3)), 33);
    assert_eq!(color_to_ansi_code(Color::AnsiValue(9)), 91);
    assert_eq!(color_to_ansi_code(Color::AnsiValue(200)), 37);
    assert_eq!(color_to_ansi_code(Color::DarkGrey), 90);
    assert_eq!(color_to_ansi_code(Color::Reset), 37);
}

#[test]
fn styled_text_wraps_in_escape_sequences() {
    assert_eq!(StyledText::error("x"), "\x1b[31mx\x1b[0m");
    assert_eq!(StyledText::secondary("hi"), "\x1b[90mhi\x1b[0m");
    assert_eq!(StyledText::brand(""), "\x1b[36m\x1b[0m");
    assert_eq!(theme().status.error, Color::Red);
}
