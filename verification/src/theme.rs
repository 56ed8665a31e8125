//! The CLI's color theme and the text styling built on it.

use vstd::prelude::*;

use crate::text::push_char;

verus! {

/// A terminal color, with the variants of the terminal library's color type.
#[derive(Debug, Clone, Copy, PartialEq, Eq, Structural)]
pub enum Color {
    Reset,
    Black,
    DarkGrey,
    Red,
    DarkRed,
    Green,
    DarkGreen,
    Yellow,
    DarkYellow,
    Blue,
    DarkBlue,
    Magenta,
    DarkMagenta,
    Cyan,
    DarkCyan,
    White,
    Grey,
    Rgb { r: u8, g: u8, b: u8 },
    AnsiValue(u8),
}

/// The basic ANSI foreground code closest to an RGB color.
pub open spec fn rgb_ansi_code(r: u8, g: u8, b: u8) -> u8 {
    if r > 200 && g < 100 && b < 100 {
        31
    } else if r < 100 && g > 200 && b < 100 {
        32
    } else if r > 200 && g > 200 && b < 100 {
        33
    } else if r < 100 && g < 100 && b > 200 {
        34
    } else if r > 200 && g < 100 && b > 200 {
        35
    } else if r < 100 && g > 200 && b > 200 {
        36
    } else if r > 150 && g > 150 && b > 150 {
        37
    } else {
        30
    }
}

/// The ANSI foreground code of a color: the eight basic colors map to 30..=37, dark grey
/// to 90, RGB colors to the nearest basic color, the first sixteen palette entries to
/// 30..=37 and 90..=97, and anything else to white (37).
pub open spec fn ansi_code(c: Color) -> u8 {
    match c {
        Color::Black => 30,
        Color::DarkGrey => 90,
        Color::Red | Color::DarkRed => 31,
        Color::Green | Color::DarkGreen => 32,
        Color::Yellow | Color::DarkYellow => 33,
        Color::Blue | Color::DarkBlue => 34,
        Color::Magenta | Color::DarkMagenta => 35,
        Color::Cyan | Color::DarkCyan => 36,
        Color::White | Color::Grey => 37,
        Color::Rgb { r, g, b } => rgb_ansi_code(r, g, b),
        Color::AnsiValue(v) => if v <= 7 {
            (30 + v) as u8
        } else if v <= 15 {
            (90 + (v - 8)) as u8
        } else {
            37
        },
        Color::Reset => 37,
    }
}

/// Converts a color to its ANSI foreground code.
pub fn color_to_ansi_code(color: Color) -> (res: u8)
    ensures
        res == ansi_code(color),
{
    match color {
        Color::Black => 30,
        Color::DarkGrey => 90,
        Color::Red => 31,
        Color::DarkRed => 31,
        Color::Green => 32,
        Color::DarkGreen => 32,
        Color::Yellow => 33,
        Color::DarkYellow => 33,
        Color::Blue => 34,
        Color::DarkBlue => 34,
        Color::Magenta => 35,
        Color::DarkMagenta => 35,
        Color::Cyan => 36,
        Color::DarkCyan => 36,
        Color::White => 37,
        Color::Grey => 37,
        Color::Rgb { r, g, b } => {
            if r > 200 && g < 100 && b < 100 {
                31
            } else if r < 100 && g > 200 && b < 100 {
                32
            } else if r > 200 && g > 200 && b < 100 {
                33
            } else if r < 100 && g < 100 && b > 200 {
                34
            } else if r > 200 && g < 100 && b > 200 {
                35
            } else if r < 100 && g > 200 && b > 200 {
                36
            } else if r > 150 && g > 150 && b > 150 {
                37
            } else {
                30
            }
        },
        Color::AnsiValue(val) => {
            if val <= 7 {
                30 + val
            } else if val <= 15 {
                90 + (val - 8)
            } else {
                37
            }
        },
        Color::Reset => 37,
    }
}

/// Colors for status messages.
#[derive(Debug, Clone, Copy, PartialEq, Eq, Structural)]
pub struct StatusColors {
    pub error: Color,
    pub warning: Color,
    pub success: Color,
    pub info: Color,
}

/// Colors for UI elements.
#[derive(Debug, Clone, Copy, PartialEq, Eq, Structural)]
pub struct UiColors {
    pub primary_brand: Color,
    pub primary_text: Color,
    pub secondary_text: Color,
    pub emphasis: Color,
    pub command_highlight: Color,
}

/// Colors for interactive elements.
#[derive(Debug, Clone, Copy, PartialEq, Eq, Structural)]
pub struct InteractiveColors {
    pub prompt_symbol: Color,
    pub profile_indicator: Color,
    pub tangent_indicator: Color,
    pub usage_low: Color,
    pub usage_medium: Color,
    pub usage_high: Color,
}

/// The main theme configuration containing all color categories.
#[derive(Debug, Clone, Copy, PartialEq, Eq, Structural)]
pub struct Theme {
    /// Colors for status messages (error, warning, success, info).
    pub status: StatusColors,
    /// Colors for UI elements (branding, text, links, etc.).
    pub ui: UiColors,
    /// Colors for interactive elements (prompts, indicators, etc.).
    pub interactive: InteractiveColors,
}

/// The default status colors.
pub open spec fn default_status_colors() -> StatusColors {
    StatusColors { error: Color::Red, warning: Color::Yellow, success: Color::Green, info: Color::Blue }
}

/// The default UI colors.
pub open spec fn default_ui_colors() -> UiColors {
    UiColors {
        primary_brand: Color::Cyan,
        primary_text: Color::White,
        secondary_text: Color::DarkGrey,
        emphasis: Color::Magenta,
        command_highlight: Color::Green,
    }
}

/// The default interactive colors.
pub open spec fn default_interactive_colors() -> InteractiveColors {
    InteractiveColors {
        prompt_symbol: Color::Magenta,
        profile_indicator: Color::Cyan,
        tangent_indicator: Color::Yellow,
        usage_low: Color::Green,
        usage_medium: Color::Yellow,
        usage_high: Color::Red,
    }
}

/// The default theme, matching the CLI's appearance.
pub open spec fn default_theme() -> Theme {
    Theme {
        status: default_status_colors(),
        ui: default_ui_colors(),
        interactive: default_interactive_colors(),
    }
}

impl Default for StatusColors {
    fn default() -> (res: Self)
        ensures
            res == default_status_colors(),
    {
        StatusColors { error: Color::Red, warning: Color::Yellow, success: Color::Green, info: Color::Blue }
    }
}

impl Default for UiColors {
    fn default() -> (res: Self)
        ensures
            res == default_ui_colors(),
    {
        UiColors {
            primary_brand: Color::Cyan,
            primary_text: Color::White,
            secondary_text: Color::DarkGrey,
            emphasis: Color::Magenta,
            command_highlight: Color::Green,
        }
    }
}

impl Default for InteractiveColors {
    fn default() -> (res: Self)
        ensures
            res == default_interactive_colors(),
    {
        InteractiveColors {
            prompt_symbol: Color::Magenta,
            profile_indicator: Color::Cyan,
            tangent_indicator: Color::Yellow,
            usage_low: Color::Green,
            usage_medium: Color::Yellow,
            usage_high: Color::Red,
        }
    }
}

impl Default for Theme {
    /// Creates the default theme with colors matching the CLI's appearance.
    fn default() -> (res: Self)
        ensures
            res == default_theme(),
    {
        Theme {
            status: StatusColors::default(),
            ui: UiColors::default(),
            interactive: InteractiveColors::default(),
        }
    }
}

/// The theme used throughout the application.
pub fn theme() -> (res: Theme)
    ensures
        res == default_theme(),
{
    Theme::default()
}

/// The decimal digit character for `d`.
pub open spec fn digit_char(d: nat) -> char {
    if d == 0 {
        '0'
    } else if d == 1 {
        '1'
    } else if d == 2 {
        '2'
    } else if d == 3 {
        '3'
    } else if d == 4 {
        '4'
    } else if d == 5 {
        '5'
    } else if d == 6 {
        '6'
    } else if d == 7 {
        '7'
    } else if d == 8 {
        '8'
    } else {
        '9'
    }
}

/// The decimal notation of `n`, without leading zeros.
pub open spec fn decimal(n: nat) -> Seq<char>
    decreases n,
{
    if n < 10 {
        seq![digit_char(n)]
    } else {
        decimal(n / 10).push(digit_char(n % 10))
    }
}

fn digit(d: u8) -> (c: char)
    requires
        d < 10,
    ensures
        c == digit_char(d as nat),
{
    if d == 0 {
        '0'
    } else if d == 1 {
        '1'
    } else if d == 2 {
        '2'
    } else if d == 3 {
        '3'
    } else if d == 4 {
        '4'
    } else if d == 5 {
        '5'
    } else if d == 6 {
        '6'
    } else if d == 7 {
        '7'
    } else if d == 8 {
        '8'
    } else {
        '9'
    }
}

/// Appends the decimal notation of `n` to `out`.
pub fn push_decimal_u8(out: &mut String, n: u8)
    ensures
        final(out)@ == old(out)@ + decimal(n as nat),
{
    if n >= 100 {
        let h = n / 100;
        let t = (n / 10) % 10;
        let o = n % 10;
        push_char(out, digit(h));
        push_char(out, digit(t));
        push_char(out, digit(o));
        proof {
            let q = (n / 10) as nat;
            assert((n as nat) / 10 == q && (n as nat) % 10 == o as nat && q / 10 == h as nat && q % 10 == t as nat);
            assert(decimal(h as nat) == seq![digit_char(h as nat)]);
            assert(decimal(q / 10) == seq![digit_char(h as nat)]);
            assert(decimal(q) == seq![digit_char(h as nat), digit_char(t as nat)]);
            assert(decimal(n as nat) == seq![digit_char(h as nat), digit_char(t as nat), digit_char(o as nat)]);
        }
    } else if n >= 10 {
        let t = n / 10;
        let o = n % 10;
        push_char(out, digit(t));
        push_char(out, digit(o));
        proof {
            assert((n as nat) / 10 == t as nat && (n as nat) % 10 == o as nat);
            assert(decimal(t as nat) == seq![digit_char(t as nat)]);
            assert(decimal(n as nat) == seq![digit_char(t as nat), digit_char(o as nat)]);
        }
    } else {
        push_char(out, digit(n));
    }
    assert(final(out)@ =~= old(out)@ + decimal(n as nat));
}

/// `text` wrapped in the escape sequence that selects the foreground code `code`,
/// followed by the reset sequence.
pub open spec fn styled(code: u8, text: Seq<char>) -> Seq<char> {
    "\x1b["@ + decimal(code as nat) + "m"@ + text + "\x1b[0m"@
}

/// `text` styled with the foreground color `color`.
pub fn style_with(color: Color, text: &str) -> (res: String)
    ensures
        res@ == styled(ansi_code(color), text@),
{
    let code = color_to_ansi_code(color);
    let mut s = String::from_str("\x1b[");
    push_decimal_u8(&mut s, code);
    s.append("m");
    s.append(text);
    s.append("\x1b[0m");
    s
}

/// Text in the theme's brand color.
pub open spec fn brand_text(t: Seq<char>) -> Seq<char> {
    styled(ansi_code(default_theme().ui.primary_brand), t)
}

/// Text in the theme's emphasis color.
pub open spec fn emphasis_text(t: Seq<char>) -> Seq<char> {
    styled(ansi_code(default_theme().ui.emphasis), t)
}

/// Text in the theme's command color.
pub open spec fn command_text(t: Seq<char>) -> Seq<char> {
    styled(ansi_code(default_theme().ui.command_highlight), t)
}

/// Text in the theme's success color.
pub open spec fn success_text(t: Seq<char>) -> Seq<char> {
    styled(ansi_code(default_theme().status.success), t)
}

/// Text in the theme's error color.
pub open spec fn error_text(t: Seq<char>) -> Seq<char> {
    styled(ansi_code(default_theme().status.error), t)
}

/// Text in the theme's info color.
pub open spec fn info_text(t: Seq<char>) -> Seq<char> {
    styled(ansi_code(default_theme().status.info), t)
}

/// Text in the theme's primary text color.
pub open spec fn primary_text(t: Seq<char>) -> Seq<char> {
    styled(ansi_code(default_theme().ui.primary_text), t)
}

/// Text in the theme's secondary text color.
pub open spec fn secondary_text(t: Seq<char>) -> Seq<char> {
    styled(ansi_code(default_theme().ui.secondary_text), t)
}

/// A text styling API over the theme's colors.
pub struct StyledText;

impl StyledText {
    /// Error-styled text.
    pub fn error(text: &str) -> (res: String)
        ensures
            res@ == styled(ansi_code(default_theme().status.error), text@),
    {
        style_with(theme().status.error, text)
    }

    /// Info-styled text.
    pub fn info(text: &str) -> (res: String)
        ensures
            res@ == styled(ansi_code(default_theme().status.info), text@),
    {
        style_with(theme().status.info, text)
    }

    /// Emphasis-styled text.
    pub fn emphasis(text: &str) -> (res: String)
        ensures
            res@ == styled(ansi_code(default_theme().ui.emphasis), text@),
    {
        style_with(theme().ui.emphasis, text)
    }

    /// Command-styled text.
    pub fn command(text: &str) -> (res: String)
        ensures
            res@ == styled(ansi_code(default_theme().ui.command_highlight), text@),
    {
        style_with(theme().ui.command_highlight, text)
    }

    /// Prompt-styled text.
    pub fn prompt(text: &str) -> (res: String)
        ensures
            res@ == styled(ansi_code(default_theme().interactive.prompt_symbol), text@),
    {
        style_with(theme().interactive.prompt_symbol, text)
    }

    /// Profile-styled text.
    pub fn profile(text: &str) -> (res: String)
        ensures
            res@ == styled(ansi_code(default_theme().interactive.profile_indicator), text@),
    {
        style_with(theme().interactive.profile_indicator, text)
    }

    /// Tangent-styled text.
    pub fn tangent(text: &str) -> (res: String)
        ensures
            res@ == styled(ansi_code(default_theme().interactive.tangent_indicator), text@),
    {
        style_with(theme().interactive.tangent_indicator, text)
    }

    /// Text styled for low usage.
    pub fn usage_low(text: &str) -> (res: String)
        ensures
            res@ == styled(ansi_code(default_theme().interactive.usage_low), text@),
    {
        style_with(theme().interactive.usage_low, text)
    }

    /// Text styled for medium usage.
    pub fn usage_medium(text: &str) -> (res: String)
        ensures
            res@ == styled(ansi_code(default_theme().interactive.usage_medium), text@),
    {
        style_with(theme().interactive.usage_medium, text)
    }

    /// Text styled for high usage.
    pub fn usage_high(text: &str) -> (res: String)
        ensures
            res@ == styled(ansi_code(default_theme().interactive.usage_high), text@),
    {
        style_with(theme().interactive.usage_high, text)
    }

    /// Brand-styled text (the primary brand color).
    pub fn brand(text: &str) -> (res: String)
        ensures
            res@ == styled(ansi_code(default_theme().ui.primary_brand), text@),
    {
        style_with(theme().ui.primary_brand, text)
    }

    /// Primary-styled text (the primary text color).
    pub fn primary(text: &str) -> (res: String)
        ensures
            res@ == styled(ansi_code(default_theme().ui.primary_text), text@),
    {
        style_with(theme().ui.primary_text, text)
    }

    /// Secondary-styled text (muted helper text).
    pub fn secondary(text: &str) -> (res: String)
        ensures
            res@ == styled(ansi_code(default_theme().ui.secondary_text), text@),
    {
        style_with(theme().ui.secondary_text, text)
    }

    /// Success-styled text.
    pub fn success(text: &str) -> (res: String)
        ensures
            res@ == styled(ansi_code(default_theme().status.success), text@),
    {
        style_with(theme().status.success, text)
    }
}

/// Styled text always holds the text itself, after a non-empty escape sequence.
pub proof fn lemma_styled_contains_text(code: u8, text: Seq<char>)
    ensures
        styled(code, text).len() == text.len() + decimal(code as nat).len() + 7,
        styled(code, text).subrange(
            3 + decimal(code as nat).len() as int,
            3 + decimal(code as nat).len() + text.len() as int,
        ) == text,
        styled(code, text).len() > 0,
{
    reveal_strlit("\x1b[");
    reveal_strlit("m");
    reveal_strlit("\x1b[0m");
    let d = decimal(code as nat);
    assert(styled(code, text) == "\x1b["@ + d + "m"@ + text + "\x1b[0m"@);
    assert(styled(code, text).subrange(3 + d.len() as int, 3 + d.len() + text.len() as int) =~= text);
}

} // verus!
