//! Colour roles and text styles.

use vstd::prelude::*;

verus! {

/// A colour, named by the part it plays in the active palette.
#[derive(Clone, Copy, Debug, PartialEq, Eq, Structural)]
pub enum Tone {
    /// Leaves whatever colour is already there.
    Unset,
    Bg,
    Surface,
    PanelBg,
    SelectionBg,
    HoverBg,
    DropdownBg,
    InputFocusedBg,
    InputUnfocusedBg,
    InputDisabledBg,
    Border,
    BorderDim,
    Title,
    Header,
    Label,
    Text,
    TextBright,
    TextMuted,
    TextDim,
    Info,
    Success,
    Warning,
    Error,
    ErrorDim,
    Destructive,
    TabActive,
    TabInactive,
    Cyan,
    Green,
    Amber,
    Red,
    Purple,
    Blue,
    Accent,
    PillActiveFg,
    PillActiveBg,
    PillPresetFg,
    PillPresetBg,
    /// One of the palette's gradient stops.
    GradientStop(usize),
    AnsiBlue,
    AnsiCyan,
    AnsiDarkGray,
    AnsiGray,
    AnsiGreen,
    AnsiRed,
    AnsiWhite,
    AnsiYellow,
    Rgb(u8, u8, u8),
}

/// How a run of text is painted.
#[derive(Clone, Copy, Debug, PartialEq, Eq, Structural)]
pub struct Style {
    pub fg: Tone,
    pub bg: Tone,
    pub bold: bool,
    pub dim: bool,
    pub italic: bool,
    pub crossed_out: bool,
}

/// Text painted with no change of colour.
#[verifier::allow_in_spec]
pub fn plain() -> Style
    returns
        (Style {
            fg: Tone::Unset,
            bg: Tone::Unset,
            bold: false,
            dim: false,
            italic: false,
            crossed_out: false,
        }),
{
    Style {
        fg: Tone::Unset,
        bg: Tone::Unset,
        bold: false,
        dim: false,
        italic: false,
        crossed_out: false,
    }
}

/// Text in the colour `tone`.
#[verifier::allow_in_spec]
pub fn fg(tone: Tone) -> Style
    returns
        (Style { fg: tone, ..plain() }),
{
    Style { fg: tone, ..plain() }
}

/// A background of the colour `tone`.
#[verifier::allow_in_spec]
pub fn bg(tone: Tone) -> Style
    returns
        (Style { bg: tone, ..plain() }),
{
    Style { bg: tone, ..plain() }
}

/// Text in the colour `front` on `back`.
#[verifier::allow_in_spec]
pub fn on(front: Tone, back: Tone) -> Style
    returns
        (Style { fg: front, bg: back, ..plain() }),
{
    Style { fg: front, bg: back, ..plain() }
}

/// `style` in bold.
#[verifier::allow_in_spec]
pub fn bold(style: Style) -> Style
    returns
        (Style { bold: true, ..style }),
{
    Style { bold: true, ..style }
}

/// `style` on the background `tone`.
#[verifier::allow_in_spec]
pub fn over(style: Style, tone: Tone) -> Style
    returns
        (Style { bg: tone, ..style }),
{
    Style { bg: tone, ..style }
}

/// Bold text in the colour `tone`.
#[verifier::allow_in_spec]
pub fn bold_fg(tone: Tone) -> Style
    returns
        (Style { fg: tone, bold: true, ..plain() }),
{
    Style { fg: tone, bold: true, ..plain() }
}

/// Ordinary text.
#[verifier::allow_in_spec]
pub fn text_style() -> Style
    returns
        fg(Tone::Text),
{
    fg(Tone::Text)
}

/// De-emphasised text.
#[verifier::allow_in_spec]
pub fn muted() -> Style
    returns
        fg(Tone::TextMuted),
{
    fg(Tone::TextMuted)
}

/// Emphasised text.
#[verifier::allow_in_spec]
pub fn bright() -> Style
    returns
        fg(Tone::TextBright),
{
    fg(Tone::TextBright)
}

/// Barely visible text.
#[verifier::allow_in_spec]
pub fn dimmed() -> Style
    returns
        fg(Tone::TextDim),
{
    fg(Tone::TextDim)
}

/// Text in the accent colour.
#[verifier::allow_in_spec]
pub fn accent() -> Style
    returns
        fg(Tone::Accent),
{
    fg(Tone::Accent)
}

} // verus!
