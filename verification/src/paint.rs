//! Colours, the policy that decides when they are used, and the escape
//! sequences that switch them on and off.

use termcolor::WriteColor;
use vstd::prelude::*;

use crate::level::Level;

verus! {

/// The colours in which records are shown.
#[derive(Clone, Copy, Debug, PartialEq, Eq, Hash, Structural)]
pub enum Color {
    Red,
    Yellow,
    Magenta,
    Blue,
    Green,
}

/// When the standard output is coloured.
#[derive(Clone, Copy, Debug, PartialEq, Eq, Hash, Structural)]
pub enum ColorPolicy {
    /// Always, whatever the output is attached to.
    Always,
    /// Only while the output is attached to an interactive terminal.
    OnlyIfInteractiveOutput,
}

impl Color {
    /// The colour in which records of `level` are shown.
    pub open spec fn of(level: Level) -> Color {
        match level {
            Level::Error => Color::Red,
            Level::Warn => Color::Yellow,
            Level::Info => Color::Magenta,
            Level::Debug => Color::Blue,
            Level::Trace => Color::Green,
        }
    }

    /// The escape sequence that switches the colour on: a reset of all
    /// attributes, then the code of the foreground colour.
    pub open spec fn start_sequence(self) -> Seq<char> {
        match self {
            Color::Red => "\x1b[0m\x1b[31m"@,
            Color::Yellow => "\x1b[0m\x1b[33m"@,
            Color::Magenta => "\x1b[0m\x1b[35m"@,
            Color::Blue => "\x1b[0m\x1b[34m"@,
            Color::Green => "\x1b[0m\x1b[32m"@,
        }
    }

    /// The escape sequence that switches every colour off.
    pub open spec fn reset_sequence() -> Seq<char> {
        "\x1b[0m"@
    }

    /// The colour in which records of `level` are shown.
    pub fn for_level(level: Level) -> (color: Color)
        ensures
            color == Color::of(level),
    {
        match level {
            Level::Error => Color::Red,
            Level::Warn => Color::Yellow,
            Level::Info => Color::Magenta,
            Level::Debug => Color::Blue,
            Level::Trace => Color::Green,
        }
    }
}

impl ColorPolicy {
    /// Whether the policy asks for colour, given whether the standard output
    /// is attached to an interactive terminal.
    pub open spec fn warrants(self, interactive: bool) -> bool {
        self == ColorPolicy::Always || interactive
    }

    /// Whether the policy asks for colour, given whether the standard output
    /// is attached to an interactive terminal.
    pub fn is_warranted(self, interactive: bool) -> (r: bool)
        ensures
            r == self.warrants(interactive),
    {
        match self {
            ColorPolicy::Always => true,
            ColorPolicy::OnlyIfInteractiveOutput => interactive,
        }
    }
}

/// `termcolor::Ansi::set_color`, on an empty buffer and with a `ColorSpec`
/// fresh from `ColorSpec::new` that has only its foreground set. Such a
/// `ColorSpec` asks for a reset and for no style, so what is written is the
/// reset sequence and then `ESC [ 3 n m`, where `n` is the colour's digit.
#[verifier::external_body]
pub(crate) fn ansi_start(color: Color) -> (r: String)
    ensures
        r@ == color.start_sequence(),
{
    let mut style = termcolor::ColorSpec::new();
    style.set_fg(Some(match color {
        Color::Red => termcolor::Color::Red,
        Color::Yellow => termcolor::Color::Yellow,
        Color::Magenta => termcolor::Color::Magenta,
        Color::Blue => termcolor::Color::Blue,
        Color::Green => termcolor::Color::Green,
    }));
    let mut out = termcolor::Ansi::new(Vec::new());
    let _ = out.set_color(&style);
    String::from_utf8_lossy(&out.into_inner()).into_owned()
}

/// `termcolor::Ansi::reset`, on an empty buffer: it writes `ESC [ 0 m`.
#[verifier::external_body]
pub(crate) fn ansi_reset() -> (r: String)
    ensures
        r@ == Color::reset_sequence(),
{
    let mut out = termcolor::Ansi::new(Vec::new());
    let _ = out.reset();
    String::from_utf8_lossy(&out.into_inner()).into_owned()
}

/// `atty::is`, asked of the standard output: whether it is attached to an
/// interactive terminal at the moment of the call. Nothing is known beforehand
/// of the answer.
#[verifier::external_body]
pub(crate) fn stdout_is_interactive() -> bool {
    atty::is(atty::Stream::Stdout)
}

} // verus!
