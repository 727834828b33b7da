//! Resolving a [`Style`] bitset into concrete terminal directives.
//!
//! A [`Directives`] value is the resolved form of a style: at most one
//! foreground and one background color from a fixed palette of eight hues,
//! one shared "intense" flag, and independent booleans for bold, dim,
//! italic and underline. When several color bits of the same channel are
//! set, the bit latest in declaration order wins. Color directives are
//! gated on the terminal's reported color support; the blink, standout,
//! reverse and secure bits are deliberately never translated.

use vstd::prelude::*;

use crate::style::BG_BLACK;
use crate::style::BG_BLUE;
use crate::style::BG_BRIGHT_BLACK;
use crate::style::BG_BRIGHT_BLUE;
use crate::style::BG_BRIGHT_CYAN;
use crate::style::BG_BRIGHT_GREEN;
use crate::style::BG_BRIGHT_MAGENTA;
use crate::style::BG_BRIGHT_RED;
use crate::style::BG_BRIGHT_WHITE;
use crate::style::BG_BRIGHT_YELLOW;
use crate::style::BG_CYAN;
use crate::style::BG_GREEN;
use crate::style::BG_MAGENTA;
use crate::style::BG_RED;
use crate::style::BG_WHITE;
use crate::style::BG_YELLOW;
use crate::style::BLINK;
use crate::style::BOLD;
use crate::style::DIM;
use crate::style::FG_BLACK;
use crate::style::FG_BLUE;
use crate::style::FG_BRIGHT_BLACK;
use crate::style::FG_BRIGHT_BLUE;
use crate::style::FG_BRIGHT_CYAN;
use crate::style::FG_BRIGHT_GREEN;
use crate::style::FG_BRIGHT_MAGENTA;
use crate::style::FG_BRIGHT_RED;
use crate::style::FG_BRIGHT_WHITE;
use crate::style::FG_BRIGHT_YELLOW;
use crate::style::FG_CYAN;
use crate::style::FG_GREEN;
use crate::style::FG_MAGENTA;
use crate::style::FG_RED;
use crate::style::FG_WHITE;
use crate::style::FG_YELLOW;
use crate::style::ITALIC;
use crate::style::REVERSE;
use crate::style::SECURE;
use crate::style::STANDOUT;
use crate::style::Style;
use crate::style::UNDERLINE;

verus! {

/// One of the eight base hues a terminal specification can name.
#[derive(Copy, Clone, Debug, PartialEq, Eq, Structural)]
pub enum ColorName {
    Black,
    Blue,
    Cyan,
    Green,
    Magenta,
    Red,
    White,
    Yellow,
}

/// The resolved set of terminal directives a style translates to.
#[derive(Copy, Clone, Debug, PartialEq, Eq, Structural)]
#[verifier::ext_equal]
pub struct Directives {
    /// Requested foreground color, if any.
    pub fg: Option<ColorName>,
    /// Requested background color, if any.
    pub bg: Option<ColorName>,
    /// Whether the bright variant of the colors is requested.
    pub intense: bool,
    /// Bold emphasis.
    pub bold: bool,
    /// Dim emphasis.
    pub dimmed: bool,
    /// Italic emphasis.
    pub italic: bool,
    /// Underline emphasis.
    pub underline: bool,
}

impl Directives {
    /// The directives that request nothing at all.
    pub open spec fn spec_empty() -> Directives {
        Directives {
            fg: None,
            bg: None,
            intense: false,
            bold: false,
            dimmed: false,
            italic: false,
            underline: false,
        }
    }

    /// Returns the directives that request nothing at all.
    pub fn new() -> (d: Directives)
        ensures
            d == Directives::spec_empty(),
    {
        Directives {
            fg: None,
            bg: None,
            intense: false,
            bold: false,
            dimmed: false,
            italic: false,
            underline: false,
        }
    }
}

impl Default for Directives {
    /// Returns the directives that request nothing at all.
    fn default() -> (d: Directives)
        ensures
            d == Directives::spec_empty(),
    {
        Directives::new()
    }
}

/// The foreground color a style resolves to: of the foreground bits set,
/// the one latest in declaration order wins; without color support none is
/// requested.
pub open spec fn fg_of(s: Style, color: bool) -> Option<ColorName> {
    if !color {
        None
    } else if s.spec_has(FG_YELLOW) {
        Some(ColorName::Yellow)
    } else if s.spec_has(FG_WHITE) {
        Some(ColorName::White)
    } else if s.spec_has(FG_RED) {
        Some(ColorName::Red)
    } else if s.spec_has(FG_MAGENTA) {
        Some(ColorName::Magenta)
    } else if s.spec_has(FG_GREEN) {
        Some(ColorName::Green)
    } else if s.spec_has(FG_CYAN) {
        Some(ColorName::Cyan)
    } else if s.spec_has(FG_BRIGHT_YELLOW) {
        Some(ColorName::Yellow)
    } else if s.spec_has(FG_BRIGHT_WHITE) {
        Some(ColorName::White)
    } else if s.spec_has(FG_BRIGHT_RED) {
        Some(ColorName::Red)
    } else if s.spec_has(FG_BRIGHT_MAGENTA) {
        Some(ColorName::Magenta)
    } else if s.spec_has(FG_BRIGHT_GREEN) {
        Some(ColorName::Green)
    } else if s.spec_has(FG_BRIGHT_CYAN) {
        Some(ColorName::Cyan)
    } else if s.spec_has(FG_BRIGHT_BLUE) {
        Some(ColorName::Blue)
    } else if s.spec_has(FG_BRIGHT_BLACK) {
        Some(ColorName::Black)
    } else if s.spec_has(FG_BLUE) {
        Some(ColorName::Blue)
    } else if s.spec_has(FG_BLACK) {
        Some(ColorName::Black)
    } else {
        None
    }
}

/// The background color a style resolves to, symmetrically to [`fg_of`].
pub open spec fn bg_of(s: Style, color: bool) -> Option<ColorName> {
    if !color {
        None
    } else if s.spec_has(BG_YELLOW) {
        Some(ColorName::Yellow)
    } else if s.spec_has(BG_WHITE) {
        Some(ColorName::White)
    } else if s.spec_has(BG_RED) {
        Some(ColorName::Red)
    } else if s.spec_has(BG_MAGENTA) {
        Some(ColorName::Magenta)
    } else if s.spec_has(BG_GREEN) {
        Some(ColorName::Green)
    } else if s.spec_has(BG_CYAN) {
        Some(ColorName::Cyan)
    } else if s.spec_has(BG_BRIGHT_YELLOW) {
        Some(ColorName::Yellow)
    } else if s.spec_has(BG_BRIGHT_WHITE) {
        Some(ColorName::White)
    } else if s.spec_has(BG_BRIGHT_RED) {
        Some(ColorName::Red)
    } else if s.spec_has(BG_BRIGHT_MAGENTA) {
        Some(ColorName::Magenta)
    } else if s.spec_has(BG_BRIGHT_GREEN) {
        Some(ColorName::Green)
    } else if s.spec_has(BG_BRIGHT_CYAN) {
        Some(ColorName::Cyan)
    } else if s.spec_has(BG_BRIGHT_BLUE) {
        Some(ColorName::Blue)
    } else if s.spec_has(BG_BRIGHT_BLACK) {
        Some(ColorName::Black)
    } else if s.spec_has(BG_BLUE) {
        Some(ColorName::Blue)
    } else if s.spec_has(BG_BLACK) {
        Some(ColorName::Black)
    } else {
        None
    }
}

/// Whether a style requests the bright variant: true exactly when color is
/// supported and some bright foreground or background bit is set.
pub open spec fn intense_of(s: Style, color: bool) -> bool {
    color && (s.spec_has(FG_BRIGHT_BLACK) || s.spec_has(FG_BRIGHT_BLUE) || s.spec_has(
        FG_BRIGHT_CYAN,
    ) || s.spec_has(FG_BRIGHT_GREEN) || s.spec_has(FG_BRIGHT_MAGENTA) || s.spec_has(FG_BRIGHT_RED)
        || s.spec_has(FG_BRIGHT_WHITE) || s.spec_has(FG_BRIGHT_YELLOW) || s.spec_has(
        BG_BRIGHT_BLACK,
    ) || s.spec_has(BG_BRIGHT_BLUE) || s.spec_has(BG_BRIGHT_CYAN) || s.spec_has(BG_BRIGHT_GREEN)
        || s.spec_has(BG_BRIGHT_MAGENTA) || s.spec_has(BG_BRIGHT_RED) || s.spec_has(BG_BRIGHT_WHITE)
        || s.spec_has(BG_BRIGHT_YELLOW))
}

/// The full directives a style resolves to under the given color support.
pub open spec fn directives_of(s: Style, color: bool) -> Directives {
    Directives {
        fg: fg_of(s, color),
        bg: bg_of(s, color),
        intense: intense_of(s, color),
        bold: s.spec_has(BOLD),
        dimmed: s.spec_has(DIM),
        italic: s.spec_has(ITALIC),
        underline: s.spec_has(UNDERLINE),
    }
}

impl Style {
    /// The foreground color this style asks for: the bits are checked in
    /// declaration order and a later match overwrites an earlier one.
    fn fg_directive(self, color: bool) -> (c: Option<ColorName>)
        ensures
            c == fg_of(self, color),
    {
        let mut c: Option<ColorName> = None;
        if self.has(FG_BLACK) && color {
            c = Some(ColorName::Black);
        }
        if self.has(FG_BLUE) && color {
            c = Some(ColorName::Blue);
        }
        if self.has(FG_BRIGHT_BLACK) && color {
            c = Some(ColorName::Black);
        }
        if self.has(FG_BRIGHT_BLUE) && color {
            c = Some(ColorName::Blue);
        }
        if self.has(FG_BRIGHT_CYAN) && color {
            c = Some(ColorName::Cyan);
        }
        if self.has(FG_BRIGHT_GREEN) && color {
            c = Some(ColorName::Green);
        }
        if self.has(FG_BRIGHT_MAGENTA) && color {
            c = Some(ColorName::Magenta);
        }
        if self.has(FG_BRIGHT_RED) && color {
            c = Some(ColorName::Red);
        }
        if self.has(FG_BRIGHT_WHITE) && color {
            c = Some(ColorName::White);
        }
        if self.has(FG_BRIGHT_YELLOW) && color {
            c = Some(ColorName::Yellow);
        }
        if self.has(FG_CYAN) && color {
            c = Some(ColorName::Cyan);
        }
        if self.has(FG_GREEN) && color {
            c = Some(ColorName::Green);
        }
        if self.has(FG_MAGENTA) && color {
            c = Some(ColorName::Magenta);
        }
        if self.has(FG_RED) && color {
            c = Some(ColorName::Red);
        }
        if self.has(FG_WHITE) && color {
            c = Some(ColorName::White);
        }
        if self.has(FG_YELLOW) && color {
            c = Some(ColorName::Yellow);
        }
        c
    }

    /// The background color this style asks for, symmetrically to
    /// [`Style::fg_directive`].
    fn bg_directive(self, color: bool) -> (c: Option<ColorName>)
        ensures
            c == bg_of(self, color),
    {
        let mut c: Option<ColorName> = None;
        if self.has(BG_BLACK) && color {
            c = Some(ColorName::Black);
        }
        if self.has(BG_BLUE) && color {
            c = Some(ColorName::Blue);
        }
        if self.has(BG_BRIGHT_BLACK) && color {
            c = Some(ColorName::Black);
        }
        if self.has(BG_BRIGHT_BLUE) && color {
            c = Some(ColorName::Blue);
        }
        if self.has(BG_BRIGHT_CYAN) && color {
            c = Some(ColorName::Cyan);
        }
        if self.has(BG_BRIGHT_GREEN) && color {
            c = Some(ColorName::Green);
        }
        if self.has(BG_BRIGHT_MAGENTA) && color {
            c = Some(ColorName::Magenta);
        }
        if self.has(BG_BRIGHT_RED) && color {
            c = Some(ColorName::Red);
        }
        if self.has(BG_BRIGHT_WHITE) && color {
            c = Some(ColorName::White);
        }
        if self.has(BG_BRIGHT_YELLOW) && color {
            c = Some(ColorName::Yellow);
        }
        if self.has(BG_CYAN) && color {
            c = Some(ColorName::Cyan);
        }
        if self.has(BG_GREEN) && color {
            c = Some(ColorName::Green);
        }
        if self.has(BG_MAGENTA) && color {
            c = Some(ColorName::Magenta);
        }
        if self.has(BG_RED) && color {
            c = Some(ColorName::Red);
        }
        if self.has(BG_WHITE) && color {
            c = Some(ColorName::White);
        }
        if self.has(BG_YELLOW) && color {
            c = Some(ColorName::Yellow);
        }
        c
    }

    /// Whether some bright color bit asks for the intense variant.
    fn intense_directive(self, color: bool) -> (i: bool)
        ensures
            i == intense_of(self, color),
    {
        let mut i = false;
        if self.has(FG_BRIGHT_BLACK) && color {
            i = true;
        }
        if self.has(FG_BRIGHT_BLUE) && color {
            i = true;
        }
        if self.has(FG_BRIGHT_CYAN) && color {
            i = true;
        }
        if self.has(FG_BRIGHT_GREEN) && color {
            i = true;
        }
        if self.has(FG_BRIGHT_MAGENTA) && color {
            i = true;
        }
        if self.has(FG_BRIGHT_RED) && color {
            i = true;
        }
        if self.has(FG_BRIGHT_WHITE) && color {
            i = true;
        }
        if self.has(FG_BRIGHT_YELLOW) && color {
            i = true;
        }
        if self.has(BG_BRIGHT_BLACK) && color {
            i = true;
        }
        if self.has(BG_BRIGHT_BLUE) && color {
            i = true;
        }
        if self.has(BG_BRIGHT_CYAN) && color {
            i = true;
        }
        if self.has(BG_BRIGHT_GREEN) && color {
            i = true;
        }
        if self.has(BG_BRIGHT_MAGENTA) && color {
            i = true;
        }
        if self.has(BG_BRIGHT_RED) && color {
            i = true;
        }
        if self.has(BG_BRIGHT_WHITE) && color {
            i = true;
        }
        if self.has(BG_BRIGHT_YELLOW) && color {
            i = true;
        }
        i
    }

    /// Translates this style into concrete terminal directives, given
    /// whether the terminal reports color support. The attribute bits are
    /// checked in declaration order, so of several colors set on one
    /// channel the latest declared wins; color bits are dropped without
    /// color support, and the blink, standout, reverse and secure bits are
    /// deliberately never translated: the terminal capability model in use
    /// has no directive for them.
    pub fn directives(self, color: bool) -> (d: Directives)
        ensures
            d == directives_of(self, color),
    {
        let d = Directives {
            fg: self.fg_directive(color),
            bg: self.bg_directive(color),
            intense: self.intense_directive(color),
            bold: self.has(BOLD),
            dimmed: self.has(DIM),
            italic: self.has(ITALIC),
            underline: self.has(UNDERLINE),
        };
        proof {
            assert(d =~= directives_of(self, color));
        }
        d
    }
}

/// Capability gating: without color support a style resolves to directives
/// with no foreground, no background and no intensity, while bold, dim,
/// italic and underline are still requested as the style demands.
pub proof fn lemma_no_color_support_gates_colors(s: Style)
    ensures
        fg_of(s, false) is None,
        bg_of(s, false) is None,
        !intense_of(s, false),
        directives_of(s, false).bold == s.spec_has(BOLD),
        directives_of(s, false).dimmed == s.spec_has(DIM),
        directives_of(s, false).italic == s.spec_has(ITALIC),
        directives_of(s, false).underline == s.spec_has(UNDERLINE),
{
}

/// A style made only of the untranslated bits (blink, standout, reverse,
/// secure) resolves to the empty directives, whatever the color support.
pub proof fn lemma_untranslated_attrs_resolve_to_nothing(s: Style, color: bool)
    requires
        s@ & !(BLINK | STANDOUT | REVERSE | SECURE) == 0,
    ensures
        directives_of(s, color) == Directives::spec_empty(),
{
    let b = s@;
    assert(b & !(BLINK | STANDOUT | REVERSE | SECURE) == 0 ==> (b | FG_BLACK != b) && (b | FG_BLUE
        != b) && (b | FG_BRIGHT_BLACK != b) && (b | FG_BRIGHT_BLUE != b) && (b | FG_BRIGHT_CYAN
        != b) && (b | FG_BRIGHT_GREEN != b) && (b | FG_BRIGHT_MAGENTA != b) && (b | FG_BRIGHT_RED
        != b) && (b | FG_BRIGHT_WHITE != b) && (b | FG_BRIGHT_YELLOW != b) && (b | FG_CYAN != b)
        && (b | FG_GREEN != b) && (b | FG_MAGENTA != b) && (b | FG_RED != b) && (b | FG_WHITE != b)
        && (b | FG_YELLOW != b) && (b | BG_BLACK != b) && (b | BG_BLUE != b) && (b
        | BG_BRIGHT_BLACK != b) && (b | BG_BRIGHT_BLUE != b) && (b | BG_BRIGHT_CYAN != b) && (b
        | BG_BRIGHT_GREEN != b) && (b | BG_BRIGHT_MAGENTA != b) && (b | BG_BRIGHT_RED != b) && (b
        | BG_BRIGHT_WHITE != b) && (b | BG_BRIGHT_YELLOW != b) && (b | BG_CYAN != b) && (b
        | BG_GREEN != b) && (b | BG_MAGENTA != b) && (b | BG_RED != b) && (b | BG_WHITE != b) && (b
        | BG_YELLOW != b) && (b | BOLD != b) && (b | DIM != b) && (b | ITALIC != b) && (b
        | UNDERLINE != b)) by (bit_vector);
    assert(directives_of(s, color) =~= Directives::spec_empty());
}

} // verus!
