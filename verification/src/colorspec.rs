//! Building a `termcolor::ColorSpec` from resolved [`Directives`].
//!
//! The library's own [`Directives`] type is plain data; termcolor's
//! `ColorSpec` is the concrete specification its streams accept. A
//! `ColorSpec` value is opaque to the verifier, so the directives it
//! holds are given a name, each setter is a trusted wrapper whose
//! contract is checked against termcolor's source, and the translation
//! itself is verified against those contracts.

use vstd::prelude::*;

use crate::directive::ColorName;
use crate::directive::Directives;

verus! {

#[verifier::external_type_specification]
#[verifier::external_body]
pub struct ExColorSpec(termcolor::ColorSpec);

/// The directives a `termcolor::ColorSpec` holds: its foreground and
/// background colors restricted to the eight base hues, its intense flag,
/// and its bold, dimmed, italic and underline flags. The spec's further
/// settings (such as reset or strikethrough) are outside this library's
/// model and are never touched by it.
pub uninterp spec fn color_spec_directives(cs: termcolor::ColorSpec) -> Directives;

/// Relies on termcolor::ColorSpec::new: a specification with no colors
/// and no styles, every flag clear.
#[verifier::external_body]
fn color_spec_new() -> (cs: termcolor::ColorSpec)
    ensures
        color_spec_directives(cs) == Directives::spec_empty(),
{
    termcolor::ColorSpec::new()
}

/// Relies on termcolor::ColorSpec::set_fg: stores the given foreground
/// color and changes nothing else.
#[verifier::external_body]
fn color_spec_set_fg(cs: &mut termcolor::ColorSpec, color: ColorName)
    ensures
        color_spec_directives(*final(cs)) == (Directives {
            fg: Some(color),
            ..color_spec_directives(*old(cs))
        }),
{
    cs.set_fg(Some(match color {
        ColorName::Black => termcolor::Color::Black,
        ColorName::Blue => termcolor::Color::Blue,
        ColorName::Cyan => termcolor::Color::Cyan,
        ColorName::Green => termcolor::Color::Green,
        ColorName::Magenta => termcolor::Color::Magenta,
        ColorName::Red => termcolor::Color::Red,
        ColorName::White => termcolor::Color::White,
        ColorName::Yellow => termcolor::Color::Yellow,
    }));
}

/// Relies on termcolor::ColorSpec::set_bg: stores the given background
/// color and changes nothing else.
#[verifier::external_body]
fn color_spec_set_bg(cs: &mut termcolor::ColorSpec, color: ColorName)
    ensures
        color_spec_directives(*final(cs)) == (Directives {
            bg: Some(color),
            ..color_spec_directives(*old(cs))
        }),
{
    cs.set_bg(Some(match color {
        ColorName::Black => termcolor::Color::Black,
        ColorName::Blue => termcolor::Color::Blue,
        ColorName::Cyan => termcolor::Color::Cyan,
        ColorName::Green => termcolor::Color::Green,
        ColorName::Magenta => termcolor::Color::Magenta,
        ColorName::Red => termcolor::Color::Red,
        ColorName::White => termcolor::Color::White,
        ColorName::Yellow => termcolor::Color::Yellow,
    }));
}

/// Relies on termcolor::ColorSpec::set_intense: stores the flag and
/// changes nothing else.
#[verifier::external_body]
fn color_spec_set_intense(cs: &mut termcolor::ColorSpec, yes: bool)
    ensures
        color_spec_directives(*final(cs)) == (Directives {
            intense: yes,
            ..color_spec_directives(*old(cs))
        }),
{
    cs.set_intense(yes);
}

/// Relies on termcolor::ColorSpec::set_bold: stores the flag and changes
/// nothing else.
#[verifier::external_body]
fn color_spec_set_bold(cs: &mut termcolor::ColorSpec, yes: bool)
    ensures
        color_spec_directives(*final(cs)) == (Directives {
            bold: yes,
            ..color_spec_directives(*old(cs))
        }),
{
    cs.set_bold(yes);
}

/// Relies on termcolor::ColorSpec::set_dimmed: stores the flag and
/// changes nothing else.
#[verifier::external_body]
fn color_spec_set_dimmed(cs: &mut termcolor::ColorSpec, yes: bool)
    ensures
        color_spec_directives(*final(cs)) == (Directives {
            dimmed: yes,
            ..color_spec_directives(*old(cs))
        }),
{
    cs.set_dimmed(yes);
}

/// Relies on termcolor::ColorSpec::set_italic: stores the flag and
/// changes nothing else.
#[verifier::external_body]
fn color_spec_set_italic(cs: &mut termcolor::ColorSpec, yes: bool)
    ensures
        color_spec_directives(*final(cs)) == (Directives {
            italic: yes,
            ..color_spec_directives(*old(cs))
        }),
{
    cs.set_italic(yes);
}

/// Relies on termcolor::ColorSpec::set_underline: stores the flag and
/// changes nothing else.
#[verifier::external_body]
fn color_spec_set_underline(cs: &mut termcolor::ColorSpec, yes: bool)
    ensures
        color_spec_directives(*final(cs)) == (Directives {
            underline: yes,
            ..color_spec_directives(*old(cs))
        }),
{
    cs.set_underline(yes);
}

impl Directives {
    /// Builds the `termcolor::ColorSpec` that holds exactly these
    /// directives, leaving every setting these directives do not ask for
    /// untouched.
    pub fn to_color_spec(&self) -> (cs: termcolor::ColorSpec)
        ensures
            color_spec_directives(cs) == *self,
    {
        let mut cs = color_spec_new();
        match self.fg {
            Some(c) => color_spec_set_fg(&mut cs, c),
            None => {},
        }
        match self.bg {
            Some(c) => color_spec_set_bg(&mut cs, c),
            None => {},
        }
        if self.intense {
            color_spec_set_intense(&mut cs, true);
        }
        if self.bold {
            color_spec_set_bold(&mut cs, true);
        }
        if self.dimmed {
            color_spec_set_dimmed(&mut cs, true);
        }
        if self.italic {
            color_spec_set_italic(&mut cs, true);
        }
        if self.underline {
            color_spec_set_underline(&mut cs, true);
        }
        proof {
            assert(color_spec_directives(cs) =~= *self);
        }
        cs
    }
}

} // verus!
