//! Applying a style to a terminal, and a cursor that deduplicates
//! consecutive identical styles.
//!
//! [`Style::apply`] always performs exactly one reset followed by one
//! submission of the resolved directives. [`StyleCursor`] remembers the
//! last style it successfully applied and skips the terminal entirely
//! when asked for that style again.

use vstd::prelude::*;

use crate::directive::directives_of;
use crate::style::Style;
use crate::terminal::TermError;
use crate::terminal::TermEvent;
use crate::terminal::Terminal;

verus! {

impl Style {
    /// Attempts to apply this style to the given terminal: one
    /// unconditional reset, then one submission of the directives the
    /// style resolves to under the terminal's color support. Exactly
    /// these two interactions happen on success, whatever the style; an
    /// error of either interaction is propagated as it is.
    pub fn apply<T: Terminal>(self, term: &mut T) -> (r: Result<(), TermError>)
        ensures
            final(term).color_support() == old(term).color_support(),
            r is Ok ==> final(term).events() == old(term).events().push(TermEvent::Reset).push(
                TermEvent::SetColor(directives_of(self, old(term).color_support())),
            ),
    {
        match term.reset() {
            Err(e) => Err(e),
            Ok(()) => {
                let color = term.supports_color();
                let d = self.directives(color);
                term.set_color(&d)
            },
        }
    }
}

/// A stateful wrapper around a terminal that remembers the last style it
/// successfully applied, and only touches the terminal when asked for a
/// different one.
pub struct StyleCursor<T: Terminal> {
    current_style: Style,
    term: T,
}

impl<T: Terminal> StyleCursor<T> {
    /// The last style successfully applied to the wrapped terminal.
    pub closed spec fn current(self) -> Style {
        self.current_style
    }

    /// The wrapped terminal.
    pub closed spec fn terminal(self) -> T {
        self.term
    }

    /// The interactions the wrapped terminal has accepted, in order.
    pub open spec fn events(self) -> Seq<TermEvent> {
        self.terminal().events()
    }

    /// Whether the wrapped terminal supports color.
    pub open spec fn color_support(self) -> bool {
        self.terminal().color_support()
    }

    /// Wraps a terminal, taking it over for the cursor's lifetime. The
    /// default style is applied at once — exactly one reset and one
    /// submission of the empty directives — so that the cursor's record
    /// of the terminal's state holds from the start. If that initial
    /// application fails, its error is returned and no cursor is built.
    pub fn new(term: T) -> (r: Result<StyleCursor<T>, TermError>)
        ensures
            r is Ok ==> r->Ok_0.current() == Style::empty(),
            r is Ok ==> r->Ok_0.color_support() == term.color_support(),
            r is Ok ==> r->Ok_0.events() == term.events().push(TermEvent::Reset).push(
                TermEvent::SetColor(directives_of(Style::empty(), term.color_support())),
            ),
    {
        let current_style = Style::new();
        let mut t = term;
        match current_style.apply(&mut t) {
            Err(e) => Err(e),
            Ok(()) => Ok(StyleCursor { current_style, term: t }),
        }
    }

    /// Grants temporary mutable access to the wrapped terminal, for
    /// operations outside the styling model (such as writing plain
    /// bytes). The cursor's record of the current style is unchanged:
    /// callers must not change the terminal's color or attribute state
    /// through this handle, or the record silently goes stale.
    pub fn term(&mut self) -> (t: &mut T)
        ensures
            *t == old(self).terminal(),
            final(self).terminal() == *final(t),
            final(self).current() == old(self).current(),
    {
        &mut self.term
    }

    /// The last style successfully applied to the wrapped terminal.
    pub fn current_style(&self) -> (s: Style)
        ensures
            s == self.current(),
    {
        self.current_style
    }

    /// Asks the terminal for the given style, skipping the terminal when
    /// it already shows that style. Asking for the current style is a
    /// no-op that always succeeds and leaves the cursor untouched;
    /// otherwise the style is applied (one reset, one submission of its
    /// directives) and recorded on success, while on failure the error is
    /// propagated and the recorded style stays what it was — the terminal
    /// may then be in a partly updated state the record does not show.
    pub fn set_style(&mut self, style: Style) -> (r: Result<(), TermError>)
        ensures
            final(self).color_support() == old(self).color_support(),
            style == old(self).current() ==> r is Ok && *final(self) == *old(self),
            (style != old(self).current() && r is Ok) ==> final(self).current() == style
                && final(self).events() == old(self).events().push(TermEvent::Reset).push(
                TermEvent::SetColor(directives_of(style, old(self).color_support())),
            ),
            (style != old(self).current() && r is Err) ==> final(self).current() == old(
                self,
            ).current(),
    {
        if style != self.current_style {
            match style.apply(&mut self.term) {
                Err(e) => Err(e),
                Ok(()) => {
                    self.current_style = style;
                    Ok(())
                },
            }
        } else {
            Ok(())
        }
    }
}

} // verus!
