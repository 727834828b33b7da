//! The terminal collaborator contract, and an in-memory terminal that
//! records every interaction.
//!
//! The library does not perform terminal I/O itself: it requires of its
//! collaborator exactly a reset operation, a color-support query, and an
//! operation that accepts a set of [`Directives`]. The contract models a
//! terminal by the sequence of interactions it has accepted.

use vstd::prelude::*;

use crate::directive::Directives;

verus! {

/// The one error kind of this library: an I/O failure reported by the
/// terminal collaborator. The library adds no error kinds of its own.
#[derive(Copy, Clone, Debug, PartialEq, Eq, Structural)]
pub struct TermError;

/// One observable interaction with a terminal: a reset of its style
/// state, or the submission of a set of directives.
#[derive(Copy, Clone, Debug, PartialEq, Eq, Structural)]
pub enum TermEvent {
    /// The terminal cleared any active color or attribute state.
    Reset,
    /// The terminal accepted the given directives.
    SetColor(Directives),
}

/// What this library requires of a terminal stream: it can reset, it can
/// report whether it supports color, and it can accept directives. A
/// terminal is modelled by the ordered sequence of interactions it has
/// accepted and by its (fixed) color support.
pub trait Terminal: Sized {
    /// The interactions the terminal has accepted so far, in order.
    spec fn events(&self) -> Seq<TermEvent>;

    /// Whether the terminal supports color.
    spec fn color_support(&self) -> bool;

    /// Reports whether the terminal supports color.
    fn supports_color(&self) -> (r: bool)
        ensures
            r == self.color_support(),
    ;

    /// Clears any active color or attribute state. On success exactly one
    /// reset interaction is accepted; on failure nothing is promised of
    /// the terminal's interactions (the write may have gone through in
    /// part). Color support never changes.
    fn reset(&mut self) -> (r: Result<(), TermError>)
        ensures
            final(self).color_support() == old(self).color_support(),
            r is Ok ==> final(self).events() == old(self).events().push(TermEvent::Reset),
    ;

    /// Applies the given directives. On success exactly one set
    /// interaction is accepted; on failure nothing is promised of the
    /// terminal's interactions. Color support never changes.
    fn set_color(&mut self, directives: &Directives) -> (r: Result<(), TermError>)
        ensures
            final(self).color_support() == old(self).color_support(),
            r is Ok ==> final(self).events() == old(self).events().push(
                TermEvent::SetColor(*directives),
            ),
    ;
}

/// An in-memory terminal that accepts every interaction and records it.
/// It can be switched into a failing state in which it refuses resets and
/// directives without recording anything.
pub struct LogTerminal {
    color: bool,
    failing: bool,
    log: Vec<TermEvent>,
}

impl LogTerminal {
    /// Whether the terminal currently refuses interactions.
    pub closed spec fn is_failing(&self) -> bool {
        self.failing
    }

    /// Returns a terminal with an empty record that accepts everything
    /// and reports the given color support.
    pub fn new(color: bool) -> (t: LogTerminal)
        ensures
            t.events() == Seq::<TermEvent>::empty(),
            t.color_support() == color,
            !t.is_failing(),
    {
        let t = LogTerminal { color, failing: false, log: Vec::new() };
        proof {
            assert(t.events() =~= Seq::<TermEvent>::empty());
        }
        t
    }

    /// Makes every later reset or set_color call fail, or succeed again.
    pub fn set_failing(&mut self, failing: bool)
        ensures
            final(self).events() == old(self).events(),
            final(self).color_support() == old(self).color_support(),
            final(self).is_failing() == failing,
    {
        self.failing = failing;
    }

    /// The number of interactions recorded so far.
    pub fn event_count(&self) -> (n: usize)
        ensures
            n == self.events().len(),
    {
        self.log.len()
    }

    /// The `i`th recorded interaction.
    pub fn event_at(&self, i: usize) -> (e: TermEvent)
        requires
            i < self.events().len(),
        ensures
            e == self.events()[i as int],
    {
        self.log[i]
    }
}

impl Terminal for LogTerminal {
    closed spec fn events(&self) -> Seq<TermEvent> {
        self.log@
    }

    closed spec fn color_support(&self) -> bool {
        self.color
    }

    fn supports_color(&self) -> (r: bool) {
        self.color
    }

    fn reset(&mut self) -> (r: Result<(), TermError>)
        ensures
            r is Ok <==> !old(self).is_failing(),
            final(self).is_failing() == old(self).is_failing(),
            old(self).is_failing() ==> *final(self) == *old(self),
    {
        if self.failing {
            Err(TermError)
        } else {
            self.log.push(TermEvent::Reset);
            Ok(())
        }
    }

    fn set_color(&mut self, directives: &Directives) -> (r: Result<(), TermError>)
        ensures
            r is Ok <==> !old(self).is_failing(),
            final(self).is_failing() == old(self).is_failing(),
            old(self).is_failing() ==> *final(self) == *old(self),
    {
        if self.failing {
            Err(TermError)
        } else {
            self.log.push(TermEvent::SetColor(*directives));
            Ok(())
        }
    }
}

} // verus!
