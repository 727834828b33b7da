//! A termcolor-backed terminal for the verified cursor.
//!
//! `termcolor::Buffer` is an in-memory sink that renders color
//! specifications as ANSI escape sequences, or drops them when built
//! without color support. It performs no I/O of its own, so it can serve
//! as a terminal collaborator here: the calls into termcolor stand
//! behind trusted wrappers, and the styling interactions the buffer has
//! accepted are tracked as ghost state.

use vstd::prelude::*;

use crate::directive::Directives;
use crate::terminal::TermError;
use crate::terminal::TermEvent;
use crate::terminal::Terminal;

verus! {

#[verifier::external_type_specification]
#[verifier::external_body]
pub struct ExBuffer(termcolor::Buffer);

#[verifier::external_type_specification]
#[verifier::external_body]
pub struct ExIoError(std::io::Error);

/// Relies on termcolor::Buffer::ansi: an in-memory buffer that renders
/// color specifications as ANSI escape sequences.
#[verifier::external_body]
fn buffer_ansi() -> termcolor::Buffer {
    termcolor::Buffer::ansi()
}

/// Relies on termcolor::Buffer::no_color: an in-memory buffer that
/// drops color specifications and keeps only plain bytes.
#[verifier::external_body]
fn buffer_no_color() -> termcolor::Buffer {
    termcolor::Buffer::no_color()
}

/// Relies on termcolor's WriteColor impl for Buffer: reset clears the
/// buffer's active style state.
#[verifier::external_body]
fn buffer_reset(buf: &mut termcolor::Buffer) -> (r: Result<(), std::io::Error>) {
    termcolor::WriteColor::reset(buf)
}

/// Relies on termcolor's WriteColor impl for Buffer: set_color renders
/// the given specification.
#[verifier::external_body]
fn buffer_set_color(
    buf: &mut termcolor::Buffer,
    cs: &termcolor::ColorSpec,
) -> (r: Result<(), std::io::Error>) {
    termcolor::WriteColor::set_color(buf, cs)
}

/// Relies on std's io::Write impl for Buffer (write_all): appends the
/// given bytes.
#[verifier::external_body]
fn buffer_write_all(
    buf: &mut termcolor::Buffer,
    bytes: &[u8],
) -> (r: Result<(), std::io::Error>) {
    std::io::Write::write_all(buf, bytes)
}

/// Relies on termcolor::Buffer::as_slice: the bytes written so far.
#[verifier::external_body]
fn buffer_contents(buf: &termcolor::Buffer) -> (bytes: Vec<u8>) {
    buf.as_slice().to_vec()
}

/// A terminal built on `termcolor::Buffer`: styling interactions are
/// rendered into an in-memory byte buffer as ANSI escape sequences, or
/// dropped for a buffer without color support.
pub struct AnsiTerminal {
    color: bool,
    buf: termcolor::Buffer,
    log: Ghost<Seq<TermEvent>>,
}

impl AnsiTerminal {
    /// Returns a fresh terminal with nothing written: with `color` it
    /// renders styling as ANSI escape sequences, without it every
    /// styling interaction leaves the bytes untouched.
    pub fn new(color: bool) -> (t: AnsiTerminal)
        ensures
            t.events() == Seq::<TermEvent>::empty(),
            t.color_support() == color,
    {
        let buf = if color {
            buffer_ansi()
        } else {
            buffer_no_color()
        };
        let t = AnsiTerminal { color, buf, log: Ghost(Seq::empty()) };
        proof {
            assert(t.events() =~= Seq::<TermEvent>::empty());
        }
        t
    }

    /// Appends plain bytes, outside the styling model: the record of
    /// styling interactions is untouched.
    pub fn write_bytes(&mut self, bytes: &[u8]) -> (r: Result<(), TermError>)
        ensures
            final(self).events() == old(self).events(),
            final(self).color_support() == old(self).color_support(),
    {
        match buffer_write_all(&mut self.buf, bytes) {
            Ok(()) => Ok(()),
            Err(_) => Err(TermError),
        }
    }

    /// The bytes the buffer holds so far, escape sequences included.
    /// Nothing is stated of their contents: they are termcolor's
    /// rendering of the interactions this terminal has accepted.
    pub fn contents(&self) -> Vec<u8> {
        buffer_contents(&self.buf)
    }
}

impl Terminal for AnsiTerminal {
    closed spec fn events(&self) -> Seq<TermEvent> {
        self.log@
    }

    closed spec fn color_support(&self) -> bool {
        self.color
    }

    fn supports_color(&self) -> (r: bool) {
        self.color
    }

    fn reset(&mut self) -> (r: Result<(), TermError>) {
        match buffer_reset(&mut self.buf) {
            Ok(()) => {
                self.log = Ghost(self.log@.push(TermEvent::Reset));
                Ok(())
            },
            Err(_) => Err(TermError),
        }
    }

    fn set_color(&mut self, directives: &Directives) -> (r: Result<(), TermError>) {
        let cs = directives.to_color_spec();
        match buffer_set_color(&mut self.buf, &cs) {
            Ok(()) => {
                self.log = Ghost(self.log@.push(TermEvent::SetColor(*directives)));
                Ok(())
            },
            Err(_) => Err(TermError),
        }
    }
}

} // verus!
