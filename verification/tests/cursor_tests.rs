//! Tests of style application and of the deduplicating cursor, against
//! the recording in-memory terminal.

use term_style::cursor::StyleCursor;
use term_style::directive::{ColorName, Directives};
use term_style::style::{Style, BG_BLUE, BLINK, BOLD, FG_RED};
use term_style::terminal::{LogTerminal, TermError, TermEvent};

fn style(bits: u64) -> Style {
    Style::from_bits(bits)
}

#[test]
fn apply_issues_one_reset_and_one_set() {
    let mut t = LogTerminal::new(true);
    style(FG_RED | BOLD).apply(&mut t).unwrap();
    assert_eq!(t.event_count(), 2);
    assert_eq!(t.event_at(0), TermEvent::Reset);
    let mut expected = Directives::new();
    expected.fg = Some(ColorName::Red);
    expected.bold = true;
    assert_eq!(t.event_at(1), TermEvent::SetColor(expected));
}

#[test]
fn apply_of_untranslated_attributes_sets_nothing() {
    let mut t = LogTerminal::new(true);
    style(BLINK).apply(&mut t).unwrap();
    assert_eq!(t.event_count(), 2);
    assert_eq!(t.event_at(0), TermEvent::Reset);
    assert_eq!(t.event_at(1), TermEvent::SetColor(Directives::new()));
}

#[test]
fn apply_propagates_terminal_failure() {
    let mut t = LogTerminal::new(true);
    t.set_failing(true);
    assert_eq!(style(FG_RED).apply(&mut t), Err(TermError));
    assert_eq!(t.event_count(), 0);
}

#[test]
fn construction_issues_one_reset_and_set_pair() {
    let t = LogTerminal::new(true);
    let mut cursor = StyleCursor::new(t).unwrap();
    assert_eq!(cursor.current_style(), Style::new());
    let term = cursor.term();
    assert_eq!(term.event_count(), 2);
    assert_eq!(term.event_at(0), TermEvent::Reset);
    assert_eq!(term.event_at(1), TermEvent::SetColor(Directives::new()));
}

#[test]
fn construction_fails_when_the_terminal_does() {
    let mut t = LogTerminal::new(true);
    t.set_failing(true);
    assert!(StyleCursor::new(t).is_err());
}

#[test]
fn repeated_style_is_applied_once() {
    let t = LogTerminal::new(true);
    let mut cursor = StyleCursor::new(t).unwrap();
    let s = style(FG_RED | BOLD);
    cursor.set_style(s).unwrap();
    assert_eq!(cursor.term().event_count(), 4);
    cursor.set_style(s).unwrap();
    assert_eq!(cursor.term().event_count(), 4);
    assert_eq!(cursor.current_style(), s);
}

#[test]
fn setting_the_default_style_again_is_a_no_op() {
    let t = LogTerminal::new(true);
    let mut cursor = StyleCursor::new(t).unwrap();
    cursor.set_style(Style::new()).unwrap();
    assert_eq!(cursor.term().event_count(), 2);
}

#[test]
fn changed_style_triggers_a_second_apply() {
    let t = LogTerminal::new(true);
    let mut cursor = StyleCursor::new(t).unwrap();
    let a = style(FG_RED);
    let b = style(BG_BLUE);
    cursor.set_style(a).unwrap();
    cursor.set_style(b).unwrap();
    assert_eq!(cursor.term().event_count(), 6);
    let mut expected = Directives::new();
    expected.bg = Some(ColorName::Blue);
    assert_eq!(cursor.term().event_at(5), TermEvent::SetColor(expected));
}

#[test]
fn failed_set_style_keeps_the_recorded_style() {
    let t = LogTerminal::new(true);
    let mut cursor = StyleCursor::new(t).unwrap();
    cursor.term().set_failing(true);
    let s = style(FG_RED);
    assert_eq!(cursor.set_style(s), Err(TermError));
    assert_eq!(cursor.current_style(), Style::new());
    cursor.term().set_failing(false);
    cursor.set_style(s).unwrap();
    assert_eq!(cursor.current_style(), s);
    assert_eq!(cursor.term().event_count(), 4);
}

#[test]
fn dedup_ignores_how_a_style_was_built() {
    let t = LogTerminal::new(true);
    let mut cursor = StyleCursor::new(t).unwrap();
    let a = style(FG_RED).with(style(BOLD));
    let b = style(BOLD).with(style(FG_RED));
    cursor.set_style(a).unwrap();
    cursor.set_style(b).unwrap();
    assert_eq!(cursor.term().event_count(), 4);
}
