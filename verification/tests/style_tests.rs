//! Tests of the style bitset algebra and of directive resolution.

use term_style::directive::ColorName;
use term_style::directive::Directives;
use term_style::style::{
    Style, BG_BLUE, BG_BRIGHT_GREEN, BLINK, BOLD, DIM, FG_BLACK, FG_BRIGHT_BLUE, FG_RED, FG_YELLOW,
    ITALIC, REVERSE, SECURE, STANDOUT, UNDERLINE,
};

fn style(bits: u64) -> Style {
    Style::from_bits(bits)
}

#[test]
fn with_is_idempotent() {
    let samples = [0u64, FG_RED, FG_RED | BOLD, BG_BLUE | DIM | BLINK];
    for &bits in samples.iter() {
        let s = style(bits);
        assert_eq!(s.with(s), s);
    }
}

#[test]
fn with_is_commutative_and_associative() {
    let a = style(FG_RED);
    let b = style(BG_BLUE | BOLD);
    let c = style(UNDERLINE);
    assert_eq!(a.with(b), b.with(a));
    assert_eq!(a.with(b).with(c), a.with(b.with(c)));
}

#[test]
fn contains_is_reflexive() {
    let samples = [0u64, FG_RED, FG_RED | BOLD | BG_BLUE];
    for &bits in samples.iter() {
        let s = style(bits);
        assert!(s.contains(s));
    }
}

#[test]
fn default_contains_only_default() {
    assert!(Style::new().contains(Style::new()));
    assert!(!Style::new().contains(style(FG_RED)));
    assert!(!Style::new().contains(style(SECURE)));
}

#[test]
fn union_contains_both_parts() {
    let a = style(FG_RED | BOLD);
    let b = style(BG_BLUE);
    assert!(a.with(b).contains(a));
    assert!(a.with(b).contains(b));
}

#[test]
fn everything_contains_default() {
    let samples = [0u64, FG_RED, FG_RED | BOLD | BG_BLUE | BLINK];
    for &bits in samples.iter() {
        assert!(style(bits).contains(Style::new()));
    }
}

#[test]
fn red_bold_scenario_with_color_support() {
    let s = Style::new().with(style(FG_RED)).with(style(BOLD));
    let d = s.directives(true);
    assert_eq!(d.fg, Some(ColorName::Red));
    assert_eq!(d.bg, None);
    assert!(!d.intense);
    assert!(d.bold);
    assert!(!d.dimmed);
    assert!(!d.italic);
    assert!(!d.underline);
}

#[test]
fn red_bold_scenario_without_color_support() {
    let s = Style::new().with(style(FG_RED)).with(style(BOLD));
    let d = s.directives(false);
    assert_eq!(d.fg, None);
    assert_eq!(d.bg, None);
    assert!(!d.intense);
    assert!(d.bold);
}

#[test]
fn color_bits_are_gated_on_color_support() {
    let s = style(FG_BRIGHT_BLUE | BG_BLUE | BOLD | ITALIC);
    let d = s.directives(false);
    assert_eq!(d.fg, None);
    assert_eq!(d.bg, None);
    assert!(!d.intense);
    assert!(d.bold);
    assert!(d.italic);
}

#[test]
fn untranslated_attributes_resolve_to_nothing() {
    let s = style(BLINK | STANDOUT | REVERSE | SECURE);
    assert_eq!(s.directives(true), Directives::new());
    assert_eq!(s.directives(false), Directives::new());
}

#[test]
fn later_declared_color_wins() {
    let s = style(FG_BLACK | FG_YELLOW);
    assert_eq!(s.directives(true).fg, Some(ColorName::Yellow));
}

#[test]
fn bright_bits_set_color_and_intense() {
    let s = style(FG_BRIGHT_BLUE | BG_BRIGHT_GREEN);
    let d = s.directives(true);
    assert_eq!(d.fg, Some(ColorName::Blue));
    assert_eq!(d.bg, Some(ColorName::Green));
    assert!(d.intense);
}

#[test]
fn color_spec_carries_all_directives() {
    let d = Directives {
        fg: Some(ColorName::Red),
        bg: Some(ColorName::Cyan),
        intense: true,
        bold: true,
        dimmed: true,
        italic: true,
        underline: true,
    };
    let cs = d.to_color_spec();
    assert_eq!(cs.fg(), Some(&termcolor::Color::Red));
    assert_eq!(cs.bg(), Some(&termcolor::Color::Cyan));
    assert!(cs.intense());
    assert!(cs.bold());
    assert!(cs.dimmed());
    assert!(cs.italic());
    assert!(cs.underline());
}

#[test]
fn empty_directives_give_empty_color_spec() {
    let cs = Directives::new().to_color_spec();
    assert_eq!(cs.fg(), None);
    assert_eq!(cs.bg(), None);
    assert!(!cs.intense());
    assert!(!cs.bold());
    assert!(!cs.dimmed());
    assert!(!cs.italic());
    assert!(!cs.underline());
}

#[test]
fn color_spec_maps_every_hue() {
    let hues = [
        (ColorName::Black, termcolor::Color::Black),
        (ColorName::Blue, termcolor::Color::Blue),
        (ColorName::Cyan, termcolor::Color::Cyan),
        (ColorName::Green, termcolor::Color::Green),
        (ColorName::Magenta, termcolor::Color::Magenta),
        (ColorName::Red, termcolor::Color::Red),
        (ColorName::White, termcolor::Color::White),
        (ColorName::Yellow, termcolor::Color::Yellow),
    ];
    for &(name, expected) in hues.iter() {
        let mut d = Directives::new();
        d.fg = Some(name);
        let cs = d.to_color_spec();
        assert_eq!(cs.fg(), Some(&expected));
    }
}
