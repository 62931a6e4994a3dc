use mudstring::color::{Color, ColorSystem};
use mudstring::style::{Link, MarkupTag, Style};

#[test]
fn link_without_color_scenario() {
    let mut s = Style::default();
    s.link = Some(Link { id: 0, url: "http://x".to_string() });
    assert_eq!(s.render("go", None, false, true, false), "\x1b]8;id=0;http://x\x1b\\go\x1b]8;;\x1b\\");
}

#[test]
fn empty_text_renders_empty() {
    let mut s = Style::default();
    s.set_color(Color::from(1u8));
    s.set_link("http://x");
    s.set_mxp(MarkupTag { name: "b".to_string(), attributes: vec![] });
    for sys in [None, Some(ColorSystem::EightBit)] {
        for flags in [(false, false, false), (true, true, true), (false, true, true)] {
            assert_eq!(s.render("", sys, flags.0, flags.1, flags.2), "");
        }
    }
}

#[test]
fn link_new_has_id_zero() {
    let l = Link::new("http://a");
    assert_eq!(l.id, 0);
    assert_eq!(l.url, "http://a");
    assert_eq!(Link::default().url, "");
}

#[test]
fn negative_link_id_is_signed() {
    let mut s = Style::default();
    s.link = Some(Link { id: -12, url: "u".to_string() });
    assert_eq!(s.render("t", None, false, true, false), "\x1b]8;id=-12;u\x1b\\t\x1b]8;;\x1b\\");
}

#[test]
fn legacy_windows_drops_link() {
    let mut s = Style::default();
    s.set_link("http://x");
    assert_eq!(s.render("go", None, true, true, false), "go");
    assert_eq!(s.render("go", None, false, false, false), "go");
    s.clear_link();
    assert_eq!(s.render("go", None, false, true, false), "go");
}

#[test]
fn ansi_codes_colors_then_attributes() {
    let mut s = Style::default();
    assert_eq!(s.ansi_codes(ColorSystem::TrueColor), "");
    s.set_color(Color::from(1u8));
    s.set_bgcolor(Color::from(200u8));
    s.bold = true;
    s.underline2 = true;
    s.overline = true;
    assert_eq!(s.ansi_codes(ColorSystem::TrueColor), "31;48;5;200;1;21;53");
    s.clear_color();
    s.clear_bgcolor();
    s.dim = true;
    s.italic = true;
    s.strike = true;
    assert_eq!(s.ansi_codes(ColorSystem::EightBit), "1;2;3;9;21;53");
}

#[test]
fn ansi_codes_downgrade_true_color() {
    let mut s = Style::default();
    s.set_color(Color::from_rgb(255, 0, 0));
    s.set_bgcolor(Color::from_rgb(0, 0, 0));
    assert_eq!(s.ansi_codes(ColorSystem::EightBit), "38;5;196;48;5;16");
    assert_eq!(s.ansi_codes(ColorSystem::TrueColor), "38;2;255;0;0;48;2;0;0;0");
}

#[test]
fn render_with_tier_wraps_in_sgr() {
    let s = Style::default();
    assert_eq!(s.render("hi", Some(ColorSystem::EightBit), false, false, false), "\x1b[mhi\x1b[0m");
    let mut s = Style::default();
    s.set_color(Color::from(3u8));
    s.set_link("http://x");
    assert_eq!(
        s.render("hi", Some(ColorSystem::Standard), false, true, false),
        "\x1b]8;id=0;http://x\x1b\\\x1b[33mhi\x1b[0m\x1b]8;;\x1b\\"
    );
}

#[test]
fn markup_escapes_and_wraps() {
    let mut s = Style::default();
    assert_eq!(s.render("a<b & c>", None, false, false, true), "a&lt;b &amp; c&gt;");
    assert_eq!(s.render("a<b", None, false, false, false), "a<b");
    s.set_mxp(MarkupTag { name: "send".to_string(), attributes: vec![] });
    assert_eq!(s.render("x<", None, false, false, true), "\x1b[4z<send>x&lt;\x1b]4z</send>");
    assert_eq!(s.render("x<", None, false, false, false), "x<");
    s.set_mxp(MarkupTag { name: "a".to_string(), attributes: vec![("href".to_string(), "u".to_string())] });
    assert_eq!(s.render("x", None, false, false, true), "x");
    s.clear_mxp();
    assert_eq!(s.render("x", None, false, false, true), "x");
}
