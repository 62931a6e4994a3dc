use mudstring::color::{Color, ColorSystem, ColorType};
use mudstring::style::Style;
use mudstring::text::{Segment, Span, Text};

fn palette(n: u8) -> Color {
    Color { name: format!("color({})", n), ctype: ColorType::EightBit, number: Some(n), triplet: None }
}

fn colored(text: &str, n: u8) -> Segment {
    let mut s = Style::default();
    s.set_color(palette(n));
    Segment { text: text.to_string(), style: Some(s) }
}

#[test]
fn hello_world_scenario() {
    let t = Text::from(vec![colored("Hello ", 1), colored("World", 3)]);
    assert_eq!(
        t.render(Some(ColorSystem::EightBit), false, false, false),
        "\x1b[38;5;1mHello \x1b[0m\x1b[38;5;3mWorld\x1b[0m"
    );
}

#[test]
fn segments_round_trip() {
    let segs = vec![colored("héllo", 1), Segment { text: " ".to_string(), style: None }, colored("wörld", 2), Segment::default()];
    let texts: Vec<String> = segs.iter().map(|s| s.text.clone()).collect();
    let t = Text::from(segs);
    assert_eq!(t.plain, texts.concat());
    let covered: usize = t.spans.iter().map(|s| s.end - s.start).sum();
    assert_eq!(covered, t.plain.len());
    assert_eq!(t.spans.len(), 4);
    assert_eq!((t.spans[0].start, t.spans[0].end), (0, 6));
    assert_eq!((t.spans[1].start, t.spans[1].end), (6, 7));
    assert_eq!((t.spans[2].start, t.spans[2].end), (7, 13));
    assert_eq!((t.spans[3].start, t.spans[3].end), (13, 13));
    assert!(t.spans[1].style.is_none());
}

#[test]
fn unstyled_text_renders_unchanged() {
    let t = Text::from("héllo <&> wörld");
    for sys in [None, Some(ColorSystem::Standard), Some(ColorSystem::EightBit), Some(ColorSystem::TrueColor), Some(ColorSystem::Windows)] {
        assert_eq!(t.render(sys, false, true, true), "héllo <&> wörld");
    }
    assert_eq!(t.spans, vec![Span { start: 0, end: 17, style: None }]);
}

#[test]
fn default_text_is_empty() {
    let t = Text::default();
    assert_eq!(t.plain, "");
    assert_eq!(t.spans, vec![Span { start: 0, end: 0, style: None }]);
    assert_eq!(t.render(Some(ColorSystem::TrueColor), false, false, false), "");
}

#[test]
fn styled_multibyte_spans_render_in_order() {
    let t = Text::from(vec![colored("é", 200), Segment { text: "ü".to_string(), style: None }, colored("ß", 9)]);
    assert_eq!(
        t.render(Some(ColorSystem::EightBit), false, false, false),
        "\x1b[38;5;200mé\x1b[0mü\x1b[38;5;9mß\x1b[0m"
    );
    assert_eq!(t.render(None, false, false, false), "éüß");
}

#[test]
fn empty_segments_make_empty_text() {
    let t = Text::from(Vec::<Segment>::new());
    assert_eq!(t.plain, "");
    assert!(t.spans.is_empty());
    assert_eq!(t.render(None, false, false, false), "");
}
