//! Visual styles of a run of text, and their rendering into ANSI escape
//! sequences, OSC-8 hyperlinks and secure markup tags.
use vstd::prelude::*;
use vstd::string::StringExecFns;
use crate::color::{color_codes, downgrade_spec, rank, Color, ColorModel, ColorSystem};
use crate::digits::{push_signed_decimal, signed_decimal};

verus! {

/// A hyperlink target.
#[derive(Debug, Clone, PartialEq)]
pub struct Link {
    pub id: i64,
    pub url: String,
}

impl Link {
    /// A link to `url` with id 0.
    pub fn new(url: &str) -> (r: Self)
        ensures
            r.id == 0,
            r.url@ == url@,
    {
        Link { id: 0, url: String::from_str(url) }
    }
}

impl Default for Link {
    fn default() -> (r: Self)
        ensures
            r.id == 0,
            r.url@ == Seq::<char>::empty(),
    {
        Link { id: 0, url: String::new() }
    }
}

/// An inline markup element: a tag name and its attributes as name/value pairs.
#[derive(Debug, Clone, PartialEq)]
pub struct MarkupTag {
    pub name: String,
    pub attributes: Vec<(String, String)>,
}

/// Colors, text attributes, an optional hyperlink and an optional markup tag.
#[derive(Debug, Clone, PartialEq)]
pub struct Style {
    pub color: Option<Color>,
    pub bgcolor: Option<Color>,
    pub bold: bool,
    pub dim: bool,
    pub italic: bool,
    pub underline: bool,
    pub blink: bool,
    pub blink2: bool,
    pub reverse: bool,
    pub conceal: bool,
    pub strike: bool,
    pub underline2: bool,
    pub frame: bool,
    pub encircle: bool,
    pub overline: bool,
    pub link: Option<Link>,
    pub element: Option<MarkupTag>,
}

/// A style with nothing set.
pub open spec fn is_plain_style(s: Style) -> bool {
    &&& s.color is None
    &&& s.bgcolor is None
    &&& !s.bold && !s.dim && !s.italic && !s.underline && !s.blink && !s.blink2
    &&& !s.reverse && !s.conceal && !s.strike && !s.underline2 && !s.frame && !s.encircle
    &&& !s.overline
    &&& s.link is None
    &&& s.element is None
}

impl Default for Style {
    fn default() -> (r: Self)
        ensures
            is_plain_style(r),
    {
        Style {
            color: None,
            bgcolor: None,
            bold: false,
            dim: false,
            italic: false,
            underline: false,
            blink: false,
            blink2: false,
            reverse: false,
            conceal: false,
            strike: false,
            underline2: false,
            frame: false,
            encircle: false,
            overline: false,
            link: None,
            element: None,
        }
    }
}

/// The color used at tier `sys`: downgraded when its own tier ranks above `sys`.
pub open spec fn color_at(c: ColorModel, sys: ColorSystem) -> ColorModel {
    if rank(c.system()) > rank(sys) {
        downgrade_spec(c, sys)
    } else {
        c
    }
}

/// `acc` with one more SGR parameter, separated by `;` from those before it.
pub open spec fn add_code(acc: Seq<char>, code: Seq<char>) -> Seq<char> {
    if acc.len() == 0 {
        code
    } else {
        acc + seq![';'] + code
    }
}

/// `acc` with `code` added when `on` holds.
pub open spec fn add_code_if(acc: Seq<char>, on: bool, code: Seq<char>) -> Seq<char> {
    if on {
        add_code(acc, code)
    } else {
        acc
    }
}

/// `acc` with the codes of a color added, if there is one.
pub open spec fn add_color(
    acc: Seq<char>,
    c: Option<Color>,
    sys: ColorSystem,
    foreground: bool,
) -> Seq<char> {
    match c {
        Some(c) => add_code(acc, color_codes(color_at(c@, sys), foreground)),
        None => acc,
    }
}

/// The SGR parameters of a style at tier `sys`, joined by `;`: foreground,
/// background, then bold 1, dim 2, italic 3, underline 4, blink 5, blink2 6,
/// reverse 7, conceal 8, strike 9, underline2 21, frame 51, encircle 52,
/// overline 53, each only when set.
pub open spec fn style_codes(s: Style, sys: ColorSystem) -> Seq<char> {
    let a = add_color(Seq::empty(), s.color, sys, true);
    let a = add_color(a, s.bgcolor, sys, false);
    add_late_attributes(add_early_attributes(a, s), s)
}

/// `acc` with the codes of bold through strike added, each when set.
pub open spec fn add_early_attributes(acc: Seq<char>, s: Style) -> Seq<char> {
    let a = add_code_if(acc, s.bold, seq!['1']);
    let a = add_code_if(a, s.dim, seq!['2']);
    let a = add_code_if(a, s.italic, seq!['3']);
    let a = add_code_if(a, s.underline, seq!['4']);
    let a = add_code_if(a, s.blink, seq!['5']);
    let a = add_code_if(a, s.blink2, seq!['6']);
    let a = add_code_if(a, s.reverse, seq!['7']);
    let a = add_code_if(a, s.conceal, seq!['8']);
    add_code_if(a, s.strike, seq!['9'])
}

/// `acc` with the codes of underline2, frame, encircle and overline added,
/// each when set.
pub open spec fn add_late_attributes(acc: Seq<char>, s: Style) -> Seq<char> {
    let a = add_code_if(acc, s.underline2, seq!['2', '1']);
    let a = add_code_if(a, s.frame, seq!['5', '1']);
    let a = add_code_if(a, s.encircle, seq!['5', '2']);
    add_code_if(a, s.overline, seq!['5', '3'])
}

/// Text with each `&`, `<`, `>` written as an HTML entity.
pub open spec fn escape_text(s: Seq<char>) -> Seq<char>
    decreases s.len(),
{
    if s.len() == 0 {
        s
    } else {
        escape_text(s.drop_last()) + escape_char(s.last())
    }
}

pub open spec fn escape_char(c: char) -> Seq<char> {
    if c == '&' {
        seq!['&', 'a', 'm', 'p', ';']
    } else if c == '<' {
        seq!['&', 'l', 't', ';']
    } else if c == '>' {
        seq!['&', 'g', 't', ';']
    } else {
        seq![c]
    }
}

pub open spec fn esc() -> char {
    '\u{1b}'
}

/// `ESC [ codes m text ESC [ 0 m`.
pub open spec fn sgr_wrap(codes: Seq<char>, text: Seq<char>) -> Seq<char> {
    seq![esc(), '['] + codes + seq!['m'] + text + seq![esc(), '[', '0', 'm']
}

/// `ESC ] 8 ; id=<id> ; <url> ESC \ text ESC ] 8 ; ; ESC \`.
pub open spec fn link_wrap(id: i64, url: Seq<char>, text: Seq<char>) -> Seq<char> {
    seq![esc(), ']', '8', ';', 'i', 'd', '='] + signed_decimal(id as int) + seq![';'] + url + seq![
        esc(),
        '\\',
    ] + text + seq![esc(), ']', '8', ';', ';', esc(), '\\']
}

/// `ESC [ 4 z < tag > text ESC ] 4 z </ tag >`.
pub open spec fn markup_wrap(tag: Seq<char>, text: Seq<char>) -> Seq<char> {
    seq![esc(), '[', '4', 'z', '<'] + tag + seq!['>'] + text + seq![esc(), ']', '4', 'z', '<', '/']
        + tag + seq!['>']
}

/// What `Style::render` gives for `text`.
pub open spec fn style_render(
    s: Style,
    text: Seq<char>,
    system: Option<ColorSystem>,
    legacy_windows: bool,
    links: bool,
    mxp: bool,
) -> Seq<char> {
    let t = if mxp {
        escape_text(text)
    } else {
        text
    };
    if t.len() == 0 {
        t
    } else {
        let a = match system {
            Some(sys) => sgr_wrap(style_codes(s, sys), t),
            None => t,
        };
        let b = if links && !legacy_windows && s.link is Some {
            link_wrap(s.link->0.id, s.link->0.url@, a)
        } else {
            a
        };
        if mxp && s.element is Some && s.element->0.attributes@.len() == 0 {
            markup_wrap(s.element->0.name@, b)
        } else {
            b
        }
    }
}

/// Relies on html_escape::encode_text, which writes `&`, `<` and `>` as
/// `&amp;`, `&lt;` and `&gt;` and keeps every other character.
#[verifier::external_body]
fn encode_text(s: &str) -> (r: String)
    ensures
        r@ == escape_text(s@),
{
    html_escape::encode_text(s).into_owned()
}

/// Appends one SGR parameter to `out`, after a `;` when `out` already holds one.
fn push_code(out: &mut String, code: &str)
    ensures
        final(out)@ == add_code(old(out)@, code@),
{
    if out.as_str().is_empty() {
        out.append(code);
        assert(final(out)@ =~= add_code(old(out)@, code@));
    } else {
        out.append(";");
        proof {
            reveal_strlit(";");
        }
        out.append(code);
        assert(final(out)@ =~= add_code(old(out)@, code@));
    }
}

fn push_code_if(out: &mut String, on: bool, code: &str)
    ensures
        final(out)@ == add_code_if(old(out)@, on, code@),
{
    if on {
        push_code(out, code);
    }
}

fn push_color(out: &mut String, c: &Option<Color>, sys: ColorSystem, foreground: bool)
    ensures
        final(out)@ == add_color(old(out)@, *c, sys, foreground),
{
    if let Some(c) = c {
        let code = if c.system().rank() > sys.rank() {
            c.downgrade(sys).get_ansi_codes(foreground)
        } else {
            c.get_ansi_codes(foreground)
        };
        push_code(out, code.as_str());
    }
}

impl Style {
    pub fn set_mxp(&mut self, elem: MarkupTag)
        ensures
            *final(self) == (Style { element: Some(elem), ..*old(self) }),
    {
        self.element = Some(elem);
    }

    pub fn clear_mxp(&mut self)
        ensures
            *final(self) == (Style { element: None, ..*old(self) }),
    {
        self.element = None;
    }

    /// Sets a link to `url` with id 0.
    pub fn set_link(&mut self, url: &str)
        ensures
            final(self).link is Some,
            final(self).link->0.id == 0,
            final(self).link->0.url@ == url@,
            *final(self) == (Style { link: final(self).link, ..*old(self) }),
    {
        self.link = Some(Link::new(url));
    }

    pub fn clear_link(&mut self)
        ensures
            *final(self) == (Style { link: None, ..*old(self) }),
    {
        self.link = None;
    }

    pub fn set_color(&mut self, color: Color)
        ensures
            *final(self) == (Style { color: Some(color), ..*old(self) }),
    {
        self.color = Some(color);
    }

    pub fn clear_color(&mut self)
        ensures
            *final(self) == (Style { color: None, ..*old(self) }),
    {
        self.color = None;
    }

    pub fn set_bgcolor(&mut self, color: Color)
        ensures
            *final(self) == (Style { bgcolor: Some(color), ..*old(self) }),
    {
        self.bgcolor = Some(color);
    }

    pub fn clear_bgcolor(&mut self)
        ensures
            *final(self) == (Style { bgcolor: None, ..*old(self) }),
    {
        self.bgcolor = None;
    }

    fn push_early_attributes(&self, out: &mut String)
        ensures
            final(out)@ == add_early_attributes(old(out)@, *self),
    {
        proof {
            reveal_strlit("1");
            reveal_strlit("2");
            reveal_strlit("3");
            reveal_strlit("4");
            reveal_strlit("5");
            reveal_strlit("6");
            reveal_strlit("7");
            reveal_strlit("8");
            reveal_strlit("9");
        }
        assert("1"@ =~= seq!['1'] && "2"@ =~= seq!['2'] && "3"@ =~= seq!['3']);
        assert("4"@ =~= seq!['4'] && "5"@ =~= seq!['5'] && "6"@ =~= seq!['6']);
        assert("7"@ =~= seq!['7'] && "8"@ =~= seq!['8'] && "9"@ =~= seq!['9']);
        push_code_if(out, self.bold, "1");
        push_code_if(out, self.dim, "2");
        push_code_if(out, self.italic, "3");
        push_code_if(out, self.underline, "4");
        push_code_if(out, self.blink, "5");
        push_code_if(out, self.blink2, "6");
        push_code_if(out, self.reverse, "7");
        push_code_if(out, self.conceal, "8");
        push_code_if(out, self.strike, "9");
    }

    fn push_late_attributes(&self, out: &mut String)
        ensures
            final(out)@ == add_late_attributes(old(out)@, *self),
    {
        proof {
            reveal_strlit("21");
            reveal_strlit("51");
            reveal_strlit("52");
            reveal_strlit("53");
        }
        assert("21"@ =~= seq!['2', '1']);
        assert("51"@ =~= seq!['5', '1']);
        assert("52"@ =~= seq!['5', '2']);
        assert("53"@ =~= seq!['5', '3']);
        push_code_if(out, self.underline2, "21");
        push_code_if(out, self.frame, "51");
        push_code_if(out, self.encircle, "52");
        push_code_if(out, self.overline, "53");
    }

    /// The SGR parameters of this style at tier `system`, joined by `;`.
    pub fn ansi_codes(&self, system: ColorSystem) -> (r: String)
        ensures
            r@ == style_codes(*self, system),
    {
        let mut out = String::new();
        push_color(&mut out, &self.color, system, true);
        push_color(&mut out, &self.bgcolor, system, false);
        self.push_early_attributes(&mut out);
        self.push_late_attributes(&mut out);
        out
    }
}

fn wrap_sgr(codes: &str, text: &str) -> (r: String)
    ensures
        r@ == sgr_wrap(codes@, text@),
{
    proof {
        reveal_strlit("\x1b[");
        reveal_strlit("m");
        reveal_strlit("\x1b[0m");
    }
    let mut out = String::from_str("\x1b[");
    out.append(codes);
    out.append("m");
    out.append(text);
    out.append("\x1b[0m");
    assert(out@ =~= sgr_wrap(codes@, text@));
    out
}

fn wrap_link(link: &Link, text: &str) -> (r: String)
    ensures
        r@ == link_wrap(link.id, link.url@, text@),
{
    proof {
        reveal_strlit("\x1b]8;id=");
        reveal_strlit(";");
        reveal_strlit("\x1b\\");
        reveal_strlit("\x1b]8;;\x1b\\");
    }
    let mut out = String::from_str("\x1b]8;id=");
    push_signed_decimal(&mut out, link.id);
    out.append(";");
    out.append(link.url.as_str());
    out.append("\x1b\\");
    out.append(text);
    out.append("\x1b]8;;\x1b\\");
    assert(out@ =~= link_wrap(link.id, link.url@, text@));
    out
}

fn wrap_markup(tag: &str, text: &str) -> (r: String)
    ensures
        r@ == markup_wrap(tag@, text@),
{
    proof {
        reveal_strlit("\x1b[4z<");
        reveal_strlit(">");
        reveal_strlit("\x1b]4z</");
    }
    let mut out = String::from_str("\x1b[4z<");
    out.append(tag);
    out.append(">");
    out.append(text);
    out.append("\x1b]4z</");
    out.append(tag);
    out.append(">");
    assert(out@ =~= markup_wrap(tag@, text@));
    out
}

impl Style {
    /// Renders `text` in this style: entity-escaped when `mxp` is set; empty
    /// text stays empty; with a tier, wrapped in the SGR codes of the style and
    /// a reset; then, when `links` is set outside legacy Windows, wrapped in
    /// the style's hyperlink; then, when `mxp` is set, in its markup tag if
    /// that tag has no attributes.
    pub fn render(
        &self,
        text: &str,
        system: Option<ColorSystem>,
        legacy_windows: bool,
        links: bool,
        mxp: bool,
    ) -> (r: String)
        ensures
            r@ == style_render(*self, text@, system, legacy_windows, links, mxp),
    {
        let t = if mxp {
            encode_text(text)
        } else {
            String::from_str(text)
        };
        if t.as_str().is_empty() {
            return t;
        }
        let mut rendered = match system {
            Some(sys) => {
                let codes = self.ansi_codes(sys);
                wrap_sgr(codes.as_str(), t.as_str())
            },
            None => t,
        };
        if links && !legacy_windows {
            if let Some(link) = &self.link {
                rendered = wrap_link(link, rendered.as_str());
            }
        }
        if mxp {
            if let Some(elem) = &self.element {
                if elem.attributes.len() == 0 {
                    rendered = wrap_markup(elem.name.as_str(), rendered.as_str());
                }
            }
        }
        rendered
    }
}

/// Empty text renders to the empty string, whatever the style and flags.
pub proof fn lemma_render_empty(
    s: Style,
    system: Option<ColorSystem>,
    legacy_windows: bool,
    links: bool,
    mxp: bool,
)
    ensures
        style_render(s, Seq::empty(), system, legacy_windows, links, mxp) == Seq::<char>::empty(),
{
    assert(escape_text(Seq::<char>::empty()) == Seq::<char>::empty());
}

} // verus!
