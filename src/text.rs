//! Styled text: a plain string partitioned into byte-range spans, each with an
//! optional style, rendered span by span.
use vstd::prelude::*;
use vstd::string::{StringExecFns, StringSliceAdditionalSpecFns};
use vstd::utf8::{decode_utf8, encode_utf8, is_char_boundary};
use crate::color::ColorSystem;
use crate::style::{style_render, Style};

verus! {

broadcast use {
    vstd::utf8::encode_utf8_valid_utf8,
    vstd::utf8::encode_utf8_decode_utf8,
    vstd::utf8::valid_utf8_split,
    vstd::utf8::is_char_boundary_start_end_of_seq,
    vstd::utf8::is_char_boundary_iff_not_is_continuation_byte,
};

/// A half-open byte range `[start, end)` of a text, with an optional style.
#[derive(Clone, Debug, PartialEq, Default)]
pub struct Span {
    pub start: usize,
    pub end: usize,
    pub style: Option<Style>,
}

/// A piece of input text with an optional style.
#[derive(Clone, Debug, PartialEq, Default)]
pub struct Segment {
    pub text: String,
    pub style: Option<Style>,
}

/// A plain string and the spans that partition it.
#[derive(Clone, Debug, PartialEq)]
pub struct Text {
    pub plain: String,
    pub spans: Vec<Span>,
}

pub struct SpanModel {
    pub start: int,
    pub end: int,
    pub style: Option<Style>,
}

pub struct TextModel {
    pub plain: Seq<char>,
    pub spans: Seq<SpanModel>,
}

impl View for Span {
    type V = SpanModel;

    open spec fn view(&self) -> SpanModel {
        SpanModel { start: self.start as int, end: self.end as int, style: self.style }
    }
}

impl View for Text {
    type V = TextModel;

    open spec fn view(&self) -> TextModel {
        TextModel { plain: self.plain@, spans: self.spans@.map_values(|s: Span| s@) }
    }
}

/// Length in bytes of the UTF-8 encoding of `s`.
pub open spec fn byte_len(s: Seq<char>) -> int {
    encode_utf8(s).len() as int
}

/// The characters whose encoding is bytes `[start, end)` of the encoding of `plain`.
pub open spec fn span_slice(plain: Seq<char>, start: int, end: int) -> Seq<char> {
    decode_utf8(encode_utf8(plain).subrange(start, end))
}

/// Every span lies inside `plain` and starts and ends on character boundaries.
pub open spec fn spans_fit(plain: Seq<char>, spans: Seq<SpanModel>) -> bool {
    forall|i: int|
        0 <= i < spans.len() ==> {
            &&& 0 <= #[trigger] spans[i].start <= spans[i].end <= byte_len(plain)
            &&& is_char_boundary(encode_utf8(plain), spans[i].start)
            &&& is_char_boundary(encode_utf8(plain), spans[i].end)
        }
}

/// The texts of the segments, one after another.
pub open spec fn concat_texts(segs: Seq<Segment>) -> Seq<char>
    decreases segs.len(),
{
    if segs.len() == 0 {
        Seq::empty()
    } else {
        concat_texts(segs.drop_last()) + segs.last().text@
    }
}

/// The text built from segments: their concatenation, with one span per
/// segment over the bytes that segment added, carrying its style.
pub open spec fn text_of_segments(segs: Seq<Segment>) -> TextModel
    decreases segs.len(),
{
    if segs.len() == 0 {
        TextModel { plain: Seq::empty(), spans: Seq::empty() }
    } else {
        let prev = text_of_segments(segs.drop_last());
        let plain = prev.plain + segs.last().text@;
        TextModel {
            plain,
            spans: prev.spans.push(
                SpanModel {
                    start: byte_len(prev.plain),
                    end: byte_len(plain),
                    style: segs.last().style,
                },
            ),
        }
    }
}

/// Total number of bytes the spans cover.
pub open spec fn covered_len(spans: Seq<SpanModel>) -> int
    decreases spans.len(),
{
    if spans.len() == 0 {
        0
    } else {
        covered_len(spans.drop_last()) + (spans.last().end - spans.last().start)
    }
}

/// One span rendered: its slice in its style, or verbatim without one.
pub open spec fn span_render(
    plain: Seq<char>,
    sp: SpanModel,
    system: Option<ColorSystem>,
    legacy_windows: bool,
    links: bool,
    mxp: bool,
) -> Seq<char> {
    let t = span_slice(plain, sp.start, sp.end);
    match sp.style {
        Some(st) => style_render(st, t, system, legacy_windows, links, mxp),
        None => t,
    }
}

/// The spans rendered in order and concatenated.
pub open spec fn text_render(
    plain: Seq<char>,
    spans: Seq<SpanModel>,
    system: Option<ColorSystem>,
    legacy_windows: bool,
    links: bool,
    mxp: bool,
) -> Seq<char>
    decreases spans.len(),
{
    if spans.len() == 0 {
        Seq::empty()
    } else {
        text_render(plain, spans.drop_last(), system, legacy_windows, links, mxp) + span_render(
            plain,
            spans.last(),
            system,
            legacy_windows,
            links,
            mxp,
        )
    }
}

/// Bytes `[start, end)` of `s`, which start and end on character boundaries.
fn slice_bytes(s: &str, start: usize, end: usize) -> (r: &str)
    requires
        start <= end <= s.spec_bytes().len(),
        is_char_boundary(s.spec_bytes(), start as int),
        is_char_boundary(s.spec_bytes(), end as int),
    ensures
        r@ == span_slice(s@, start as int, end as int),
{
    let ghost bytes = s.spec_bytes();
    let (_, rest) = s.split_at(start);
    let k = end - start;
    proof {
        let rb = rest.spec_bytes();
        vstd::utf8::valid_utf8_split(bytes, start as int);
        assert(rb =~= bytes.subrange(start as int, bytes.len() as int));
        if k == 0 {
            assert(is_char_boundary(rb, 0));
        } else if k == rb.len() {
            vstd::utf8::is_char_boundary_start_end_of_seq(rb);
        } else {
            assert(rb[k as int] == bytes[end as int]);
            vstd::utf8::is_char_boundary_iff_not_is_continuation_byte(bytes, end as int);
            vstd::utf8::is_char_boundary_iff_not_is_continuation_byte(rb, k as int);
        }
    }
    let (mid, _) = rest.split_at(k);
    assert(mid.spec_bytes() =~= bytes.subrange(start as int, end as int));
    mid
}

/// Length in bytes of `s`.
fn byte_count(s: &str) -> (r: usize)
    ensures
        r as int == byte_len(s@),
{
    s.as_bytes().len()
}

impl Default for Text {
    fn default() -> (r: Self)
        ensures
            r@.plain == Seq::<char>::empty(),
            r@.spans == seq![SpanModel { start: 0, end: 0, style: None }],
    {
        let mut spans = Vec::new();
        spans.push(Span { start: 0, end: 0, style: None });
        let r = Text { plain: String::new(), spans };
        assert(r@.spans =~= seq![SpanModel { start: 0, end: 0, style: None }]);
        r
    }
}

impl Text {
    /// A text of one unstyled span over the whole of `s`.
    pub fn from_str(s: &str) -> (r: Self)
        ensures
            r@.plain == s@,
            r@.spans == seq![SpanModel { start: 0, end: byte_len(s@), style: None }],
            spans_fit(r@.plain, r@.spans),
    {
        let plain = String::from_str(s);
        let end = byte_count(plain.as_str());
        let mut spans = Vec::new();
        spans.push(Span { start: 0, end, style: None });
        let r = Text { plain, spans };
        assert(r@.spans =~= seq![SpanModel { start: 0, end: byte_len(s@), style: None }]);
        r
    }

    /// The concatenation of the segments, with one span per segment.
    pub fn from_segments(segs: Vec<Segment>) -> (r: Self)
        ensures
            r@ == text_of_segments(segs@),
            spans_fit(r@.plain, r@.spans),
    {
        proof {
            lemma_segments_fit(segs@);
        }
        let mut segs = segs;
        let ghost orig = segs@;
        let n = segs.len();
        let mut plain = String::new();
        let mut spans: Vec<Span> = Vec::new();
        let mut i: usize = 0;
        assert(orig.subrange(0, 0) =~= Seq::<Segment>::empty());
        assert(spans@.map_values(|s: Span| s@) =~= Seq::<SpanModel>::empty());
        assert(segs@ =~= orig.subrange(0, n as int));
        while i < n
            invariant
                n == orig.len(),
                i <= n,
                segs@ =~= orig.subrange(i as int, n as int),
                plain@ == text_of_segments(orig.subrange(0, i as int)).plain,
                spans@.map_values(|s: Span| s@) == text_of_segments(
                    orig.subrange(0, i as int),
                ).spans,
            decreases n - i,
        {
            let seg = segs.remove(0);
            let ghost prev_spans = spans@;
            let start = byte_count(plain.as_str());
            plain.append(seg.text.as_str());
            let end = byte_count(plain.as_str());
            spans.push(Span { start, end, style: seg.style });
            proof {
                assert(orig.subrange(0, i + 1).drop_last() =~= orig.subrange(0, i as int));
                assert(orig.subrange(0, i + 1).last() == orig[i as int]);
                assert(spans@.map_values(|s: Span| s@) =~= prev_spans.map_values(|s: Span| s@).push(
                    spans@.last()@,
                ));
            }
            i += 1;
        }
        assert(orig.subrange(0, n as int) =~= orig);
        Text { plain, spans }
    }

    /// The spans rendered in order, each slice in its style (verbatim
    /// without one), concatenated.
    pub fn render(
        &self,
        system: Option<ColorSystem>,
        legacy_windows: bool,
        links: bool,
        mxp: bool,
    ) -> (r: String)
        requires
            spans_fit(self@.plain, self@.spans),
        ensures
            r@ == text_render(self@.plain, self@.spans, system, legacy_windows, links, mxp),
    {
        let mut out = String::new();
        let mut i: usize = 0;
        assert(self@.spans.subrange(0, 0) =~= Seq::<SpanModel>::empty());
        while i < self.spans.len()
            invariant
                i <= self.spans@.len(),
                spans_fit(self@.plain, self@.spans),
                out@ == text_render(
                    self@.plain,
                    self@.spans.subrange(0, i as int),
                    system,
                    legacy_windows,
                    links,
                    mxp,
                ),
            decreases self.spans@.len() - i,
        {
            let sp = &self.spans[i];
            let ps = self.plain.as_str();
            assert(self@.spans[i as int] == sp@);
            assert(ps.spec_bytes() == encode_utf8(self@.plain));
            assert(0 <= self@.spans[i as int].start <= self@.spans[i as int].end <= byte_len(
                self@.plain,
            ));
            let piece = slice_bytes(ps, sp.start, sp.end);
            match &sp.style {
                Some(st) => {
                    let r = st.render(piece, system, legacy_windows, links, mxp);
                    out.append(r.as_str());
                },
                None => {
                    out.append(piece);
                },
            }
            assert(self@.spans.subrange(0, i + 1).drop_last() =~= self@.spans.subrange(0, i as int));
            i += 1;
        }
        assert(self@.spans.subrange(0, i as int) =~= self@.spans);
        out
    }
}

impl From<Vec<Segment>> for Text {
    fn from(segs: Vec<Segment>) -> (r: Self)
        ensures
            r@ == text_of_segments(segs@),
            spans_fit(r@.plain, r@.spans),
    {
        Text::from_segments(segs)
    }
}

impl vstd::std_specs::convert::FromSpecImpl<Vec<Segment>> for Text {
    open spec fn obeys_from_spec() -> bool {
        false
    }

    open spec fn from_spec(v: Vec<Segment>) -> Self {
        arbitrary()
    }
}

impl From<&str> for Text {
    fn from(s: &str) -> (r: Self)
        ensures
            r@.plain == s@,
            r@.spans == seq![SpanModel { start: 0, end: byte_len(s@), style: None }],
            spans_fit(r@.plain, r@.spans),
    {
        Text::from_str(s)
    }
}

impl vstd::std_specs::convert::FromSpecImpl<&str> for Text {
    open spec fn obeys_from_spec() -> bool {
        false
    }

    open spec fn from_spec(v: &str) -> Self {
        arbitrary()
    }
}

/// A text built from segments holds their texts one after another, and its
/// spans together cover exactly the bytes of that plain string.
pub proof fn lemma_segments_round_trip(segs: Seq<Segment>)
    ensures
        text_of_segments(segs).plain == concat_texts(segs),
        covered_len(text_of_segments(segs).spans) == byte_len(text_of_segments(segs).plain),
        text_of_segments(segs).spans.len() == segs.len(),
    decreases segs.len(),
{
    if segs.len() > 0 {
        lemma_segments_round_trip(segs.drop_last());
        let prev = text_of_segments(segs.drop_last());
        let spans = text_of_segments(segs).spans;
        assert(spans.drop_last() =~= prev.spans);
    }
}

/// A text of one unstyled span over a whole string renders to that string,
/// whatever the tier and flags.
pub proof fn lemma_render_unstyled(
    s: Seq<char>,
    system: Option<ColorSystem>,
    legacy_windows: bool,
    links: bool,
    mxp: bool,
)
    ensures
        text_render(
            s,
            seq![SpanModel { start: 0, end: byte_len(s), style: None }],
            system,
            legacy_windows,
            links,
            mxp,
        ) == s,
{
    let spans = seq![SpanModel { start: 0, end: byte_len(s), style: None }];
    assert(spans.drop_last() =~= Seq::<SpanModel>::empty());
    assert(encode_utf8(s).subrange(0, byte_len(s)) =~= encode_utf8(s));
    vstd::utf8::encode_utf8_decode_utf8(s);
    assert(span_slice(s, 0, byte_len(s)) == s);
    assert(text_render(s, spans.drop_last(), system, legacy_windows, links, mxp) =~= Seq::<
        char,
    >::empty());
    assert(text_render(s, spans, system, legacy_windows, links, mxp) =~= s);
}

/// The encoding of two strings one after the other is their encodings one
/// after the other.
pub proof fn lemma_encode_concat(a: Seq<char>, b: Seq<char>)
    ensures
        encode_utf8(a + b) == encode_utf8(a) + encode_utf8(b),
    decreases a.len(),
{
    if a.len() == 0 {
        assert(a + b =~= b);
        assert(encode_utf8(a) + encode_utf8(b) =~= encode_utf8(b));
    } else {
        lemma_encode_concat(a.drop_first(), b);
        assert((a + b).drop_first() =~= a.drop_first() + b);
        assert((a + b)[0] == a[0]);
        assert(encode_utf8(a + b) =~= encode_utf8(a) + encode_utf8(b));
    }
}

/// Appending a string keeps every character boundary of the text before it,
/// and makes its end a boundary.
proof fn lemma_boundaries_extend(a: Seq<char>, b: Seq<char>, i: int)
    requires
        0 <= i <= byte_len(a),
        is_char_boundary(encode_utf8(a), i),
    ensures
        is_char_boundary(encode_utf8(a + b), i),
        is_char_boundary(encode_utf8(a + b), byte_len(a)),
{
    lemma_encode_concat(a, b);
    let x = encode_utf8(a);
    let y = encode_utf8(b);
    let xy = encode_utf8(a + b);
    vstd::utf8::encode_utf8_valid_utf8(a + b);
    vstd::utf8::encode_utf8_valid_utf8(a);
    vstd::utf8::encode_utf8_valid_utf8(b);
    vstd::utf8::is_char_boundary_start_end_of_seq(xy);
    vstd::utf8::is_char_boundary_start_end_of_seq(x);
    if y.len() > 0 {
        vstd::utf8::is_char_boundary_start_end_of_seq(y);
        vstd::utf8::is_char_boundary_iff_not_is_continuation_byte(y, 0);
        vstd::utf8::is_char_boundary_iff_not_is_continuation_byte(xy, x.len() as int);
        assert(xy[x.len() as int] == y[0]);
        if 0 < i < x.len() {
            vstd::utf8::is_char_boundary_iff_not_is_continuation_byte(x, i);
            vstd::utf8::is_char_boundary_iff_not_is_continuation_byte(xy, i);
            assert(xy[i] == x[i]);
        }
    } else {
        assert(xy =~= x);
    }
}

/// The spans of a text built from segments lie inside it, on character
/// boundaries, so the text can be rendered.
pub proof fn lemma_segments_fit(segs: Seq<Segment>)
    ensures
        spans_fit(text_of_segments(segs).plain, text_of_segments(segs).spans),
    decreases segs.len(),
{
    if segs.len() > 0 {
        lemma_segments_fit(segs.drop_last());
        let prev = text_of_segments(segs.drop_last());
        let cur = text_of_segments(segs);
        let b = segs.last().text@;
        lemma_encode_concat(prev.plain, b);
        vstd::utf8::encode_utf8_valid_utf8(prev.plain);
        vstd::utf8::is_char_boundary_start_end_of_seq(encode_utf8(prev.plain));
        lemma_boundaries_extend(prev.plain, b, 0);
        assert forall|i: int| 0 <= i < cur.spans.len() implies {
            &&& 0 <= #[trigger] cur.spans[i].start <= cur.spans[i].end <= byte_len(cur.plain)
            &&& is_char_boundary(encode_utf8(cur.plain), cur.spans[i].start)
            &&& is_char_boundary(encode_utf8(cur.plain), cur.spans[i].end)
        } by {
            if i < prev.spans.len() {
                assert(cur.spans[i] == prev.spans[i]);
                lemma_boundaries_extend(prev.plain, b, prev.spans[i].start);
                lemma_boundaries_extend(prev.plain, b, prev.spans[i].end);
            } else {
                vstd::utf8::encode_utf8_valid_utf8(cur.plain);
                vstd::utf8::is_char_boundary_start_end_of_seq(encode_utf8(cur.plain));
            }
        }
    }
}

/// The segments rendered one by one, each text in its style (verbatim
/// without one), and concatenated.
pub open spec fn segments_render(
    segs: Seq<Segment>,
    system: Option<ColorSystem>,
    legacy_windows: bool,
    links: bool,
    mxp: bool,
) -> Seq<char>
    decreases segs.len(),
{
    if segs.len() == 0 {
        Seq::empty()
    } else {
        let last = segs.last();
        segments_render(segs.drop_last(), system, legacy_windows, links, mxp) + match last.style {
            Some(st) => style_render(st, last.text@, system, legacy_windows, links, mxp),
            None => last.text@,
        }
    }
}

/// Spans that end within `a` render the same over `a` followed by more text.
proof fn lemma_render_prefix(
    a: Seq<char>,
    b: Seq<char>,
    spans: Seq<SpanModel>,
    system: Option<ColorSystem>,
    legacy_windows: bool,
    links: bool,
    mxp: bool,
)
    requires
        forall|i: int|
            0 <= i < spans.len() ==> 0 <= #[trigger] spans[i].start <= spans[i].end <= byte_len(a),
    ensures
        text_render(a + b, spans, system, legacy_windows, links, mxp) == text_render(
            a,
            spans,
            system,
            legacy_windows,
            links,
            mxp,
        ),
    decreases spans.len(),
{
    if spans.len() > 0 {
        lemma_render_prefix(a, b, spans.drop_last(), system, legacy_windows, links, mxp);
        lemma_encode_concat(a, b);
        let sp = spans.last();
        assert(spans[spans.len() - 1] == sp);
        assert(encode_utf8(a + b).subrange(sp.start, sp.end) =~= encode_utf8(a).subrange(
            sp.start,
            sp.end,
        ));
    }
}

/// Rendering a text built from segments gives each segment's text rendered
/// in its own style, in order: the spans cut the plain string back into the
/// segments' texts.
pub proof fn lemma_segments_render(
    segs: Seq<Segment>,
    system: Option<ColorSystem>,
    legacy_windows: bool,
    links: bool,
    mxp: bool,
)
    ensures
        text_render(
            text_of_segments(segs).plain,
            text_of_segments(segs).spans,
            system,
            legacy_windows,
            links,
            mxp,
        ) == segments_render(segs, system, legacy_windows, links, mxp),
    decreases segs.len(),
{
    if segs.len() > 0 {
        lemma_segments_render(segs.drop_last(), system, legacy_windows, links, mxp);
        lemma_segments_fit(segs.drop_last());
        let prev = text_of_segments(segs.drop_last());
        let cur = text_of_segments(segs);
        let b = segs.last().text@;
        assert(cur.spans.drop_last() =~= prev.spans);
        lemma_render_prefix(prev.plain, b, prev.spans, system, legacy_windows, links, mxp);
        lemma_encode_concat(prev.plain, b);
        vstd::utf8::encode_utf8_decode_utf8(b);
        assert(encode_utf8(cur.plain).subrange(byte_len(prev.plain), byte_len(cur.plain))
            =~= encode_utf8(b));
        assert(span_slice(cur.plain, cur.spans.last().start, cur.spans.last().end) == b);
    }
}

} // verus!
