//! Colored terminal output.
//!
//! A text is first laid out as segments, each with a style; then the segments are painted. Whether
//! the painting adds escape sequences depends on the environment.

use crate::text::replace_all;
use colored::Colorize;
use vstd::prelude::*;

verus! {

/// How a segment looks.
#[derive(Debug, Clone, Copy, PartialEq, Eq, Structural)]
pub enum Style {
    Plain,
    Red,
    Yellow,
    RedBold,
    YellowBold,
    GreenBold,
    WhiteBold,
    Dimmed,
}

/// A piece of text with a style.
#[derive(Debug, Clone)]
pub struct Segment {
    pub text: String,
    pub style: Style,
}

/// The model of a segment.
pub struct SegmentView {
    pub text: Seq<char>,
    pub style: Style,
}

impl View for Segment {
    type V = SegmentView;

    open spec fn view(&self) -> SegmentView {
        SegmentView { text: self.text@, style: self.style }
    }
}

/// The model of a list of segments.
pub open spec fn segment_views(segments: Seq<Segment>) -> Seq<SegmentView> {
    segments.map_values(|s: Segment| s@)
}

/// The model of a segment with a text and a style.
pub open spec fn styled(text: Seq<char>, style: Style) -> SegmentView {
    SegmentView { text, style }
}

impl Segment {
    pub fn new(text: &str, style: Style) -> (r: Segment)
        ensures
            r@ == styled(text@, style),
    {
        Segment { text: text.to_string(), style }
    }
}

/// The escape sequence that ends a style.
pub const RESET: &'static str = "\u{1b}[0m";

/// A text between an escape sequence and the reset. A reset inside the text is followed by the
/// sequence `again`, so that the style goes on behind it.
pub open spec fn wrapped(text: Seq<char>, open: Seq<char>, again: Seq<char>) -> Seq<char> {
    open + replace_all(text, RESET@, RESET@ + again) + RESET@
}

/// Whether a text is what `colored` makes of `text` for a style whose escape sequence is `open`: the
/// text itself where the environment asks for no colors, else the wrapped text. (Either sequence is
/// empty if colors are switched off just before it is written.)
pub open spec fn is_painted(painted: Seq<char>, text: Seq<char>, open: Seq<char>) -> bool {
    ||| painted == text
    ||| painted == wrapped(text, open, open)
    ||| painted == wrapped(text, open, Seq::empty())
    ||| painted == wrapped(text, Seq::empty(), open)
    ||| painted == wrapped(text, Seq::empty(), Seq::empty())
}

/// The escape sequence of a foreground color.
pub open spec fn color_sequence(color: Seq<char>) -> Seq<char> {
    if color == "red"@ {
        "\u{1b}[31m"@
    } else if color == "green"@ {
        "\u{1b}[32m"@
    } else if color == "yellow"@ {
        "\u{1b}[33m"@
    } else {
        "\u{1b}[37m"@
    }
}

/// The escape sequence of a bold foreground color.
pub open spec fn bold_sequence(color: Seq<char>) -> Seq<char> {
    if color == "red"@ {
        "\u{1b}[1;31m"@
    } else if color == "green"@ {
        "\u{1b}[1;32m"@
    } else if color == "yellow"@ {
        "\u{1b}[1;33m"@
    } else {
        "\u{1b}[1;37m"@
    }
}

/// The colors in use.
pub open spec fn is_color(color: Seq<char>) -> bool {
    color == "red"@ || color == "green"@ || color == "yellow"@ || color == "white"@
}

/// `colored::Colorize::color`, rendered: the text in a foreground color, or as it is, depending on
/// the environment.
#[verifier::external_body]
fn paint_color(text: &str, color: &str) -> (r: String)
    requires
        is_color(color@),
    ensures
        is_painted(r@, text@, color_sequence(color@)),
{
    text.color(color).to_string()
}

/// `colored::Colorize::color` and `bold`, rendered: the text in a bold foreground color, or as it is,
/// depending on the environment.
#[verifier::external_body]
fn paint_bold(text: &str, color: &str) -> (r: String)
    requires
        is_color(color@),
    ensures
        is_painted(r@, text@, bold_sequence(color@)),
{
    text.color(color).bold().to_string()
}

/// `colored::Colorize::dimmed`, rendered: the text dimmed, or as it is, depending on the environment.
#[verifier::external_body]
fn paint_dimmed(text: &str) -> (r: String)
    ensures
        is_painted(r@, text@, "\u{1b}[2m"@),
{
    text.dimmed().to_string()
}

/// Whether a text is what a segment may be painted as.
pub open spec fn may_be_painted(segment: SegmentView, painted: Seq<char>) -> bool {
    match segment.style {
        Style::Plain => painted == segment.text,
        Style::Red => is_painted(painted, segment.text, color_sequence("red"@)),
        Style::Yellow => is_painted(painted, segment.text, color_sequence("yellow"@)),
        Style::RedBold => is_painted(painted, segment.text, bold_sequence("red"@)),
        Style::YellowBold => is_painted(painted, segment.text, bold_sequence("yellow"@)),
        Style::GreenBold => is_painted(painted, segment.text, bold_sequence("green"@)),
        Style::WhiteBold => is_painted(painted, segment.text, bold_sequence("white"@)),
        Style::Dimmed => is_painted(painted, segment.text, "\u{1b}[2m"@),
    }
}

fn paint(segment: &Segment) -> (r: String)
    ensures
        may_be_painted(segment@, r@),
{
    let text = segment.text.as_str();
    match segment.style {
        Style::Plain => segment.text.clone(),
        Style::Red => paint_color(text, "red"),
        Style::Yellow => paint_color(text, "yellow"),
        Style::RedBold => paint_bold(text, "red"),
        Style::YellowBold => paint_bold(text, "yellow"),
        Style::GreenBold => paint_bold(text, "green"),
        Style::WhiteBold => paint_bold(text, "white"),
        Style::Dimmed => paint_dimmed(text),
    }
}

/// Whether a text is a painting of segments: one painting of each, one after the other.
pub open spec fn is_painting(segments: Seq<SegmentView>, painted: Seq<char>) -> bool
    decreases segments.len(),
{
    if segments.len() == 0 {
        painted.len() == 0
    } else {
        exists|k: int|
            0 <= k <= painted.len() && is_painting(segments.drop_last(), #[trigger] painted.take(k))
                && may_be_painted(segments.last(), painted.skip(k))
    }
}

/// Paints segments one after the other.
pub fn render(segments: &Vec<Segment>) -> (r: String)
    ensures
        is_painting(segment_views(segments@), r@),
{
    let ghost all = segment_views(segments@);
    let mut r = String::new();
    let mut i: usize = 0;
    while i < segments.len()
        invariant
            i <= segments.len(),
            all == segment_views(segments@),
            is_painting(all.take(i as int), r@),
        decreases segments.len() - i,
    {
        let ghost before = r@;
        let piece = paint(&segments[i]);
        r.append(piece.as_str());
        proof {
            let next = all.take(i + 1);
            assert(next.drop_last() =~= all.take(i as int));
            assert(next.last() == segments@[i as int]@);
            assert(r@.take(before.len() as int) =~= before);
            assert(r@.skip(before.len() as int) =~= piece@);
        }
        i += 1;
    }
    assert(all.take(all.len() as int) =~= all);
    r
}

/// The text of segments without any style.
pub open spec fn plain_text(segments: Seq<SegmentView>) -> Seq<char>
    decreases segments.len(),
{
    if segments.len() == 0 {
        Seq::empty()
    } else {
        plain_text(segments.drop_last()) + segments.last().text
    }
}

proof fn lemma_nothing_replaced(text: Seq<char>, from: Seq<char>, to: Seq<char>)
    requires
        from.len() > 0,
        !text.contains(from[0]),
    ensures
        replace_all(text, from, to) == text,
    decreases text.len(),
{
    if text.len() >= from.len() {
        let rest = text.skip(1);
        assert(text.contains(text[0]));
        assert(text.take(from.len() as int)[0] == text[0]);
        assert forall|c: char| rest.contains(c) implies text.contains(c) by {
            let i = rest.index_of(c);
            assert(text[i + 1] == c);
        }
        lemma_nothing_replaced(rest, from, to);
        assert(seq![text[0]] + rest =~= text);
    }
}

/// A text without escape characters is painted as it stands, with at most an escape sequence before
/// it and the reset behind it.
pub proof fn law_painting_keeps_the_text(painted: Seq<char>, text: Seq<char>, open: Seq<char>)
    requires
        is_painted(painted, text, open),
        !text.contains('\u{1b}'),
    ensures
        painted == text || painted == open + text + RESET@ || painted == text + RESET@,
{
    reveal_strlit("\u{1b}[0m");
    assert(RESET@[0] == '\u{1b}');
    lemma_nothing_replaced(text, RESET@, RESET@ + open);
    lemma_nothing_replaced(text, RESET@, RESET@ + Seq::<char>::empty());
    assert(Seq::<char>::empty() + text + RESET@ =~= text + RESET@);
}

/// Segments without style are painted as they stand.
pub proof fn law_plain_segments_stay(segments: Seq<SegmentView>, painted: Seq<char>)
    requires
        is_painting(segments, painted),
        forall|i: int| 0 <= i < segments.len() ==> (#[trigger] segments[i]).style == Style::Plain,
    ensures
        painted == plain_text(segments),
    decreases segments.len(),
{
    if segments.len() > 0 {
        let k = choose|k: int|
            0 <= k <= painted.len() && is_painting(segments.drop_last(), #[trigger] painted.take(k))
                && may_be_painted(segments.last(), painted.skip(k));
        assert(segments[segments.len() - 1].style == Style::Plain);
        law_plain_segments_stay(segments.drop_last(), painted.take(k));
        assert(painted =~= painted.take(k) + painted.skip(k));
    } else {
        assert(painted =~= plain_text(segments));
    }
}

/// Each style has its own escape sequence; a segment without style has none.
pub proof fn law_styles_have_their_sequences(text: Seq<char>, painted: Seq<char>)
    ensures
        may_be_painted(styled(text, Style::Plain), painted) <==> painted == text,
        may_be_painted(styled(text, Style::Red), painted) <==> is_painted(
            painted,
            text,
            "\u{1b}[31m"@,
        ),
        may_be_painted(styled(text, Style::Yellow), painted) <==> is_painted(
            painted,
            text,
            "\u{1b}[33m"@,
        ),
        may_be_painted(styled(text, Style::RedBold), painted) <==> is_painted(
            painted,
            text,
            "\u{1b}[1;31m"@,
        ),
        may_be_painted(styled(text, Style::YellowBold), painted) <==> is_painted(
            painted,
            text,
            "\u{1b}[1;33m"@,
        ),
        may_be_painted(styled(text, Style::GreenBold), painted) <==> is_painted(
            painted,
            text,
            "\u{1b}[1;32m"@,
        ),
        may_be_painted(styled(text, Style::WhiteBold), painted) <==> is_painted(
            painted,
            text,
            "\u{1b}[1;37m"@,
        ),
        may_be_painted(styled(text, Style::Dimmed), painted) <==> is_painted(
            painted,
            text,
            "\u{1b}[2m"@,
        ),
{
    reveal_strlit("red");
    reveal_strlit("green");
    reveal_strlit("yellow");
    reveal_strlit("white");
    assert("red"@.len() == 3 && "green"@.len() == 5 && "yellow"@.len() == 6 && "white"@.len() == 5);
    assert("green"@[0] != "white"@[0]);
}

/// The painted text of several segments is that of each, one after the other.
pub proof fn law_segments_are_painted_in_turn(
    segments: Seq<SegmentView>,
    segment: SegmentView,
    painted: Seq<char>,
)
    ensures
        is_painting(Seq::empty(), painted) <==> painted.len() == 0,
        is_painting(segments.push(segment), painted) <==> exists|k: int|
            0 <= k <= painted.len() && is_painting(segments, #[trigger] painted.take(k))
                && may_be_painted(segment, painted.skip(k)),
{
    assert(segments.push(segment).drop_last() =~= segments);
}

} // verus!
