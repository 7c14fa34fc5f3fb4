//! The text-shaping calls the display projector leans on: parsing a raw log
//! line's ANSI styling into spans, splitting text into grapheme clusters,
//! and measuring a cluster's rendered width.
//!
//! All three computations depend on their character input alone, so each
//! result is given a name (`ansi_spans_of`, `graphemes_of`, `width_of`) and
//! the projector's contracts are stated over those names.

use vstd::prelude::*;
use ansi_to_tui::IntoText;
use ratatui::style::Style;
use unicode_segmentation::UnicodeSegmentation;

verus! {

#[verifier::external_type_specification]
#[verifier::external_body]
pub struct ExStyle(Style);

/// One styled run of text within a parsed log line.
pub struct StyledSpan {
    /// The run's text, free of escape codes.
    pub content: String,
    /// The style the escape codes gave the run.
    pub style: Style,
}

/// One parsed line of a log entry: its styled runs in order.
pub struct StyledLine {
    /// The styled runs of the line, in order.
    pub spans: Vec<StyledSpan>,
}

impl StyledLine {
    /// The texts of the line's runs, in order.
    pub open spec fn span_texts(self) -> Seq<Seq<char>> {
        self.spans@.map_values(|s: StyledSpan| s.content@)
    }

    /// The styles of the line's runs, in order.
    pub open spec fn span_styles(self) -> Seq<Style> {
        self.spans@.map_values(|s: StyledSpan| s.style)
    }
}

/// The lines of a log entry after ANSI parsing, each line the texts of its
/// styled runs in order.
pub uninterp spec fn ansi_spans_of(raw: Seq<char>) -> Seq<Seq<Seq<char>>>;

/// The extended grapheme clusters of a string, in order.
pub uninterp spec fn graphemes_of(s: Seq<char>) -> Seq<Seq<char>>;

/// The rendered character-cell width of one grapheme cluster.
pub uninterp spec fn width_of(g: Seq<char>) -> usize;

/// Relies on ansi_to_tui::IntoText::into_text to parse a raw log line's
/// embedded ANSI escape codes into styled lines of spans, so that styling
/// survives wrapping. A line that fails to parse yields no lines, as the
/// original text's default does.
#[verifier::external_body]
pub(crate) fn parse_ansi(raw: &String) -> (r: Vec<StyledLine>)
    ensures
        r@.map_values(|l: StyledLine| l.span_texts()) == ansi_spans_of(raw@),
{
    let text = raw.into_text().unwrap_or_default();
    text.lines
        .into_iter()
        .map(|line| StyledLine {
            spans: line
                .spans
                .into_iter()
                .map(|s| StyledSpan { content: s.content.into_owned(), style: s.style })
                .collect(),
        })
        .collect()
}

/// Relies on unicode_segmentation::UnicodeSegmentation::graphemes to split a
/// string into its extended grapheme clusters; the result depends on the
/// characters alone.
#[verifier::external_body]
pub(crate) fn split_graphemes(s: &String) -> (r: Vec<String>)
    ensures
        r@.map_values(|g: String| g@) == graphemes_of(s@),
{
    s.graphemes(true).map(|g| g.to_string()).collect()
}

/// Relies on ratatui::text::Line::width for the rendered character-cell
/// width of one grapheme cluster; the result depends on the characters
/// alone.
#[verifier::external_body]
pub(crate) fn unit_width(g: &String) -> (r: usize)
    ensures
        r == width_of(g@),
{
    ratatui::text::Line::from(g.as_str()).width()
}

} // verus!
