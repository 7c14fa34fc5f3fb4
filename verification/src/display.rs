//! The log display engine: an append-only sequence of raw log lines and a
//! projection of those lines into width-constrained visual rows with a
//! stable selection.
//!
//! The projection is recomputed on every render pass — viewport width and
//! entry count both vary between frames — and is specified end to end by
//! [`spec_project`]: every entry is parsed for ANSI styling, split into
//! grapheme clusters, measured, and wrapped at the viewport width; each
//! visual row remembers the entry it renders.

use vstd::prelude::*;
use ratatui::style::Style;
use crate::ansi::{ansi_spans_of, graphemes_of, parse_ansi, split_graphemes, unit_width, width_of};
use crate::ansi::{StyledLine, StyledSpan};
use crate::wrap::{measures, spec_wrap, wrap_units, StyledUnit};

verus! {

/// The measured units of one styled run: its grapheme clusters, each with
/// its rendered width.
pub open spec fn spec_span_units(sp: Seq<char>) -> Seq<(Seq<char>, int)> {
    graphemes_of(sp).map_values(|g: Seq<char>| (g, width_of(g) as int))
}

/// The measured units of one parsed line: each run's units, in order.
pub open spec fn spec_line_units(line: Seq<Seq<char>>) -> Seq<(Seq<char>, int)> {
    line.flat_map(|sp: Seq<char>| spec_span_units(sp))
}

/// The visual rows of one log entry at a viewport width: each parsed
/// line's units wrapped, the lines' rows in order.
pub open spec fn spec_entry_rows(raw: Seq<char>, width: int) -> Seq<Seq<(Seq<char>, int)>> {
    ansi_spans_of(raw).flat_map(|line: Seq<Seq<char>>| spec_wrap(spec_line_units(line), width))
}

/// One entry's visual rows, each tagged with the entry's index.
pub open spec fn rows_for_entry(raw: Seq<char>, width: int, entry: int) -> Seq<
    (Seq<(Seq<char>, int)>, int),
> {
    spec_entry_rows(raw, width).map_values(|row: Seq<(Seq<char>, int)>| (row, entry))
}

/// All visual rows of a log at a viewport width, in entry order, each
/// tagged with the index of the entry it renders.
pub open spec fn spec_project(logs: Seq<Seq<char>>, width: int) -> Seq<
    (Seq<(Seq<char>, int)>, int),
>
    decreases logs.len(),
{
    if logs.len() == 0 {
        Seq::empty()
    } else {
        spec_project(logs.drop_last(), width) + rows_for_entry(
            logs.last(),
            width,
            logs.len() - 1,
        )
    }
}

/// The styles of one parsed line's units: each run's style, once per
/// grapheme cluster of the run, in order.
pub open spec fn spec_line_styles(line: StyledLine) -> Seq<Style> {
    line.spans@.flat_map(
        |s: StyledSpan| Seq::new(graphemes_of(s.content@).len(), |i: int| s.style),
    )
}

/// The unit styles a line with these run texts must carry, given one style
/// per run: that run's style, once per grapheme cluster, in order.
pub open spec fn spec_line_unit_styles(line: Seq<Seq<char>>, span_styles: Seq<Style>) -> Seq<
    Style,
> {
    Seq::new(
        line.len(),
        |j: int| Seq::new(graphemes_of(line[j]).len(), |k: int| span_styles[j]),
    ).flatten()
}

/// The unit styles of consecutive parsed lines, given per-line run styles.
pub open spec fn spec_lines_unit_styles(
    lines: Seq<Seq<Seq<char>>>,
    span_styles: Seq<Seq<Style>>,
) -> Seq<Style>
    decreases lines.len(),
{
    if lines.len() == 0 {
        Seq::empty()
    } else {
        spec_lines_unit_styles(lines.drop_last(), span_styles.drop_last())
            + spec_line_unit_styles(lines.last(), span_styles.last())
    }
}

/// The unit styles of one whole log entry, given one style per parsed run.
pub open spec fn spec_entry_unit_styles(raw: Seq<char>, span_styles: Seq<Seq<Style>>) -> Seq<
    Style,
> {
    spec_lines_unit_styles(ansi_spans_of(raw), span_styles)
}

/// Whether a per-run style assignment has one style for each run the parse
/// found.
pub open spec fn spec_span_styles_shape(raw: Seq<char>, span_styles: Seq<Seq<Style>>) -> bool {
    &&& span_styles.len() == ansi_spans_of(raw).len()
    &&& forall|l: int|
        0 <= l < span_styles.len() ==> (#[trigger] span_styles[l]).len() == ansi_spans_of(
            raw,
        )[l].len()
}

/// The styles of the units of consecutive visual rows, in order.
pub open spec fn row_styles(rows: Seq<VisualRow>) -> Seq<Style> {
    rows.map_values(|row: VisualRow| row.units@.map_values(|u: StyledUnit| u.style)).flatten()
}

/// The unit styles of a whole projection, given per-entry run styles.
pub open spec fn spec_project_styles(
    logs: Seq<Seq<char>>,
    span_styles: Seq<Seq<Seq<Style>>>,
) -> Seq<Style>
    decreases logs.len(),
{
    if logs.len() == 0 {
        Seq::empty()
    } else {
        spec_project_styles(logs.drop_last(), span_styles.drop_last()) + spec_entry_unit_styles(
            logs.last(),
            span_styles.last(),
        )
    }
}

/// A parsed line's unit styles are the per-run template filled with its
/// own run styles.
proof fn lemma_line_styles_as_units(line: StyledLine)
    ensures
        spec_line_styles(line) == spec_line_unit_styles(line.span_texts(), line.span_styles()),
{
    assert(line.spans@.map_values(
        |s: StyledSpan| Seq::new(graphemes_of(s.content@).len(), |i: int| s.style),
    ) =~~= Seq::new(
        line.span_texts().len(),
        |j: int|
            Seq::new(
                graphemes_of(line.span_texts()[j]).len(),
                |k: int| line.span_styles()[j],
            ),
    ));
}

/// Reading the styles of flattened rows of units is flattening each row's
/// styles.
proof fn lemma_row_units_styles(rows: Seq<Seq<StyledUnit>>)
    ensures
        rows.map_values(|r: Seq<StyledUnit>| r.map_values(|u: StyledUnit| u.style)).flatten()
            == rows.flatten().map_values(|u: StyledUnit| u.style),
    decreases rows.len(),
{
    if rows.len() == 0 {
        assert(rows.map_values(
            |r: Seq<StyledUnit>| r.map_values(|u: StyledUnit| u.style),
        ).flatten() =~= Seq::<Style>::empty());
        assert(rows.flatten().map_values(|u: StyledUnit| u.style) =~= Seq::<Style>::empty());
    } else {
        lemma_row_units_styles(rows.drop_first());
        assert(rows.map_values(
            |r: Seq<StyledUnit>| r.map_values(|u: StyledUnit| u.style),
        ).drop_first() =~= rows.drop_first().map_values(
            |r: Seq<StyledUnit>| r.map_values(|u: StyledUnit| u.style),
        ));
        assert(rows.flatten() == rows.first() + rows.drop_first().flatten());
        assert((rows.first() + rows.drop_first().flatten()).map_values(
            |u: StyledUnit| u.style,
        ) =~= rows.first().map_values(|u: StyledUnit| u.style) + rows.drop_first().flatten()
            .map_values(|u: StyledUnit| u.style));
        assert(rows.map_values(
            |r: Seq<StyledUnit>| r.map_values(|u: StyledUnit| u.style),
        ).flatten() =~= rows.flatten().map_values(|u: StyledUnit| u.style));
    }
}

/// One width-constrained visual row: a wrapped slice of one log entry,
/// remembering which entry it renders.
pub struct VisualRow {
    /// The styled grapheme units of the row, in order.
    pub units: Vec<StyledUnit>,
    /// The index of the log entry this row renders.
    pub entry: usize,
}

impl VisualRow {
    /// The row's measured units and its entry index, as the projection
    /// specification sees them.
    pub open spec fn measure(self) -> (Seq<(Seq<char>, int)>, int) {
        (measures(self.units@), self.entry as int)
    }
}

/// Split one styled run into its measured, styled grapheme units.
fn span_units(span: &StyledSpan) -> (r: Vec<StyledUnit>)
    ensures
        measures(r@) == spec_span_units(span.content@),
        r@.map_values(|u: StyledUnit| u.style) == Seq::new(
            graphemes_of(span.content@).len(),
            |i: int| span.style,
        ),
{
    let graphemes = split_graphemes(&span.content);
    let ghost gs = graphemes_of(span.content@);
    let mut r: Vec<StyledUnit> = Vec::new();
    let mut j: usize = 0;
    proof {
        assert(measures(r@) =~= gs.map_values(
            |g: Seq<char>| (g, width_of(g) as int),
        ).take(0));
        assert(r@.map_values(|u: StyledUnit| u.style) =~= Seq::new(
            gs.len(),
            |i: int| span.style,
        ).take(0));
    }
    while j < graphemes.len()
        invariant
            graphemes@.map_values(|g: String| g@) == gs,
            j <= graphemes.len(),
            measures(r@) == gs.map_values(|g: Seq<char>| (g, width_of(g) as int)).take(j as int),
            r@.map_values(|u: StyledUnit| u.style) == Seq::new(gs.len(), |i: int| span.style).take(
                j as int,
            ),
        decreases graphemes.len() - j,
    {
        let ghost r0 = r@;
        let g = graphemes[j].clone();
        let w = unit_width(&g);
        r.push(StyledUnit { text: g, width: w, style: span.style });
        proof {
            let pairs = gs.map_values(|g: Seq<char>| (g, width_of(g) as int));
            let styles = Seq::new(gs.len(), |i: int| span.style);
            assert(measures(r@) =~= measures(r0).push((gs[j as int], width_of(gs[j as int]) as int)));
            assert(pairs.take(j + 1) =~= pairs.take(j as int).push(pairs[j as int]));
            assert(r@.map_values(|u: StyledUnit| u.style) =~= r0.map_values(
                |u: StyledUnit| u.style,
            ).push(span.style));
            assert(styles.take(j + 1) =~= styles.take(j as int).push(styles[j as int]));
        }
        j = j + 1;
    }
    proof {
        let pairs = gs.map_values(|g: Seq<char>| (g, width_of(g) as int));
        let styles = Seq::new(gs.len(), |i: int| span.style);
        assert(pairs.take(graphemes@.len() as int) =~= pairs);
        assert(styles.take(graphemes@.len() as int) =~= styles);
    }
    r
}

/// Split one parsed line into its measured, styled grapheme units, run by
/// run. Every unit carries the style of the run it came from, so styling
/// survives wrap points.
fn line_units(line: &StyledLine) -> (r: Vec<StyledUnit>)
    ensures
        measures(r@) == spec_line_units(line.span_texts()),
        r@.map_values(|u: StyledUnit| u.style) == spec_line_styles(*line),
{
    broadcast use vstd::prelude::Seq::lemma_flat_map_take_append;

    let ghost texts = line.span_texts();
    let mut r: Vec<StyledUnit> = Vec::new();
    let mut i: usize = 0;
    proof {
        assert(measures(r@) =~= texts.take(0).flat_map(|sp: Seq<char>| spec_span_units(sp)));
        assert(r@.map_values(|u: StyledUnit| u.style) =~= line.spans@.take(0).flat_map(
            |s: StyledSpan| Seq::new(graphemes_of(s.content@).len(), |k: int| s.style),
        ));
    }
    while i < line.spans.len()
        invariant
            texts == line.span_texts(),
            i <= line.spans.len(),
            measures(r@) == texts.take(i as int).flat_map(|sp: Seq<char>| spec_span_units(sp)),
            r@.map_values(|u: StyledUnit| u.style) == line.spans@.take(i as int).flat_map(
                |s: StyledSpan| Seq::new(graphemes_of(s.content@).len(), |k: int| s.style),
            ),
        decreases line.spans.len() - i,
    {
        let ghost r0 = r@;
        let mut units = span_units(&line.spans[i]);
        r.append(&mut units);
        proof {
            assert(texts[i as int] == line.spans@[i as int].content@);
            assert(measures(r@) =~= measures(r0) + spec_span_units(texts[i as int]));
            texts.lemma_flat_map_take_append(|sp: Seq<char>| spec_span_units(sp), i as int);
            assert(r@.map_values(|u: StyledUnit| u.style) =~= r0.map_values(
                |u: StyledUnit| u.style,
            ) + Seq::new(
                graphemes_of(line.spans@[i as int].content@).len(),
                |k: int| line.spans@[i as int].style,
            ));
            line.spans@.lemma_flat_map_take_append(
                |s: StyledSpan| Seq::new(graphemes_of(s.content@).len(), |k: int| s.style),
                i as int,
            );
        }
        i = i + 1;
    }
    proof {
        assert(texts.take(line.spans@.len() as int) =~= texts);
        assert(line.spans@.take(line.spans@.len() as int) =~= line.spans@);
    }
    r
}

/// Project one log entry into its visual rows at a viewport width, tagging
/// each row with the entry's index. Every unit carries the style of the
/// run its cluster came from — for some one-style-per-run assignment — so
/// coloring survives wrap points.
fn entry_rows(raw: &String, entry: usize, width: usize) -> (r: Vec<VisualRow>)
    ensures
        r@.map_values(|row: VisualRow| row.measure()) == rows_for_entry(
            raw@,
            width as int,
            entry as int,
        ),
        forall|k: int| 0 <= k < r@.len() ==> (#[trigger] r@[k]).entry == entry,
        exists|span_styles: Seq<Seq<Style>>|
            #[trigger] spec_entry_unit_styles(raw@, span_styles) == row_styles(r@)
                && spec_span_styles_shape(raw@, span_styles),
{
    broadcast use vstd::prelude::Seq::lemma_flat_map_take_append;
    broadcast use vstd::prelude::Seq::lemma_flatten_push;

    let ghost lines = ansi_spans_of(raw@);
    let ghost line_rows = |line: Seq<Seq<char>>| spec_wrap(spec_line_units(line), width as int);
    let ghost tag = |row: Seq<(Seq<char>, int)>| (row, entry as int);
    let parsed = parse_ansi(raw);
    let ghost wsts = parsed@.map_values(|l: StyledLine| l.span_styles());
    let mut r: Vec<VisualRow> = Vec::new();
    let mut i: usize = 0;
    proof {
        assert(r@.map_values(|row: VisualRow| row.measure()) =~= lines.take(0).flat_map(
            line_rows,
        ).map_values(tag));
        assert(lines.take(0) =~= Seq::<Seq<Seq<char>>>::empty());
        assert(wsts.take(0) =~= Seq::<Seq<Style>>::empty());
        assert(row_styles(r@) =~= Seq::<Style>::empty());
        assert(spec_lines_unit_styles(lines.take(0), wsts.take(0)) == Seq::<Style>::empty());
    }
    while i < parsed.len()
        invariant
            parsed@.map_values(|l: StyledLine| l.span_texts()) == lines,
            wsts == parsed@.map_values(|l: StyledLine| l.span_styles()),
            i <= parsed.len(),
            r@.map_values(|row: VisualRow| row.measure()) == lines.take(i as int).flat_map(
                line_rows,
            ).map_values(tag),
            row_styles(r@) == spec_lines_unit_styles(lines.take(i as int), wsts.take(i as int)),
            forall|k: int| 0 <= k < r@.len() ==> (#[trigger] r@[k]).entry == entry,
            line_rows == (|line: Seq<Seq<char>>| spec_wrap(spec_line_units(line), width as int)),
            tag == (|row: Seq<(Seq<char>, int)>| (row, entry as int)),
        decreases parsed.len() - i,
    {
        let ghost seg_base = r@.map_values(|row: VisualRow| row.measure());
        let ghost seg_base_styles = row_styles(r@);
        let units = line_units(&parsed[i]);
        let ghost line_unit_styles = units@.map_values(|u: StyledUnit| u.style);
        let mut wrapped = wrap_units(units, width);
        let ghost w0 = wrapped@.map_values(|row: Vec<StyledUnit>| measures(row@));
        let ghost wrows = wrapped@.map_values(|row: Vec<StyledUnit>| row@);
        let ghost w0s = wrapped@.map_values(
            |row: Vec<StyledUnit>| row@.map_values(|u: StyledUnit| u.style),
        );
        proof {
            assert(w0 == line_rows(lines[i as int]));
            assert(w0.take(0).map_values(tag) =~= Seq::<(Seq<(Seq<char>, int)>, int)>::empty());
            assert(wrapped@.map_values(|row: Vec<StyledUnit>| measures(row@)) =~= w0.skip(0));
            assert(wrapped@.map_values(
                |row: Vec<StyledUnit>| row@.map_values(|u: StyledUnit| u.style),
            ) =~= w0s.skip(0));
            assert(w0s.take(0) =~= Seq::<Seq<Style>>::empty());
            assert(w0s.take(0).flatten() == Seq::<Style>::empty());
            assert(seg_base_styles + Seq::<Style>::empty() =~= seg_base_styles);
        }
        while wrapped.len() > 0
            invariant
                wrapped@.map_values(|row: Vec<StyledUnit>| measures(row@)) == w0.skip(
                    w0.len() - wrapped@.len(),
                ),
                wrapped@.map_values(
                    |row: Vec<StyledUnit>| row@.map_values(|u: StyledUnit| u.style),
                ) == w0s.skip(w0.len() - wrapped@.len()),
                w0s.len() == w0.len(),
                wrapped@.len() <= w0.len(),
                r@.map_values(|row: VisualRow| row.measure()) == seg_base + w0.take(
                    w0.len() - wrapped@.len(),
                ).map_values(tag),
                row_styles(r@) == seg_base_styles + w0s.take(
                    w0.len() - wrapped@.len(),
                ).flatten(),
                forall|k: int| 0 <= k < r@.len() ==> (#[trigger] r@[k]).entry == entry,
                tag == (|row: Seq<(Seq<char>, int)>| (row, entry as int)),
            decreases wrapped@.len(),
        {
            let ghost j = w0.len() - wrapped@.len();
            let ghost wv = wrapped@;
            let ghost r0 = r@;
            let row_units = wrapped.remove(0);
            r.push(VisualRow { units: row_units, entry });
            proof {
                assert(wv.map_values(|row: Vec<StyledUnit>| measures(row@)).first() == w0[j]);
                assert(measures(row_units@) == w0[j]);
                assert(wv.map_values(
                    |row: Vec<StyledUnit>| row@.map_values(|u: StyledUnit| u.style),
                ).first() == w0s[j]);
                assert(row_units@.map_values(|u: StyledUnit| u.style) == w0s[j]);
                assert(wrapped@ =~= wv.drop_first());
                assert(wrapped@.map_values(|row: Vec<StyledUnit>| measures(row@)) =~= wv.map_values(
                    |row: Vec<StyledUnit>| measures(row@),
                ).drop_first());
                assert(w0.skip(j).drop_first() =~= w0.skip(j + 1));
                assert(wrapped@.map_values(|row: Vec<StyledUnit>| measures(row@)) =~= w0.skip(
                    j + 1,
                ));
                assert(wrapped@.map_values(
                    |row: Vec<StyledUnit>| row@.map_values(|u: StyledUnit| u.style),
                ) =~= wv.map_values(
                    |row: Vec<StyledUnit>| row@.map_values(|u: StyledUnit| u.style),
                ).drop_first());
                assert(w0s.skip(j).drop_first() =~= w0s.skip(j + 1));
                assert(wrapped@.map_values(
                    |row: Vec<StyledUnit>| row@.map_values(|u: StyledUnit| u.style),
                ) =~= w0s.skip(j + 1));
                assert(r@.map_values(|row: VisualRow| row.measure()) =~= r0.map_values(
                    |row: VisualRow| row.measure(),
                ).push((w0[j], entry as int)));
                assert(w0.take(j + 1) =~= w0.take(j).push(w0[j]));
                assert(w0.take(j + 1).map_values(tag) =~= w0.take(j).map_values(tag).push(
                    (w0[j], entry as int),
                ));
                let r0s = r0.map_values(
                    |row: VisualRow| row.units@.map_values(|u: StyledUnit| u.style),
                );
                assert(r@.map_values(
                    |row: VisualRow| row.units@.map_values(|u: StyledUnit| u.style),
                ) =~= r0s.push(w0s[j]));
                r0s.lemma_flatten_push(w0s[j]);
                assert(row_styles(r@) == row_styles(r0) + w0s[j]);
                assert(w0s.take(j + 1) =~= w0s.take(j).push(w0s[j]));
                w0s.take(j).lemma_flatten_push(w0s[j]);
                assert(w0s.take(j + 1).flatten() == w0s.take(j).flatten() + w0s[j]);
                assert(seg_base_styles + (w0s.take(j).flatten() + w0s[j]) =~= (seg_base_styles
                    + w0s.take(j).flatten()) + w0s[j]);
            }
        }
        proof {
            assert(w0.take(w0.len() as int) =~= w0);
            assert(w0s.take(w0.len() as int) =~= w0s);
            assert(r@.map_values(|row: VisualRow| row.measure()) =~= seg_base + line_rows(
                lines[i as int],
            ).map_values(tag));
            lines.lemma_flat_map_take_append(line_rows, i as int);
            assert(lines.take(i + 1).flat_map(line_rows).map_values(tag) =~= lines.take(
                i as int,
            ).flat_map(line_rows).map_values(tag) + line_rows(lines[i as int]).map_values(tag));
            // The styles of this line's rows, flattened, are the line's
            // unit styles, which follow its runs.
            assert(row_styles(r@) == seg_base_styles + w0s.flatten());
            assert(w0s =~= wrows.map_values(
                |row: Seq<StyledUnit>| row.map_values(|u: StyledUnit| u.style),
            ));
            lemma_row_units_styles(wrows);
            assert(w0s.flatten() == line_unit_styles);
            lemma_line_styles_as_units(parsed[i as int]);
            assert(lines[i as int] == parsed@[i as int].span_texts());
            assert(wsts[i as int] == parsed@[i as int].span_styles());
            assert(line_unit_styles == spec_line_unit_styles(lines[i as int], wsts[i as int]));
            assert(lines.take(i + 1).drop_last() =~= lines.take(i as int));
            assert(wsts.take(i + 1).drop_last() =~= wsts.take(i as int));
            assert(lines.take(i + 1).last() == lines[i as int]);
            assert(wsts.take(i + 1).last() == wsts[i as int]);
            assert(spec_lines_unit_styles(lines.take(i + 1), wsts.take(i + 1))
                == spec_lines_unit_styles(lines.take(i as int), wsts.take(i as int))
                + spec_line_unit_styles(lines[i as int], wsts[i as int]));
        }
        i = i + 1;
    }
    proof {
        assert(lines.take(parsed@.len() as int) =~= lines);
        assert(wsts.take(parsed@.len() as int) =~= wsts);
        assert(lines.flat_map(line_rows).map_values(tag) == rows_for_entry(
            raw@,
            width as int,
            entry as int,
        ));
        assert(spec_entry_unit_styles(raw@, wsts) == row_styles(r@));
        assert forall|l: int| 0 <= l < wsts.len() implies (#[trigger] wsts[l]).len()
            == ansi_spans_of(raw@)[l].len() by {
            assert(wsts[l] == parsed@[l].span_styles());
            assert(lines[l] == parsed@[l].span_texts());
        }
        assert(spec_span_styles_shape(raw@, wsts));
    }
    r
}

/// The display: the append-only log, the selection over the projected
/// visual rows, the auto-follow flag, and the redraw flag.
pub struct Display {
    /// The raw log lines, in insertion order; never mutated or removed.
    pub logs: Vec<String>,
    /// The currently selected visual row.
    ///
    /// This is a row index, not a log index: long log messages wrap into
    /// several visual rows.
    pub selected_visual_idx: usize,
    /// The number of visual rows produced by the latest projection.
    pub n_visual_rows: usize,
    /// Whether the next projection must jump to the most recent (last)
    /// visual row; set when a log line is appended, cleared by the jump.
    pub jump_to_latest: bool,
    /// Whether the display needs to be redrawn.
    pub needs_redraw: bool,
}

impl Display {
    /// The texts of the log lines, in insertion order.
    pub open spec fn log_views(self) -> Seq<Seq<char>> {
        self.logs@.map_values(|s: String| s@)
    }

    /// Create a new `Display` instance with no logs and nothing selected.
    pub fn new() -> (r: Display)
        ensures
            r.logs@.len() == 0,
            r.selected_visual_idx == 0,
            r.n_visual_rows == 0,
            !r.jump_to_latest,
            !r.needs_redraw,
    {
        Display {
            logs: Vec::new(),
            selected_visual_idx: 0,
            n_visual_rows: 0,
            jump_to_latest: false,
            needs_redraw: false,
        }
    }

    /// Add a log message to the display. The append always succeeds and
    /// arms the jump to the most recent log row.
    pub fn add_log(&mut self, log: String)
        ensures
            final(self).logs@ == old(self).logs@.push(log),
            final(self).jump_to_latest,
            final(self).selected_visual_idx == old(self).selected_visual_idx,
            final(self).n_visual_rows == old(self).n_visual_rows,
            final(self).needs_redraw == old(self).needs_redraw,
    {
        self.logs.push(log);
        self.jump_to_latest = true;
    }

    /// Trigger a redraw of the display.
    pub fn trigger_redraw(&mut self)
        ensures
            final(self).needs_redraw,
            final(self).logs == old(self).logs,
            final(self).selected_visual_idx == old(self).selected_visual_idx,
            final(self).n_visual_rows == old(self).n_visual_rows,
            final(self).jump_to_latest == old(self).jump_to_latest,
    {
        self.needs_redraw = true;
    }

    /// Should the display be redrawn?
    pub fn should_redraw(&self) -> (r: bool)
        ensures
            r == self.needs_redraw,
    {
        self.needs_redraw
    }

    /// Go to the next visual row, wrapping around past the last; with no
    /// rows this does nothing.
    pub fn next_row(&mut self)
        ensures
            old(self).n_visual_rows == 0 ==> *final(self) == *old(self),
            final(self).selected_visual_idx as int == spec_next_index(
                old(self).selected_visual_idx as int,
                old(self).n_visual_rows as int,
            ),
            final(self).logs == old(self).logs,
            final(self).n_visual_rows == old(self).n_visual_rows,
            final(self).jump_to_latest == old(self).jump_to_latest,
            final(self).needs_redraw == old(self).needs_redraw,
    {
        if self.n_visual_rows == 0 {
            return ;
        }
        let s = self.selected_visual_idx % self.n_visual_rows;
        self.selected_visual_idx = (s + 1) % self.n_visual_rows;
        proof {
            vstd::arithmetic::div_mod::lemma_add_mod_noop_right(
                1,
                old(self).selected_visual_idx as int,
                old(self).n_visual_rows as int,
            );
        }
    }

    /// Go to the previous visual row, wrapping around past the first; with
    /// no rows this does nothing.
    pub fn prev_row(&mut self)
        ensures
            old(self).n_visual_rows == 0 ==> *final(self) == *old(self),
            old(self).n_visual_rows > 0 ==> final(self).selected_visual_idx as int == (old(
                self,
            ).selected_visual_idx + old(self).n_visual_rows - 1) as int % (old(
                self,
            ).n_visual_rows as int),
            final(self).logs == old(self).logs,
            final(self).n_visual_rows == old(self).n_visual_rows,
            final(self).jump_to_latest == old(self).jump_to_latest,
            final(self).needs_redraw == old(self).needs_redraw,
    {
        if self.n_visual_rows == 0 {
            return ;
        }
        let n = self.n_visual_rows;
        let s = self.selected_visual_idx % n;
        self.selected_visual_idx = if s == 0 {
            n - 1
        } else {
            s - 1
        };
        proof {
            let sel = old(self).selected_visual_idx as int;
            let m = n as int;
            vstd::arithmetic::div_mod::lemma_add_mod_noop_right(m - 1, sel, m);
            if s == 0 {
                vstd::arithmetic::div_mod::lemma_small_mod((m - 1) as nat, m as nat);
            } else {
                vstd::arithmetic::div_mod::lemma_mod_add_multiples_vanish(s as int - 1, m);
                vstd::arithmetic::div_mod::lemma_small_mod((s - 1) as nat, m as nat);
            }
        }
    }

    /// Project the log into visual rows at the given viewport width.
    ///
    /// The projection is pure recomputation: the rows follow
    /// `spec_project` on the current logs and width, and every unit
    /// carries the style of the parsed run its cluster came from — for
    /// some one-style-per-run assignment — so coloring survives wrap
    /// points. The row count is recorded; when the jump to the most
    /// recent row is armed, the selection is forced to the last row and
    /// the jump is disarmed.
    pub fn project(&mut self, width: usize) -> (r: Vec<VisualRow>)
        ensures
            r@.map_values(|row: VisualRow| row.measure()) == spec_project(
                old(self).log_views(),
                width as int,
            ),
            exists|span_styles: Seq<Seq<Seq<Style>>>|
                #[trigger] spec_project_styles(old(self).log_views(), span_styles) == row_styles(
                    r@,
                ) && span_styles.len() == old(self).log_views().len() && (forall|e: int|
                    0 <= e < span_styles.len() ==> spec_span_styles_shape(
                        old(self).log_views()[e],
                        #[trigger] span_styles[e],
                    )),
            final(self).logs == old(self).logs,
            final(self).needs_redraw == old(self).needs_redraw,
            final(self).n_visual_rows == r@.len(),
            !final(self).jump_to_latest,
            old(self).jump_to_latest ==> final(self).selected_visual_idx as int == if r@.len()
                == 0 {
                0int
            } else {
                r@.len() - 1
            },
            !old(self).jump_to_latest ==> final(self).selected_visual_idx == old(
                self,
            ).selected_visual_idx,
    {
        let ghost views = self.log_views();
        let mut rows: Vec<VisualRow> = Vec::new();
        let ghost mut sts: Seq<Seq<Seq<Style>>> = Seq::empty();
        let n_logs = self.logs.len();
        let mut log_idx: usize = 0;
        proof {
            assert(views.take(0) =~= Seq::<Seq<char>>::empty());
            assert(rows@.map_values(|row: VisualRow| row.measure()) =~= spec_project(
                views.take(0),
                width as int,
            ));
            assert(row_styles(rows@) =~= Seq::<Style>::empty());
            assert(spec_project_styles(views.take(0), sts) == Seq::<Style>::empty());
        }
        while log_idx < n_logs
            invariant
                *self == *old(self),
                views == self.log_views(),
                n_logs == self.logs@.len(),
                log_idx <= n_logs,
                rows@.map_values(|row: VisualRow| row.measure()) == spec_project(
                    views.take(log_idx as int),
                    width as int,
                ),
                sts.len() == log_idx,
                forall|e: int|
                    0 <= e < log_idx ==> spec_span_styles_shape(views[e], #[trigger] sts[e]),
                row_styles(rows@) == spec_project_styles(views.take(log_idx as int), sts),
            decreases n_logs - log_idx,
        {
            let ghost rows0 = rows@;
            let ghost sts0 = sts;
            let mut er = entry_rows(&self.logs[log_idx], log_idx, width);
            let ghost erv = er@;
            rows.append(&mut er);
            proof {
                assert(views[log_idx as int] == self.logs@[log_idx as int]@);
                assert(rows@.map_values(|row: VisualRow| row.measure()) =~= rows0.map_values(
                    |row: VisualRow| row.measure(),
                ) + rows_for_entry(views[log_idx as int], width as int, log_idx as int));
                assert(views.take(log_idx + 1).drop_last() =~= views.take(log_idx as int));
                assert(views.take(log_idx + 1).last() == views[log_idx as int]);
                assert(spec_project(views.take(log_idx + 1), width as int) == spec_project(
                    views.take(log_idx as int),
                    width as int,
                ) + rows_for_entry(views[log_idx as int], width as int, log_idx as int));
                // Extend the per-entry run-style witness with this
                // entry's assignment.
                assert(exists|s: Seq<Seq<Style>>|
                    #[trigger] spec_entry_unit_styles(views[log_idx as int], s) == row_styles(
                        erv,
                    ) && spec_span_styles_shape(views[log_idx as int], s));
                let se = choose|s: Seq<Seq<Style>>|
                    #[trigger] spec_entry_unit_styles(views[log_idx as int], s) == row_styles(
                        erv,
                    ) && spec_span_styles_shape(views[log_idx as int], s);
                sts = sts.push(se);
                assert(rows@ =~= rows0 + erv);
                assert(rows@.map_values(
                    |row: VisualRow| row.units@.map_values(|u: StyledUnit| u.style),
                ) =~= rows0.map_values(
                    |row: VisualRow| row.units@.map_values(|u: StyledUnit| u.style),
                ) + erv.map_values(
                    |row: VisualRow| row.units@.map_values(|u: StyledUnit| u.style),
                ));
                vstd::seq_lib::lemma_flatten_concat(
                    rows0.map_values(
                        |row: VisualRow| row.units@.map_values(|u: StyledUnit| u.style),
                    ),
                    erv.map_values(
                        |row: VisualRow| row.units@.map_values(|u: StyledUnit| u.style),
                    ),
                );
                assert(row_styles(rows@) == row_styles(rows0) + row_styles(erv));
                assert(sts.drop_last() =~= sts0);
                assert(sts.last() == se);
                assert(spec_project_styles(views.take(log_idx + 1), sts) == spec_project_styles(
                    views.take(log_idx as int),
                    sts0,
                ) + spec_entry_unit_styles(views[log_idx as int], se));
            }
            log_idx = log_idx + 1;
        }
        proof {
            assert(views.take(n_logs as int) =~= views);
            assert(spec_project_styles(views, sts) == row_styles(rows@));
        }
        self.n_visual_rows = rows.len();
        if self.jump_to_latest {
            self.selected_visual_idx = if rows.len() == 0 {
                0
            } else {
                rows.len() - 1
            };
            self.jump_to_latest = false;
        }
        rows
    }
}

/// Idempotence of the display projector: projecting identical log entries
/// at an identical viewport width yields identical visual rows, and hence
/// an identical row count.
pub proof fn lemma_projection_deterministic(
    logs1: Seq<Seq<char>>,
    logs2: Seq<Seq<char>>,
    width: int,
)
    requires
        logs1 == logs2,
    ensures
        spec_project(logs1, width) == spec_project(logs2, width),
        spec_project(logs1, width).len() == spec_project(logs2, width).len(),
{
}

/// The selection index after one `next_row` step over `n` visual rows.
pub open spec fn spec_next_index(sel: int, n: int) -> int {
    if n == 0 {
        sel
    } else {
        (sel + 1) % n
    }
}

/// The selection index after `k` `next_row` steps over `n` visual rows.
pub open spec fn spec_iter_next(sel: int, n: int, k: nat) -> int
    decreases k,
{
    if k == 0 {
        sel
    } else {
        spec_next_index(spec_iter_next(sel, n, (k - 1) as nat), n)
    }
}

/// `k` `next_row` steps advance the selection by `k` modulo the row count.
proof fn lemma_iter_next_linear(sel: int, n: int, k: nat)
    requires
        0 < n,
        0 <= sel < n,
    ensures
        spec_iter_next(sel, n, k) == (sel + k) % n,
    decreases k,
{
    if k == 0 {
        vstd::arithmetic::div_mod::lemma_small_mod(sel as nat, n as nat);
    } else {
        lemma_iter_next_linear(sel, n, (k - 1) as nat);
        vstd::arithmetic::div_mod::lemma_add_mod_noop_right(1, sel + k - 1, n);
    }
}

/// Selection wraparound: with `n > 0` visual rows, stepping `next_row`
/// `n` times from any in-range starting index returns to the starting
/// index; with zero rows a step is a no-op.
pub proof fn lemma_selection_wraparound(sel: int, n: int)
    requires
        0 < n,
        0 <= sel < n,
    ensures
        spec_iter_next(sel, n, n as nat) == sel,
        forall|k: nat| spec_iter_next(sel, 0, k) == sel,
{
    lemma_iter_next_linear(sel, n, n as nat);
    vstd::arithmetic::div_mod::lemma_mod_add_multiples_vanish(sel, n);
    vstd::arithmetic::div_mod::lemma_small_mod(sel as nat, n as nat);
    assert forall|k: nat| spec_iter_next(sel, 0, k) == sel by {
        lemma_iter_next_zero(sel, k);
    }
}

/// With zero rows every `next_row` step leaves the selection unchanged.
proof fn lemma_iter_next_zero(sel: int, k: nat)
    ensures
        spec_iter_next(sel, 0, k) == sel,
    decreases k,
{
    if k > 0 {
        lemma_iter_next_zero(sel, (k - 1) as nat);
    }
}

} // verus!
