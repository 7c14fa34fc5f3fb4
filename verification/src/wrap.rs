//! Width-constrained wrapping of a line of styled grapheme units into
//! visual rows.
//!
//! A unit is one grapheme cluster with its rendered width and its style.
//! Wrapping walks the units in order, accumulating a current row; whenever
//! adding the next unit would exceed the viewport width and the current row
//! is non-empty, the row is flushed and a new one begins. No unit is ever
//! split, reordered, dropped or restyled: the rows flatten back to exactly
//! the input units.

use vstd::prelude::*;
use ratatui::style::Style;

verus! {

/// One grapheme cluster of a log line, carrying its rendered width and the
/// style of the span it came from.
pub struct StyledUnit {
    /// The cluster's text.
    pub text: String,
    /// The cluster's rendered character-cell width.
    pub width: usize,
    /// The style of the span the cluster came from.
    pub style: Style,
}

impl StyledUnit {
    /// The text and rendered width of this unit, as the wrap specification
    /// measures it.
    pub open spec fn measure(self) -> (Seq<char>, int) {
        (self.text@, self.width as int)
    }
}

/// The measures of a sequence of units, in order.
pub open spec fn measures(row: Seq<StyledUnit>) -> Seq<(Seq<char>, int)> {
    row.map_values(|u: StyledUnit| u.measure())
}

/// The total rendered width of a row of measured units.
pub open spec fn row_width(row: Seq<(Seq<char>, int)>) -> int
    decreases row.len(),
{
    if row.len() == 0 {
        0
    } else {
        row_width(row.drop_last()) + row.last().1
    }
}

/// One wrap step flushes the current row exactly when the next unit would
/// push it past the viewport width and it is non-empty.
pub open spec fn spec_wrap_flushes(cur: Seq<(Seq<char>, int)>, unit_width: int, width: int) -> bool {
    row_width(cur) + unit_width > width && row_width(cur) > 0
}

/// The rows produced by wrapping `units` at viewport width `width`, having
/// already produced `rows` and accumulated the partial row `cur`.
pub open spec fn spec_wrap_loop(
    units: Seq<(Seq<char>, int)>,
    width: int,
    rows: Seq<Seq<(Seq<char>, int)>>,
    cur: Seq<(Seq<char>, int)>,
) -> Seq<Seq<(Seq<char>, int)>>
    decreases units.len(),
{
    if units.len() == 0 {
        if cur.len() > 0 {
            rows.push(cur)
        } else {
            rows
        }
    } else {
        let u = units.first();
        if spec_wrap_flushes(cur, u.1, width) {
            spec_wrap_loop(units.drop_first(), width, rows.push(cur), seq![u])
        } else {
            spec_wrap_loop(units.drop_first(), width, rows, cur.push(u))
        }
    }
}

/// The rows produced by wrapping `units` at viewport width `width`.
pub open spec fn spec_wrap(units: Seq<(Seq<char>, int)>, width: int) -> Seq<
    Seq<(Seq<char>, int)>,
> {
    spec_wrap_loop(units, width, Seq::empty(), Seq::empty())
}

/// Wrap a line's units into visual rows no wider than `width`.
///
/// The rows follow `spec_wrap` on the units' measures, and flatten back to
/// exactly the input units: nothing is split, reordered, dropped or
/// restyled.
pub fn wrap_units(units: Vec<StyledUnit>, width: usize) -> (r: Vec<Vec<StyledUnit>>)
    ensures
        r@.map_values(|row: Vec<StyledUnit>| measures(row@)) == spec_wrap(
            measures(units@),
            width as int,
        ),
        r@.map_values(|row: Vec<StyledUnit>| row@).flatten() == units@,
{
    broadcast use vstd::prelude::Seq::lemma_flatten_push;

    let ghost orig = units@;
    let ghost all = measures(units@);
    let mut rest = units;
    let mut rows: Vec<Vec<StyledUnit>> = Vec::new();
    let mut cur: Vec<StyledUnit> = Vec::new();
    let mut cur_width: usize = 0;
    proof {
        assert(rows@.map_values(|row: Vec<StyledUnit>| measures(row@)) =~= Seq::<
            Seq<(Seq<char>, int)>,
        >::empty());
        assert(measures(cur@) =~= Seq::<(Seq<char>, int)>::empty());
        assert(rows@.map_values(|row: Vec<StyledUnit>| row@).flatten() + cur@ + rest@ =~= orig);
    }
    while rest.len() > 0
        invariant
            cur_width as int == row_width(measures(cur@)),
            spec_wrap_loop(
                measures(rest@),
                width as int,
                rows@.map_values(|row: Vec<StyledUnit>| measures(row@)),
                measures(cur@),
            ) == spec_wrap(all, width as int),
            rows@.map_values(|row: Vec<StyledUnit>| row@).flatten() + cur@ + rest@ == orig,
        decreases rest@.len(),
    {
        let ghost rest0 = rest@;
        let ghost rows0 = rows@;
        let ghost cur0 = cur@;
        let u = rest.remove(0);
        let ghost um = u.measure();
        proof {
            assert(rest@ =~= rest0.drop_first());
            assert(measures(rest0).first() == um);
            assert(measures(rest@) =~= measures(rest0).drop_first());
        }
        let gw = u.width;
        let next = cur_width.checked_add(gw);
        let flush = match next {
            Some(s) => s > width && cur_width > 0,
            None => cur_width > 0,
        };
        proof {
            assert(flush == spec_wrap_flushes(measures(cur@), um.1, width as int));
        }
        if flush {
            rows.push(cur);
            cur = Vec::new();
            cur_width = 0;
            proof {
                let rows0m = rows0.map_values(|row: Vec<StyledUnit>| row@);
                assert(rows@.map_values(|row: Vec<StyledUnit>| measures(row@)) =~= rows0.map_values(
                    |row: Vec<StyledUnit>| measures(row@),
                ).push(measures(cur0)));
                assert(rows@.map_values(|row: Vec<StyledUnit>| row@) =~= rows0m.push(cur0));
                rows0m.lemma_flatten_push(cur0);
                assert(rows@.map_values(|row: Vec<StyledUnit>| row@).flatten() == rows0m.flatten()
                    + cur0);
                assert(measures(cur@) =~= Seq::<(Seq<char>, int)>::empty());
            }
        }
        let ghost cur1 = cur@;
        cur.push(u);
        cur_width = cur_width + gw;
        proof {
            assert(measures(cur@) =~= measures(cur1).push(um));
            assert(measures(cur@).drop_last() =~= measures(cur1));
            if flush {
                assert(measures(cur@) =~= seq![um]);
            }
            assert(rows@.map_values(|row: Vec<StyledUnit>| row@).flatten() + cur@ + rest@ =~= orig);
        }
    }
    proof {
        assert(measures(rest@) =~= Seq::<(Seq<char>, int)>::empty());
    }
    if cur.len() > 0 {
        let ghost rows0 = rows@;
        let ghost cur0 = cur@;
        rows.push(cur);
        proof {
            let rows0m = rows0.map_values(|row: Vec<StyledUnit>| row@);
            assert(rows@.map_values(|row: Vec<StyledUnit>| measures(row@)) =~= rows0.map_values(
                |row: Vec<StyledUnit>| measures(row@),
            ).push(measures(cur0)));
            assert(rows@.map_values(|row: Vec<StyledUnit>| row@) =~= rows0m.push(cur0));
            rows0m.lemma_flatten_push(cur0);
            assert(rows@.map_values(|row: Vec<StyledUnit>| row@).flatten() == rows0m.flatten()
                + cur0);
        }
    } else {
        proof {
            assert(measures(cur@).len() == 0);
        }
    }
    proof {
        assert(rows@.map_values(|row: Vec<StyledUnit>| row@).flatten() =~= orig);
    }
    rows
}

/// The total rendered width of a row of units each of width 1 is the number
/// of units.
proof fn lemma_row_width_uniform(row: Seq<(Seq<char>, int)>)
    requires
        forall|i: int| 0 <= i < row.len() ==> (#[trigger] row[i]).1 == 1,
    ensures
        row_width(row) == row.len(),
    decreases row.len(),
{
    if row.len() > 0 {
        lemma_row_width_uniform(row.drop_last());
    }
}

/// Accumulator-generalized width bound: wrapping units that each fit the
/// viewport on their own, starting from rows that fit and a partial row
/// that fits, yields only non-empty rows that fit.
proof fn lemma_wrap_loop_fit(
    units: Seq<(Seq<char>, int)>,
    width: int,
    rows: Seq<Seq<(Seq<char>, int)>>,
    cur: Seq<(Seq<char>, int)>,
)
    requires
        width >= 0,
        forall|i: int| 0 <= i < units.len() ==> (#[trigger] units[i]).1 <= width,
        forall|i: int| 0 <= i < rows.len() ==> 0 < (#[trigger] rows[i]).len() && row_width(
            rows[i],
        ) <= width,
        row_width(cur) <= width,
    ensures
        forall|i: int|
            0 <= i < spec_wrap_loop(units, width, rows, cur).len() ==> 0 < (
            #[trigger] spec_wrap_loop(units, width, rows, cur)[i]).len() && row_width(
                spec_wrap_loop(units, width, rows, cur)[i],
            ) <= width,
    decreases units.len(),
{
    if units.len() == 0 {
        if cur.len() > 0 {
            let r = rows.push(cur);
            assert(spec_wrap_loop(units, width, rows, cur) == r);
            assert(forall|i: int| 0 <= i < rows.len() ==> r[i] == rows[i]);
            assert(r[rows.len() as int] == cur);
            assert(row_width(cur) > 0 ==> cur.len() > 0);
        }
    } else {
        let u = units.first();
        if spec_wrap_flushes(cur, u.1, width) {
            let single = seq![u];
            assert(single.len() == 1);
            assert(single.drop_last() =~= Seq::<(Seq<char>, int)>::empty());
            assert(single.last() == u);
            assert(row_width(Seq::<(Seq<char>, int)>::empty()) == 0);
            assert(row_width(single) == u.1);
            assert(cur.len() > 0);
            assert(forall|i: int| 0 <= i < rows.push(cur).len() ==> 0 < (#[trigger] rows.push(
                cur,
            )[i]).len() && row_width(rows.push(cur)[i]) <= width);
            lemma_wrap_loop_fit(units.drop_first(), width, rows.push(cur), single);
            assert(spec_wrap_loop(units, width, rows, cur) == spec_wrap_loop(
                units.drop_first(),
                width,
                rows.push(cur),
                single,
            ));
        } else {
            assert(cur.push(u).drop_last() =~= cur);
            assert(row_width(cur.push(u)) == row_width(cur) + u.1);
            lemma_wrap_loop_fit(units.drop_first(), width, rows, cur.push(u));
            assert(spec_wrap_loop(units, width, rows, cur) == spec_wrap_loop(
                units.drop_first(),
                width,
                rows,
                cur.push(u),
            ));
        }
    }
}

/// Wrap correctness, width bound: when every unit fits the viewport on its
/// own, every produced visual row is non-empty and no row's rendered width
/// exceeds the viewport width.
pub proof fn lemma_wrap_rows_fit(units: Seq<(Seq<char>, int)>, width: int)
    requires
        width >= 0,
        forall|i: int| 0 <= i < units.len() ==> (#[trigger] units[i]).1 <= width,
    ensures
        forall|i: int|
            0 <= i < spec_wrap(units, width).len() ==> 0 < (#[trigger] spec_wrap(
                units,
                width,
            )[i]).len() && row_width(spec_wrap(units, width)[i]) <= width,
{
    assert(row_width(Seq::<(Seq<char>, int)>::empty()) == 0);
    lemma_wrap_loop_fit(units, width, Seq::empty(), Seq::empty());
}

/// Accumulator-generalized row count for units of uniform width 1: the
/// final number of rows is the rows already produced plus the ceiling of
/// (pending units) / width, counting the partial row's units as pending.
proof fn lemma_wrap_loop_ceil(
    units: Seq<(Seq<char>, int)>,
    width: int,
    rows: Seq<Seq<(Seq<char>, int)>>,
    cur: Seq<(Seq<char>, int)>,
)
    requires
        width >= 1,
        forall|i: int| 0 <= i < units.len() ==> (#[trigger] units[i]).1 == 1,
        forall|i: int| 0 <= i < cur.len() ==> (#[trigger] cur[i]).1 == 1,
        cur.len() <= width,
    ensures
        spec_wrap_loop(units, width, rows, cur).len() == rows.len() + (cur.len() + units.len()
            + width - 1) / width,
    decreases units.len(),
{
    lemma_row_width_uniform(cur);
    if units.len() == 0 {
        if cur.len() > 0 {
            assert((cur.len() + width - 1) / width == 1) by {
                vstd::arithmetic::div_mod::lemma_div_plus_one((cur.len() - 1) as int, width);
                vstd::arithmetic::div_mod::lemma_basic_div((cur.len() - 1) as int, width);
            }
        } else {
            assert((width - 1) / width == 0) by {
                vstd::arithmetic::div_mod::lemma_basic_div(width - 1, width);
            }
        }
    } else {
        let u = units.first();
        if spec_wrap_flushes(cur, u.1, width) {
            // With uniform widths a flush happens exactly when the partial
            // row holds `width` units.
            assert(cur.len() == width);
            lemma_wrap_loop_ceil(units.drop_first(), width, rows.push(cur), seq![u]);
            assert(rows.push(cur).len() + (1 + units.drop_first().len() + width - 1) / width
                == rows.len() + (cur.len() + units.len() + width - 1) / width) by {
                vstd::arithmetic::div_mod::lemma_div_plus_one(
                    (units.len() + width - 1) as int,
                    width,
                );
            }
        } else {
            lemma_wrap_loop_ceil(units.drop_first(), width, rows, cur.push(u));
        }
    }
}

/// Wrap correctness: a line of `k` grapheme clusters, each of rendered
/// width 1, wrapped at viewport width `width >= 1`, yields exactly
/// `ceil(k / width)` visual rows, none of whose rendered widths exceeds
/// `width`.
pub proof fn lemma_wrap_uniform_width(units: Seq<(Seq<char>, int)>, width: int)
    requires
        width >= 1,
        forall|i: int| 0 <= i < units.len() ==> (#[trigger] units[i]).1 == 1,
    ensures
        spec_wrap(units, width).len() == (units.len() + width - 1) / width,
        forall|i: int|
            0 <= i < spec_wrap(units, width).len() ==> row_width(
                #[trigger] spec_wrap(units, width)[i],
            ) <= width,
{
    lemma_wrap_loop_ceil(units, width, Seq::empty(), Seq::empty());
    lemma_wrap_rows_fit(units, width);
}

} // verus!
