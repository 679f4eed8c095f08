use vstd::prelude::*;
use crate::buffer::{
    col_of, index_of, patch_spec, put_graphemes, put_one, room, row_of, styled_cells, CellView,
};
use crate::gauge::{
    coarse_rows, eighth_glyph, eighths, fine_rows, full_glyph, label_col_spec, label_row_spec,
    label_width_spec, round_div, VerticalGauge,
};
use crate::style::{color_or_reset, Style};
use crate::text::has_control;
use crate::geometry::Rect;

verus! {

proof fn lemma_div_bounds(x: int, y: int, b: int)
    requires
        y > 0,
        0 <= x,
        x < y * (b + 1),
    ensures
        0 <= x / y <= b,
{
    vstd::arithmetic::div_mod::lemma_fundamental_div_mod(x, y);
    vstd::arithmetic::div_mod::lemma_mod_pos_bound(x, y);
    vstd::arithmetic::div_mod::lemma_div_pos_is_pos(x, y);
    let q = x / y;
    assert(q <= b) by (nonlinear_arith)
        requires
            x == y * q + x % y,
            0 <= x % y,
            x < y * (b + 1),
            y > 0,
    ;
}

/// `a / b <= c / e` whenever the fraction `a / b` is at most `c / e`.
proof fn lemma_floor_monotone(a: int, b: int, c: int, e: int)
    requires
        b > 0,
        e > 0,
        0 <= a,
        0 <= c,
        a * e <= c * b,
    ensures
        a / b <= c / e,
{
    vstd::arithmetic::div_mod::lemma_fundamental_div_mod(a, b);
    vstd::arithmetic::div_mod::lemma_mod_pos_bound(a, b);
    vstd::arithmetic::div_mod::lemma_fundamental_div_mod(c, e);
    vstd::arithmetic::div_mod::lemma_mod_pos_bound(c, e);
    let q = a / b;
    let p = c / e;
    assert(q * b * e <= c * b) by (nonlinear_arith)
        requires
            a == b * q + a % b,
            0 <= a % b,
            a * e <= c * b,
            e > 0,
    ;
    assert(q * e <= c) by (nonlinear_arith)
        requires
            q * b * e <= c * b,
            b > 0,
    ;
    assert(q <= p) by (nonlinear_arith)
        requires
            q * e <= c,
            c == e * p + c % e,
            c % e < e,
            e > 0,
    ;
}

/// In whole-row mode, a rectangle of height `h` gets `h * ratio` rounded
/// full rows, a number between 0 and `h`.
pub proof fn lemma_coarse_rows(g: VerticalGauge, h: int)
    requires
        g.wf(),
        !g.use_unicode,
        h >= 1,
    ensures
        g.filled_rows_spec(h) == round_div(h * g.num, g.den as int),
        0 <= g.filled_rows_spec(h) <= h,
{
    let n = g.num as int;
    let d = g.den as int;
    assert(0 <= h * n <= h * d) by (nonlinear_arith)
        requires
            0 <= n <= d,
            h >= 1,
    ;
    assert(2 * (h * n) + d < 2 * d * (h + 1)) by (nonlinear_arith)
        requires
            h * n <= h * d,
            d > 0,
    ;
    lemma_div_bounds(2 * (h * n) + d, 2 * d, h);
}

/// In eighth-of-a-row mode, the transition row shows the fractional part of
/// `h * ratio` times 8, rounded: between 0 and 8 eighths, and 0 when
/// `h * ratio` is a whole number.
pub proof fn lemma_transition_eighths(g: VerticalGauge, h: int)
    requires
        g.wf(),
        h >= 0,
    ensures
        eighths(h, g.num as int, g.den as int) == round_div(
            8 * ((h * g.num) % (g.den as int)),
            g.den as int,
        ),
        0 <= eighths(h, g.num as int, g.den as int) <= 8,
        (h * g.num) % (g.den as int) == 0 ==> eighths(h, g.num as int, g.den as int) == 0,
{
    let n = g.num as int;
    let d = g.den as int;
    assert(h * n >= 0) by (nonlinear_arith)
        requires
            h >= 0,
            n >= 0,
    ;
    vstd::arithmetic::div_mod::lemma_mod_pos_bound(h * n, d);
    let m = (h * n) % d;
    lemma_div_bounds(2 * (8 * m) + d, 2 * d, 8);
    if m == 0 {
        lemma_div_bounds(d, 2 * d, 0);
    }
}

/// The rows that show any fill, whole or partial, in a rectangle of
/// height `h`.
pub open spec fn covered_rows(g: VerticalGauge, h: int) -> int {
    if g.use_unicode {
        fine_rows(h, g.num as int, g.den as int) + if g.has_transition() && eighths(
            h,
            g.num as int,
            g.den as int,
        ) > 0 {
            1int
        } else {
            0int
        }
    } else {
        coarse_rows(h, g.num as int, g.den as int)
    }
}

proof fn lemma_covered_closed_form(g: VerticalGauge, h: int)
    requires
        g.wf(),
        g.use_unicode,
        h >= 0,
    ensures
        covered_rows(g, h) == (16 * (h * g.num) + 15 * g.den) / (16 * g.den),
{
    let n = g.num as int;
    let d = g.den as int;
    assert(0 <= h * n <= h * d) by (nonlinear_arith)
        requires
            0 <= n <= d,
            h >= 0,
    ;
    let x = h * n;
    vstd::arithmetic::div_mod::lemma_fundamental_div_mod(x, d);
    vstd::arithmetic::div_mod::lemma_mod_pos_bound(x, d);
    let q = x / d;
    let m = x % d;
    let e = if 16 * m >= d { 1int } else { 0int };
    let rr = 16 * m + 15 * d - 16 * d * e;
    assert(16 * x + 15 * d == (q + e) * (16 * d) + rr) by (nonlinear_arith)
        requires
            x == d * q + m,
            rr == 16 * m + 15 * d - 16 * d * e,
    ;
    assert(0 <= rr < 16 * d);
    vstd::arithmetic::div_mod::lemma_fundamental_div_mod_converse_div(16 * x + 15 * d, 16 * d, q + e, rr);
    // eighths > 0 exactly when 16 * m >= d
    lemma_div_bounds(2 * (8 * m) + d, 2 * d, 8);
    if 16 * m >= d {
        vstd::arithmetic::div_mod::lemma_div_is_ordered(2 * d, 2 * (8 * m) + d, 2 * d);
        vstd::arithmetic::div_mod::lemma_div_by_self(2 * d);
        if n == d {
            assert(x == d * h) by (nonlinear_arith)
                requires
                    x == h * n,
                    n == d,
            ;
            vstd::arithmetic::div_mod::lemma_mod_multiples_basic(h, d);
            assert(false);
        }
    } else {
        lemma_div_bounds(2 * (8 * m) + d, 2 * d, 0);
    }
}

/// Raising the ratio never lowers the number of rows that show fill, in
/// either mode.
pub proof fn lemma_covered_rows_monotone(g1: VerticalGauge, g2: VerticalGauge, h: int)
    requires
        g1.wf(),
        g2.wf(),
        g1.use_unicode == g2.use_unicode,
        g1.num * g2.den <= g2.num * g1.den,
        h >= 0,
    ensures
        covered_rows(g1, h) <= covered_rows(g2, h),
{
    let n1 = g1.num as int;
    let d1 = g1.den as int;
    let n2 = g2.num as int;
    let d2 = g2.den as int;
    assert(h * n1 >= 0 && h * n2 >= 0) by (nonlinear_arith)
        requires
            h >= 0,
            n1 >= 0,
            n2 >= 0,
    ;
    if g1.use_unicode {
        lemma_covered_closed_form(g1, h);
        lemma_covered_closed_form(g2, h);
        assert((16 * (h * n1) + 15 * d1) * (16 * d2) <= (16 * (h * n2) + 15 * d2) * (16 * d1))
            by (nonlinear_arith)
            requires
                n1 * d2 <= n2 * d1,
                h >= 0,
        ;
        lemma_floor_monotone(16 * (h * n1) + 15 * d1, 16 * d1, 16 * (h * n2) + 15 * d2, 16 * d2);
    } else {
        assert((2 * (h * n1) + d1) * (2 * d2) <= (2 * (h * n2) + d2) * (2 * d1)) by (nonlinear_arith)
            requires
                n1 * d2 <= n2 * d1,
                h >= 0,
        ;
        lemma_floor_monotone(2 * (h * n1) + d1, 2 * d1, 2 * (h * n2) + d2, 2 * d2);
    }
}

/// Rendering is a function of the configuration, the rectangles and the
/// cells before: the same cells before give the same cells after.
pub proof fn lemma_render_deterministic(
    g: VerticalGauge,
    barea: Rect,
    before1: Seq<CellView>,
    before2: Seq<CellView>,
    outer: Rect,
    inner: Rect,
)
    requires
        before1 == before2,
    ensures
        g.rendered(barea, before1, outer, inner) == g.rendered(barea, before2, outer, inner),
{
}

/// A label of width `w` that fits is placed at its full width, centred
/// with the odd cell on the right; a wider one is cut to the rectangle's
/// width and starts at its left edge.
pub proof fn lemma_label_centering(area: Rect, w: int)
    requires
        w >= 0,
    ensures
        w <= area.width ==> label_width_spec(area, w) == w && label_col_spec(area, w) == area.x
            + (area.width - w) / 2,
        w > area.width ==> label_width_spec(area, w) == area.width && label_col_spec(area, w)
            == area.x,
{
}

/// Rendering into an empty rectangle leaves every cell as it was.
pub proof fn lemma_empty_area_unchanged(g: VerticalGauge, barea: Rect, cells: Seq<CellView>, area: Rect)
    requires
        area.is_empty_spec(),
    ensures
        g.rendered(barea, cells, area, area) == cells,
{
    assert(styled_cells(barea, cells, area, g.style) =~= cells);
}

/// Writing graphemes from `start` with `rem` cells of room changes no cell
/// outside `start..start + rem`.
pub proof fn lemma_put_graphemes_frame(
    cells: Seq<CellView>,
    start: int,
    rem: int,
    gs: Seq<Seq<char>>,
    ws: Seq<int>,
    style: Style,
    k: int,
)
    requires
        0 <= k < cells.len(),
        rem >= 0,
        k < start || k >= start + rem,
    ensures
        put_graphemes(cells, start, rem, gs, ws, style).len() == cells.len(),
        put_graphemes(cells, start, rem, gs, ws, style)[k] == cells[k],
    decreases gs.len(),
{
    if gs.len() == 0 || ws.len() == 0 {
    } else if has_control(gs[0]) || ws[0] <= 0 {
        lemma_put_graphemes_frame(cells, start, rem, gs.drop_first(), ws.drop_first(), style, k);
    } else if ws[0] > rem {
    } else {
        let next = put_one(cells, start, gs[0], ws[0], style);
        assert(next[k] == cells[k]);
        lemma_put_graphemes_frame(next, start + ws[0], rem - ws[0], gs.drop_first(), ws.drop_first(), style, k);
    }
}

/// What the gauge leaves in a cell of its rectangle off the label's row:
/// from the first filled row down, a full block in the gauge colours; on
/// the transition row, when there is one, the glyph for its eighths; above,
/// the cell with the gauge style laid over it.
pub proof fn lemma_gauge_cell_off_label_row(
    g: VerticalGauge,
    barea: Rect,
    cells: Seq<CellView>,
    area: Rect,
    k: int,
)
    requires
        g.wf(),
        barea.wf(),
        area.wf(),
        !area.is_empty_spec(),
        barea.contains_rect(area),
        cells.len() == barea.width * barea.height,
        0 <= k < cells.len(),
        area.holds(col_of(barea, k), row_of(barea, k)),
        row_of(barea, k) != label_row_spec(area),
    ensures
        ({
            let out = g.gauge_cells(barea, cells, area);
            let washed = patch_spec(cells[k], g.gauge_style);
            let row = row_of(barea, k);
            let start = g.fill_start_spec(area);
            &&& out.len() == cells.len()
            &&& row >= start ==> out[k] == CellView {
                symbol: full_glyph(),
                fg: color_or_reset(g.gauge_style.fg),
                bg: color_or_reset(g.gauge_style.bg),
                modifier: washed.modifier,
            }
            &&& (g.has_transition() && row == start - 1) ==> out[k] == CellView {
                symbol: eighth_glyph(eighths(area.height as int, g.num as int, g.den as int)),
                ..washed
            }
            &&& (row < start && !(g.has_transition() && row == start - 1)) ==> out[k] == washed
        }),
{
    let text = g.label_spec();
    let w = crate::text::str_width(text) as int;
    let lw = label_width_spec(area, w);
    let lc = label_col_spec(area, w);
    let lr = label_row_spec(area);
    let bw = barea.width as int;
    let at = index_of(barea, lc, lr);
    let rem = room(barea, lc, lw);
    assert(bw > 0);
    vstd::arithmetic::div_mod::lemma_fundamental_div_mod(k, bw);
    vstd::arithmetic::div_mod::lemma_mod_pos_bound(k, bw);
    let r = k / bw;
    let c = k % bw;
    let lrow = lr - barea.y;
    assert(0 <= lc - barea.x < bw);
    assert(0 <= rem <= barea.right_spec() - lc);
    assert(r != lrow);
    assert(k < at || k >= at + rem) by (nonlinear_arith)
        requires
            k == bw * r + c,
            0 <= c < bw,
            r != lrow,
            at == lrow * bw + (lc - barea.x),
            0 <= lc - barea.x,
            (lc - barea.x) + rem <= bw,
            rem >= 0,
    ;
    let s1 = styled_cells(barea, cells, area, g.gauge_style);
    let s2 = crate::gauge::filled_cells(
        barea,
        s1,
        area,
        g.fill_start_spec(area),
        lc,
        lr,
        lw,
        color_or_reset(g.gauge_style.fg),
        color_or_reset(g.gauge_style.bg),
    );
    let s3 = if g.has_transition() {
        crate::gauge::transition_cells(
            barea,
            s2,
            area,
            g.fill_start_spec(area) - 1,
            eighth_glyph(eighths(area.height as int, g.num as int, g.den as int)),
        )
    } else {
        s2
    };
    lemma_put_graphemes_frame(
        s3,
        at,
        rem,
        crate::text::graphemes_of(text),
        crate::buffer::widths_of(crate::text::graphemes_of(text)),
        g.label_style,
        k,
    );
}

} // verus!
