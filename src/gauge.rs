use vstd::prelude::*;
use crate::buffer::{
    col_of, row_of, index_of, room, put_graphemes, styled_cells, widths_of, Buffer, Cell, CellView,
};
use crate::geometry::Rect;
use crate::style::{color_or_reset, unwrap_color, Style};
use crate::text::{decimal_of, decimal_string, graphemes_of, span_width, str_width};

verus! {

/// Why a gauge could not be configured.
#[derive(Clone, Copy, Debug, PartialEq, Eq, Structural)]
pub enum GaugeError {
    /// A percentage above 100.
    PercentOutOfRange,
    /// A ratio below 0 or above 1, or with a zero denominator.
    RatioOutOfRange,
}

/// `a / b` rounded to the nearest integer, halves away from zero.
pub open spec fn round_div(a: int, b: int) -> int {
    (2 * a + b) / (2 * b)
}

/// Rows filled in whole-row mode: `h * n / d` rounded.
pub open spec fn coarse_rows(h: int, n: int, d: int) -> int {
    round_div(h * n, d)
}

/// Rows filled in eighth-of-a-row mode: `h * n / d` rounded down.
pub open spec fn fine_rows(h: int, n: int, d: int) -> int {
    (h * n) / d
}

/// Eighths shown on the transition row: the fractional part of `h * n / d`
/// times 8, rounded.
pub open spec fn eighths(h: int, n: int, d: int) -> int {
    round_div(8 * ((h * n) % d), d)
}

/// The glyph that shows `i` eighths of a cell filled from below.
pub open spec fn eighth_glyph(i: int) -> Seq<char> {
    if i == 1 { seq!['\u{2581}'] }
    else if i == 2 { seq!['\u{2582}'] }
    else if i == 3 { seq!['\u{2583}'] }
    else if i == 4 { seq!['\u{2584}'] }
    else if i == 5 { seq!['\u{2585}'] }
    else if i == 6 { seq!['\u{2586}'] }
    else if i == 7 { seq!['\u{2587}'] }
    else if i == 8 { seq!['\u{2588}'] }
    else { seq![' '] }
}

/// A full block.
pub open spec fn full_glyph() -> Seq<char> {
    eighth_glyph(8)
}

proof fn lemma_div_at_most(x: int, y: int, b: int)
    requires
        y > 0,
        0 <= x,
        x < y * (b + 1),
    ensures
        x / y <= b,
{
    vstd::arithmetic::div_mod::lemma_fundamental_div_mod(x, y);
    vstd::arithmetic::div_mod::lemma_mod_pos_bound(x, y);
    let q = x / y;
    assert(q <= b) by (nonlinear_arith)
        requires
            x == y * q + x % y,
            0 <= x % y,
            x < y * (b + 1),
            y > 0,
    ;
}

/// The glyph for `i` eighths of a cell.
pub fn eighth_block(i: u16) -> (r: String)
    ensures
        r@ == eighth_glyph(i as int),
{
    proof {
        reveal_strlit("\u{2581}");
        reveal_strlit("\u{2582}");
        reveal_strlit("\u{2583}");
        reveal_strlit("\u{2584}");
        reveal_strlit("\u{2585}");
        reveal_strlit("\u{2586}");
        reveal_strlit("\u{2587}");
        reveal_strlit("\u{2588}");
        reveal_strlit(" ");
    }
    let s = if i == 1 { "\u{2581}" }
    else if i == 2 { "\u{2582}" }
    else if i == 3 { "\u{2583}" }
    else if i == 4 { "\u{2584}" }
    else if i == 5 { "\u{2585}" }
    else if i == 6 { "\u{2586}" }
    else if i == 7 { "\u{2587}" }
    else if i == 8 { "\u{2588}" }
    else { " " };
    let r = String::from_str(s);
    assert(r@ =~= eighth_glyph(i as int));
    r
}

/// A vertical gauge: a rectangle filled from the bottom up to `num / den` of
/// its height, with a label centred on it.
#[derive(Clone, Debug)]
pub struct VerticalGauge {
    /// The fill ratio is `num / den`.
    pub num: u32,
    pub den: u32,
    /// The label; without one, the rounded percentage and `%` are shown.
    pub label: Option<String>,
    /// Laid over the cells that the label's text is written into.
    pub label_style: Style,
    /// Show the boundary to an eighth of a row.
    pub use_unicode: bool,
    /// Laid over the whole rectangle first.
    pub style: Style,
    /// The colours of the filled region and of the label.
    pub gauge_style: Style,
}

impl VerticalGauge {
    /// The ratio lies in [0, 1].
    pub open spec fn wf(&self) -> bool {
        self.den > 0 && self.num <= self.den
    }

    /// An empty gauge: ratio 0, no label, whole-row mode, styles that change
    /// nothing.
    pub fn new() -> (r: VerticalGauge)
        ensures
            r.wf(),
            r.num == 0,
            r.label is None,
            r.label_style == Style::new_spec(),
            !r.use_unicode,
            r.style == Style::new_spec(),
            r.gauge_style == Style::new_spec(),
    {
        VerticalGauge {
            num: 0,
            den: 1,
            label: None,
            label_style: Style::new(),
            use_unicode: false,
            style: Style::new(),
            gauge_style: Style::new(),
        }
    }

    /// Sets the ratio to `percent / 100`; a percentage above 100 is refused.
    pub fn percent(self, percent: u16) -> (r: Result<VerticalGauge, GaugeError>)
        ensures
            percent <= 100 <==> r is Ok,
            r is Err ==> r == Err::<VerticalGauge, GaugeError>(GaugeError::PercentOutOfRange),
            r matches Ok(g) ==> g.num == percent && g.den == 100 && g.label == self.label && g.label_style == self.label_style
                && g.use_unicode == self.use_unicode && g.style == self.style
                && g.gauge_style == self.gauge_style,
    {
        if percent > 100 {
            Err(GaugeError::PercentOutOfRange)
        } else {
            Ok(VerticalGauge { num: percent as u32, den: 100, ..self })
        }
    }

    /// Sets the ratio to `num / den`; a ratio outside [0, 1] or a zero
    /// denominator is refused.
    pub fn ratio(self, num: u32, den: u32) -> (r: Result<VerticalGauge, GaugeError>)
        ensures
            (den > 0 && num <= den) <==> r is Ok,
            r is Err ==> r == Err::<VerticalGauge, GaugeError>(GaugeError::RatioOutOfRange),
            r matches Ok(g) ==> g.num == num && g.den == den && g.label == self.label && g.label_style == self.label_style
                && g.use_unicode == self.use_unicode && g.style == self.style
                && g.gauge_style == self.gauge_style,
    {
        if den == 0 || num > den {
            Err(GaugeError::RatioOutOfRange)
        } else {
            Ok(VerticalGauge { num, den, ..self })
        }
    }

    /// Sets a plain label: its text keeps the colours beneath it.
    pub fn label(self, label: String) -> (r: VerticalGauge)
        ensures
            r.label == Some(label),
            r.label_style == Style::new_spec(),
            r.num == self.num && r.den == self.den && r.use_unicode == self.use_unicode
                && r.style == self.style && r.gauge_style == self.gauge_style,
    {
        VerticalGauge { label: Some(label), label_style: Style::new(), ..self }
    }

    /// Sets a label whose text is drawn with `style` laid over it.
    pub fn styled_label(self, label: String, style: Style) -> (r: VerticalGauge)
        ensures
            r.label == Some(label),
            r.label_style == style,
            r.num == self.num && r.den == self.den && r.use_unicode == self.use_unicode
                && r.style == self.style && r.gauge_style == self.gauge_style,
    {
        VerticalGauge { label: Some(label), label_style: style, ..self }
    }

    pub fn use_unicode(self, use_unicode: bool) -> (r: VerticalGauge)
        ensures
            r.use_unicode == use_unicode,
            r.num == self.num && r.den == self.den && r.label == self.label && r.label_style == self.label_style
                && r.style == self.style && r.gauge_style == self.gauge_style,
    {
        VerticalGauge { use_unicode, ..self }
    }

    pub fn style(self, style: Style) -> (r: VerticalGauge)
        ensures
            r.style == style,
            r.num == self.num && r.den == self.den && r.label == self.label && r.label_style == self.label_style
                && r.use_unicode == self.use_unicode && r.gauge_style == self.gauge_style,
    {
        VerticalGauge { style, ..self }
    }

    pub fn gauge_style(self, gauge_style: Style) -> (r: VerticalGauge)
        ensures
            r.gauge_style == gauge_style,
            r.num == self.num && r.den == self.den && r.label == self.label && r.label_style == self.label_style
                && r.use_unicode == self.use_unicode && r.style == self.style,
    {
        VerticalGauge { gauge_style, ..self }
    }

    /// The number of rows, counted from the bottom, that are filled whole in
    /// a rectangle of height `h`.
    pub open spec fn filled_rows_spec(&self, h: int) -> int {
        if self.use_unicode {
            fine_rows(h, self.num as int, self.den as int)
        } else {
            coarse_rows(h, self.num as int, self.den as int)
        }
    }

    /// Whether a transition row is drawn above the filled rows.
    pub open spec fn has_transition(&self) -> bool {
        self.use_unicode && self.num < self.den
    }

    /// The percentage shown by the default label: the ratio times 100, rounded.
    pub open spec fn percent_spec(&self) -> int {
        round_div(100 * self.num, self.den as int)
    }

    /// The label text shown.
    pub open spec fn label_spec(&self) -> Seq<char> {
        match self.label {
            Some(l) => l@,
            None => decimal_of(self.percent_spec() as nat).push('%'),
        }
    }

    pub fn filled_rows(&self, h: u16) -> (r: u16)
        requires
            self.wf(),
        ensures
            r == self.filled_rows_spec(h as int),
            r <= h,
    {
        assert(h * self.num <= h * self.den && h * self.den < 0x1_0000_0000_0000) by (nonlinear_arith)
            requires
                self.num <= self.den,
                self.den <= u32::MAX,
                h <= u16::MAX,
        ;
        let hn: u64 = h as u64 * self.num as u64;
        let d: u64 = self.den as u64;
        assert(hn < d * (h + 1) && 2 * hn + d < 2 * d * (h + 1)) by (nonlinear_arith)
            requires
                hn <= h * d,
                d > 0,
        ;
        if self.use_unicode {
            proof {
                lemma_div_at_most(hn as int, d as int, h as int);
            }
            (hn / d) as u16
        } else {
            proof {
                lemma_div_at_most(2 * hn + d, 2 * d, h as int);
            }
            ((2 * hn + d) / (2 * d)) as u16
        }
    }

    /// The number of eighths shown on the transition row of a rectangle of
    /// height `h`.
    pub fn transition_eighths(&self, h: u16) -> (r: u16)
        requires
            self.wf(),
        ensures
            r == eighths(h as int, self.num as int, self.den as int),
            r <= 8,
    {
        assert(h * self.num <= 0x1_0000_0000_0000) by (nonlinear_arith)
            requires
                self.num <= u32::MAX,
                h <= u16::MAX,
        ;
        let hn: u64 = h as u64 * self.num as u64;
        let d: u64 = self.den as u64;
        let m = hn % d;
        proof {
            vstd::arithmetic::div_mod::lemma_mod_pos_bound(hn as int, d as int);
            lemma_div_at_most(2 * (8 * m) + d, 2 * d, 8);
        }
        ((2 * (8 * m) + d) / (2 * d)) as u16
    }

    /// The rounded percentage of the ratio.
    pub fn rounded_percent(&self) -> (r: u64)
        requires
            self.wf(),
        ensures
            r == self.percent_spec(),
            r <= 100,
    {
        let d: u64 = self.den as u64;
        proof {
            lemma_div_at_most(2 * (100 * self.num) + d, 2 * d, 100);
        }
        (2 * (100 * self.num as u64) + d) / (2 * d)
    }

    /// The label text shown: the label, or the rounded percentage and `%`.
    pub fn label_text(&self) -> (r: String)
        requires
            self.wf(),
        ensures
            r@ == self.label_spec(),
    {
        match &self.label {
            Some(l) => l.clone(),
            None => {
                let mut s = decimal_string(self.rounded_percent());
                proof {
                    reveal_strlit("%");
                }
                s.append("%");
                assert(s@ =~= self.label_spec());
                s
            },
        }
    }
}

/// Where a label of display width `w` goes in `area`: its column, its row
/// and the width it is cut to.
pub open spec fn label_width_spec(area: Rect, w: int) -> int {
    if w < area.width { w } else { area.width as int }
}

pub open spec fn label_col_spec(area: Rect, w: int) -> int {
    area.x + (area.width - label_width_spec(area, w)) / 2
}

pub open spec fn label_row_spec(area: Rect) -> int {
    area.y + area.height / 2
}

/// The column, row and clamped width of a label of display width `w`:
/// centred across (left-biased), on the middle row (upper-biased).
pub fn label_placement(area: Rect, w: usize) -> (r: (u16, u16, u16))
    requires
        area.wf(),
    ensures
        r.0 == label_col_spec(area, w as int),
        r.1 == label_row_spec(area),
        r.2 == label_width_spec(area, w as int),
{
    let lw: u16 = if w < area.width as usize { w as u16 } else { area.width };
    let col = area.x + (area.width - lw) / 2;
    let row = area.y + area.height / 2;
    (col, row, lw)
}

/// `cells` with the rows from `start_row` to the bottom of `area` filled:
/// full blocks in `fg` on `bg`, except the label's cells on row `lr`,
/// columns `lc..lc + lw`, which are blank with the colours swapped. The
/// modifiers stay.
pub open spec fn filled_cells(
    barea: Rect,
    cells: Seq<CellView>,
    area: Rect,
    start_row: int,
    lc: int,
    lr: int,
    lw: int,
    fg: crate::style::Color,
    bg: crate::style::Color,
) -> Seq<CellView> {
    Seq::new(
        cells.len(),
        |k: int|
            {
                let cx = col_of(barea, k);
                let cy = row_of(barea, k);
                if area.x <= cx < area.right_spec() && start_row <= cy < area.bottom_spec() {
                    if lc <= cx < lc + lw && cy == lr {
                        CellView { symbol: seq![' '], fg: bg, bg: fg, modifier: cells[k].modifier }
                    } else {
                        CellView { symbol: full_glyph(), fg, bg, modifier: cells[k].modifier }
                    }
                } else {
                    cells[k]
                }
            },
    )
}

/// `cells` with the symbol of every cell of `area` on row `row` set to `glyph`.
pub open spec fn transition_cells(
    barea: Rect,
    cells: Seq<CellView>,
    area: Rect,
    row: int,
    glyph: Seq<char>,
) -> Seq<CellView> {
    Seq::new(
        cells.len(),
        |k: int|
            if area.x <= col_of(barea, k) < area.right_spec() && row_of(barea, k) == row {
                CellView { symbol: glyph, ..cells[k] }
            } else {
                cells[k]
            },
    )
}

fn fill_region(
    buf: &mut Buffer,
    area: Rect,
    start_row: u16,
    lc: u16,
    lr: u16,
    lw: u16,
    fg: crate::style::Color,
    bg: crate::style::Color,
)
    requires
        old(buf).wf(),
        area.wf(),
    ensures
        final(buf).wf(),
        final(buf).area == old(buf).area,
        final(buf).cells() == filled_cells(
            old(buf).area,
            old(buf).cells(),
            area,
            start_row as int,
            lc as int,
            lr as int,
            lw as int,
            fg,
            bg,
        ),
{
    let n = buf.content.len();
    let w = buf.area.width as usize;
    let ax = buf.area.x as usize;
    let ay = buf.area.y as usize;
    let full = eighth_block(8);
    let blank = String::from_str(" ");
    proof {
        reveal_strlit(" ");
        assert(blank@ =~= seq![' ']);
    }
    let ghost target = filled_cells(
        old(buf).area,
        old(buf).cells(),
        area,
        start_row as int,
        lc as int,
        lr as int,
        lw as int,
        fg,
        bg,
    );
    let mut k: usize = 0;
    while k < n
        invariant
            buf.wf(),
            buf.area == old(buf).area,
            n == buf.content.len(),
            n == old(buf).content.len(),
            w == buf.area.width,
            ax == buf.area.x,
            ay == buf.area.y,
            area.wf(),
            full@ == full_glyph(),
            blank@ == seq![' '],
            k <= n,
            target == filled_cells(
                old(buf).area,
                old(buf).cells(),
                area,
                start_row as int,
                lc as int,
                lr as int,
                lw as int,
                fg,
                bg,
            ),
            forall|j: int| 0 <= j < k ==> #[trigger] buf.content@[j]@ == target[j],
            forall|j: int| k <= j < n ==> #[trigger] buf.content@[j]@ == old(buf).cells()[j],
        decreases n - k,
    {
        assert(w > 0) by (nonlinear_arith)
            requires
                k < n,
                n == w * buf.area.height,
        ;
        proof {
            vstd::arithmetic::div_mod::lemma_mod_pos_bound(k as int, w as int);
            vstd::arithmetic::div_mod::lemma_fundamental_div_mod(k as int, w as int);
            let q = k as int / w as int;
            let rr = k as int % w as int;
            assert(q < buf.area.height) by (nonlinear_arith)
                requires
                    k == w * q + rr,
                    0 <= rr,
                    k < w * buf.area.height,
                    w > 0,
            ;
        }
        let cx = ax + k % w;
        let cy = ay + k / w;
        assert(col_of(buf.area, k as int) == cx && row_of(buf.area, k as int) == cy);
        assert(buf.content@[k as int]@ == old(buf).cells()[k as int]);
        if area.x as usize <= cx && cx < area.x as usize + area.width as usize && start_row as usize
            <= cy && cy < area.y as usize + area.height as usize {
            let modifier = buf.content[k].modifier;
            if lc as usize <= cx && cx < lc as usize + lw as usize && cy == lr as usize {
                buf.content.set(k, Cell { symbol: blank.clone(), fg: bg, bg: fg, modifier });
            } else {
                buf.content.set(k, Cell { symbol: full.clone(), fg, bg, modifier });
            }
        }
        assert(buf.content@[k as int]@ == target[k as int]);
        k = k + 1;
    }
    assert(buf.cells() =~= target);
}

fn set_row_symbol(buf: &mut Buffer, area: Rect, row: u16, glyph: &String)
    requires
        old(buf).wf(),
        area.wf(),
    ensures
        final(buf).wf(),
        final(buf).area == old(buf).area,
        final(buf).cells() == transition_cells(
            old(buf).area,
            old(buf).cells(),
            area,
            row as int,
            glyph@,
        ),
{
    let n = buf.content.len();
    let w = buf.area.width as usize;
    let ax = buf.area.x as usize;
    let ay = buf.area.y as usize;
    let ghost target = transition_cells(old(buf).area, old(buf).cells(), area, row as int, glyph@);
    let mut k: usize = 0;
    while k < n
        invariant
            buf.wf(),
            buf.area == old(buf).area,
            n == buf.content.len(),
            n == old(buf).content.len(),
            w == buf.area.width,
            ax == buf.area.x,
            ay == buf.area.y,
            area.wf(),
            k <= n,
            target == transition_cells(old(buf).area, old(buf).cells(), area, row as int, glyph@),
            forall|j: int| 0 <= j < k ==> #[trigger] buf.content@[j]@ == target[j],
            forall|j: int| k <= j < n ==> #[trigger] buf.content@[j]@ == old(buf).cells()[j],
        decreases n - k,
    {
        assert(w > 0) by (nonlinear_arith)
            requires
                k < n,
                n == w * buf.area.height,
        ;
        proof {
            vstd::arithmetic::div_mod::lemma_mod_pos_bound(k as int, w as int);
            vstd::arithmetic::div_mod::lemma_fundamental_div_mod(k as int, w as int);
            let q = k as int / w as int;
            let rr = k as int % w as int;
            assert(q < buf.area.height) by (nonlinear_arith)
                requires
                    k == w * q + rr,
                    0 <= rr,
                    k < w * buf.area.height,
                    w > 0,
            ;
        }
        let cx = ax + k % w;
        let cy = ay + k / w;
        assert(col_of(buf.area, k as int) == cx && row_of(buf.area, k as int) == cy);
        assert(buf.content@[k as int]@ == old(buf).cells()[k as int]);
        if area.x as usize <= cx && cx < area.x as usize + area.width as usize && cy == row as usize {
            let fg = buf.content[k].fg;
            let bg = buf.content[k].bg;
            let modifier = buf.content[k].modifier;
            buf.content.set(k, Cell { symbol: glyph.clone(), fg, bg, modifier });
        }
        assert(buf.content@[k as int]@ == target[k as int]);
        k = k + 1;
    }
    assert(buf.cells() =~= target);
}

impl VerticalGauge {
    /// The first row, from the top, of the filled rows in `area`.
    pub open spec fn fill_start_spec(&self, area: Rect) -> int {
        area.bottom_spec() - self.filled_rows_spec(area.height as int)
    }

    /// What drawing the gauge into `area` makes of `cells`, the cells of a
    /// grid over `barea`: nothing for an empty `area`; otherwise the gauge
    /// style laid over `area`, the filled rows with the label's box cut out,
    /// the transition row, and last the label text.
    pub open spec fn gauge_cells(&self, barea: Rect, cells: Seq<CellView>, area: Rect) -> Seq<
        CellView,
    > {
        if area.is_empty_spec() {
            cells
        } else {
            let text = self.label_spec();
            let lw = label_width_spec(area, str_width(text) as int);
            let lc = label_col_spec(area, str_width(text) as int);
            let lr = label_row_spec(area);
            let start = self.fill_start_spec(area);
            let s1 = styled_cells(barea, cells, area, self.gauge_style);
            let s2 = filled_cells(
                barea,
                s1,
                area,
                start,
                lc,
                lr,
                lw,
                color_or_reset(self.gauge_style.fg),
                color_or_reset(self.gauge_style.bg),
            );
            let s3 = if self.has_transition() {
                transition_cells(
                    barea,
                    s2,
                    area,
                    start - 1,
                    eighth_glyph(eighths(area.height as int, self.num as int, self.den as int)),
                )
            } else {
                s2
            };
            put_graphemes(
                s3,
                index_of(barea, lc, lr),
                room(barea, lc, lw),
                graphemes_of(text),
                widths_of(graphemes_of(text)),
                self.label_style,
            )
        }
    }

    /// What rendering makes of `cells`: the outer style laid over `outer`,
    /// then the gauge drawn into `inner`.
    pub open spec fn rendered(&self, barea: Rect, cells: Seq<CellView>, outer: Rect, inner: Rect) -> Seq<
        CellView,
    > {
        self.gauge_cells(barea, styled_cells(barea, cells, outer, self.style), inner)
    }

    /// Draws the gauge into `area` (without the outer style).
    pub fn render_gauge(&self, area: Rect, buf: &mut Buffer)
        requires
            self.wf(),
            old(buf).wf(),
            area.wf(),
            area.is_empty_spec() || old(buf).area.contains_rect(area),
        ensures
            final(buf).wf(),
            final(buf).area == old(buf).area,
            final(buf).cells() == self.gauge_cells(old(buf).area, old(buf).cells(), area),
    {
        if area.is_empty() {
            return;
        }
        buf.set_style(area, self.gauge_style);
        let label = self.label_text();
        let w = span_width(label.as_str());
        let (lc, lr, lw) = label_placement(area, w);
        let rows = self.filled_rows(area.height);
        let start = area.bottom() - rows;
        fill_region(
            buf,
            area,
            start,
            lc,
            lr,
            lw,
            unwrap_color(self.gauge_style.fg),
            unwrap_color(self.gauge_style.bg),
        );
        if self.use_unicode && self.num < self.den {
            proof {
                let h = area.height as int;
                let hn = h * self.num;
                assert(hn < self.den * h) by (nonlinear_arith)
                    requires
                        h > 0,
                        self.num < self.den,
                        hn == h * self.num,
                ;
                lemma_div_at_most(hn, self.den as int, h - 1);
            }
            let e = self.transition_eighths(area.height);
            let glyph = eighth_block(e);
            set_row_symbol(buf, area, start - 1, &glyph);
        }
        buf.set_stringn(lc, lr, label.as_str(), lw, self.label_style);
    }

    /// Renders the gauge over the whole of `area`.
    pub fn render(&self, area: Rect, buf: &mut Buffer)
        requires
            self.wf(),
            old(buf).wf(),
            area.wf(),
            area.is_empty_spec() || old(buf).area.contains_rect(area),
        ensures
            final(buf).wf(),
            final(buf).area == old(buf).area,
            final(buf).cells() == self.rendered(old(buf).area, old(buf).cells(), area, area),
    {
        self.render_framed(area, area, buf);
    }

    /// Renders the gauge inside a frame: the outer style over `outer`, the
    /// gauge into `inner`, the space that the frame leaves.
    pub fn render_framed(&self, outer: Rect, inner: Rect, buf: &mut Buffer)
        requires
            self.wf(),
            old(buf).wf(),
            outer.wf(),
            inner.wf(),
            inner.is_empty_spec() || old(buf).area.contains_rect(inner),
        ensures
            final(buf).wf(),
            final(buf).area == old(buf).area,
            final(buf).cells() == self.rendered(old(buf).area, old(buf).cells(), outer, inner),
    {
        buf.set_style(outer, self.style);
        self.render_gauge(inner, buf);
    }
}

} // verus!
