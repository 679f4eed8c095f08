use vstd::prelude::*;
use crate::geometry::Rect;
use crate::style::{Color, Style};
use crate::text::{graphemes_of, has_control, str_width, contains_control, span_graphemes, span_width};

verus! {

/// What a cell holds, as a value.
pub struct CellView {
    pub symbol: Seq<char>,
    pub fg: Color,
    pub bg: Color,
    pub modifier: u16,
}

/// One position of the display grid.
#[derive(Clone, Debug)]
pub struct Cell {
    pub symbol: String,
    pub fg: Color,
    pub bg: Color,
    pub modifier: u16,
}

impl View for Cell {
    type V = CellView;

    open spec fn view(&self) -> CellView {
        CellView { symbol: self.symbol@, fg: self.fg, bg: self.bg, modifier: self.modifier }
    }
}

/// A cell after `style` is laid over it.
pub open spec fn patch_spec(c: CellView, style: Style) -> CellView {
    CellView {
        symbol: c.symbol,
        fg: match style.fg {
            Some(f) => f,
            None => c.fg,
        },
        bg: match style.bg {
            Some(b) => b,
            None => c.bg,
        },
        modifier: (c.modifier | style.add_modifier) & !style.sub_modifier,
    }
}

/// A blank cell with default colours and no modifier.
pub open spec fn blank_spec() -> CellView {
    CellView { symbol: seq![' '], fg: Color::Reset, bg: Color::Reset, modifier: 0 }
}

impl Cell {
    pub fn blank() -> (r: Cell)
        ensures
            r@ == blank_spec(),
    {
        let s = String::from_str(" ");
        proof {
            reveal_strlit(" ");
            assert(s@ =~= seq![' ']);
        }
        Cell { symbol: s, fg: Color::Reset, bg: Color::Reset, modifier: 0 }
    }

    pub fn patched(&self, style: Style) -> (r: Cell)
        ensures
            r@ == patch_spec(self@, style),
    {
        let fg = match style.fg {
            Some(f) => f,
            None => self.fg,
        };
        let bg = match style.bg {
            Some(b) => b,
            None => self.bg,
        };
        Cell {
            symbol: self.symbol.clone(),
            fg,
            bg,
            modifier: (self.modifier | style.add_modifier) & !style.sub_modifier,
        }
    }
}

/// Column of the `k`-th cell of a grid laid out row by row over `area`.
pub open spec fn col_of(area: Rect, k: int) -> int {
    area.x + k % (area.width as int)
}

/// Row of the `k`-th cell of a grid laid out row by row over `area`.
pub open spec fn row_of(area: Rect, k: int) -> int {
    area.y + k / (area.width as int)
}

/// Position in the row-by-row layout of the cell at (`x`, `y`).
pub open spec fn index_of(area: Rect, x: int, y: int) -> int {
    (y - area.y) * area.width + (x - area.x)
}

/// `cells` with `style` laid over every cell inside `r`.
pub open spec fn styled_cells(area: Rect, cells: Seq<CellView>, r: Rect, style: Style) -> Seq<
    CellView,
> {
    Seq::new(
        cells.len(),
        |k: int|
            if r.holds(col_of(area, k), row_of(area, k)) {
                patch_spec(cells[k], style)
            } else {
                cells[k]
            },
    )
}

/// `cells` with the symbol `g` at `start`, `style` laid over that cell, and
/// the `w - 1` cells after it blanked (they lie under a wide symbol).
pub open spec fn put_one(cells: Seq<CellView>, start: int, g: Seq<char>, w: int, style: Style) -> Seq<
    CellView,
> {
    Seq::new(
        cells.len(),
        |k: int|
            if k == start {
                patch_spec(CellView { symbol: g, ..cells[k] }, style)
            } else if start < k < start + w {
                blank_spec()
            } else {
                cells[k]
            },
    )
}

/// Writing the graphemes `gs` of widths `ws` from position `start` on, with
/// `rem` cells of room: graphemes with a control character or of width zero
/// are passed over, and writing stops at the first one that does not fit.
/// Each cell that receives a grapheme gets `style` laid over it.
pub open spec fn put_graphemes(
    cells: Seq<CellView>,
    start: int,
    rem: int,
    gs: Seq<Seq<char>>,
    ws: Seq<int>,
    style: Style,
) -> Seq<CellView>
    decreases gs.len(),
{
    if gs.len() == 0 || ws.len() == 0 {
        cells
    } else if has_control(gs[0]) || ws[0] <= 0 {
        put_graphemes(cells, start, rem, gs.drop_first(), ws.drop_first(), style)
    } else if ws[0] > rem {
        cells
    } else {
        put_graphemes(
            put_one(cells, start, gs[0], ws[0], style),
            start + ws[0],
            rem - ws[0],
            gs.drop_first(),
            ws.drop_first(),
            style,
        )
    }
}

/// The room that a text written at column `x` has: up to the right edge of
/// `area`, and no more than `max_width`.
pub open spec fn room(area: Rect, x: int, max_width: int) -> int {
    let to_edge = area.right_spec() - x;
    if to_edge < max_width {
        to_edge
    } else {
        max_width
    }
}

pub open spec fn widths_of(gs: Seq<Seq<char>>) -> Seq<int> {
    gs.map_values(|g: Seq<char>| str_width(g) as int)
}

/// A grid of cells covering `area`, stored row by row.
#[derive(Clone, Debug)]
pub struct Buffer {
    pub area: Rect,
    pub content: Vec<Cell>,
}

impl Buffer {
    pub open spec fn wf(&self) -> bool {
        &&& self.area.wf()
        &&& self.content.len() == self.area.width * self.area.height
    }

    pub open spec fn cells(&self) -> Seq<CellView> {
        self.content@.map_values(|c: Cell| c@)
    }

    /// A buffer over `area` whose cells are all blank.
    pub fn empty(area: Rect) -> (r: Buffer)
        requires
            area.wf(),
        ensures
            r.wf(),
            r.area == area,
            forall|k: int| 0 <= k < r.cells().len() ==> #[trigger] r.cells()[k] == blank_spec(),
    {
        assert(area.width as usize * area.height as usize <= u32::MAX) by (nonlinear_arith)
            requires
                area.width <= u16::MAX,
                area.height <= u16::MAX,
        ;
        let n: usize = area.width as usize * area.height as usize;
        let mut content: Vec<Cell> = Vec::new();
        let mut i: usize = 0;
        while i < n
            invariant
                i <= n,
                content.len() == i,
                forall|k: int| 0 <= k < i ==> #[trigger] content@[k]@ == blank_spec(),
            decreases n - i,
        {
            content.push(Cell::blank());
            i = i + 1;
        }
        Buffer { area, content }
    }

    /// The cell at (`x`, `y`).
    pub fn cell(&self, x: u16, y: u16) -> (r: &Cell)
        requires
            self.wf(),
            self.area.holds(x as int, y as int),
        ensures
            0 <= index_of(self.area, x as int, y as int) < self.cells().len(),
            r@ == self.cells()[index_of(self.area, x as int, y as int)],
    {
        let i = self.index(x, y);
        &self.content[i]
    }

    pub fn index(&self, x: u16, y: u16) -> (r: usize)
        requires
            self.wf(),
            self.area.holds(x as int, y as int),
        ensures
            r == index_of(self.area, x as int, y as int),
            r < self.content.len(),
            col_of(self.area, r as int) == x,
            row_of(self.area, r as int) == y,
    {
        let w = self.area.width as usize;
        let h = self.area.height as usize;
        let dy = (y - self.area.y) as usize;
        let dx = (x - self.area.x) as usize;
        assert(dy * w + dx < w * h && dy * w + dx <= u32::MAX) by (nonlinear_arith)
            requires
                dy < h,
                dx < w,
                w <= u16::MAX,
                h <= u16::MAX,
        ;
        let r = dy * w + dx;
        proof {
            vstd::arithmetic::div_mod::lemma_fundamental_div_mod_converse(
                r as int,
                w as int,
                dy as int,
                dx as int,
            );
            vstd::arithmetic::div_mod::lemma_fundamental_div_mod_converse_div(
                r as int,
                w as int,
                dy as int,
                dx as int,
            );
        }
        r
    }

    /// Lays `style` over every cell that lies inside `r`.
    pub fn set_style(&mut self, r: Rect, style: Style)
        requires
            old(self).wf(),
        ensures
            final(self).wf(),
            final(self).area == old(self).area,
            final(self).cells() == styled_cells(old(self).area, old(self).cells(), r, style),
    {
        let n = self.content.len();
        let w = self.area.width as usize;
        let ax = self.area.x as usize;
        let ay = self.area.y as usize;
        let ghost target = styled_cells(old(self).area, old(self).cells(), r, style);
        let mut k: usize = 0;
        while k < n
            invariant
                self.wf(),
                self.area == old(self).area,
                n == self.content.len(),
                n == old(self).content.len(),
                w == self.area.width,
                ax == self.area.x,
                ay == self.area.y,
                k <= n,
                target == styled_cells(old(self).area, old(self).cells(), r, style),
                target.len() == n,
                forall|j: int| 0 <= j < k ==> #[trigger] self.content@[j]@ == target[j],
                forall|j: int| k <= j < n ==> #[trigger] self.content@[j]@ == old(self).cells()[j],
            decreases n - k,
        {
            assert(w > 0) by (nonlinear_arith)
                requires
                    k < n,
                    n == w * self.area.height,
            ;
            proof {
                vstd::arithmetic::div_mod::lemma_mod_pos_bound(k as int, w as int);
                vstd::arithmetic::div_mod::lemma_fundamental_div_mod(k as int, w as int);
                let q = k as int / w as int;
                let rr = k as int % w as int;
                assert(q < self.area.height) by (nonlinear_arith)
                    requires
                        k == w * q + rr,
                        0 <= rr,
                        k < w * self.area.height,
                        w > 0,
                ;
            }
            let cx = ax + k % w;
            let cy = ay + k / w;
            if r.x as usize <= cx && cx < r.x as usize + r.width as usize && r.y as usize <= cy
                && cy < r.y as usize + r.height as usize {
                let c = self.content[k].patched(style);
                self.content.set(k, c);
            }
            assert(col_of(self.area, k as int) == cx && row_of(self.area, k as int) == cy);
            assert(self.content@[k as int]@ == target[k as int]);
            k = k + 1;
        }
        assert(self.cells() =~= target);
    }

    /// Writes the graphemes `gs`, of widths `ws`, from (`x`, `y`) on, in at
    /// most `max_width` cells and not past the right edge; a wide grapheme
    /// blanks the cells it covers after its first.
    pub fn set_graphemes(
        &mut self,
        x: u16,
        y: u16,
        gs: &Vec<String>,
        ws: &Vec<usize>,
        max_width: u16,
        style: Style,
    )
        requires
            old(self).wf(),
            old(self).area.holds(x as int, y as int),
            gs.len() == ws.len(),
        ensures
            final(self).wf(),
            final(self).area == old(self).area,
            final(self).cells() == put_graphemes(
                old(self).cells(),
                index_of(old(self).area, x as int, y as int),
                room(old(self).area, x as int, max_width as int),
                gs@.map_values(|g: String| g@),
                ws@.map_values(|w: usize| w as int),
                style,
            ),
    {
        let ghost gsv = gs@.map_values(|g: String| g@);
        let ghost wsv = ws@.map_values(|w: usize| w as int);
        let start = self.index(x, y);
        let to_edge: usize = (self.area.x + self.area.width - x) as usize;
        let mut rem: usize = if to_edge < max_width as usize { to_edge } else { max_width as usize };
        let ghost target = put_graphemes(self.cells(), start as int, rem as int, gsv, wsv, style);
        let ghost row_end: int = start + to_edge;
        proof {
            let dy = y - self.area.y;
            assert(row_end <= self.content.len()) by (nonlinear_arith)
                requires
                    row_end == dy * self.area.width + (x - self.area.x) + to_edge,
                    to_edge == self.area.x + self.area.width - x,
                    dy < self.area.height,
                    self.content.len() == self.area.width * self.area.height,
            ;
        }
        let mut pos: usize = start;
        let n = gs.len();
        assert(gsv.subrange(0, n as int) =~= gsv);
        assert(wsv.subrange(0, n as int) =~= wsv);
        let mut i: usize = 0;
        while i < n
            invariant
                self.wf(),
                self.area == old(self).area,
                n <= gs.len(),
                n <= ws.len(),
                i <= n,
                pos + rem <= row_end <= self.content.len(),
                gsv == gs@.map_values(|g: String| g@),
                n == gsv.len(),
                n == wsv.len(),
                target == put_graphemes(old(self).cells(), start as int, room(old(self).area, x as int, max_width as int), gsv, wsv, style),
                wsv == ws@.map_values(|w: usize| w as int),
                put_graphemes(self.cells(), pos as int, rem as int, gsv.subrange(i as int, n as int), wsv.subrange(i as int, n as int), style)
                    == target,
            decreases n - i,
        {
            let ghost cur = self.cells();
            let ghost gtail = gsv.subrange(i as int, n as int);
            let ghost wtail = wsv.subrange(i as int, n as int);
            assert(gtail.drop_first() =~= gsv.subrange(i + 1, n as int));
            assert(wtail.drop_first() =~= wsv.subrange(i + 1, n as int));
            assert(gtail[0] == gs@[i as int]@);
            assert(wtail[0] == ws@[i as int] as int);
            let w = ws[i];
            if contains_control(gs[i].as_str()) || w == 0 {
                i = i + 1;
            } else if w > rem {
                i = n;
                assert(self.cells() == target);
                assert(gsv.subrange(n as int, n as int).len() == 0);
            } else {
                let sym = gs[i].clone();
                let c = Cell {
                    symbol: sym,
                    fg: self.content[pos].fg,
                    bg: self.content[pos].bg,
                    modifier: self.content[pos].modifier,
                }.patched(style);
                self.content.set(pos, c);
                let mut j: usize = 1;
                while j < w
                    invariant
                        self.wf(),
                        self.area == old(self).area,
                        1 <= j <= w,
                        i < gs.len(),
                        pos + w <= self.content.len(),
                        cur.len() == self.content.len(),
                        forall|k: int| 0 <= k < self.content.len() ==> #[trigger] self.content@[k]@ == (
                            if k == pos {
                                patch_spec(CellView { symbol: gs@[i as int]@, ..cur[k] }, style)
                            } else if pos < k < pos + j {
                                crate::buffer::blank_spec()
                            } else {
                                cur[k]
                            }),
                    decreases w - j,
                {
                    self.content.set(pos + j, Cell::blank());
                    j = j + 1;
                }
                assert(self.cells() =~= put_one(cur, pos as int, gs@[i as int]@, w as int, style));
                pos = pos + w;
                rem = rem - w;
                i = i + 1;
            }
        }
        assert(gsv.subrange(n as int, n as int).len() == 0);
    }

    /// Writes the text `s` from (`x`, `y`) on, in at most `max_width` cells
    /// and not past the right edge, one grapheme per cell (two or more for a
    /// wide one); graphemes with a control character or of width zero are
    /// left out, and the text is cut before the first grapheme that does not
    /// fit. Each cell that receives a grapheme gets `style` laid over it.
    pub fn set_stringn(&mut self, x: u16, y: u16, s: &str, max_width: u16, style: Style)
        requires
            old(self).wf(),
            old(self).area.holds(x as int, y as int),
        ensures
            final(self).wf(),
            final(self).area == old(self).area,
            final(self).cells() == put_graphemes(
                old(self).cells(),
                index_of(old(self).area, x as int, y as int),
                room(old(self).area, x as int, max_width as int),
                graphemes_of(s@),
                widths_of(graphemes_of(s@)),
                style,
            ),
    {
        let gs = span_graphemes(s);
        let ghost gsv = gs@.map_values(|g: String| g@);
        let mut ws: Vec<usize> = Vec::new();
        let mut i: usize = 0;
        while i < gs.len()
            invariant
                i <= gs.len(),
                ws.len() == i,
                gsv == gs@.map_values(|g: String| g@),
                forall|j: int| 0 <= j < i ==> #[trigger] ws@[j] as int == str_width(gsv[j]) as int,
            decreases gs.len() - i,
        {
            let w = span_width(gs[i].as_str());
            ws.push(w);
            i = i + 1;
        }
        assert(ws@.map_values(|w: usize| w as int) =~= widths_of(graphemes_of(s@)));
        self.set_graphemes(x, y, &gs, &ws, max_width, style);
    }
}

} // verus!
