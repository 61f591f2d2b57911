//! Virtualized list viewport: from a scroll offset, a viewport height and a
//! uniform row height it computes exactly which item indices must be
//! rendered, in O(1) arithmetic, independent of the total item count.

use vstd::prelude::*;
use vstd::arithmetic::div_mod::{
    lemma_fundamental_div_mod, lemma_fundamental_div_mod_converse_div,
};

verus! {

/// Where a row is placed by [`ListViewport::scroll_to_index`].
#[derive(Debug, Clone, Copy, PartialEq, Eq, Structural)]
pub enum ScrollStrategy {
    Top,
    Center,
    Nearest,
}

/// Mathematical model of the viewport geometry, in content-space units.
#[verifier::ext_equal]
pub ghost struct ViewportView {
    pub row_height: int,
    pub viewport_height: int,
    pub total_items: int,
    pub scroll_offset: int,
}

/// Total content height: every row has the same height.
pub open spec fn content_height_of(v: ViewportView) -> int {
    v.total_items * v.row_height
}

/// Largest valid scroll offset: `max(0, content_height - viewport_height)`.
pub open spec fn max_scroll_of(v: ViewportView) -> int {
    if content_height_of(v) >= v.viewport_height {
        content_height_of(v) - v.viewport_height
    } else {
        0
    }
}

/// `y` clamped from above to `hi` (both non-negative here).
pub open spec fn clamped(y: int, hi: int) -> int {
    if y > hi {
        hi
    } else {
        y
    }
}

/// First visible row index: the row containing the top of the band.
pub open spec fn first_of(v: ViewportView) -> int {
    v.scroll_offset / v.row_height
}

/// One past the last visible row index: `min(n, ceil((scroll + viewport) / row))`.
pub open spec fn last_of(v: ViewportView) -> int {
    let ceiled = (v.scroll_offset + v.viewport_height + v.row_height - 1) / v.row_height;
    if ceiled < v.total_items {
        ceiled
    } else {
        v.total_items
    }
}

/// Row `i` overlaps the visible band `[scroll, scroll + viewport)`.
pub open spec fn row_intersects(v: ViewportView, i: int) -> bool {
    i * v.row_height < v.scroll_offset + v.viewport_height && (i + 1) * v.row_height
        > v.scroll_offset
}

/// Target offset for placing row `index` per the strategy: at the top, at
/// the center, or the nearest offset that brings the row fully into view.
pub open spec fn scroll_target_of(v: ViewportView, index: int, strategy: ScrollStrategy) -> int {
    let row_top = index * v.row_height;
    match strategy {
        ScrollStrategy::Top => row_top,
        ScrollStrategy::Center => {
            let centered = row_top + v.row_height / 2 - v.viewport_height / 2;
            if centered >= 0 {
                centered
            } else {
                0
            }
        },
        ScrollStrategy::Nearest => {
            if row_top < v.scroll_offset {
                row_top
            } else if row_top + v.row_height > v.scroll_offset + v.viewport_height {
                row_top + v.row_height - v.viewport_height
            } else {
                v.scroll_offset
            }
        },
    }
}

/// The viewport state: uniform row height, viewport height, total item
/// count, and the clamped scroll offset.
pub struct ListViewport {
    row_height: u64,
    viewport_height: u64,
    total_items: usize,
    scroll_offset: u64,
}

impl View for ListViewport {
    type V = ViewportView;

    closed spec fn view(&self) -> ViewportView {
        ViewportView {
            row_height: self.row_height as int,
            viewport_height: self.viewport_height as int,
            total_items: self.total_items as int,
            scroll_offset: self.scroll_offset as int,
        }
    }
}

impl ListViewport {
    /// Rows have positive height, the content height fits the machine, and
    /// the scroll offset is within its valid range.
    pub open spec fn wf(&self) -> bool {
        &&& self@.row_height >= 1
        &&& content_height_of(self@) <= u64::MAX
        &&& 0 <= self@.scroll_offset <= max_scroll_of(self@)
    }

    /// A fresh viewport with the given uniform row height and no items.
    pub fn new(row_height: u64) -> (s: ListViewport)
        requires
            row_height >= 1,
        ensures
            s@ == (ViewportView {
                row_height: row_height as int,
                viewport_height: 0,
                total_items: 0,
                scroll_offset: 0,
            }),
            s.wf(),
    {
        ListViewport { row_height, viewport_height: 0, total_items: 0, scroll_offset: 0 }
    }

    /// The uniform row height.
    pub fn row_height(&self) -> (r: u64)
        ensures
            r as int == self@.row_height,
    {
        self.row_height
    }

    /// The viewport height.
    pub fn viewport_height(&self) -> (r: u64)
        ensures
            r as int == self@.viewport_height,
    {
        self.viewport_height
    }

    /// The total item count.
    pub fn total_item_count(&self) -> (r: usize)
        ensures
            r as int == self@.total_items,
    {
        self.total_items
    }

    /// The current scroll offset.
    pub fn scroll_offset(&self) -> (r: u64)
        ensures
            r as int == self@.scroll_offset,
    {
        self.scroll_offset
    }

    /// Total content height.
    pub fn content_height(&self) -> (r: u64)
        requires
            self@.row_height >= 1,
            content_height_of(self@) <= u64::MAX,
        ensures
            r as int == content_height_of(self@),
    {
        proof {
            assert(self@.total_items * self@.row_height <= u64::MAX);
        }
        (self.total_items as u64) * self.row_height
    }

    /// Largest valid scroll offset.
    pub fn max_scroll(&self) -> (r: u64)
        requires
            self@.row_height >= 1,
            content_height_of(self@) <= u64::MAX,
        ensures
            r as int == max_scroll_of(self@),
    {
        let ch = self.content_height();
        if ch >= self.viewport_height {
            ch - self.viewport_height
        } else {
            0
        }
    }

    /// Set the scroll offset, clamped into `[0, max_scroll]`.
    pub fn set_scroll_offset(&mut self, offset: u64)
        requires
            old(self).wf(),
        ensures
            final(self)@ == (ViewportView {
                scroll_offset: clamped(offset as int, max_scroll_of(old(self)@)),
                ..old(self)@
            }),
            final(self).wf(),
    {
        let m = self.max_scroll();
        self.scroll_offset = if offset > m {
            m
        } else {
            offset
        };
    }

    /// Set the viewport height, re-clamping the scroll offset.
    pub fn set_viewport_height(&mut self, height: u64)
        requires
            old(self).wf(),
        ensures
            final(self)@.viewport_height == height as int,
            final(self)@.row_height == old(self)@.row_height,
            final(self)@.total_items == old(self)@.total_items,
            final(self)@.scroll_offset == clamped(
                old(self)@.scroll_offset,
                max_scroll_of(final(self)@),
            ),
            final(self).wf(),
    {
        self.viewport_height = height;
        let m = self.max_scroll();
        if self.scroll_offset > m {
            self.scroll_offset = m;
        }
    }

    /// Set the total item count (mirroring the active listing's length),
    /// re-clamping the scroll offset. The content height must fit the machine.
    pub fn set_total_item_count(&mut self, count: usize)
        requires
            old(self).wf(),
            count * old(self)@.row_height <= u64::MAX,
        ensures
            final(self)@.total_items == count as int,
            final(self)@.row_height == old(self)@.row_height,
            final(self)@.viewport_height == old(self)@.viewport_height,
            final(self)@.scroll_offset == clamped(
                old(self)@.scroll_offset,
                max_scroll_of(final(self)@),
            ),
            final(self).wf(),
    {
        self.total_items = count;
        let m = self.max_scroll();
        if self.scroll_offset > m {
            self.scroll_offset = m;
        }
    }

    /// The half-open index interval `[first, last)` of rows that must be
    /// rendered: pure arithmetic, never a walk over the items.
    pub fn visible_range(&self) -> (r: (usize, usize))
        requires
            self.wf(),
        ensures
            r.0 as int == first_of(self@),
            r.1 as int == last_of(self@),
            r.0 <= r.1,
            r.1 as int <= self@.total_items,
    {
        proof {
            lemma_first_le_total(self@);
        }
        let first = self.scroll_offset / self.row_height;
        let sum: u128 = self.scroll_offset as u128 + self.viewport_height as u128 + (
        self.row_height - 1) as u128;
        let ceiled: u128 = sum / (self.row_height as u128);
        let last: usize = if ceiled < self.total_items as u128 {
            ceiled as usize
        } else {
            self.total_items
        };
        proof {
            assert(first as int <= last as int) by {
                lemma_div_le_div(
                    self@.scroll_offset,
                    self@.scroll_offset + self@.viewport_height + self@.row_height - 1,
                    self@.row_height,
                );
            }
        }
        (first as usize, last)
    }

    /// Scroll so that row `index` sits where the strategy asks, clamped to
    /// the valid range.
    pub fn scroll_to_index(&mut self, index: usize, strategy: ScrollStrategy)
        requires
            old(self).wf(),
            index < old(self)@.total_items,
        ensures
            final(self)@ == (ViewportView {
                scroll_offset: clamped(
                    scroll_target_of(old(self)@, index as int, strategy),
                    max_scroll_of(old(self)@),
                ),
                ..old(self)@
            }),
            final(self).wf(),
    {
        proof {
            assert((index as int + 1) * self@.row_height <= self@.total_items
                * self@.row_height) by (nonlinear_arith)
                requires
                    index as int + 1 <= self@.total_items,
                    self@.row_height >= 1,
            ;
            assert(index as int * self@.row_height + self@.row_height == (index as int + 1)
                * self@.row_height) by (nonlinear_arith);
            assert(index as int * self@.row_height >= 0) by (nonlinear_arith)
                requires
                    index as int >= 0,
                    self@.row_height >= 0,
            ;
        }
        let row_top = (index as u64) * self.row_height;
        let target: u64 = match strategy {
            ScrollStrategy::Top => row_top,
            ScrollStrategy::Center => {
                let half_row = self.row_height / 2;
                let half_view = self.viewport_height / 2;
                if row_top + half_row >= half_view {
                    row_top + half_row - half_view
                } else {
                    0
                }
            },
            ScrollStrategy::Nearest => {
                let bottom = row_top + self.row_height;
                if row_top < self.scroll_offset {
                    row_top
                } else if bottom > self.scroll_offset + self.viewport_height {
                    bottom - self.viewport_height
                } else {
                    self.scroll_offset
                }
            },
        };
        self.set_scroll_offset(target);
    }
}

/// For any valid scroll offset and a non-empty listing, the visible range is
/// non-empty, it holds exactly the rows whose spans intersect the band
/// `[scroll, scroll + viewport)`, and it never holds more than
/// `ceil(viewport_height / row_height) + 1` indices.
pub proof fn lemma_visible_range_covers(v: ViewportView)
    requires
        v.row_height >= 1,
        v.viewport_height >= 1,
        v.total_items >= 1,
        content_height_of(v) >= v.viewport_height,
        0 <= v.scroll_offset <= max_scroll_of(v),
    ensures
        first_of(v) < last_of(v),
        forall|i: int|
            0 <= i < v.total_items ==> (row_intersects(v, i) <==> first_of(v) <= i < last_of(
                v,
            )),
        last_of(v) - first_of(v) <= (v.viewport_height + v.row_height - 1) / v.row_height + 1,
{
    let rh = v.row_height;
    let sc = v.scroll_offset;
    let vh = v.viewport_height;
    let n = v.total_items;
    let band_end = sc + vh;
    let f = first_of(v);
    let q = (band_end + rh - 1) / rh;
    let l = last_of(v);

    // Floor bracket: f * rh <= sc < (f + 1) * rh.
    lemma_fundamental_div_mod(sc, rh);
    assert(f * rh <= sc < (f + 1) * rh) by (nonlinear_arith)
        requires
            sc == rh * f + sc % rh,
            0 <= sc % rh < rh,
    ;

    // Ceiling bracket: (q - 1) * rh < band_end <= q * rh.
    lemma_fundamental_div_mod(band_end + rh - 1, rh);
    assert((q - 1) * rh < band_end <= q * rh) by (nonlinear_arith)
        requires
            band_end + rh - 1 == rh * q + (band_end + rh - 1) % rh,
            0 <= (band_end + rh - 1) % rh < rh,
            rh >= 1,
    ;

    // f < q, so the interval is non-empty once capped at n.
    assert(f < q) by (nonlinear_arith)
        requires
            f * rh <= sc,
            band_end <= q * rh,
            sc < band_end,
            rh >= 1,
    ;
    assert(sc <= n * rh - vh);
    assert(f < n) by (nonlinear_arith)
        requires
            f * rh <= sc,
            sc <= n * rh - vh,
            vh >= 1,
            rh >= 1,
    ;
    assert(f < l);

    // Exactness: a row intersects the band iff it lies in [f, l).
    assert forall|i: int|
        0 <= i < n implies (row_intersects(v, i) <==> f <= i < l) by {
        if i < f {
            assert((i + 1) * rh <= f * rh) by (nonlinear_arith)
                requires
                    i + 1 <= f,
                    rh >= 1,
            ;
            assert(!row_intersects(v, i));
        } else if i >= l {
            assert(l == q);
            assert(i * rh >= q * rh) by (nonlinear_arith)
                requires
                    i >= q,
                    rh >= 1,
            ;
            assert(!row_intersects(v, i));
        } else {
            assert((i + 1) * rh >= (f + 1) * rh) by (nonlinear_arith)
                requires
                    i >= f,
                    rh >= 1,
            ;
            assert(i * rh <= (q - 1) * rh) by (nonlinear_arith)
                requires
                    i <= q - 1,
                    rh >= 1,
            ;
            assert(row_intersects(v, i));
        }
    }

    // Size bound: q <= f + ceil(vh / rh) + 1.
    let g = (vh + rh - 1) / rh;
    lemma_fundamental_div_mod(vh + rh - 1, rh);
    let ra = sc % rh;
    let rb = (vh + rh - 1) % rh;
    assert(sc + vh + rh - 1 == rh * (f + g) + (ra + rb)) by (nonlinear_arith)
        requires
            sc == rh * f + ra,
            vh + rh - 1 == rh * g + rb,
    ;
    if ra + rb < rh {
        lemma_fundamental_div_mod_converse_div(sc + vh + rh - 1, rh, f + g, ra + rb);
        assert(q == f + g);
    } else {
        assert(sc + vh + rh - 1 == rh * (f + g + 1) + (ra + rb - rh)) by (nonlinear_arith)
            requires
                sc + vh + rh - 1 == rh * (f + g) + (ra + rb),
        ;
        lemma_fundamental_div_mod_converse_div(sc + vh + rh - 1, rh, f + g + 1, ra + rb - rh);
        assert(q == f + g + 1);
    }
    assert(l - f <= g + 1);
}

/// Division by a positive number is monotone.
proof fn lemma_div_le_div(a: int, b: int, d: int)
    requires
        0 <= a <= b,
        d >= 1,
    ensures
        a / d <= b / d,
{
    lemma_fundamental_div_mod(a, d);
    lemma_fundamental_div_mod(b, d);
    assert(a / d <= b / d) by (nonlinear_arith)
        requires
            a == d * (a / d) + a % d,
            b == d * (b / d) + b % d,
            0 <= a % d < d,
            0 <= b % d < d,
            a <= b,
            d >= 1,
    ;
}

/// Under a valid scroll offset the first visible row is a real index.
proof fn lemma_first_le_total(v: ViewportView)
    requires
        v.row_height >= 1,
        v.viewport_height >= 0,
        0 <= v.scroll_offset <= max_scroll_of(v),
        v.total_items >= 0,
    ensures
        0 <= first_of(v) <= v.total_items,
{
    assert(v.scroll_offset <= v.total_items * v.row_height);
    lemma_fundamental_div_mod(v.scroll_offset, v.row_height);
    assert(first_of(v) >= 0) by (nonlinear_arith)
        requires
            v.scroll_offset == v.row_height * first_of(v) + v.scroll_offset % v.row_height,
            0 <= v.scroll_offset % v.row_height < v.row_height,
            v.scroll_offset >= 0,
            v.row_height >= 1,
    ;
    assert(first_of(v) <= v.total_items) by (nonlinear_arith)
        requires
            v.scroll_offset == v.row_height * first_of(v) + v.scroll_offset % v.row_height,
            0 <= v.scroll_offset % v.row_height < v.row_height,
            v.scroll_offset <= v.total_items * v.row_height,
            v.row_height >= 1,
    ;
}

} // verus!
