//! Scrollbar controller: derives the thumb's position along the track from
//! the viewport state, and translates pointer down/move/up events into
//! scroll-offset updates. The thumb has a fixed visual height (it stays
//! grabbable regardless of content size) and a fixed margin at both track
//! ends; both are deliberate simplifications carried over unchanged.

use vstd::prelude::*;

use crate::viewport::{clamped, content_height_of, max_scroll_of, ListViewport, ViewportView};

verus! {

/// Width of the scrollbar thumb, in content-space units.
pub const SCROLLBAR_THUMB_WIDTH: u64 = 8;

/// Fixed height of the scrollbar thumb; not proportional to the content.
pub const SCROLLBAR_THUMB_HEIGHT: u64 = 100;

/// Margin kept between the thumb and either end of the track.
pub const SCROLLBAR_MIN_MARGIN: u64 = 4;

/// A 2D pointer position, in content-space units.
#[derive(Debug, Clone, Copy, PartialEq, Eq, Structural)]
pub struct Point {
    pub x: i64,
    pub y: i64,
}

/// Thumb offset along the track for a given scroll offset:
/// `track * scroll / content`, clamped so the thumb stays fully inside the
/// track with the fixed margin at both ends. `None` hides the thumb when the
/// track or the content has no extent (nothing to divide by).
pub open spec fn thumb_offset_spec(track_height: int, content_height: int, scroll_offset: int) -> Option<
    int,
> {
    if track_height <= 0 || content_height <= 0 {
        None
    } else {
        let raw = track_height * scroll_offset / content_height;
        let hi = if track_height - (SCROLLBAR_THUMB_HEIGHT + SCROLLBAR_MIN_MARGIN) as int
            >= SCROLLBAR_MIN_MARGIN as int {
            track_height - (SCROLLBAR_THUMB_HEIGHT + SCROLLBAR_MIN_MARGIN) as int
        } else {
            SCROLLBAR_MIN_MARGIN as int
        };
        let lifted = if raw >= SCROLLBAR_MIN_MARGIN as int {
            raw
        } else {
            SCROLLBAR_MIN_MARGIN as int
        };
        Some(
            if lifted <= hi {
                lifted
            } else {
                hi
            },
        )
    }
}

/// The pointer position lies inside the thumb's rectangle (half-open on the
/// far edges), the thumb's origin given in absolute coordinates.
pub open spec fn in_thumb_spec(position: Point, thumb_origin: Point) -> bool {
    &&& thumb_origin.x <= position.x
    &&& position.x - thumb_origin.x < SCROLLBAR_THUMB_WIDTH
    &&& thumb_origin.y <= position.y
    &&& position.y - thumb_origin.y < SCROLLBAR_THUMB_HEIGHT
}

/// The scroll offset a drag asks for: the pointer position relative to the
/// track, minus the anchor captured at grab time (so the thumb does not jump
/// under the pointer), scaled from track extent to scrollable extent, and
/// capped at `content_height - thumb_height` as a final guard.
pub open spec fn drag_target_spec(
    pointer_y: int,
    track_origin_y: int,
    anchor_y: int,
    track_height: int,
    content_height: int,
    viewport_height: int,
) -> int {
    let rel = pointer_y - track_origin_y - anchor_y;
    let rel_clamped = if rel < 0 {
        0
    } else if rel > track_height {
        track_height
    } else {
        rel
    };
    let avail = if content_height > viewport_height {
        content_height - viewport_height
    } else {
        0
    };
    let scaled = rel_clamped * avail / track_height;
    let cap = if content_height >= SCROLLBAR_THUMB_HEIGHT as int {
        content_height - SCROLLBAR_THUMB_HEIGHT as int
    } else {
        0
    };
    if scaled <= cap {
        scaled
    } else {
        cap
    }
}

/// The drag state machine: `Idle` when no anchor is held, `Dragging` while a
/// grab captured at pointer-down is active.
pub struct Scrollbar {
    drag_anchor: Option<Point>,
}

impl View for Scrollbar {
    type V = Option<Point>;

    closed spec fn view(&self) -> Option<Point> {
        self.drag_anchor
    }
}

impl Scrollbar {
    /// A fresh controller, idle.
    pub fn new() -> (s: Scrollbar)
        ensures
            s@ is None,
    {
        Scrollbar { drag_anchor: None }
    }

    /// Whether a drag is in progress.
    pub fn is_dragging(&self) -> (r: bool)
        ensures
            r == (self@ is Some),
    {
        self.drag_anchor.is_some()
    }

    /// Pointer pressed at `position` (absolute), the thumb's rectangle
    /// starting at `thumb_origin` (absolute). If the press lands inside the
    /// thumb and no drag is active, the offset of the pointer within the
    /// thumb is captured as the drag anchor; anything else is ignored.
    pub fn pointer_down(&mut self, position: Point, thumb_origin: Point)
        ensures
            final(self)@ == (if old(self)@ is Some || !in_thumb_spec(position, thumb_origin) {
                old(self)@
            } else {
                Some(
                    Point {
                        x: (position.x - thumb_origin.x) as i64,
                        y: (position.y - thumb_origin.y) as i64,
                    },
                )
            }),
    {
        if self.drag_anchor.is_some() {
            return ;
        }
        let dx: i128 = position.x as i128 - thumb_origin.x as i128;
        let dy: i128 = position.y as i128 - thumb_origin.y as i128;
        if 0 <= dx && dx < SCROLLBAR_THUMB_WIDTH as i128 && 0 <= dy && dy
            < SCROLLBAR_THUMB_HEIGHT as i128 {
            self.drag_anchor = Some(Point { x: dx as i64, y: dy as i64 });
        }
    }

    /// Pointer moved to `pointer_y` (absolute); `dragging` is the event's
    /// button-still-pressed flag. While a grab is active and the flag holds,
    /// the viewport is scrolled to the drag target (then clamped into its
    /// valid range) and the applied offset is returned; a move without the
    /// flag, without an active grab, or on a track with no extent, is
    /// ignored — stray move events must not scroll.
    pub fn pointer_move(
        &self,
        viewport: &mut ListViewport,
        pointer_y: i64,
        track_origin_y: i64,
        track_height: u64,
        dragging: bool,
    ) -> (r: Option<u64>)
        requires
            old(viewport).wf(),
        ensures
            final(viewport).wf(),
            self@ is None || track_height == 0 || !dragging
                ==> final(viewport)@ == old(viewport)@ && r is None,
            match self@ {
                Some(anchor) => track_height > 0 && dragging ==> {
                    let target = drag_target_spec(
                        pointer_y as int,
                        track_origin_y as int,
                        anchor.y as int,
                        track_height as int,
                        content_height_of(old(viewport)@),
                        old(viewport)@.viewport_height,
                    );
                    &&& final(viewport)@ == (ViewportView {
                        scroll_offset: clamped(target, max_scroll_of(old(viewport)@)),
                        ..old(viewport)@
                    })
                    &&& r matches Some(applied) && applied as int
                        == final(viewport)@.scroll_offset
                },
                None => true,
            },
    {
        if !dragging {
            return None;
        }
        let anchor = match self.drag_anchor {
            Some(a) => a,
            None => {
                return None;
            },
        };
        if track_height == 0 {
            return None;
        }
        let rel: i128 = pointer_y as i128 - track_origin_y as i128 - anchor.y as i128;
        let rel_clamped: i128 = if rel < 0 {
            0
        } else if rel > track_height as i128 {
            track_height as i128
        } else {
            rel
        };
        let ch = viewport.content_height();
        let vh = viewport.viewport_height();
        let avail: u64 = if ch > vh {
            ch - vh
        } else {
            0
        };
        proof {
            assert(rel_clamped as int * avail as int <= u64::MAX as int * u64::MAX as int)
                by (nonlinear_arith)
                requires
                    0 <= rel_clamped as int <= u64::MAX as int,
                    0 <= avail as int <= u64::MAX as int,
            ;
        }
        let scaled128: u128 = (rel_clamped as u128) * (avail as u128) / (track_height as u128);
        proof {
            assert(rel_clamped as int * avail as int / track_height as int <= avail as int)
                by (nonlinear_arith)
                requires
                    0 <= rel_clamped as int <= track_height as int,
                    avail as int >= 0,
                    track_height as int >= 1,
            ;
            assert(rel_clamped as int * avail as int >= 0) by (nonlinear_arith)
                requires
                    rel_clamped as int >= 0,
                    avail as int >= 0,
            ;
        }
        let scaled: u64 = scaled128 as u64;
        let cap: u64 = if ch >= SCROLLBAR_THUMB_HEIGHT {
            ch - SCROLLBAR_THUMB_HEIGHT
        } else {
            0
        };
        let target: u64 = if scaled <= cap {
            scaled
        } else {
            cap
        };
        viewport.set_scroll_offset(target);
        Some(viewport.scroll_offset())
    }

    /// Pointer released anywhere: the drag (if any) ends.
    pub fn pointer_up(&mut self)
        ensures
            final(self)@ is None,
    {
        self.drag_anchor = None;
    }
}

/// Compute the thumb offset for the given geometry; `None` hides the thumb
/// when the track or the content has no extent.
pub fn thumb_offset(track_height: u64, content_height: u64, scroll_offset: u64) -> (r: Option<
    u64,
>)
    ensures
        match r {
            Some(o) => thumb_offset_spec(
                track_height as int,
                content_height as int,
                scroll_offset as int,
            ) == Some(o as int),
            None => thumb_offset_spec(
                track_height as int,
                content_height as int,
                scroll_offset as int,
            ) is None,
        },
{
    if track_height == 0 || content_height == 0 {
        return None;
    }
    proof {
        assert(track_height as int * scroll_offset as int <= u64::MAX as int * u64::MAX as int)
            by (nonlinear_arith)
            requires
                0 <= track_height as int <= u64::MAX as int,
                0 <= scroll_offset as int <= u64::MAX as int,
        ;
    }
    let raw128: u128 = (track_height as u128) * (scroll_offset as u128) / (content_height as u128);
    proof {
        assert(track_height as int * scroll_offset as int / content_height as int >= 0)
            by (nonlinear_arith)
            requires
                track_height as int >= 0,
                scroll_offset as int >= 0,
                content_height as int >= 1,
        ;
    }
    let hi: u64 = if track_height >= SCROLLBAR_THUMB_HEIGHT + 2 * SCROLLBAR_MIN_MARGIN {
        track_height - (SCROLLBAR_THUMB_HEIGHT + SCROLLBAR_MIN_MARGIN)
    } else {
        SCROLLBAR_MIN_MARGIN
    };
    let lifted: u128 = if raw128 >= SCROLLBAR_MIN_MARGIN as u128 {
        raw128
    } else {
        SCROLLBAR_MIN_MARGIN as u128
    };
    let offset: u128 = if lifted <= hi as u128 {
        lifted
    } else {
        hi as u128
    };
    Some(offset as u64)
}

/// For a track that can hold the thumb and its margins, the thumb offset
/// always stays within `[margin, track - thumb - margin]`, whatever the
/// scroll offset.
pub proof fn lemma_thumb_offset_within_margins(
    track_height: int,
    content_height: int,
    scroll_offset: int,
)
    requires
        track_height >= (SCROLLBAR_THUMB_HEIGHT + 2 * SCROLLBAR_MIN_MARGIN) as int,
        content_height > 0,
        scroll_offset >= 0,
    ensures
        match thumb_offset_spec(track_height, content_height, scroll_offset) {
            Some(o) => SCROLLBAR_MIN_MARGIN as int <= o <= track_height - (SCROLLBAR_THUMB_HEIGHT
                + SCROLLBAR_MIN_MARGIN) as int,
            None => false,
        },
{
}

} // verus!
