//! Where windows may lie and how much of the screen is used.

use vstd::prelude::*;
use crate::context::Context;
use crate::geometry::{coord, max_of, min_of, to_coord, Pos2, Rect, Vec2};
use crate::ids::{LayerId, Order};
use crate::memory::AreaState;

verus! {

/// Where a window of the given size that wants to start at `pos` starts on
/// one axis, so that it lies between `lo` and `hi`. A window that is larger
/// than that is held to the screen instead, and may stick out of it by as
/// much as it is too large, on either side.
pub open spec fn constrained(pos: int, size: int, lo: int, hi: int, screen_lo: int, screen_hi: int) -> int {
    let too_large = size > hi - lo;
    let from = if too_large { screen_lo } else { lo };
    let to = if too_large { screen_hi } else { hi };
    let margin = max_of(size - (to - from), 0);
    max_of(min_of(pos, to + margin - size), from - margin)
}

/// The union of `used` with the rectangles of the visible windows among `entries`.
pub open spec fn with_windows(used: Rect, entries: Seq<AreaState>, visible: Set<LayerId>) -> Rect
    decreases entries.len(),
{
    if entries.len() == 0 {
        used
    } else {
        let before = with_windows(used, entries.drop_last(), visible);
        if entries.last().layer_id.order == Order::Middle && visible.contains(
            entries.last().layer_id,
        ) {
            before.spec_union(entries.last().rect)
        } else {
            before
        }
    }
}

fn constrain_axis(pos: i32, size: i64, lo: i32, hi: i32, screen_lo: i32, screen_hi: i32) -> (p:
    i64)
    requires
        -0x1_0000_0000 <= size <= 0x1_0000_0000,
    ensures
        p == constrained(
            pos as int,
            size as int,
            lo as int,
            hi as int,
            screen_lo as int,
            screen_hi as int,
        ),
{
    let too_large = size > hi as i64 - lo as i64;
    let lo: i64 = if too_large { screen_lo as i64 } else { lo as i64 };
    let hi: i64 = if too_large { screen_hi as i64 } else { hi as i64 };
    let margin: i64 = if size - (hi - lo) > 0 { size - (hi - lo) } else { 0 };
    let mut p: i64 = pos as i64;
    if p > hi + margin - size {
        p = hi + margin - size;
    }
    if p < lo - margin {
        p = lo - margin;
    }
    p
}

impl Context {
    /// Where the window `window` is moved to so that it fits into `area`, or
    /// into what the panels have left free where no area is given. The window
    /// keeps its size.
    pub fn constrain_window_rect_to_area(&self, window: Rect, area: Option<Rect>) -> (moved: Rect)
        ensures
            ({
                let area = match area {
                    Some(a) => a,
                    None => self.frame_state.available_rect,
                };
                let screen = self.input.screen_rect;
                let x = constrained(
                    window.min.x as int,
                    window.max.x - window.min.x,
                    area.min.x as int,
                    area.max.x as int,
                    screen.min.x as int,
                    screen.max.x as int,
                );
                let y = constrained(
                    window.min.y as int,
                    window.max.y - window.min.y,
                    area.min.y as int,
                    area.max.y as int,
                    screen.min.y as int,
                    screen.max.y as int,
                );
                &&& moved.min.x == to_coord(x)
                &&& moved.min.y == to_coord(y)
                &&& moved.max.x == to_coord(x + (window.max.x - window.min.x))
                &&& moved.max.y == to_coord(y + (window.max.y - window.min.y))
            }),
    {
        let area = match area {
            Some(a) => a,
            None => self.frame_state.available_rect,
        };
        let screen = self.input.screen_rect;
        let x = constrain_axis(
            window.min.x,
            window.width(),
            area.min.x,
            area.max.x,
            screen.min.x,
            screen.max.x,
        );
        let y = constrain_axis(
            window.min.y,
            window.height(),
            area.min.y,
            area.max.y,
            screen.min.y,
            screen.max.y,
        );
        Rect {
            min: Pos2 { x: coord(x), y: coord(y) },
            max: Pos2 { x: coord(x + window.width()), y: coord(y + window.height()) },
        }
    }

    /// How much of the screen the panels and the visible windows use.
    pub fn used_rect(&self) -> (used: Rect)
        ensures
            used == with_windows(
                self.frame_state.used_by_panels,
                self.memory.areas.entries@,
                self.memory.areas.visible_layers(),
            ),
    {
        let mut used = self.frame_state.used_by_panels;
        let mut i: usize = 0;
        while i < self.memory.areas.entries.len()
            invariant
                i <= self.memory.areas.entries@.len(),
                used == with_windows(
                    self.frame_state.used_by_panels,
                    self.memory.areas.entries@.take(i as int),
                    self.memory.areas.visible_layers(),
                ),
            decreases self.memory.areas.entries@.len() - i,
        {
            let e = self.memory.areas.entries[i];
            proof {
                let entries = self.memory.areas.entries@;
                assert(entries.take(i + 1).drop_last() == entries.take(i as int));
                assert(entries.take(i + 1).last() == e);
            }
            match e.layer_id.order {
                Order::Middle => {
                    if self.memory.areas.is_visible(e.layer_id) {
                        used = used.union(e.rect);
                    }
                },
                _ => {},
            }
            i += 1;
        }
        proof {
            let entries = self.memory.areas.entries@;
            assert(entries.take(entries.len() as int) == entries);
        }
        used
    }

    /// The size that holds all panels and visible windows, measured from the origin.
    pub fn used_size(&self) -> (size: Vec2)
        ensures
            size.x == with_windows(
                self.frame_state.used_by_panels,
                self.memory.areas.entries@,
                self.memory.areas.visible_layers(),
            ).max.x,
            size.y == with_windows(
                self.frame_state.used_by_panels,
                self.memory.areas.entries@,
                self.memory.areas.visible_layers(),
            ).max.y,
    {
        let used = self.used_rect();
        Vec2 { x: used.max.x, y: used.max.y }
    }
}

} // verus!
