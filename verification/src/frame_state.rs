//! Bookkeeping that lives for one frame.

use vstd::prelude::*;
use std::collections::HashMap;
use crate::geometry::{coord, to_coord, Pos2, Rect};
use crate::ids::Id;

verus! {

broadcast use vstd::std_specs::hash::group_hash_axioms;

/// How far right of a flag's bottom-left corner its explanation is anchored: two points.
pub const EXPLANATION_OFFSET_X: i32 = 2000;

/// How far below a flag's bottom-left corner its explanation is anchored: four points.
pub const EXPLANATION_OFFSET_Y: i32 = 4000;

/// What a debug overlay says.
#[derive(Clone, Copy, Debug, PartialEq, Eq, Structural)]
pub enum ClashKind {
    FirstUse,
    SecondUse,
}

/// A debug overlay that flags an id used for two different places.
#[derive(Clone, Copy, Debug, PartialEq, Eq, Structural)]
pub struct IdClash {
    /// Where the overlay is anchored: the top-left corner of the offending rectangle.
    pub pos: Pos2,
    pub id: Id,
    pub kind: ClashKind,
}

/// What is collected during a frame and forgotten at the start of the next.
pub struct FrameState {
    /// The rectangle that each id was last registered with, by the id's value.
    pub used_ids: HashMap<u64, Rect>,
    /// The screen area that panels have not claimed yet.
    pub available_rect: Rect,
    /// The screen area that nothing has painted on.
    pub unused_rect: Rect,
    /// The union of what the panels cover.
    pub used_by_panels: Rect,
}

/// The rectangle that holds nothing and is neutral for unions.
pub open spec fn nothing() -> Rect {
    Rect { min: Pos2 { x: i32::MAX, y: i32::MAX }, max: Pos2 { x: i32::MIN, y: i32::MIN } }
}

/// Whether two rectangles registered under one id count as the same place:
/// they have a position in common, as a frame has with the widget it is drawn
/// around.
pub open spec fn same_place(prev: Rect, new: Rect) -> bool {
    prev.spec_overlaps(new)
}

/// The overlays owed when `id` is registered with `new` after `prev`: none
/// for a first use and for the same place, else one at the corner of each
/// rectangle.
pub open spec fn clashes(prev: Option<Rect>, id: Id, new: Rect) -> Seq<IdClash> {
    match prev {
        None => seq![],
        Some(p) => if same_place(p, new) {
            seq![]
        } else {
            seq![
                IdClash { pos: p.min, id, kind: ClashKind::FirstUse },
                IdClash { pos: new.min, id, kind: ClashKind::SecondUse },
            ]
        },
    }
}

/// Where the explanation of a flag is anchored: a little below and right of
/// the bottom-left corner of the flag's label, and only while the pointer is
/// over the label.
pub open spec fn explanation_at(label: Rect, hover: Option<Pos2>) -> Option<Pos2> {
    match hover {
        Some(p) => if label.spec_contains(p) {
            Some(
                Pos2 {
                    x: to_coord(label.min.x + EXPLANATION_OFFSET_X),
                    y: to_coord(label.max.y + EXPLANATION_OFFSET_Y),
                },
            )
        } else {
            None
        },
        None => None,
    }
}

/// The rectangle registered under `id`, if any.
pub open spec fn lookup(used: Map<u64, Rect>, id: Id) -> Option<Rect> {
    if used.contains_key(id.value) { Some(used[id.value]) } else { None }
}

/// An id that is registered a second time with the rectangle it already has
/// is not flagged, given that the rectangle's corners are in order.
pub proof fn lemma_same_rect_is_no_clash(id: Id, rect: Rect)
    requires
        rect.spec_is_proper(),
    ensures
        clashes(Some(rect), id, rect) == Seq::<IdClash>::empty(),
{
    assert(rect.spec_contains(rect.min));
    assert(clashes(Some(rect), id, rect) =~= Seq::<IdClash>::empty());
}

/// An id that is registered with two rectangles that have a position in
/// common is not flagged.
pub proof fn lemma_overlapping_rects_are_no_clash(id: Id, first: Rect, second: Rect, shared: Pos2)
    requires
        first.spec_contains(shared),
        second.spec_contains(shared),
    ensures
        clashes(Some(first), id, second) == Seq::<IdClash>::empty(),
{
    assert(clashes(Some(first), id, second) =~= Seq::<IdClash>::empty());
}

/// An id that is registered with two rectangles that have no position in
/// common is flagged exactly twice, at the first place and at the second.
pub proof fn lemma_disjoint_rects_clash_twice(id: Id, first: Rect, second: Rect)
    requires
        first.disjoint(second),
    ensures
        clashes(Some(first), id, second) == seq![
            IdClash { pos: first.min, id, kind: ClashKind::FirstUse },
            IdClash { pos: second.min, id, kind: ClashKind::SecondUse },
        ],
        clashes(Some(first), id, second).len() == 2,
{
}

impl FrameState {
    pub fn new() -> (f: FrameState)
        ensures
            f.used_ids@ == Map::<u64, Rect>::empty(),
            f.available_rect == nothing(),
            f.unused_rect == nothing(),
            f.used_by_panels == nothing(),
    {
        let nothing = Rect {
            min: Pos2 { x: i32::MAX, y: i32::MAX },
            max: Pos2 { x: i32::MIN, y: i32::MIN },
        };
        FrameState {
            used_ids: HashMap::new(),
            available_rect: nothing,
            unused_rect: nothing,
            used_by_panels: nothing,
        }
    }

    /// Forgets the last frame: no id is registered, the whole screen is available.
    pub fn begin_frame(&mut self, screen_rect: Rect)
        ensures
            final(self).used_ids@ == Map::<u64, Rect>::empty(),
            final(self).available_rect == screen_rect,
            final(self).unused_rect == screen_rect,
            final(self).used_by_panels == nothing(),
    {
        self.used_ids.clear();
        self.available_rect = screen_rect;
        self.unused_rect = screen_rect;
        self.used_by_panels = Rect {
            min: Pos2 { x: i32::MAX, y: i32::MAX },
            max: Pos2 { x: i32::MIN, y: i32::MIN },
        };
    }

    pub fn available_rect(&self) -> (r: Rect)
        ensures
            r == self.available_rect,
    {
        self.available_rect
    }

    /// Registers `id` with `rect` and returns the rectangle it had before.
    pub fn register(&mut self, id: Id, rect: Rect) -> (prev: Option<Rect>)
        ensures
            prev == lookup(old(self).used_ids@, id),
            final(self).used_ids@ == old(self).used_ids@.insert(id.value, rect),
            final(self).available_rect == old(self).available_rect,
            final(self).unused_rect == old(self).unused_rect,
            final(self).used_by_panels == old(self).used_by_panels,
    {
        self.used_ids.insert(id.value, rect)
    }

    /// Whether `id` was registered this frame.
    pub fn is_used(&self, id: Id) -> (used: bool)
        ensures
            used == self.used_ids@.contains_key(id.value),
    {
        self.used_ids.contains_key(&id.value)
    }
}

/// The overlays owed when `id` is registered with `new` after `prev`.
pub fn check_reuse(prev: Option<Rect>, id: Id, new: Rect) -> (found: Vec<IdClash>)
    ensures
        found@ == clashes(prev, id, new),
{
    let mut found: Vec<IdClash> = Vec::new();
    match prev {
        None => {},
        Some(p) => {
            // A frame around a widget, or a second look at it, may share the id.
            if !p.overlaps(new) {
                found.push(IdClash { pos: p.min, id, kind: ClashKind::FirstUse });
                found.push(IdClash { pos: new.min, id, kind: ClashKind::SecondUse });
            }
        },
    }
    found
}

/// Where the explanation of a flag is anchored, given the rectangle of the
/// flag's label and where the pointer hovers.
pub fn explanation_anchor(label: Rect, hover: Option<Pos2>) -> (anchor: Option<Pos2>)
    ensures
        anchor == explanation_at(label, hover),
{
    match hover {
        Some(p) => {
            if label.contains(p) {
                Some(
                    Pos2 {
                        x: coord(label.min.x as i64 + EXPLANATION_OFFSET_X as i64),
                        y: coord(label.max.y as i64 + EXPLANATION_OFFSET_Y as i64),
                    },
                )
            } else {
                None
            }
        },
        None => None,
    }
}

} // verus!
