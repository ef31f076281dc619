//! State that outlives a frame: who is clicked, dragged and focused, and
//! where the layers lie.

use vstd::prelude::*;
use std::collections::HashMap;
use crate::geometry::{Pos2, Rect};
use crate::ids::{Id, LayerId, Order};
use crate::input::{keys_of, InputState, Key, RawInput};
use epaint::text::FontDefinitions;

verus! {

broadcast use vstd::std_specs::hash::group_hash_axioms;

/// Keyboard focus: the widget that has it and those that asked for it.
pub struct Focus {
    /// The focused widget; at most one.
    pub id: Option<Id>,
    /// The widgets that could take focus this frame, in the order they asked.
    pub interested: Vec<Id>,
}

/// Who owns the pointer.
pub struct Interaction {
    /// The widget a click started on.
    pub click_id: Option<Id>,
    /// Whether a click-sensitive widget was hovered this frame.
    pub click_interest: bool,
    /// The widget or window being dragged.
    pub drag_id: Option<Id>,
    /// Whether a drag-sensitive widget was hovered this frame.
    pub drag_interest: bool,
    /// Whether the drag belongs to window chrome; a widget may take such a drag over.
    pub drag_is_window: bool,
    pub focus: Focus,
}

/// Where one layer lies on screen.
#[derive(Clone, Copy, Debug, PartialEq, Eq, Structural)]
pub struct AreaState {
    pub layer_id: LayerId,
    pub rect: Rect,
    pub interactable: bool,
}

/// The layers, from back to front.
pub struct Areas {
    pub entries: Vec<AreaState>,
    /// The layers whose place was told during the frame before.
    pub visible_last_frame: Vec<LayerId>,
    /// The layers whose place was told during this frame.
    pub visible_current_frame: Vec<LayerId>,
}

/// Settings that the resolver reads.
#[derive(Clone, Copy, Debug, PartialEq, Eq, Structural)]
pub struct Options {
    /// Whether a screen reader is on, so that labels take focus too.
    pub screen_reader: bool,
    /// How far outside its rectangle a layer still catches the pointer, in coordinate units.
    pub resize_grab_radius_side: u16,
    /// How long an animation takes, in milliseconds.
    pub animation_time: u32,
    /// Whether the layout of a hovered widget is shown for debugging.
    pub debug_on_hover: bool,
}

pub struct Memory {
    pub options: Options,
    pub interaction: Interaction,
    pub areas: Areas,
    /// The window being moved or resized by its chrome.
    pub window_interaction: Option<Id>,
    /// A pixel ratio (in thousandths) to use from the next frame on.
    pub new_pixels_per_point: Option<u32>,
    /// Font definitions to use from the next frame on.
    pub new_font_definitions: Option<FontDefinitions>,
}

/// The focus at the end of a frame in which `used` were registered.
pub open spec fn still_focused(focused: Option<Id>, used: Map<u64, Rect>) -> Option<Id> {
    match focused {
        Some(id) => if used.contains_key(id.value) { focused } else { None },
        None => None,
    }
}

/// Whether the layer `e` catches a pointer at `pos`: it is among the
/// visible layers, takes input, and `pos` lies within `radius` of it.
pub open spec fn catches(e: AreaState, visible: Set<LayerId>, pos: Pos2, radius: int) -> bool {
    visible.contains(e.layer_id) && e.interactable && e.rect.grown_contains(radius, radius, pos)
}

/// The frontmost of `entries` that catches a pointer at `pos`.
pub open spec fn top_layer_at(
    entries: Seq<AreaState>,
    visible: Set<LayerId>,
    pos: Pos2,
    radius: int,
) -> Option<LayerId>
    decreases entries.len(),
{
    if entries.len() == 0 {
        None
    } else if catches(entries.last(), visible, pos, radius) {
        Some(entries.last().layer_id)
    } else {
        top_layer_at(entries.drop_last(), visible, pos, radius)
    }
}

/// The index of the first of `entries` on `layer`, or their number.
pub open spec fn index_of_layer(entries: Seq<AreaState>, layer: LayerId) -> int
    decreases entries.len(),
{
    if entries.len() == 0 {
        0
    } else if entries.first().layer_id == layer {
        0
    } else {
        1 + index_of_layer(entries.drop_first(), layer)
    }
}

/// The index of the first of `entries` whose stacking class lies in front
/// of `class`, or their number.
pub open spec fn place_for(entries: Seq<AreaState>, class: Order) -> int
    decreases entries.len(),
{
    if entries.len() == 0 {
        0
    } else if entries.first().layer_id.order.spec_rank() > class.spec_rank() {
        0
    } else {
        1 + place_for(entries.drop_first(), class)
    }
}

/// `entries` with `state` in the place of the first entry on its layer.
/// Where there is none, `state` goes in front of the layers of its own
/// stacking class and behind the first layer of a class further in front.
pub open spec fn with_state(entries: Seq<AreaState>, state: AreaState) -> Seq<AreaState> {
    let i = index_of_layer(entries, state.layer_id);
    if i < entries.len() {
        entries.update(i, state)
    } else {
        entries.insert(place_for(entries, state.layer_id.order), state)
    }
}

/// Whether no layer occurs twice in `entries` and the stacking classes come
/// from back to front.
pub open spec fn stacked(entries: Seq<AreaState>) -> bool {
    &&& forall|i: int, j: int|
        0 <= i < j < entries.len() ==> (#[trigger] entries[i]).layer_id != (
        #[trigger] entries[j]).layer_id
    &&& forall|i: int, j: int|
        0 <= i < j < entries.len() ==> (#[trigger] entries[i]).layer_id.order.spec_rank() <= (
        #[trigger] entries[j]).layer_id.order.spec_rank()
}

proof fn lemma_place_for(entries: Seq<AreaState>, class: Order)
    ensures
        0 <= place_for(entries, class) <= entries.len(),
        forall|j: int|
            0 <= j < place_for(entries, class) ==> (
            #[trigger] entries[j]).layer_id.order.spec_rank() <= class.spec_rank(),
        place_for(entries, class) < entries.len() ==> entries[place_for(
            entries,
            class,
        )].layer_id.order.spec_rank() > class.spec_rank(),
    decreases entries.len(),
{
    if entries.len() > 0 && entries.first().layer_id.order.spec_rank() <= class.spec_rank() {
        let rest = entries.drop_first();
        lemma_place_for(rest, class);
        assert forall|j: int| 0 <= j < place_for(entries, class) implies (
        #[trigger] entries[j]).layer_id.order.spec_rank() <= class.spec_rank() by {
            if j > 0 {
                assert(entries[j] == rest[j - 1]);
            }
        }
        if place_for(entries, class) < entries.len() {
            assert(entries[place_for(entries, class)] == rest[place_for(rest, class)]);
        }
    }
}

/// Saying where a layer lies keeps the layers distinct and the stacking
/// classes in order.
pub proof fn lemma_with_state_keeps_stacking(entries: Seq<AreaState>, state: AreaState)
    requires
        stacked(entries),
    ensures
        stacked(with_state(entries, state)),
{
    let i = index_of_layer(entries, state.layer_id);
    let next = with_state(entries, state);
    lemma_index_of_layer(entries, state.layer_id);
    if i < entries.len() {
        assert forall|a: int, b: int| 0 <= a < b < next.len() implies (#[trigger] next[a]).layer_id
            != (#[trigger] next[b]).layer_id && next[a].layer_id.order.spec_rank()
            <= next[b].layer_id.order.spec_rank() by {
            assert(next[a].layer_id == entries[a].layer_id);
            assert(next[b].layer_id == entries[b].layer_id);
        }
    } else {
        let p = place_for(entries, state.layer_id.order);
        lemma_place_for(entries, state.layer_id.order);
        assert forall|a: int, b: int| 0 <= a < b < next.len() implies (#[trigger] next[a]).layer_id
            != (#[trigger] next[b]).layer_id && next[a].layer_id.order.spec_rank()
            <= next[b].layer_id.order.spec_rank() by {
            let ea = if a < p { a } else { a - 1 };
            let eb = if b < p { b } else { b - 1 };
            if a != p {
                assert(next[a] == entries[ea]);
            }
            if b != p {
                assert(next[b] == entries[eb]);
            }
            if a == p {
                assert(next[a] == state);
                assert(p <= eb);
                if p < eb {
                    assert(entries[p].layer_id.order.spec_rank()
                        <= entries[eb].layer_id.order.spec_rank());
                }
            } else if b == p {
                assert(next[b] == state);
            }
        }
    }
}

proof fn lemma_place_for_is(entries: Seq<AreaState>, class: Order, n: int)
    requires
        0 <= n <= entries.len(),
        forall|j: int|
            0 <= j < n ==> (#[trigger] entries[j]).layer_id.order.spec_rank() <= class.spec_rank(),
        n < entries.len() ==> entries[n].layer_id.order.spec_rank() > class.spec_rank(),
    ensures
        place_for(entries, class) == n,
    decreases entries.len(),
{
    if entries.len() > 0 && n > 0 {
        assert(entries[0].layer_id.order.spec_rank() <= class.spec_rank());
        let rest = entries.drop_first();
        assert forall|j: int| 0 <= j < n - 1 implies (
        #[trigger] rest[j]).layer_id.order.spec_rank() <= class.spec_rank() by {
            assert(rest[j] == entries[j + 1]);
        }
        lemma_place_for_is(rest, class, n - 1);
    }
}

pub proof fn lemma_index_of_layer(entries: Seq<AreaState>, layer: LayerId)
    ensures
        0 <= index_of_layer(entries, layer) <= entries.len(),
        forall|j: int|
            0 <= j < index_of_layer(entries, layer) ==> (#[trigger] entries[j]).layer_id != layer,
        index_of_layer(entries, layer) < entries.len() ==> entries[index_of_layer(
            entries,
            layer,
        )].layer_id == layer,
    decreases entries.len(),
{
    if entries.len() > 0 && entries.first().layer_id != layer {
        let rest = entries.drop_first();
        lemma_index_of_layer(rest, layer);
        assert forall|j: int| 0 <= j < index_of_layer(entries, layer) implies (
        #[trigger] entries[j]).layer_id != layer by {
            if j > 0 {
                assert(entries[j] == rest[j - 1]);
            }
        }
        if index_of_layer(entries, layer) < entries.len() {
            assert(entries[index_of_layer(entries, layer)] == rest[index_of_layer(rest, layer)]);
        }
    }
}

/// Where no entry before `n` is on `layer`, the first such index is `n` or
/// lies behind it.
pub proof fn lemma_index_of_layer_is(entries: Seq<AreaState>, layer: LayerId, n: int)
    requires
        0 <= n <= entries.len(),
        forall|j: int| 0 <= j < n ==> (#[trigger] entries[j]).layer_id != layer,
        n < entries.len() ==> entries[n].layer_id == layer,
    ensures
        index_of_layer(entries, layer) == n,
{
    lemma_index_of_layer(entries, layer);
    let i = index_of_layer(entries, layer);
    if i < n {
        assert(entries[i].layer_id != layer);
    } else if i > n {
        assert(entries[n].layer_id != layer);
    }
}

impl Focus {
    pub open spec fn spec_has_focus(&self, id: Id) -> bool {
        self.id == Some(id)
    }

    /// Whether `id` has keyboard focus.
    #[verifier::when_used_as_spec(spec_has_focus)]
    pub fn has_focus(&self, id: Id) -> (focused: bool)
        ensures
            focused == self.spec_has_focus(id),
    {
        id.is_in(self.id)
    }

    /// The focus after `id` gave it up: nobody where `id` had it, else as before.
    pub open spec fn without(focused: Option<Id>, id: Id) -> Option<Id> {
        if focused == Some(id) { None } else { focused }
    }

    /// Gives up the focus of `id`, if it has it.
    pub fn surrender_focus(&mut self, id: Id)
        ensures
            final(self).id == Focus::without(old(self).id, id),
            final(self).interested@ == old(self).interested@,
    {
        if id.is_in(self.id) {
            self.id = None;
        }
    }

    /// Gives the focus to `id`.
    pub fn request_focus(&mut self, id: Id)
        ensures
            final(self).id == Some(id),
            final(self).interested@ == old(self).interested@,
    {
        self.id = Some(id);
    }

    /// Records that `id` could take focus this frame.
    pub fn interested_in_focus(&mut self, id: Id)
        ensures
            final(self).id == old(self).id,
            final(self).interested@ == old(self).interested@.push(id),
    {
        self.interested.push(id);
    }
}

impl Interaction {
    pub fn new() -> (i: Interaction)
        ensures
            i.click_id is None,
            i.drag_id is None,
            !i.click_interest,
            !i.drag_interest,
            !i.drag_is_window,
            i.focus.id is None,
            i.focus.interested@.len() == 0,
    {
        Interaction {
            click_id: None,
            click_interest: false,
            drag_id: None,
            drag_interest: false,
            drag_is_window: false,
            focus: Focus { id: None, interested: Vec::new() },
        }
    }

    pub open spec fn spec_is_using_pointer(&self) -> bool {
        self.click_id is Some || self.drag_id is Some
    }

    /// Whether a click or a drag is under way.
    #[verifier::when_used_as_spec(spec_is_using_pointer)]
    pub fn is_using_pointer(&self) -> (using: bool)
        ensures
            using == self.spec_is_using_pointer(),
    {
        self.click_id.is_some() || self.drag_id.is_some()
    }

    /// Whether window chrome may take the drag: nobody has it, or window chrome has it.
    pub open spec fn window_may_drag(&self) -> bool {
        self.drag_id is None || self.drag_is_window
    }

    /// Starts a frame: interest is forgotten, the focus candidates too, and
    /// the claims are dropped unless a button was held over the surface when
    /// the last frame ended.
    pub fn begin_frame(&mut self, was_down: bool, had_pos: bool)
        ensures
            !final(self).click_interest,
            !final(self).drag_interest,
            final(self).click_id == (if was_down && had_pos { old(self).click_id } else { None }),
            final(self).drag_id == (if was_down && had_pos { old(self).drag_id } else { None }),
            final(self).drag_is_window == old(self).drag_is_window,
            final(self).focus.id == old(self).focus.id,
            final(self).focus.interested@.len() == 0,
    {
        self.click_interest = false;
        self.drag_interest = false;
        if !was_down || !had_pos {
            self.click_id = None;
            self.drag_id = None;
        }
        self.focus.interested.clear();
    }
}

/// Puts `state` in the place of the entry on its layer. A layer that is
/// new goes in front of the layers of its own stacking class.
pub fn put_state(entries: &mut Vec<AreaState>, state: AreaState)
    ensures
        final(entries)@ == with_state(old(entries)@, state),
        stacked(old(entries)@) ==> stacked(final(entries)@),
{
    proof {
        if stacked(entries@) {
            lemma_with_state_keeps_stacking(entries@, state);
        }
    }
    let mut i: usize = 0;
    while i < entries.len()
        invariant
            i <= entries@.len(),
            entries@ == old(entries)@,
            forall|j: int| 0 <= j < i ==> (#[trigger] entries@[j]).layer_id != state.layer_id,
        decreases entries@.len() - i,
    {
        if entries[i].layer_id == state.layer_id {
            proof {
                lemma_index_of_layer_is(entries@, state.layer_id, i as int);
            }
            entries[i] = state;
            return;
        }
        i += 1;
    }
    proof {
        lemma_index_of_layer_is(entries@, state.layer_id, i as int);
    }
    let rank = state.layer_id.order.rank();
    let mut place: usize = 0;
    while place < entries.len() && entries[place].layer_id.order.rank() <= rank
        invariant
            place <= entries@.len(),
            entries@ == old(entries)@,
            rank == state.layer_id.order.spec_rank(),
            forall|j: int|
                0 <= j < place ==> (#[trigger] entries@[j]).layer_id.order.spec_rank()
                    <= rank,
        decreases entries@.len() - place,
    {
        place += 1;
    }
    proof {
        lemma_place_for_is(entries@, state.layer_id.order, place as int);
    }
    entries.insert(place, state);
}

/// Whether `layer` is among `layers`.
pub fn has_layer(layers: &Vec<LayerId>, layer: LayerId) -> (found: bool)
    ensures
        found == layers@.contains(layer),
{
    let mut i: usize = 0;
    while i < layers.len()
        invariant
            i <= layers@.len(),
            forall|j: int| 0 <= j < i ==> layers@[j] != layer,
        decreases layers@.len() - i,
    {
        if layers[i] == layer {
            return true;
        }
        i += 1;
    }
    false
}

impl Areas {
    /// Whether no layer occurs twice and the stacking classes come from back
    /// to front. `new` gives such a value and `set_state` keeps it so.
    pub open spec fn well_stacked(&self) -> bool {
        stacked(self.entries@)
    }

    pub fn new() -> (a: Areas)
        ensures
            a.entries@.len() == 0,
            a.visible_last_frame@.len() == 0,
            a.visible_current_frame@.len() == 0,
            a.well_stacked(),
    {
        Areas {
            entries: Vec::new(),
            visible_last_frame: Vec::new(),
            visible_current_frame: Vec::new(),
        }
    }

    /// Says where a layer lies, which makes the layer visible for this frame
    /// and the next. A layer that is new goes in front of the layers of its
    /// own stacking class.
    pub fn set_state(&mut self, state: AreaState)
        ensures
            final(self).entries@ == with_state(old(self).entries@, state),
            final(self).visible_current_frame@ == old(self).visible_current_frame@.push(
                state.layer_id,
            ),
            final(self).visible_last_frame@ == old(self).visible_last_frame@,
            old(self).well_stacked() ==> final(self).well_stacked(),
    {
        put_state(&mut self.entries, state);
        self.visible_current_frame.push(state.layer_id);
    }

    /// Ends a frame: what was visible during it is what was visible during
    /// the frame before, as the next frame sees it.
    pub fn end_frame(&mut self)
        ensures
            final(self).entries@ == old(self).entries@,
            final(self).visible_last_frame@ == old(self).visible_current_frame@,
            final(self).visible_current_frame@.len() == 0,
    {
        let mut seen: Vec<LayerId> = Vec::new();
        std::mem::swap(&mut seen, &mut self.visible_current_frame);
        self.visible_last_frame = seen;
    }

    /// The layers whose place was told during this frame or the one before.
    pub open spec fn visible_layers(&self) -> Set<LayerId> {
        Set::new(
            |l: LayerId|
                self.visible_last_frame@.contains(l) || self.visible_current_frame@.contains(l),
        )
    }

    /// Whether the place of `layer` was told during this frame or the one before.
    pub fn is_visible(&self, layer: LayerId) -> (visible: bool)
        ensures
            visible == self.visible_layers().contains(layer),
    {
        has_layer(&self.visible_last_frame, layer) || has_layer(
            &self.visible_current_frame,
            layer,
        )
    }

    /// The layers from back to front.
    pub open spec fn spec_order(&self) -> Seq<LayerId> {
        self.entries@.map_values(|e: AreaState| e.layer_id)
    }

    /// The layers from back to front.
    pub fn order(&self) -> (layers: Vec<LayerId>)
        ensures
            layers@ == self.spec_order(),
    {
        let mut layers: Vec<LayerId> = Vec::new();
        let mut i: usize = 0;
        while i < self.entries.len()
            invariant
                i <= self.entries@.len(),
                layers@ == self.entries@.take(i as int).map_values(|e: AreaState| e.layer_id),
            decreases self.entries@.len() - i,
        {
            layers.push(self.entries[i].layer_id);
            proof {
                assert(self.entries@.take(i + 1) == self.entries@.take(i as int).push(
                    self.entries@[i as int],
                ));
                assert(layers@ == self.entries@.take(i + 1).map_values(
                    |e: AreaState| e.layer_id,
                ));
            }
            i += 1;
        }
        proof {
            assert(self.entries@.take(self.entries@.len() as int) == self.entries@);
        }
        layers
    }

    /// The frontmost visible layer that catches a pointer at `pos`.
    pub fn layer_id_at(&self, pos: Pos2, radius: u16) -> (layer: Option<LayerId>)
        ensures
            layer == top_layer_at(self.entries@, self.visible_layers(), pos, radius as int),
    {
        let mut i: usize = self.entries.len();
        proof {
            assert(self.entries@.take(i as int) == self.entries@);
        }
        while i > 0
            invariant
                i <= self.entries@.len(),
                top_layer_at(self.entries@, self.visible_layers(), pos, radius as int)
                    == top_layer_at(
                    self.entries@.take(i as int),
                    self.visible_layers(),
                    pos,
                    radius as int,
                ),
            decreases i,
        {
            i -= 1;
            let e = self.entries[i];
            proof {
                assert(self.entries@.take(i + 1).drop_last() == self.entries@.take(i as int));
                assert(self.entries@.take(i + 1).last() == e);
            }
            if e.interactable && e.rect.grown_has(radius, radius, pos) && self.is_visible(
                e.layer_id,
            ) {
                return Some(e.layer_id);
            }
        }
        None
    }
}

impl Memory {
    pub fn new() -> (m: Memory)
        ensures
            m.options == (Options {
                screen_reader: false,
                resize_grab_radius_side: 5000,
                animation_time: 83,
                debug_on_hover: false,
            }),
            m.interaction.click_id is None,
            m.interaction.drag_id is None,
            !m.interaction.click_interest,
            !m.interaction.drag_interest,
            !m.interaction.drag_is_window,
            m.interaction.focus.id is None,
            m.interaction.focus.interested@.len() == 0,
            m.areas.entries@.len() == 0,
            m.areas.visible_last_frame@.len() == 0,
            m.areas.visible_current_frame@.len() == 0,
            m.areas.well_stacked(),
            m.window_interaction is None,
            m.new_pixels_per_point is None,
            m.new_font_definitions is None,
    {
        Memory {
            options: Options {
                screen_reader: false,
                resize_grab_radius_side: 5000,
                animation_time: 83,
                debug_on_hover: false,
            },
            interaction: Interaction::new(),
            areas: Areas::new(),
            window_interaction: None,
            new_pixels_per_point: None,
            new_font_definitions: None,
        }
    }

    /// The frontmost layer that catches a pointer at `pos`.
    pub open spec fn spec_layer_id_at(&self, pos: Pos2) -> Option<LayerId> {
        top_layer_at(
            self.areas.entries@,
            self.areas.visible_layers(),
            pos,
            self.options.resize_grab_radius_side as int,
        )
    }

    pub fn layer_id_at(&self, pos: Pos2) -> (layer: Option<LayerId>)
        ensures
            layer == self.spec_layer_id_at(pos),
    {
        self.areas.layer_id_at(pos, self.options.resize_grab_radius_side)
    }

    /// Claims the drag for the chrome of window `id`. Returns whether the
    /// claim succeeded; a drag that a widget holds is left alone.
    pub fn claim_window_drag(&mut self, id: Id) -> (claimed: bool)
        ensures
            claimed == old(self).interaction.window_may_drag(),
            claimed ==> final(self).interaction.drag_id == Some(id)
                && final(self).interaction.drag_is_window && final(self).window_interaction
                == Some(id),
            !claimed ==> final(self).interaction.drag_id == old(self).interaction.drag_id
                && final(self).interaction.drag_is_window == old(self).interaction.drag_is_window
                && final(self).window_interaction == old(self).window_interaction,
            final(self).interaction.click_id == old(self).interaction.click_id,
            final(self).interaction.click_interest == old(self).interaction.click_interest,
            final(self).interaction.drag_interest == old(self).interaction.drag_interest,
            final(self).interaction.focus == old(self).interaction.focus,
            final(self).options == old(self).options,
            final(self).areas == old(self).areas,
            final(self).new_pixels_per_point == old(self).new_pixels_per_point,
            final(self).new_font_definitions == old(self).new_font_definitions,
    {
        if self.interaction.drag_id.is_none() || self.interaction.drag_is_window {
            self.interaction.drag_id = Some(id);
            self.interaction.drag_is_window = true;
            self.window_interaction = Some(id);
            true
        } else {
            false
        }
    }

    /// Starts a frame, given the input of the frame before and the new raw
    /// input. The claims on the pointer outlive the frame only while a button
    /// is held over the surface, a move or resize of a window only while a
    /// button is held; Escape takes the focus away.
    pub fn begin_frame(&mut self, prev_input: &InputState, new_input: &RawInput)
        ensures
            !final(self).interaction.click_interest,
            !final(self).interaction.drag_interest,
            final(self).interaction.click_id == (if prev_input.pointer.spec_any_down()
                && prev_input.pointer.latest_pos is Some {
                old(self).interaction.click_id
            } else {
                None
            }),
            final(self).interaction.drag_id == (if prev_input.pointer.spec_any_down()
                && prev_input.pointer.latest_pos is Some {
                old(self).interaction.drag_id
            } else {
                None
            }),
            final(self).interaction.drag_is_window == old(self).interaction.drag_is_window,
            final(self).interaction.focus.id == (if keys_of(new_input.events@).contains(
                Key::Escape,
            ) {
                None
            } else {
                old(self).interaction.focus.id
            }),
            final(self).interaction.focus.interested@.len() == 0,
            final(self).window_interaction == (if prev_input.pointer.spec_any_down() {
                old(self).window_interaction
            } else {
                None
            }),
            final(self).options == old(self).options,
            final(self).areas == old(self).areas,
            final(self).new_pixels_per_point == old(self).new_pixels_per_point,
            final(self).new_font_definitions == old(self).new_font_definitions,
    {
        let was_down = prev_input.pointer.any_down();
        let had_pos = prev_input.pointer.latest_pos.is_some();
        self.interaction.begin_frame(was_down, had_pos);
        if !was_down {
            self.window_interaction = None;
        }
        if new_input.presses(Key::Escape) {
            self.interaction.focus.id = None;
        }
    }

    /// Ends a frame: a focused widget that is not among `used_ids`, the ids
    /// registered during the frame, loses the focus, and the layers that were
    /// visible during the frame are those of the frame before.
    pub fn end_frame(&mut self, used_ids: &HashMap<u64, Rect>)
        ensures
            final(self).interaction.focus.id == still_focused(
                old(self).interaction.focus.id,
                used_ids@,
            ),
            final(self).interaction.focus.interested@ == old(self).interaction.focus.interested@,
            final(self).interaction.click_id == old(self).interaction.click_id,
            final(self).interaction.drag_id == old(self).interaction.drag_id,
            final(self).interaction.click_interest == old(self).interaction.click_interest,
            final(self).interaction.drag_interest == old(self).interaction.drag_interest,
            final(self).interaction.drag_is_window == old(self).interaction.drag_is_window,
            final(self).window_interaction == old(self).window_interaction,
            final(self).options == old(self).options,
            final(self).areas.entries@ == old(self).areas.entries@,
            final(self).areas.visible_last_frame@ == old(self).areas.visible_current_frame@,
            final(self).areas.visible_current_frame@.len() == 0,
            final(self).new_pixels_per_point == old(self).new_pixels_per_point,
            final(self).new_font_definitions == old(self).new_font_definitions,
    {
        self.areas.end_frame();
        match self.interaction.focus.id {
            Some(id) => {
                if !used_ids.contains_key(&id.value) {
                    self.interaction.focus.id = None;
                }
            },
            None => {},
        }
    }
}

/// `FontDefinitions` of epaint: which font files to use for which text
/// style. The core hands such values on and never looks inside.
#[verifier::external_type_specification]
#[verifier::external_body]
pub struct ExFontDefinitions(FontDefinitions);

} // verus!
