//! The interaction resolver: from a widget's region and what it senses to
//! what happened to it this frame, and to who owns the pointer afterwards.

use vstd::prelude::*;
use crate::context::Context;
use crate::frame_state::{check_reuse, clashes, lookup};
use crate::geometry::{Pos2, Rect, Vec2};
use crate::ids::{ButtonFlags, Id, LayerId, PointerButton, Sense};
use crate::input::{has_click, Click, Key, PointerEvent};
use crate::memory::{Focus, Interaction};

verus! {


/// Half of this much spacing around a widget is never part of its hit area,
/// so that two neighbours are not hovered at once: half a point.
pub const HIT_GAP: i32 = 500;

/// A hit area grows by at most this much on each side: five points.
pub const MAX_HIT_GROWTH: u16 = 5000;

/// What happened to one widget during one call of the resolver.
#[derive(Clone, Copy, Debug, PartialEq, Eq, Structural)]
pub struct Response {
    pub layer_id: LayerId,
    pub id: Id,
    pub rect: Rect,
    pub sense: Sense,
    pub enabled: bool,
    /// The pointer is over the widget, and no other widget owns the pointer.
    pub hovered: bool,
    /// The buttons that clicked the widget this frame.
    pub clicked: ButtonFlags,
    /// The buttons that double-clicked the widget this frame.
    pub double_clicked: ButtonFlags,
    /// The widget is being dragged.
    pub dragged: bool,
    /// The widget was dragged and has just been let go.
    pub drag_released: bool,
    /// A button is held that went down on the widget.
    pub is_pointer_button_down_on: bool,
    /// Where the pointer is while it interacts with the widget.
    pub interact_pointer_pos: Option<Pos2>,
    /// Set by the widget itself where its value changed.
    pub changed: bool,
}

/// The claims on the pointer.
#[derive(Clone, Copy, Debug, PartialEq, Eq, Structural)]
pub struct Claims {
    pub click_id: Option<Id>,
    pub drag_id: Option<Id>,
    pub drag_is_window: bool,
    pub window_interaction: Option<Id>,
}

/// The resolver's state while it goes through the pointer events.
#[derive(Clone, Copy, Debug, PartialEq, Eq, Structural)]
pub struct Pass {
    pub claims: Claims,
    pub response: Response,
}

/// By how much a hit area grows on one axis for the item spacing `spacing`:
/// half the spacing less the gap, but not less than nothing nor more than the limit.
pub open spec fn hit_growth(spacing: int) -> int {
    if spacing <= 2 * HIT_GAP {
        0
    } else if spacing >= 2 * (HIT_GAP + MAX_HIT_GROWTH) {
        MAX_HIT_GROWTH as int
    } else {
        spacing / 2 - HIT_GAP
    }
}

/// Whether a pointer at `pos` hits the widget at `rect`: it lies in the clip
/// rectangle and in the widget's rectangle grown by the hit growth.
pub open spec fn hits(clip_rect: Rect, item_spacing: Vec2, rect: Rect, pos: Pos2) -> bool {
    clip_rect.spec_contains(pos) && rect.grown_contains(
        hit_growth(item_spacing.x as int),
        hit_growth(item_spacing.y as int),
        pos,
    )
}

/// The response of a widget to which nothing has happened.
pub open spec fn blank(
    layer_id: LayerId,
    id: Id,
    rect: Rect,
    sense: Sense,
    enabled: bool,
    hovered: bool,
) -> Response {
    Response {
        layer_id,
        id,
        rect,
        sense,
        enabled,
        hovered,
        clicked: ButtonFlags::spec_none(),
        double_clicked: ButtonFlags::spec_none(),
        dragged: false,
        drag_released: false,
        is_pointer_button_down_on: false,
        interact_pointer_pos: None,
        changed: false,
    }
}

/// Whether the resolver has nothing to decide for a widget: it senses
/// neither focus nor clicks nor drags, or its layer takes no input.
pub open spec fn takes_no_input(layer_id: LayerId, sense: Sense) -> bool {
    (!sense.focusable && !sense.spec_interactive()) || !layer_id.spec_allow_interaction()
}

/// The state after a button went down. A hovered widget takes the click if
/// nobody has it, and the drag if nobody has it or window chrome has it; a
/// drag it takes ends any move or resize of a window.
pub open spec fn on_press(p: Pass, id: Id, sense: Sense, hovered: bool) -> Pass {
    let take_click = hovered && sense.click && p.claims.click_id is None;
    let take_drag = hovered && sense.drag && (p.claims.drag_id is None || p.claims.drag_is_window);
    Pass {
        claims: Claims {
            click_id: if take_click { Some(id) } else { p.claims.click_id },
            drag_id: if take_drag { Some(id) } else { p.claims.drag_id },
            drag_is_window: if take_drag { false } else { p.claims.drag_is_window },
            window_interaction: if take_drag { None } else { p.claims.window_interaction },
        },
        response: Response {
            is_pointer_button_down_on: p.response.is_pointer_button_down_on || take_click
                || take_drag,
            dragged: p.response.dragged || take_drag,
            ..p.response
        },
    }
}

/// The state after a button came up. A drag of the widget ends; a release
/// that counts as a click clicks the widget if it is hovered and the button
/// went down on it.
pub open spec fn on_release(p: Pass, hovered: bool, click: Option<Click>) -> Pass {
    let r = p.response;
    let counts = hovered && r.is_pointer_button_down_on && click is Some;
    Pass {
        claims: p.claims,
        response: Response {
            drag_released: r.drag_released || r.dragged,
            dragged: false,
            clicked: if counts { r.clicked.spec_with(click->Some_0.button, true) } else { r.clicked },
            double_clicked: if counts && click->Some_0.spec_is_double() {
                r.double_clicked.spec_with(click->Some_0.button, true)
            } else {
                r.double_clicked
            },
            ..r
        },
    }
}

/// The state after one pointer event.
pub open spec fn on_event(p: Pass, id: Id, sense: Sense, hovered: bool, event: PointerEvent) -> Pass {
    match event {
        PointerEvent::Moved(_) => p,
        PointerEvent::Pressed(_) => on_press(p, id, sense, hovered),
        PointerEvent::Released(click) => on_release(p, hovered, click),
    }
}

/// The state after the pointer events of a frame, taken in order of arrival.
pub open spec fn after_events(
    p: Pass,
    id: Id,
    sense: Sense,
    hovered: bool,
    events: Seq<PointerEvent>,
) -> Pass
    decreases events.len(),
{
    if events.len() == 0 {
        p
    } else {
        on_event(after_events(p, id, sense, hovered, events.drop_last()), id, sense, hovered, events.last())
    }
}

/// The pointer events change nothing of a response but its clicks, its drag
/// and whether a button is down on it.
pub proof fn lemma_events_keep_the_rest(
    p: Pass,
    id: Id,
    sense: Sense,
    hovered: bool,
    events: Seq<PointerEvent>,
)
    ensures
        ({
            let r = after_events(p, id, sense, hovered, events).response;
            &&& r.layer_id == p.response.layer_id
            &&& r.id == p.response.id
            &&& r.rect == p.response.rect
            &&& r.sense == p.response.sense
            &&& r.enabled == p.response.enabled
            &&& r.hovered == p.response.hovered
            &&& r.interact_pointer_pos == p.response.interact_pointer_pos
            &&& r.changed == p.response.changed
        }),
    decreases events.len(),
{
    if events.len() > 0 {
        lemma_events_keep_the_rest(p, id, sense, hovered, events.drop_last());
    }
}

/// A drag that a widget holds stays with it through all pointer events of a
/// frame, whichever widget is resolved: another widget takes a drag only
/// from nobody or from window chrome.
pub proof fn lemma_widget_drag_is_kept(
    p: Pass,
    id: Id,
    sense: Sense,
    hovered: bool,
    events: Seq<PointerEvent>,
)
    requires
        p.claims.drag_id is Some,
        !p.claims.drag_is_window,
    ensures
        after_events(p, id, sense, hovered, events).claims.drag_id == p.claims.drag_id,
        !after_events(p, id, sense, hovered, events).claims.drag_is_window,
    decreases events.len(),
{
    if events.len() > 0 {
        lemma_widget_drag_is_kept(p, id, sense, hovered, events.drop_last());
    }
}

/// A click that a widget holds stays with it through all pointer events of a frame.
pub proof fn lemma_click_is_kept(
    p: Pass,
    id: Id,
    sense: Sense,
    hovered: bool,
    events: Seq<PointerEvent>,
)
    requires
        p.claims.click_id is Some,
    ensures
        after_events(p, id, sense, hovered, events).claims.click_id == p.claims.click_id,
    decreases events.len(),
{
    if events.len() > 0 {
        lemma_click_is_kept(p, id, sense, hovered, events.drop_last());
    }
}

/// A hovered widget that senses drags takes the drag on a press from nobody
/// and from window chrome, and window chrome cannot take it back: a claim
/// of window chrome succeeds only while nobody or window chrome has the drag.
pub proof fn lemma_widget_drag_outranks_window(p: Pass, id: Id, sense: Sense, next: Interaction)
    requires
        sense.drag,
        p.claims.drag_id is None || p.claims.drag_is_window,
        next.drag_id == on_press(p, id, sense, true).claims.drag_id,
        next.drag_is_window == on_press(p, id, sense, true).claims.drag_is_window,
    ensures
        on_press(p, id, sense, true).claims.drag_id == Some(id),
        !on_press(p, id, sense, true).claims.drag_is_window,
        on_press(p, id, sense, true).claims.window_interaction is None,
        !next.window_may_drag(),
{
}

/// Of two widgets on different layers that are resolved one after the other
/// in one frame, at most one is hovered: a widget is hovered only on the
/// frontmost layer under the pointer.
pub proof fn lemma_hover_is_exclusive_across_layers(
    ctx: Context,
    mid: Context,
    end: Context,
    a: Response,
    clip_a: Rect,
    spacing_a: Vec2,
    b: Response,
    clip_b: Rect,
    spacing_b: Vec2,
)
    requires
        ctx.resolves_to(
            mid,
            a,
            a.layer_id,
            a.id,
            a.rect,
            a.sense,
            a.enabled,
            ctx.hovers(clip_a, spacing_a, a.layer_id, a.rect),
        ),
        mid.resolves_to(
            end,
            b,
            b.layer_id,
            b.id,
            b.rect,
            b.sense,
            b.enabled,
            mid.hovers(clip_b, spacing_b, b.layer_id, b.rect),
        ),
        a.layer_id != b.layer_id,
    ensures
        !(a.hovered && b.hovered),
        a.hovered ==> ctx.hovers(clip_a, spacing_a, a.layer_id, a.rect),
        b.hovered ==> ctx.hovers(clip_b, spacing_b, b.layer_id, b.rect),
{
}

/// The state after one pointer event.
pub fn apply_event(p: Pass, id: Id, sense: Sense, hovered: bool, event: PointerEvent) -> (next: Pass)
    ensures
        next == on_event(p, id, sense, hovered, event),
{
    let mut next = p;
    match event {
        PointerEvent::Moved(_) => {},
        PointerEvent::Pressed(_) => {
            if hovered {
                if sense.click && next.claims.click_id.is_none() {
                    next.claims.click_id = Some(id);
                    next.response.is_pointer_button_down_on = true;
                }
                // A widget takes a drag away from the window it sits in.
                if sense.drag && (next.claims.drag_id.is_none() || next.claims.drag_is_window) {
                    next.claims.drag_id = Some(id);
                    next.claims.drag_is_window = false;
                    next.claims.window_interaction = None;
                    next.response.is_pointer_button_down_on = true;
                    next.response.dragged = true;
                }
            }
        },
        PointerEvent::Released(click) => {
            if next.response.dragged {
                next.response.drag_released = true;
                next.response.dragged = false;
            }
            if hovered && next.response.is_pointer_button_down_on {
                match click {
                    Some(click) => {
                        next.response.clicked = next.response.clicked.with(click.button, true);
                        if click.is_double() {
                            next.response.double_clicked = next.response.double_clicked.with(
                                click.button,
                                true,
                            );
                        }
                    },
                    None => {},
                }
            }
        },
    }
    next
}

/// The state after the pointer events of a frame, taken in order of arrival.
pub fn apply_events(
    start: Pass,
    id: Id,
    sense: Sense,
    hovered: bool,
    events: &Vec<PointerEvent>,
) -> (end: Pass)
    ensures
        end == after_events(start, id, sense, hovered, events@),
{
    let mut pass = start;
    let mut i: usize = 0;
    while i < events.len()
        invariant
            i <= events@.len(),
            pass == after_events(start, id, sense, hovered, events@.take(i as int)),
        decreases events@.len() - i,
    {
        let event = events[i];
        proof {
            assert(events@.take(i + 1).drop_last() == events@.take(i as int));
            assert(events@.take(i + 1).last() == event);
        }
        pass = apply_event(pass, id, sense, hovered, event);
        i += 1;
    }
    proof {
        assert(events@.take(events@.len() as int) == events@);
    }
    pass
}

/// By how much a hit area grows on one axis for the item spacing `spacing`.
pub fn hit_growth_for(spacing: i32) -> (growth: u16)
    ensures
        growth == hit_growth(spacing as int),
{
    if spacing <= 2 * HIT_GAP {
        0
    } else if spacing >= 2 * (HIT_GAP + 5000) {
        MAX_HIT_GROWTH
    } else {
        let g: i32 = spacing / 2 - HIT_GAP;
        g as u16
    }
}

impl Context {
    /// The claims on the pointer as the memory holds them.
    pub open spec fn claims(&self) -> Claims {
        Claims {
            click_id: self.memory.interaction.click_id,
            drag_id: self.memory.interaction.drag_id,
            drag_is_window: self.memory.interaction.drag_is_window,
            window_interaction: self.memory.window_interaction,
        }
    }

    /// Whether the pointer hovers the widget at `rect` on `layer_id`: its
    /// position hits the widget, and the frontmost layer there is `layer_id`.
    pub open spec fn hovers(
        &self,
        clip_rect: Rect,
        item_spacing: Vec2,
        layer_id: LayerId,
        rect: Rect,
    ) -> bool {
        match self.input.pointer.interact_pos {
            Some(pos) => hits(clip_rect, item_spacing, rect, pos)
                && self.memory.spec_layer_id_at(pos) == Some(layer_id),
            None => false,
        }
    }

    /// Whether the focused widget is activated from the keyboard: Space or
    /// Enter went down this frame.
    pub open spec fn key_activates(&self) -> bool {
        self.input.keys_pressed@.contains(Key::Space) || self.input.keys_pressed@.contains(
            Key::Enter,
        )
    }

    /// Whether a click was completed this frame that did not go to the widget
    /// at `rect`: the widget is not hovered and the pointer is outside `rect`.
    pub open spec fn clicked_elsewhere(&self, rect: Rect, hovered: bool) -> bool {
        &&& has_click(self.input.pointer.pointer_events@)
        &&& !hovered
        &&& self.input.pointer.interact_pos is Some
        &&& !rect.spec_contains(self.input.pointer.interact_pos->Some_0)
    }

    /// The resolver's state before it looks at the pointer events.
    pub open spec fn before_events(
        &self,
        layer_id: LayerId,
        id: Id,
        rect: Rect,
        sense: Sense,
        enabled: bool,
        hovered: bool,
    ) -> Pass {
        let start = blank(layer_id, id, rect, sense, enabled, hovered && enabled);
        let by_key = sense.click && self.memory.interaction.focus.id == Some(id)
            && self.key_activates();
        let dragged = sense.spec_interactive() && self.memory.interaction.drag_id == Some(id);
        let down_on = sense.spec_interactive() && (self.memory.interaction.click_id == Some(id)
            || dragged);
        Pass {
            claims: self.claims(),
            response: Response {
                clicked: if by_key {
                    start.clicked.spec_with(PointerButton::Primary, true)
                } else {
                    start.clicked
                },
                dragged,
                is_pointer_button_down_on: down_on,
                ..start
            },
        }
    }

    /// The resolver's state after the pointer events of the frame.
    pub open spec fn after_pointer(
        &self,
        layer_id: LayerId,
        id: Id,
        rect: Rect,
        sense: Sense,
        enabled: bool,
        hovered: bool,
    ) -> Pass {
        let before = self.before_events(layer_id, id, rect, sense, enabled, hovered);
        if sense.spec_interactive() {
            after_events(before, id, sense, hovered && enabled, self.input.pointer.pointer_events@)
        } else {
            before
        }
    }

    /// What the resolver answers for a widget that takes input. While a
    /// button is held anywhere, only the widget it went down on is hovered.
    pub open spec fn answer(
        &self,
        layer_id: LayerId,
        id: Id,
        rect: Rect,
        sense: Sense,
        enabled: bool,
        hovered: bool,
    ) -> Response {
        let r = self.after_pointer(layer_id, id, rect, sense, enabled, hovered).response;
        Response {
            interact_pointer_pos: if r.is_pointer_button_down_on {
                self.input.pointer.interact_pos
            } else {
                None
            },
            hovered: r.hovered && (!self.input.pointer.spec_any_down()
                || r.is_pointer_button_down_on),
            ..r
        }
    }

    /// Whether `next` and `response` are what the resolver makes of the state
    /// `self` for the widget `id`, given whether the pointer hovers it.
    pub open spec fn resolves_to(
        &self,
        next: Context,
        response: Response,
        layer_id: LayerId,
        id: Id,
        rect: Rect,
        sense: Sense,
        enabled: bool,
        hovered: bool,
    ) -> bool {
        let h = hovered && enabled;
        let claims = self.after_pointer(layer_id, id, rect, sense, enabled, hovered).claims;
        let focus = self.memory.interaction.focus;
        &&& response.layer_id == layer_id
        &&& response.id == id
        &&& response.rect == rect
        &&& response.sense == sense
        &&& response.enabled == enabled
        &&& !response.changed
        &&& response.hovered ==> h
        &&& next.fonts == self.fonts
        &&& next.input == self.input
        &&& next.graphics == self.graphics
        &&& next.animation_manager == self.animation_manager
        &&& next.repaint_requests == self.repaint_requests
        &&& next.output.needs_repaint == self.output.needs_repaint
        &&& next.frame_state.available_rect == self.frame_state.available_rect
        &&& next.frame_state.unused_rect == self.frame_state.unused_rect
        &&& next.frame_state.used_by_panels == self.frame_state.used_by_panels
        &&& next.memory.options == self.memory.options
        &&& next.memory.areas == self.memory.areas
        &&& next.memory.new_pixels_per_point == self.memory.new_pixels_per_point
        &&& next.memory.new_font_definitions == self.memory.new_font_definitions
        &&& if takes_no_input(layer_id, sense) {
            &&& response == blank(layer_id, id, rect, sense, enabled, h)
            &&& next.memory.interaction.focus.id == Focus::without(focus.id, id)
            &&& next.memory.interaction.focus.interested@ == focus.interested@
            &&& next.claims() == self.claims()
            &&& next.memory.interaction.click_interest == self.memory.interaction.click_interest
            &&& next.memory.interaction.drag_interest == self.memory.interaction.drag_interest
            &&& next.frame_state.used_ids@ == self.frame_state.used_ids@
            &&& next.output.id_clashes@ == self.output.id_clashes@
        } else {
            &&& response == self.answer(layer_id, id, rect, sense, enabled, hovered)
            &&& next.claims() == claims
            &&& next.memory.interaction.click_interest == (self.memory.interaction.click_interest
                || (h && sense.click))
            &&& next.memory.interaction.drag_interest == (self.memory.interaction.drag_interest
                || (h && sense.drag))
            &&& next.memory.interaction.focus.interested@ == (if sense.spec_interactive() || (
            sense.focusable && self.memory.options.screen_reader) {
                focus.interested@.push(id)
            } else {
                focus.interested@
            })
            &&& next.memory.interaction.focus.id == (if self.clicked_elsewhere(rect, h) {
                Focus::without(focus.id, id)
            } else {
                focus.id
            })
            &&& next.frame_state.used_ids@ == self.frame_state.used_ids@.insert(id.value, rect)
            &&& next.output.id_clashes@ == self.output.id_clashes@ + clashes(
                lookup(self.frame_state.used_ids@, id),
                id,
                rect,
            )
        }
    }

    /// Registers `id` with the rectangle `new_rect` for this frame. An id
    /// that was registered before with a rectangle that has no position in
    /// common with the new one is flagged in the frame's output, at both places.
    pub fn register_interaction_id(&mut self, id: Id, new_rect: Rect)
        ensures
            final(self).frame_state.used_ids@ == old(self).frame_state.used_ids@.insert(
                id.value,
                new_rect,
            ),
            final(self).output.id_clashes@ == old(self).output.id_clashes@ + clashes(
                lookup(old(self).frame_state.used_ids@, id),
                id,
                new_rect,
            ),
            final(self).output.needs_repaint == old(self).output.needs_repaint,
            final(self).frame_state.available_rect == old(self).frame_state.available_rect,
            final(self).frame_state.unused_rect == old(self).frame_state.unused_rect,
            final(self).frame_state.used_by_panels == old(self).frame_state.used_by_panels,
            final(self).fonts == old(self).fonts,
            final(self).input == old(self).input,
            final(self).memory == old(self).memory,
            final(self).graphics == old(self).graphics,
            final(self).animation_manager == old(self).animation_manager,
            final(self).repaint_requests == old(self).repaint_requests,
    {
        let prev = self.frame_state.register(id, new_rect);
        let mut found = check_reuse(prev, id, new_rect);
        self.output.id_clashes.append(&mut found);
    }

    /// What the resolver answers for a widget that takes input, and the
    /// claims on the pointer afterwards.
    pub fn answer_for(
        &self,
        layer_id: LayerId,
        id: Id,
        rect: Rect,
        sense: Sense,
        enabled: bool,
        hovered: bool,
    ) -> (pass: Pass)
        ensures
            pass.claims == self.after_pointer(layer_id, id, rect, sense, enabled, hovered).claims,
            pass.response == self.answer(layer_id, id, rect, sense, enabled, hovered),
    {
        // A disabled widget is never hovered.
        let h = hovered && enabled;
        let mut response = Response {
            layer_id,
            id,
            rect,
            sense,
            enabled,
            hovered: h,
            clicked: ButtonFlags::none(),
            double_clicked: ButtonFlags::none(),
            dragged: false,
            drag_released: false,
            is_pointer_button_down_on: false,
            interact_pointer_pos: None,
            changed: false,
        };
        if sense.click && self.memory.interaction.focus.has_focus(id) && (self.input.key_pressed(
            Key::Space,
        ) || self.input.key_pressed(Key::Enter)) {
            // Space and Enter work like a primary click on the focused widget.
            response.clicked = response.clicked.with(PointerButton::Primary, true);
        }
        let mut pass = Pass {
            claims: Claims {
                click_id: self.memory.interaction.click_id,
                drag_id: self.memory.interaction.drag_id,
                drag_is_window: self.memory.interaction.drag_is_window,
                window_interaction: self.memory.window_interaction,
            },
            response,
        };
        if sense.click || sense.drag {
            pass.response.dragged = id.is_in(self.memory.interaction.drag_id);
            pass.response.is_pointer_button_down_on = id.is_in(self.memory.interaction.click_id)
                || pass.response.dragged;
            pass = apply_events(pass, id, sense, h, &self.input.pointer.pointer_events);
        }
        pass.response.interact_pointer_pos = if pass.response.is_pointer_button_down_on {
            self.input.pointer.interact_pos()
        } else {
            None
        };
        if self.input.pointer.any_down() {
            // No hover while the pointer interacts with another widget.
            pass.response.hovered = pass.response.hovered
                && pass.response.is_pointer_button_down_on;
        }
        pass
    }

    /// Resolves the interaction of the widget `id` at `rect` on `layer_id`,
    /// given whether the pointer hovers it.
    pub fn interact_with_hovered(
        &mut self,
        layer_id: LayerId,
        id: Id,
        rect: Rect,
        sense: Sense,
        enabled: bool,
        hovered: bool,
    ) -> (response: Response)
        ensures
            old(self).resolves_to(
                *final(self),
                response,
                layer_id,
                id,
                rect,
                sense,
                enabled,
                hovered,
            ),
    {
        let h = hovered && enabled;
        if (!sense.focusable && !sense.interactive()) || !layer_id.allow_interaction() {
            self.memory.interaction.focus.surrender_focus(id);
            return Response {
                layer_id,
                id,
                rect,
                sense,
                enabled,
                hovered: h,
                clicked: ButtonFlags::none(),
                double_clicked: ButtonFlags::none(),
                dragged: false,
                drag_released: false,
                is_pointer_button_down_on: false,
                interact_pointer_pos: None,
                changed: false,
            };
        }
        let pass = self.answer_for(layer_id, id, rect, sense, enabled, hovered);
        proof {
            lemma_events_keep_the_rest(
                self.before_events(layer_id, id, rect, sense, enabled, hovered),
                id,
                sense,
                h,
                self.input.pointer.pointer_events@,
            );
        }
        let clicked_elsewhere = self.input.pointer.any_click() && !h
            && match self.input.pointer.interact_pos() {
            Some(pos) => !rect.contains(pos),
            None => false,
        };

        self.register_interaction_id(id, rect);
        // Labels take focus only for a screen reader.
        if sense.interactive() || (sense.focusable && self.memory.options.screen_reader) {
            self.memory.interaction.focus.interested_in_focus(id);
        }
        self.memory.interaction.click_interest = self.memory.interaction.click_interest || (h
            && sense.click);
        self.memory.interaction.drag_interest = self.memory.interaction.drag_interest || (h
            && sense.drag);
        self.memory.interaction.click_id = pass.claims.click_id;
        self.memory.interaction.drag_id = pass.claims.drag_id;
        self.memory.interaction.drag_is_window = pass.claims.drag_is_window;
        self.memory.window_interaction = pass.claims.window_interaction;
        if clicked_elsewhere {
            self.memory.interaction.focus.surrender_focus(id);
        }
        pass.response
    }

    /// Resolves the interaction of the widget `id` at `rect` on `layer_id`.
    /// The pointer hovers the widget where it hits the widget's hit area
    /// within `clip_rect` and `layer_id` is the frontmost layer there.
    pub fn interact(
        &mut self,
        clip_rect: Rect,
        item_spacing: Vec2,
        layer_id: LayerId,
        id: Id,
        rect: Rect,
        sense: Sense,
        enabled: bool,
    ) -> (response: Response)
        ensures
            old(self).resolves_to(
                *final(self),
                response,
                layer_id,
                id,
                rect,
                sense,
                enabled,
                old(self).hovers(clip_rect, item_spacing, layer_id, rect),
            ),
    {
        let grow_x = hit_growth_for(item_spacing.x);
        let grow_y = hit_growth_for(item_spacing.y);
        let hovered = match self.input.pointer.interact_pos() {
            Some(pos) => clip_rect.contains(pos) && rect.grown_has(grow_x, grow_y, pos)
                && layer_id.is_in(self.layer_id_at(pos)),
            None => false,
        };
        self.interact_with_hovered(layer_id, id, rect, sense, enabled, hovered)
    }
}

} // verus!
