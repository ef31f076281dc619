//! The state of one run of the GUI and the life cycle of a frame.

use vstd::prelude::*;
use crate::animation::{in_flight, shown, remembered, AnimationManager, BoolAnim};
use crate::fonts::{
    definitions_equal, definitions_same, must_rebuild, next_generation, ratio_changed, reconcile, FontCache,
};
use crate::graphics::{paint_order, GraphicLayers};
use crate::ids::Id;
use epaint::ClippedShape;
use crate::frame_state::{nothing, FrameState, IdClash};
use crate::geometry::{Pos2, Rect};
use crate::ids::{ButtonFlags, LayerId, Order};
use crate::input::{
    down_after, initial_screen_rect, keys_of, next_time, pos_after, resolved, InputState, Key,
    RawInput,
};
use crate::memory::{still_focused, with_state, AreaState, Memory, Options};
use epaint::text::FontDefinitions;

verus! {

broadcast use vstd::std_specs::hash::group_hash_axioms;

/// The counter value that a repaint request sets: the frame after this one
/// is painted too, so that a request made late in a frame is not lost.
pub const REPAINT_FRAMES: u32 = 2;

/// What a frame hands back to the caller.
pub struct Output {
    /// Whether the caller has to schedule another frame.
    pub needs_repaint: bool,
    /// The ids that were used for two different places during the frame.
    pub id_clashes: Vec<IdClash>,
}

/// The one owner of all state of a run.
pub struct Context {
    /// `None` until the first frame has begun.
    pub fonts: Option<FontCache>,
    pub memory: Memory,
    pub input: InputState,
    pub frame_state: FrameState,
    /// What was painted during the frame.
    pub graphics: GraphicLayers,
    pub animation_manager: AnimationManager,
    pub output: Output,
    /// While positive, another frame is wanted; goes down by one at the end of each frame.
    pub repaint_requests: u32,
}

/// The repaint counter at the end of a frame that began with `requests`;
/// `wanted` says whether the frame's input asks for a repaint.
pub open spec fn counter_after_frame(requests: u32, wanted: bool) -> u32 {
    let bumped = if wanted { REPAINT_FRAMES } else { requests };
    if bumped > 0 { (bumped - 1) as u32 } else { 0 }
}

/// Whether a frame that began with `requests` reports that it needs a repaint.
pub open spec fn frame_needs_repaint(requests: u32, wanted: bool) -> bool {
    wanted || requests > 0
}

/// The repaint counter after `n` frames without input or requests.
pub open spec fn counter_after_quiet_frames(requests: u32, n: nat) -> u32
    decreases n,
{
    if n == 0 {
        requests
    } else {
        counter_after_frame(counter_after_quiet_frames(requests, (n - 1) as nat), false)
    }
}

/// Without input or requests the repaint counter goes down by one per frame
/// until it is zero: after `n` frames it is `requests - n`, or zero.
pub proof fn lemma_quiet_frames_count_down(requests: u32, n: nat)
    ensures
        counter_after_quiet_frames(requests, n) == (if n >= requests { 0 } else { requests - n }),
    decreases n,
{
    if n > 0 {
        lemma_quiet_frames_count_down(requests, (n - 1) as nat);
    }
}

/// After at least as many frames without input or requests as the counter
/// started with, the counter is zero, and it is zero after every later frame.
pub proof fn lemma_quiet_frames_settle(requests: u32, n: nat, later: nat)
    requires
        n >= requests,
        later >= n,
    ensures
        counter_after_quiet_frames(requests, n) == 0,
        counter_after_quiet_frames(requests, later) == 0,
{
    lemma_quiet_frames_count_down(requests, n);
    lemma_quiet_frames_count_down(requests, later);
}

/// A frame that was given no event does not ask for a repaint, so that its
/// end moves the repaint counter as a quiet frame does.
pub proof fn lemma_frame_without_events_is_quiet(input: InputState, raw: RawInput, requests: u32)
    requires
        raw.events@.len() == 0,
        input.had_events == (raw.events@.len() > 0),
        input.pointer.pointer_events@ == resolved(raw.events@),
    ensures
        !input.spec_wants_repaint(),
        counter_after_frame(requests, input.spec_wants_repaint()) == counter_after_quiet_frames(
            requests,
            1,
        ),
{
    reveal_with_fuel(counter_after_quiet_frames, 2);
}

/// A pixel ratio that was set since the last frame, and that the platform
/// does not overrule, is the ratio of the next frame; where it differs from
/// the ratio the font cache was built for by more than the tolerance, the
/// next frame rebuilds the cache.
pub proof fn lemma_new_ratio_rebuilds_fonts(ctx: Context, raw: RawInput, ratio: u32)
    requires
        ctx.memory.new_pixels_per_point == Some(ratio),
        raw.pixels_per_point is None,
        ctx.fonts is Some,
        ratio_changed(ctx.fonts->Some_0.pixels_per_point, ratio),
    ensures
        ctx.next_pixels_per_point(raw) == ratio,
        must_rebuild(
            ctx.fonts,
            ctx.memory.new_font_definitions is Some,
            ctx.next_pixels_per_point(raw),
        ),
{
}

impl Output {
    pub fn new() -> (o: Output)
        ensures
            !o.needs_repaint,
            o.id_clashes@.len() == 0,
    {
        Output { needs_repaint: false, id_clashes: Vec::new() }
    }
}

impl Context {
    /// A fresh state. It asks for one repaint, since some widgets take two
    /// frames to settle.
    pub fn new() -> (ctx: Context)
        ensures
            ctx.repaint_requests == 1,
            ctx.fonts is None,
            ctx.memory.options == (Options {
                screen_reader: false,
                resize_grab_radius_side: 5000,
                animation_time: 83,
                debug_on_hover: false,
            }),
            ctx.memory.interaction.click_id is None,
            ctx.memory.interaction.drag_id is None,
            !ctx.memory.interaction.click_interest,
            !ctx.memory.interaction.drag_interest,
            !ctx.memory.interaction.drag_is_window,
            ctx.memory.interaction.focus.id is None,
            ctx.memory.interaction.focus.interested@.len() == 0,
            ctx.memory.areas.entries@.len() == 0,
            ctx.memory.areas.visible_last_frame@.len() == 0,
            ctx.memory.areas.visible_current_frame@.len() == 0,
            ctx.memory.areas.well_stacked(),
            ctx.memory.window_interaction is None,
            ctx.memory.new_pixels_per_point is None,
            ctx.memory.new_font_definitions is None,
            ctx.input.screen_rect == initial_screen_rect(),
            ctx.input.pixels_per_point == 1000,
            ctx.input.pointer.latest_pos is None,
            ctx.input.pointer.interact_pos is None,
            ctx.input.pointer.down == ButtonFlags::spec_none(),
            ctx.input.pointer.pointer_events@.len() == 0,
            ctx.input.keys_pressed@.len() == 0,
            !ctx.input.had_events,
            ctx.input.time == 0,
            ctx.input.predicted_dt == 16,
            ctx.frame_state.used_ids@ == Map::<u64, Rect>::empty(),
            ctx.frame_state.available_rect == nothing(),
            ctx.frame_state.unused_rect == nothing(),
            ctx.frame_state.used_by_panels == nothing(),
            !ctx.output.needs_repaint,
            ctx.output.id_clashes@.len() == 0,
            ctx.graphics@.len() == 0,
            ctx.animation_manager.bools@ == Map::<u64, BoolAnim>::empty(),
    {
        Context {
            fonts: None,
            memory: Memory::new(),
            input: InputState::new(),
            frame_state: FrameState::new(),
            graphics: GraphicLayers::new(),
            animation_manager: AnimationManager::new(),
            output: Output::new(),
            repaint_requests: 1,
        }
    }

    /// Asks for another frame after this one. However often it is called
    /// during a frame, the counter is the same.
    pub fn request_repaint(&mut self)
        ensures
            *final(self) == (Context { repaint_requests: REPAINT_FRAMES, ..*old(self) }),
    {
        self.repaint_requests = REPAINT_FRAMES;
    }

    /// The pixel ratio of the current frame, in thousandths.
    pub fn pixels_per_point(&self) -> (p: u32)
        ensures
            p == self.input.pixels_per_point,
    {
        self.input.pixels_per_point
    }

    /// Sets the pixel ratio (in thousandths) that the next frame starts with,
    /// and asks for a repaint where it differs from the current one.
    pub fn set_pixels_per_point(&mut self, pixels_per_point: u32)
        ensures
            final(self).memory.new_pixels_per_point == Some(pixels_per_point),
            final(self).repaint_requests == (if pixels_per_point != old(self).input.pixels_per_point {
                REPAINT_FRAMES
            } else {
                old(self).repaint_requests
            }),
            final(self).fonts == old(self).fonts,
            final(self).input == old(self).input,
            final(self).frame_state == old(self).frame_state,
            final(self).animation_manager == old(self).animation_manager,
            final(self).graphics == old(self).graphics,
            final(self).output == old(self).output,
            final(self).memory.options == old(self).memory.options,
            final(self).memory.interaction == old(self).memory.interaction,
            final(self).memory.areas == old(self).memory.areas,
            final(self).memory.window_interaction == old(self).memory.window_interaction,
            final(self).memory.new_font_definitions == old(self).memory.new_font_definitions,
    {
        if pixels_per_point != self.input.pixels_per_point {
            self.request_repaint();
        }
        self.memory.new_pixels_per_point = Some(pixels_per_point);
    }

    /// Puts `definitions` in line for the next frame, unless
    /// `same_as_current` says that the font cache was built from equal ones.
    /// Before the first frame there is no cache to compare with, and the
    /// definitions are always taken.
    pub fn stage_fonts(&mut self, definitions: FontDefinitions, same_as_current: bool)
        ensures
            final(self).memory.new_font_definitions == (if old(self).fonts is Some
                && same_as_current {
                old(self).memory.new_font_definitions
            } else {
                Some(definitions)
            }),
            final(self).fonts == old(self).fonts,
            final(self).input == old(self).input,
            final(self).frame_state == old(self).frame_state,
            final(self).animation_manager == old(self).animation_manager,
            final(self).graphics == old(self).graphics,
            final(self).output == old(self).output,
            final(self).repaint_requests == old(self).repaint_requests,
            final(self).memory.options == old(self).memory.options,
            final(self).memory.interaction == old(self).memory.interaction,
            final(self).memory.areas == old(self).memory.areas,
            final(self).memory.window_interaction == old(self).memory.window_interaction,
            final(self).memory.new_pixels_per_point == old(self).memory.new_pixels_per_point,
    {
        if self.fonts.is_some() && same_as_current {
            return;
        }
        self.memory.new_font_definitions = Some(definitions);
    }

    /// Tells which fonts to use from the next frame on. Definitions that
    /// compare equal to those the font cache was built from are dropped,
    /// which saves a rebuild; before the first frame there is no cache, and
    /// the definitions are always taken.
    pub fn set_fonts(&mut self, definitions: FontDefinitions)
        ensures
            final(self).memory.new_font_definitions == (if old(self).fonts is Some
                && definitions_same(old(self).fonts->Some_0.definitions, definitions) {
                old(self).memory.new_font_definitions
            } else {
                Some(definitions)
            }),
            final(self).fonts == old(self).fonts,
            final(self).input == old(self).input,
            final(self).frame_state == old(self).frame_state,
            final(self).animation_manager == old(self).animation_manager,
            final(self).graphics == old(self).graphics,
            final(self).output == old(self).output,
            final(self).repaint_requests == old(self).repaint_requests,
            final(self).memory.options == old(self).memory.options,
            final(self).memory.interaction == old(self).memory.interaction,
            final(self).memory.areas == old(self).memory.areas,
            final(self).memory.window_interaction == old(self).memory.window_interaction,
            final(self).memory.new_pixels_per_point == old(self).memory.new_pixels_per_point,
    {
        let same = match &self.fonts {
            Some(current) => definitions_equal(&current.definitions, &definitions),
            None => false,
        };
        self.stage_fonts(definitions, same);
    }

    /// Rebuilds the font cache where it must be: there is none yet, new
    /// definitions are in line, or the pixel ratio moved by more than the
    /// tolerance. A rebuilt cache keeps the old definitions unless new ones
    /// are in line.
    pub fn update_fonts(&mut self, pixels_per_point: u32)
        ensures
            final(self).fonts is Some,
            final(self).memory.new_font_definitions is None,
            !must_rebuild(
                old(self).fonts,
                old(self).memory.new_font_definitions is Some,
                pixels_per_point,
            ) ==> final(self).fonts == old(self).fonts,
            must_rebuild(
                old(self).fonts,
                old(self).memory.new_font_definitions is Some,
                pixels_per_point,
            ) ==> {
                let built = final(self).fonts->Some_0;
                &&& built.pixels_per_point == pixels_per_point
                &&& built.generation == (match old(self).fonts {
                    Some(c) => next_generation(c.generation),
                    None => 0,
                })
                &&& old(self).memory.new_font_definitions is Some ==> built.definitions == old(
                    self,
                ).memory.new_font_definitions->Some_0
                &&& (old(self).memory.new_font_definitions is None && old(self).fonts is Some)
                    ==> built.definitions == old(self).fonts->Some_0.definitions
            },
            final(self).input == old(self).input,
            final(self).frame_state == old(self).frame_state,
            final(self).animation_manager == old(self).animation_manager,
            final(self).graphics == old(self).graphics,
            final(self).output == old(self).output,
            final(self).repaint_requests == old(self).repaint_requests,
            final(self).memory.options == old(self).memory.options,
            final(self).memory.interaction == old(self).memory.interaction,
            final(self).memory.areas == old(self).memory.areas,
            final(self).memory.window_interaction == old(self).memory.window_interaction,
            final(self).memory.new_pixels_per_point == old(self).memory.new_pixels_per_point,
    {
        let new_definitions = self.memory.new_font_definitions.take();
        let cache = self.fonts.take();
        self.fonts = Some(reconcile(cache, new_definitions, pixels_per_point));
    }

    /// The pixel ratio that a frame starts with: what `raw` dictates, else
    /// what was set since the last frame, else the current one.
    pub open spec fn next_pixels_per_point(&self, raw: RawInput) -> u32 {
        match raw.pixels_per_point {
            Some(p) => p,
            None => match self.memory.new_pixels_per_point {
                Some(p) => p,
                None => self.input.pixels_per_point,
            },
        }
    }

    /// The screen rectangle that a frame starts with.
    pub open spec fn next_screen_rect(&self, raw: RawInput) -> Rect {
        match raw.screen_rect {
            Some(r) => r,
            None => self.input.screen_rect,
        }
    }

    /// Starts a frame with the input `raw`.
    ///
    /// The claims on the pointer are dropped unless a button was held over the
    /// surface, and Escape takes the focus away; the input state is derived from the old one and `raw`; the
    /// frame state is reset to the new screen rectangle; the font cache is
    /// brought in line with the new pixel ratio; and the whole screen is
    /// registered as the background layer.
    pub fn begin_frame(&mut self, raw: RawInput)
        ensures
            // input
            final(self).input.screen_rect == old(self).next_screen_rect(raw),
            final(self).input.pixels_per_point == old(self).next_pixels_per_point(raw),
            final(self).input.pointer.latest_pos == pos_after(
                old(self).input.pointer.latest_pos,
                raw.events@,
                false,
            ),
            final(self).input.pointer.interact_pos == pos_after(
                old(self).input.pointer.latest_pos,
                raw.events@,
                true,
            ),
            final(self).input.pointer.down == down_after(old(self).input.pointer.down, raw.events@),
            final(self).input.pointer.pointer_events@ == resolved(raw.events@),
            final(self).input.keys_pressed@ == keys_of(raw.events@),
            final(self).input.had_events == (raw.events@.len() > 0),
            final(self).input.time == next_time(
                old(self).input.time,
                old(self).input.predicted_dt,
                raw.time,
            ),
            final(self).input.predicted_dt == raw.predicted_dt,
            // memory
            !final(self).memory.interaction.click_interest,
            !final(self).memory.interaction.drag_interest,
            final(self).memory.interaction.click_id == (if old(self).input.pointer.spec_any_down()
                && old(self).input.pointer.latest_pos is Some {
                old(self).memory.interaction.click_id
            } else {
                None
            }),
            final(self).memory.interaction.drag_id == (if old(self).input.pointer.spec_any_down()
                && old(self).input.pointer.latest_pos is Some {
                old(self).memory.interaction.drag_id
            } else {
                None
            }),
            final(self).memory.interaction.drag_is_window == old(
                self,
            ).memory.interaction.drag_is_window,
            final(self).memory.interaction.focus.id == (if keys_of(raw.events@).contains(
                Key::Escape,
            ) {
                None
            } else {
                old(self).memory.interaction.focus.id
            }),
            final(self).memory.interaction.focus.interested@.len() == 0,
            final(self).memory.window_interaction == (if old(self).input.pointer.spec_any_down() {
                old(self).memory.window_interaction
            } else {
                None
            }),
            final(self).memory.options == old(self).memory.options,
            final(self).memory.new_pixels_per_point is None,
            final(self).memory.new_font_definitions is None,
            final(self).memory.areas.entries@ == with_state(
                old(self).memory.areas.entries@,
                AreaState {
                    layer_id: LayerId::spec_background(),
                    rect: old(self).next_screen_rect(raw),
                    interactable: true,
                },
            ),
            final(self).memory.areas.visible_current_frame@ == old(
                self,
            ).memory.areas.visible_current_frame@.push(LayerId::spec_background()),
            final(self).memory.areas.visible_last_frame@ == old(
                self,
            ).memory.areas.visible_last_frame@,
            old(self).memory.areas.well_stacked() ==> final(self).memory.areas.well_stacked(),
            // frame state
            final(self).frame_state.used_ids@ == Map::<u64, Rect>::empty(),
            final(self).frame_state.available_rect == old(self).next_screen_rect(raw),
            final(self).frame_state.unused_rect == old(self).next_screen_rect(raw),
            final(self).frame_state.used_by_panels == nothing(),
            // fonts
            final(self).fonts is Some,
            !must_rebuild(
                old(self).fonts,
                old(self).memory.new_font_definitions is Some,
                old(self).next_pixels_per_point(raw),
            ) ==> final(self).fonts == old(self).fonts,
            must_rebuild(
                old(self).fonts,
                old(self).memory.new_font_definitions is Some,
                old(self).next_pixels_per_point(raw),
            ) ==> {
                let built = final(self).fonts->Some_0;
                &&& built.pixels_per_point == old(self).next_pixels_per_point(raw)
                &&& built.generation == (match old(self).fonts {
                    Some(c) => next_generation(c.generation),
                    None => 0,
                })
                &&& old(self).memory.new_font_definitions is Some ==> built.definitions == old(
                    self,
                ).memory.new_font_definitions->Some_0
                &&& (old(self).memory.new_font_definitions is None && old(self).fonts is Some)
                    ==> built.definitions == old(self).fonts->Some_0.definitions
            },
            // the rest
            final(self).animation_manager == old(self).animation_manager,
            final(self).graphics == old(self).graphics,
            final(self).output == old(self).output,
            final(self).repaint_requests == old(self).repaint_requests,
    {
        self.memory.begin_frame(&self.input, &raw);

        let pending = self.memory.new_pixels_per_point;
        self.memory.new_pixels_per_point = None;
        match pending {
            Some(p) => {
                self.input.pixels_per_point = p;
            },
            None => {},
        }
        let next = self.input.begin_frame(raw);
        self.input = next;
        self.frame_state.begin_frame(self.input.screen_rect);

        self.update_fonts(self.input.pixels_per_point);

        // The background catches the clicks that no panel or window takes.
        let screen_rect = self.input.screen_rect;
        self.memory.areas.set_state(
            AreaState { layer_id: LayerId::background(), rect: screen_rect, interactable: true },
        );
    }

    /// Ends the frame and hands back what it produced.
    ///
    /// Input that asks for a repaint sets the repaint counter; a focused
    /// widget that was not registered this frame loses the focus; the layers
    /// placed this frame stay visible for one frame more; the output
    /// collected during the frame is handed back and cleared; and while the
    /// counter is positive it goes down by one and the output says that a
    /// repaint is needed.
    pub fn end_frame(&mut self) -> (out: (Output, Vec<ClippedShape>))
        requires
            old(self).fonts is Some,
        ensures
            final(self).repaint_requests == counter_after_frame(
                old(self).repaint_requests,
                old(self).input.spec_wants_repaint(),
            ),
            out.0.needs_repaint == (old(self).output.needs_repaint || frame_needs_repaint(
                old(self).repaint_requests,
                old(self).input.spec_wants_repaint(),
            )),
            out.0.id_clashes@ == old(self).output.id_clashes@,
            !final(self).output.needs_repaint,
            final(self).output.id_clashes@.len() == 0,
            final(self).memory.interaction.focus.id == still_focused(
                old(self).memory.interaction.focus.id,
                old(self).frame_state.used_ids@,
            ),
            final(self).memory.interaction.focus.interested@ == old(
                self,
            ).memory.interaction.focus.interested@,
            final(self).memory.interaction.click_id == old(self).memory.interaction.click_id,
            final(self).memory.interaction.drag_id == old(self).memory.interaction.drag_id,
            final(self).memory.interaction.click_interest == old(
                self,
            ).memory.interaction.click_interest,
            final(self).memory.interaction.drag_interest == old(
                self,
            ).memory.interaction.drag_interest,
            final(self).memory.interaction.drag_is_window == old(
                self,
            ).memory.interaction.drag_is_window,
            final(self).memory.window_interaction == old(self).memory.window_interaction,
            final(self).memory.options == old(self).memory.options,
            final(self).memory.areas.entries@ == old(self).memory.areas.entries@,
            final(self).memory.areas.visible_last_frame@ == old(
                self,
            ).memory.areas.visible_current_frame@,
            final(self).memory.areas.visible_current_frame@.len() == 0,
            final(self).memory.new_pixels_per_point == old(self).memory.new_pixels_per_point,
            final(self).memory.new_font_definitions == old(self).memory.new_font_definitions,
            final(self).fonts == old(self).fonts,
            final(self).input == old(self).input,
            final(self).frame_state == old(self).frame_state,
            final(self).animation_manager == old(self).animation_manager,
            out.1@ == paint_order(old(self).graphics@, old(self).memory.areas.spec_order()),
            final(self).graphics@.len() == 0,
    {
        if self.input.wants_repaint() {
            self.request_repaint();
        }
        self.memory.end_frame(&self.frame_state.used_ids);

        let mut output = Output::new();
        std::mem::swap(&mut output, &mut self.output);
        if self.repaint_requests > 0 {
            self.repaint_requests -= 1;
            output.needs_repaint = true;
        }
        let order = self.memory.areas.order();
        let shapes = self.graphics.drain(&order);
        (output, shapes)
    }

    /// Gives the flag `id` the target `value` and returns what it shows, in
    /// thousandths between fully off and fully on; the move from one to the
    /// other takes `duration` milliseconds. While the value is in between,
    /// another frame is asked for.
    pub fn animate_bool_with_time(&mut self, id: Id, value: bool, duration: u32) -> (v: u16)
        ensures
            v == shown(
                old(self).animation_manager.bools@,
                id,
                value,
                old(self).input.time,
                old(self).input.predicted_dt,
                duration,
            ),
            final(self).animation_manager.bools@ == old(self).animation_manager.bools@.insert(
                id.value,
                remembered(old(self).animation_manager.bools@, id, value, old(self).input.time),
            ),
            final(self).repaint_requests == (if in_flight(v as int) {
                REPAINT_FRAMES
            } else {
                old(self).repaint_requests
            }),
            final(self).fonts == old(self).fonts,
            final(self).memory == old(self).memory,
            final(self).input == old(self).input,
            final(self).frame_state == old(self).frame_state,
            final(self).graphics == old(self).graphics,
            final(self).output == old(self).output,
    {
        let v = self.animation_manager.animate_bool(
            self.input.time,
            self.input.predicted_dt,
            duration,
            id,
            value,
        );
        if 0 < v && v < 1000 {
            self.request_repaint();
        }
        v
    }

    /// Like `animate_bool_with_time`, with the duration from the options.
    pub fn animate_bool(&mut self, id: Id, value: bool) -> (v: u16)
        ensures
            v == shown(
                old(self).animation_manager.bools@,
                id,
                value,
                old(self).input.time,
                old(self).input.predicted_dt,
                old(self).memory.options.animation_time,
            ),
            final(self).animation_manager.bools@ == old(self).animation_manager.bools@.insert(
                id.value,
                remembered(old(self).animation_manager.bools@, id, value, old(self).input.time),
            ),
            final(self).repaint_requests == (if in_flight(v as int) {
                REPAINT_FRAMES
            } else {
                old(self).repaint_requests
            }),
            final(self).fonts == old(self).fonts,
            final(self).memory == old(self).memory,
            final(self).input == old(self).input,
            final(self).frame_state == old(self).frame_state,
            final(self).graphics == old(self).graphics,
            final(self).output == old(self).output,
    {
        let duration = self.memory.options.animation_time;
        self.animate_bool_with_time(id, value, duration)
    }

    /// Forgets all animations.
    pub fn clear_animations(&mut self)
        ensures
            final(self).animation_manager.bools@ == Map::<u64, BoolAnim>::empty(),
            final(self).repaint_requests == old(self).repaint_requests,
            final(self).fonts == old(self).fonts,
            final(self).memory == old(self).memory,
            final(self).input == old(self).input,
            final(self).frame_state == old(self).frame_state,
            final(self).graphics == old(self).graphics,
            final(self).output == old(self).output,
    {
        self.animation_manager = AnimationManager::new();
    }

    /// Whether the layout of a hovered widget is shown for debugging.
    pub fn debug_on_hover(&self) -> (on: bool)
        ensures
            on == self.memory.options.debug_on_hover,
    {
        self.memory.options.debug_on_hover
    }

    /// Turns the debugging of widget layout on hover on or off.
    pub fn set_debug_on_hover(&mut self, debug_on_hover: bool)
        ensures
            *final(self) == (Context {
                memory: Memory {
                    options: Options { debug_on_hover, ..old(self).memory.options },
                    ..old(self).memory
                },
                ..*old(self)
            }),
    {
        self.memory.options.debug_on_hover = debug_on_hover;
    }

    /// The screen area that panels have left free.
    pub fn available_rect(&self) -> (r: Rect)
        ensures
            r == self.frame_state.available_rect,
    {
        self.frame_state.available_rect
    }

    /// Where the pointer is, if it is over the surface.
    pub fn hover_pos(&self) -> (pos: Option<Pos2>)
        ensures
            pos == self.input.pointer.latest_pos,
    {
        self.input.pointer.hover_pos()
    }

    /// Where a click or drag of this frame happened.
    pub fn interact_pos(&self) -> (pos: Option<Pos2>)
        ensures
            pos == self.input.pointer.interact_pos,
    {
        self.input.pointer.interact_pos()
    }

    /// The frontmost layer at `pos`.
    pub fn layer_id_at(&self, pos: Pos2) -> (layer: Option<LayerId>)
        ensures
            layer == self.memory.spec_layer_id_at(pos),
    {
        self.memory.layer_id_at(pos)
    }

    /// Whether the pointer is in `rect` and `layer_id` is the frontmost layer there.
    pub open spec fn pointer_is_in(&self, layer_id: LayerId, rect: Rect) -> bool {
        match self.input.pointer.interact_pos {
            Some(pos) => rect.spec_contains(pos) && self.memory.spec_layer_id_at(pos) == Some(
                layer_id,
            ),
            None => false,
        }
    }

    pub fn rect_contains_pointer(&self, layer_id: LayerId, rect: Rect) -> (inside: bool)
        ensures
            inside == self.pointer_is_in(layer_id, rect),
    {
        match self.input.pointer.interact_pos() {
            Some(pos) => rect.contains(pos) && layer_id.is_in(self.layer_id_at(pos)),
            None => false,
        }
    }

    /// Whether the pointer is over a panel or a window: over some layer, and
    /// where that is the background, over a part of it that was painted on.
    pub open spec fn spec_is_pointer_over_area(&self) -> bool {
        match self.input.pointer.interact_pos {
            Some(pos) => match self.memory.spec_layer_id_at(pos) {
                Some(layer) => layer.order != Order::Background
                    || !self.frame_state.unused_rect.spec_contains(pos),
                None => false,
            },
            None => false,
        }
    }

    #[verifier::when_used_as_spec(spec_is_pointer_over_area)]
    pub fn is_pointer_over_area(&self) -> (over: bool)
        ensures
            over == self.spec_is_pointer_over_area(),
    {
        match self.input.pointer.interact_pos() {
            Some(pos) => match self.layer_id_at(pos) {
                Some(layer) => match layer.order {
                    Order::Background => !self.frame_state.unused_rect.contains(pos),
                    _ => true,
                },
                None => false,
            },
            None => false,
        }
    }

    /// Whether a click or a drag is under way.
    pub fn is_using_pointer(&self) -> (using: bool)
        ensures
            using == self.memory.interaction.spec_is_using_pointer(),
    {
        self.memory.interaction.is_using_pointer()
    }

    /// Whether the GUI is interested in the pointer: it is using it, or the
    /// pointer is over a panel or window with no button held.
    pub fn wants_pointer_input(&self) -> (wanted: bool)
        ensures
            wanted == (self.memory.interaction.spec_is_using_pointer() || (
            self.spec_is_pointer_over_area() && !self.input.pointer.spec_any_down())),
    {
        self.is_using_pointer() || (self.is_pointer_over_area() && !self.input.pointer.any_down())
    }

    /// Whether a widget has keyboard focus.
    pub fn wants_keyboard_input(&self) -> (wanted: bool)
        ensures
            wanted == (self.memory.interaction.focus.id is Some),
    {
        self.memory.interaction.focus.id.is_some()
    }
}

} // verus!
