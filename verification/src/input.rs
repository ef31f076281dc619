//! Raw input of one frame and the input state resolved from it.

use vstd::prelude::*;
use crate::geometry::{Pos2, Rect};
use crate::ids::{ButtonFlags, PointerButton};

verus! {

/// A key of the keyboard that the core gives a meaning to.
#[derive(Clone, Copy, Debug, PartialEq, Eq, Hash, Structural)]
pub enum Key {
    Space,
    Enter,
    Tab,
    Escape,
}

/// How a release of a pointer button was classified.
#[derive(Clone, Copy, Debug, PartialEq, Eq, Structural)]
pub enum ClickKind {
    /// The pointer moved too far or was held too long: no click.
    NotAClick,
    Single,
    Double,
}

/// A completed click.
#[derive(Clone, Copy, Debug, PartialEq, Eq, Structural)]
pub struct Click {
    pub pos: Pos2,
    pub button: PointerButton,
    /// 1 for a single click, 2 for a double click.
    pub count: u8,
}

impl Click {
    pub open spec fn spec_is_double(self) -> bool {
        self.count == 2
    }

    #[verifier::when_used_as_spec(spec_is_double)]
    pub fn is_double(self) -> (double: bool)
        ensures
            double == self.spec_is_double(),
    {
        self.count == 2
    }
}

/// What the platform reports.
#[derive(Clone, Copy, Debug, PartialEq, Eq, Structural)]
pub enum Event {
    PointerMoved(Pos2),
    PointerPressed { pos: Pos2, button: PointerButton },
    PointerReleased { pos: Pos2, button: PointerButton, click: ClickKind },
    /// The pointer left the surface.
    PointerGone,
    KeyPressed(Key),
}

/// A pointer event as the widgets see it.
#[derive(Clone, Copy, Debug, PartialEq, Eq, Structural)]
pub enum PointerEvent {
    Moved(Pos2),
    Pressed(Pos2),
    Released(Option<Click>),
}

/// What the caller hands to the start of a frame.
pub struct RawInput {
    /// The screen rectangle, where it is known.
    pub screen_rect: Option<Rect>,
    /// The pixel ratio in thousandths, where the platform dictates it.
    pub pixels_per_point: Option<u32>,
    /// The time of the frame in milliseconds, where the platform has a clock.
    pub time: Option<u64>,
    /// How long the frame is expected to take, in milliseconds.
    pub predicted_dt: u32,
    /// The events since the last frame, in order of arrival.
    pub events: Vec<Event>,
}

/// Position and buttons of the pointer, and this frame's pointer events.
pub struct PointerState {
    pub latest_pos: Option<Pos2>,
    pub interact_pos: Option<Pos2>,
    pub down: ButtonFlags,
    pub pointer_events: Vec<PointerEvent>,
}

/// The resolved input of the current frame.
pub struct InputState {
    pub pointer: PointerState,
    pub screen_rect: Rect,
    /// The pixel ratio in thousandths.
    pub pixels_per_point: u32,
    pub keys_pressed: Vec<Key>,
    /// Whether the frame was given any event.
    pub had_events: bool,
    /// The time of the frame in milliseconds.
    pub time: u64,
    /// How long the frame is expected to take, in milliseconds.
    pub predicted_dt: u32,
}

/// The time of a frame: what the platform says, else the time of the frame
/// before plus what that frame was expected to take.
pub open spec fn next_time(time: u64, predicted_dt: u32, given: Option<u64>) -> u64 {
    match given {
        Some(t) => t,
        None => if time + predicted_dt > u64::MAX { u64::MAX } else { (time + predicted_dt) as u64 },
    }
}

/// The screen rectangle of a state that has not seen a frame: 10 000 points square.
pub open spec fn initial_screen_rect() -> Rect {
    Rect { min: Pos2 { x: 0, y: 0 }, max: Pos2 { x: 10_000_000, y: 10_000_000 } }
}

/// The click that a release stands for, if any.
pub open spec fn click_of(pos: Pos2, button: PointerButton, kind: ClickKind) -> Option<Click> {
    match kind {
        ClickKind::NotAClick => None,
        ClickKind::Single => Some(Click { pos, button, count: 1 }),
        ClickKind::Double => Some(Click { pos, button, count: 2 }),
    }
}

/// The pointer position after one event.
pub open spec fn pos_step(pos: Option<Pos2>, event: Event, keep_when_gone: bool) -> Option<Pos2> {
    match event {
        Event::PointerMoved(p) => Some(p),
        Event::PointerPressed { pos: p, .. } => Some(p),
        Event::PointerReleased { pos: p, .. } => Some(p),
        Event::PointerGone => if keep_when_gone { pos } else { None },
        Event::KeyPressed(_) => pos,
    }
}

/// The pointer position after `events`; `keep_when_gone` says whether the
/// position outlives the pointer leaving the surface.
pub open spec fn pos_after(pos: Option<Pos2>, events: Seq<Event>, keep_when_gone: bool) -> Option<Pos2>
    decreases events.len(),
{
    if events.len() == 0 {
        pos
    } else {
        pos_step(pos_after(pos, events.drop_last(), keep_when_gone), events.last(), keep_when_gone)
    }
}

/// The buttons held after one event.
pub open spec fn down_step(down: ButtonFlags, event: Event) -> ButtonFlags {
    match event {
        Event::PointerPressed { button, .. } => down.spec_with(button, true),
        Event::PointerReleased { button, .. } => down.spec_with(button, false),
        _ => down,
    }
}

/// The buttons held after `events`.
pub open spec fn down_after(down: ButtonFlags, events: Seq<Event>) -> ButtonFlags
    decreases events.len(),
{
    if events.len() == 0 {
        down
    } else {
        down_step(down_after(down, events.drop_last()), events.last())
    }
}

/// The pointer events that `events` resolve to, in order.
pub open spec fn resolved(events: Seq<Event>) -> Seq<PointerEvent>
    decreases events.len(),
{
    if events.len() == 0 {
        Seq::empty()
    } else {
        let before = resolved(events.drop_last());
        match events.last() {
            Event::PointerMoved(p) => before.push(PointerEvent::Moved(p)),
            Event::PointerPressed { pos, .. } => before.push(PointerEvent::Pressed(pos)),
            Event::PointerReleased { pos, button, click } => before.push(
                PointerEvent::Released(click_of(pos, button, click)),
            ),
            _ => before,
        }
    }
}

/// The keys pressed in `events`, in order.
pub open spec fn keys_of(events: Seq<Event>) -> Seq<Key>
    decreases events.len(),
{
    if events.len() == 0 {
        Seq::empty()
    } else {
        let before = keys_of(events.drop_last());
        match events.last() {
            Event::KeyPressed(k) => before.push(k),
            _ => before,
        }
    }
}

/// Whether one of `events` is a release that counts as a click.
pub open spec fn has_click(events: Seq<PointerEvent>) -> bool {
    exists|i: int| 0 <= i < events.len() && #[trigger] events[i] is Released
        && events[i]->Released_0 is Some
}

impl PointerState {
    pub fn new() -> (p: PointerState)
        ensures
            p.latest_pos is None,
            p.interact_pos is None,
            p.down == ButtonFlags::spec_none(),
            p.pointer_events@.len() == 0,
    {
        PointerState {
            latest_pos: None,
            interact_pos: None,
            down: ButtonFlags::none(),
            pointer_events: Vec::new(),
        }
    }

    /// Whether any pointer button is held.
    pub open spec fn spec_any_down(&self) -> bool {
        self.down.spec_any()
    }

    #[verifier::when_used_as_spec(spec_any_down)]
    pub fn any_down(&self) -> (down: bool)
        ensures
            down == self.spec_any_down(),
    {
        self.down.any()
    }

    /// Where the pointer is; `None` once it has left.
    pub fn hover_pos(&self) -> (pos: Option<Pos2>)
        ensures
            pos == self.latest_pos,
    {
        self.latest_pos
    }

    /// Where the pointer last interacted; outlives the pointer leaving.
    pub fn interact_pos(&self) -> (pos: Option<Pos2>)
        ensures
            pos == self.interact_pos,
    {
        self.interact_pos
    }

    /// Whether a click was completed this frame.
    pub fn any_click(&self) -> (clicked: bool)
        ensures
            clicked == has_click(self.pointer_events@),
    {
        let mut i: usize = 0;
        while i < self.pointer_events.len()
            invariant
                i <= self.pointer_events@.len(),
                forall|j: int|
                    0 <= j < i ==> !(#[trigger] self.pointer_events@[j] is Released
                        && self.pointer_events@[j]->Released_0 is Some),
            decreases self.pointer_events@.len() - i,
        {
            match self.pointer_events[i] {
                PointerEvent::Released(Some(_)) => {
                    return true;
                },
                _ => {},
            }
            i += 1;
        }
        false
    }

    /// The pointer state of the next frame: the events are replaced by what
    /// `events` resolve to, position and buttons are carried forward.
    pub fn begin_frame(&self, events: &Vec<Event>) -> (next: PointerState)
        ensures
            next.latest_pos == pos_after(self.latest_pos, events@, false),
            next.interact_pos == pos_after(self.latest_pos, events@, true),
            next.down == down_after(self.down, events@),
            next.pointer_events@ == resolved(events@),
    {
        let mut next = PointerState {
            latest_pos: self.latest_pos,
            interact_pos: self.latest_pos,
            down: self.down,
            pointer_events: Vec::new(),
        };
        let mut i: usize = 0;
        while i < events.len()
            invariant
                i <= events@.len(),
                next.latest_pos == pos_after(self.latest_pos, events@.take(i as int), false),
                next.interact_pos == pos_after(self.latest_pos, events@.take(i as int), true),
                next.down == down_after(self.down, events@.take(i as int)),
                next.pointer_events@ == resolved(events@.take(i as int)),
            decreases events@.len() - i,
        {
            let event = events[i];
            proof {
                assert(events@.take(i + 1).drop_last() == events@.take(i as int));
                assert(events@.take(i + 1).last() == event);
            }
            match event {
                Event::PointerMoved(p) => {
                    next.latest_pos = Some(p);
                    next.interact_pos = Some(p);
                    next.pointer_events.push(PointerEvent::Moved(p));
                },
                Event::PointerPressed { pos, button } => {
                    next.latest_pos = Some(pos);
                    next.interact_pos = Some(pos);
                    next.down = next.down.with(button, true);
                    next.pointer_events.push(PointerEvent::Pressed(pos));
                },
                Event::PointerReleased { pos, button, click } => {
                    next.latest_pos = Some(pos);
                    next.interact_pos = Some(pos);
                    next.down = next.down.with(button, false);
                    let click = match click {
                        ClickKind::NotAClick => None,
                        ClickKind::Single => Some(Click { pos, button, count: 1 }),
                        ClickKind::Double => Some(Click { pos, button, count: 2 }),
                    };
                    next.pointer_events.push(PointerEvent::Released(click));
                },
                Event::PointerGone => {
                    next.latest_pos = None;
                },
                Event::KeyPressed(_) => {},
            }
            i += 1;
        }
        proof {
            assert(events@.take(events@.len() as int) == events@);
        }
        next
    }
}

/// The keys pressed in `events`.
pub fn collect_keys(events: &Vec<Event>) -> (keys: Vec<Key>)
    ensures
        keys@ == keys_of(events@),
{
    let mut keys: Vec<Key> = Vec::new();
    let mut i: usize = 0;
    while i < events.len()
        invariant
            i <= events@.len(),
            keys@ == keys_of(events@.take(i as int)),
        decreases events@.len() - i,
    {
        proof {
            assert(events@.take(i + 1).drop_last() == events@.take(i as int));
        }
        match events[i] {
            Event::KeyPressed(k) => {
                keys.push(k);
            },
            _ => {},
        }
        i += 1;
    }
    proof {
        assert(events@.take(events@.len() as int) == events@);
    }
    keys
}

/// Whether `key` is among `keys`.
pub fn has_key(keys: &Vec<Key>, key: Key) -> (found: bool)
    ensures
        found == keys@.contains(key),
{
    let mut i: usize = 0;
    while i < keys.len()
        invariant
            i <= keys@.len(),
            forall|j: int| 0 <= j < i ==> keys@[j] != key,
        decreases keys@.len() - i,
    {
        if keys[i] == key {
            return true;
        }
        i += 1;
    }
    false
}

impl RawInput {
    /// Whether `key` goes down in this input.
    pub fn presses(&self, key: Key) -> (pressed: bool)
        ensures
            pressed == keys_of(self.events@).contains(key),
    {
        let keys = collect_keys(&self.events);
        has_key(&keys, key)
    }

    /// A frame without any input.
    pub fn new() -> (raw: RawInput)
        ensures
            raw.screen_rect is None,
            raw.pixels_per_point is None,
            raw.time is None,
            raw.predicted_dt == 16,
            raw.events@.len() == 0,
    {
        RawInput {
            screen_rect: None,
            pixels_per_point: None,
            time: None,
            predicted_dt: 16,
            events: Vec::new(),
        }
    }
}

impl InputState {
    /// The state before the first frame: no pointer, a pixel ratio of one.
    pub fn new() -> (input: InputState)
        ensures
            input.pointer.latest_pos is None,
            input.pointer.interact_pos is None,
            input.pointer.down == ButtonFlags::spec_none(),
            input.pointer.pointer_events@.len() == 0,
            input.screen_rect == initial_screen_rect(),
            input.pixels_per_point == 1000,
            input.keys_pressed@.len() == 0,
            !input.had_events,
            input.time == 0,
            input.predicted_dt == 16,
    {
        InputState {
            pointer: PointerState::new(),
            screen_rect: Rect {
                min: Pos2 { x: 0, y: 0 },
                max: Pos2 { x: 10_000_000, y: 10_000_000 },
            },
            pixels_per_point: 1000,
            keys_pressed: Vec::new(),
            had_events: false,
            time: 0,
            predicted_dt: 16,
        }
    }

    /// The input state of the next frame. Screen rectangle and pixel ratio
    /// are taken from `raw` where it gives them; the one-shot lists hold what
    /// `raw` brought and nothing older.
    pub fn begin_frame(&self, raw: RawInput) -> (next: InputState)
        ensures
            next.screen_rect == (match raw.screen_rect {
                Some(r) => r,
                None => self.screen_rect,
            }),
            next.pixels_per_point == (match raw.pixels_per_point {
                Some(p) => p,
                None => self.pixels_per_point,
            }),
            next.pointer.latest_pos == pos_after(self.pointer.latest_pos, raw.events@, false),
            next.pointer.interact_pos == pos_after(self.pointer.latest_pos, raw.events@, true),
            next.pointer.down == down_after(self.pointer.down, raw.events@),
            next.pointer.pointer_events@ == resolved(raw.events@),
            next.keys_pressed@ == keys_of(raw.events@),
            next.had_events == (raw.events@.len() > 0),
            next.time == next_time(self.time, self.predicted_dt, raw.time),
            next.predicted_dt == raw.predicted_dt,
    {
        let time = match raw.time {
            Some(t) => t,
            None => if self.time > u64::MAX - (self.predicted_dt as u64) {
                u64::MAX
            } else {
                self.time + self.predicted_dt as u64
            },
        };
        let screen_rect = match raw.screen_rect {
            Some(r) => r,
            None => self.screen_rect,
        };
        let pixels_per_point = match raw.pixels_per_point {
            Some(p) => p,
            None => self.pixels_per_point,
        };
        let keys_pressed = collect_keys(&raw.events);
        let had_events = raw.events.len() > 0;
        let pointer = self.pointer.begin_frame(&raw.events);
        InputState {
            pointer,
            screen_rect,
            pixels_per_point,
            keys_pressed,
            had_events,
            time,
            predicted_dt: raw.predicted_dt,
        }
    }

    pub fn screen_rect(&self) -> (r: Rect)
        ensures
            r == self.screen_rect,
    {
        self.screen_rect
    }

    pub fn pixels_per_point(&self) -> (p: u32)
        ensures
            p == self.pixels_per_point,
    {
        self.pixels_per_point
    }

    /// Whether `key` went down this frame.
    pub fn key_pressed(&self, key: Key) -> (pressed: bool)
        ensures
            pressed == self.keys_pressed@.contains(key),
    {
        has_key(&self.keys_pressed, key)
    }

    /// Whether the frame's input asks for one more frame.
    pub open spec fn spec_wants_repaint(&self) -> bool {
        self.had_events || self.pointer.pointer_events@.len() > 0
    }

    #[verifier::when_used_as_spec(spec_wants_repaint)]
    pub fn wants_repaint(&self) -> (wanted: bool)
        ensures
            wanted == self.spec_wants_repaint(),
    {
        self.had_events || self.pointer.pointer_events.len() > 0
    }
}

} // verus!
