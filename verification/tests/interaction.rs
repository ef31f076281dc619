use egui_context::context::Context;
use egui_context::frame_state::{check_reuse, explanation_anchor, ClashKind, IdClash};
use egui_context::geometry::{Pos2, Rect, Vec2};
use egui_context::ids::{ButtonFlags, Id, LayerId, Order, PointerButton, Sense};
use egui_context::input::{ClickKind, Event, Key, PointerEvent, RawInput};
use egui_context::interact::{apply_event, apply_events, hit_growth_for, Claims, Pass, Response};
use egui_context::memory::AreaState;

fn pt(x: i32, y: i32) -> Pos2 {
    Pos2::new(x * 1000, y * 1000)
}

fn rect(x0: i32, y0: i32, x1: i32, y1: i32) -> Rect {
    Rect::from_min_max(pt(x0, y0), pt(x1, y1))
}

fn screen() -> Rect {
    rect(0, 0, 800, 600)
}

fn raw(events: Vec<Event>) -> RawInput {
    let mut raw = RawInput::new();
    raw.screen_rect = Some(screen());
    raw.events = events;
    raw
}

fn spacing() -> Vec2 {
    Vec2::new(8000, 3000)
}

fn press(x: i32, y: i32) -> Event {
    Event::PointerPressed { pos: pt(x, y), button: PointerButton::Primary }
}

fn release(x: i32, y: i32, click: ClickKind) -> Event {
    Event::PointerReleased { pos: pt(x, y), button: PointerButton::Primary, click }
}

fn blank_response(id: Id, hovered: bool) -> Response {
    Response {
        layer_id: LayerId::background(),
        id,
        rect: rect(0, 0, 10, 10),
        sense: Sense::click_and_drag(),
        enabled: true,
        hovered,
        clicked: ButtonFlags::none(),
        double_clicked: ButtonFlags::none(),
        dragged: false,
        drag_released: false,
        is_pointer_button_down_on: false,
        interact_pointer_pos: None,
        changed: false,
    }
}

fn no_claims() -> Claims {
    Claims { click_id: None, drag_id: None, drag_is_window: false, window_interaction: None }
}

#[test]
fn click_on_a_button_end_to_end() {
    let mut ctx = Context::new();
    ctx.begin_frame(raw(vec![press(50, 25), release(50, 25, ClickKind::Single)]));
    let a = Id::new(0xA);
    let r = ctx.interact(
        screen(),
        spacing(),
        LayerId::background(),
        a,
        rect(10, 10, 100, 40),
        Sense::click(),
        true,
    );
    assert!(r.clicked.get(PointerButton::Primary));
    assert!(!r.clicked.get(PointerButton::Secondary));
    assert!(!r.double_clicked.get(PointerButton::Primary));
    assert!(r.hovered);
    assert!(!r.dragged);
    assert!(!r.drag_released);
    assert!(r.is_pointer_button_down_on);
    assert_eq!(r.interact_pointer_pos, Some(pt(50, 25)));
    assert_eq!(ctx.memory.interaction.click_id, Some(a));
    assert!(ctx.memory.interaction.click_interest);
}

#[test]
fn double_click_is_reported() {
    let mut ctx = Context::new();
    ctx.begin_frame(raw(vec![press(50, 25), release(50, 25, ClickKind::Double)]));
    let r = ctx.interact(
        screen(),
        spacing(),
        LayerId::background(),
        Id::new(1),
        rect(10, 10, 100, 40),
        Sense::click(),
        true,
    );
    assert!(r.clicked.get(PointerButton::Primary));
    assert!(r.double_clicked.get(PointerButton::Primary));
}

#[test]
fn release_that_is_no_click_does_not_click() {
    let mut ctx = Context::new();
    ctx.begin_frame(raw(vec![press(50, 25), release(50, 25, ClickKind::NotAClick)]));
    let r = ctx.interact(
        screen(),
        spacing(),
        LayerId::background(),
        Id::new(1),
        rect(10, 10, 100, 40),
        Sense::click(),
        true,
    );
    assert_eq!(r.clicked, ButtonFlags::none());
    assert!(r.hovered);
}

#[test]
fn pointer_outside_does_not_hover() {
    let mut ctx = Context::new();
    ctx.begin_frame(raw(vec![Event::PointerMoved(pt(300, 300))]));
    let r = ctx.interact(
        screen(),
        spacing(),
        LayerId::background(),
        Id::new(1),
        rect(10, 10, 100, 40),
        Sense::click(),
        true,
    );
    assert!(!r.hovered);
    assert!(!ctx.memory.interaction.click_interest);
}

#[test]
fn hit_area_grows_by_half_the_spacing_less_the_gap() {
    assert_eq!(hit_growth_for(8000), 3500);
    assert_eq!(hit_growth_for(3000), 1000);
    assert_eq!(hit_growth_for(1000), 0);
    assert_eq!(hit_growth_for(0), 0);
    assert_eq!(hit_growth_for(-5000), 0);
    assert_eq!(hit_growth_for(11000), 5000);
    assert_eq!(hit_growth_for(20000), 5000);
    assert_eq!(hit_growth_for(i32::MAX), 5000);
    assert_eq!(hit_growth_for(1001), 0);
    assert_eq!(hit_growth_for(1002), 1);
}

#[test]
fn hover_reaches_into_the_grown_hit_area() {
    // 3 points right of the widget: inside the growth of 3.5 points.
    let mut ctx = Context::new();
    ctx.begin_frame(raw(vec![Event::PointerMoved(pt(103, 25))]));
    let r = ctx.interact(
        screen(),
        spacing(),
        LayerId::background(),
        Id::new(1),
        rect(10, 10, 100, 40),
        Sense::click(),
        true,
    );
    assert!(r.hovered);
    // 2 points below: outside the growth of 1 point.
    let mut ctx = Context::new();
    ctx.begin_frame(raw(vec![Event::PointerMoved(pt(50, 42))]));
    let r = ctx.interact(
        screen(),
        spacing(),
        LayerId::background(),
        Id::new(1),
        rect(10, 10, 100, 40),
        Sense::click(),
        true,
    );
    assert!(!r.hovered);
}

#[test]
fn clip_rect_limits_the_hit_area() {
    let mut ctx = Context::new();
    ctx.begin_frame(raw(vec![Event::PointerMoved(pt(90, 25))]));
    let r = ctx.interact(
        rect(0, 0, 80, 600),
        spacing(),
        LayerId::background(),
        Id::new(1),
        rect(10, 10, 100, 40),
        Sense::click(),
        true,
    );
    assert!(!r.hovered);
}

#[test]
fn disabled_widget_is_never_hovered() {
    let mut ctx = Context::new();
    ctx.begin_frame(raw(vec![press(50, 25), release(50, 25, ClickKind::Single)]));
    let r = ctx.interact(
        screen(),
        spacing(),
        LayerId::background(),
        Id::new(1),
        rect(10, 10, 100, 40),
        Sense::click(),
        false,
    );
    assert!(!r.hovered);
    assert_eq!(r.clicked, ButtonFlags::none());
    assert!(!r.enabled);
    assert_eq!(ctx.memory.interaction.click_id, None);
}

#[test]
fn only_the_frontmost_layer_hovers() {
    let mut ctx = Context::new();
    ctx.begin_frame(raw(vec![Event::PointerMoved(pt(50, 25))]));
    let window = LayerId::new(Order::Middle, Id::new(77));
    ctx.memory.areas.set_state(AreaState {
        layer_id: window,
        rect: rect(0, 0, 200, 200),
        interactable: true,
    });
    assert_eq!(ctx.layer_id_at(pt(50, 25)), Some(window));
    assert_eq!(ctx.layer_id_at(pt(500, 500)), Some(LayerId::background()));
    let below = ctx.interact(
        screen(),
        spacing(),
        LayerId::background(),
        Id::new(1),
        rect(10, 10, 100, 40),
        Sense::click(),
        true,
    );
    let above = ctx.interact(
        screen(),
        spacing(),
        window,
        Id::new(2),
        rect(20, 20, 120, 50),
        Sense::click(),
        true,
    );
    assert!(!below.hovered);
    assert!(above.hovered);
}

#[test]
fn layer_catches_the_pointer_within_its_grab_radius() {
    let mut ctx = Context::new();
    ctx.begin_frame(raw(vec![]));
    let window = LayerId::new(Order::Middle, Id::new(77));
    ctx.memory.areas.set_state(AreaState {
        layer_id: window,
        rect: rect(100, 100, 200, 200),
        interactable: true,
    });
    assert_eq!(ctx.layer_id_at(pt(204, 150)), Some(window));
    assert_eq!(ctx.layer_id_at(pt(206, 150)), Some(LayerId::background()));
    assert_eq!(ctx.layer_id_at(pt(900, 150)), None);
    ctx.memory.areas.set_state(AreaState {
        layer_id: window,
        rect: rect(100, 100, 200, 200),
        interactable: false,
    });
    assert_eq!(ctx.memory.areas.entries.len(), 2);
    assert_eq!(ctx.layer_id_at(pt(150, 150)), Some(LayerId::background()));
    assert_eq!(ctx.memory.areas.order(), vec![LayerId::background(), window]);
}

#[test]
fn widget_drag_is_not_taken_by_window_chrome() {
    let mut ctx = Context::new();
    ctx.begin_frame(raw(vec![press(50, 25)]));
    let slider = Id::new(5);
    let r = ctx.interact(
        screen(),
        spacing(),
        LayerId::background(),
        slider,
        rect(10, 10, 100, 40),
        Sense::drag(),
        true,
    );
    assert!(r.dragged);
    assert!(r.is_pointer_button_down_on);
    assert!(r.hovered);
    assert_eq!(ctx.memory.interaction.drag_id, Some(slider));
    assert!(!ctx.memory.interaction.drag_is_window);
    let claimed = ctx.memory.claim_window_drag(Id::new(900));
    assert!(!claimed);
    assert_eq!(ctx.memory.interaction.drag_id, Some(slider));
    assert!(!ctx.memory.interaction.drag_is_window);
    assert_eq!(ctx.memory.window_interaction, None);
}

#[test]
fn widget_takes_the_drag_from_window_chrome() {
    let mut ctx = Context::new();
    ctx.begin_frame(raw(vec![press(50, 25)]));
    assert!(ctx.memory.claim_window_drag(Id::new(900)));
    assert_eq!(ctx.memory.interaction.drag_id, Some(Id::new(900)));
    assert!(ctx.memory.interaction.drag_is_window);
    assert_eq!(ctx.memory.window_interaction, Some(Id::new(900)));
    assert!(ctx.memory.claim_window_drag(Id::new(901)));
    let slider = Id::new(5);
    let r = ctx.interact(
        screen(),
        spacing(),
        LayerId::background(),
        slider,
        rect(10, 10, 100, 40),
        Sense::drag(),
        true,
    );
    assert!(r.dragged);
    assert_eq!(ctx.memory.interaction.drag_id, Some(slider));
    assert!(!ctx.memory.interaction.drag_is_window);
    assert_eq!(ctx.memory.window_interaction, None);
}

#[test]
fn first_widget_keeps_the_click() {
    let mut ctx = Context::new();
    ctx.begin_frame(raw(vec![press(50, 25)]));
    let first = ctx.interact(
        screen(),
        spacing(),
        LayerId::background(),
        Id::new(1),
        rect(10, 10, 100, 40),
        Sense::click(),
        true,
    );
    let second = ctx.interact(
        screen(),
        spacing(),
        LayerId::background(),
        Id::new(2),
        rect(10, 10, 100, 40),
        Sense::click(),
        true,
    );
    assert!(first.is_pointer_button_down_on);
    assert!(first.hovered);
    assert!(!second.is_pointer_button_down_on);
    // A button is held on another widget, so this one is not hovered.
    assert!(!second.hovered);
    assert_eq!(ctx.memory.interaction.click_id, Some(Id::new(1)));
}

#[test]
fn drag_goes_on_and_ends_with_the_release() {
    let mut ctx = Context::new();
    let id = Id::new(5);
    let area = rect(10, 10, 100, 40);
    ctx.begin_frame(raw(vec![press(50, 25)]));
    let r = ctx.interact(screen(), spacing(), LayerId::background(), id, area, Sense::drag(), true);
    assert!(r.dragged);
    let _ = ctx.end_frame();

    ctx.begin_frame(raw(vec![Event::PointerMoved(pt(400, 300))]));
    let r = ctx.interact(screen(), spacing(), LayerId::background(), id, area, Sense::drag(), true);
    assert!(r.dragged);
    assert!(!r.drag_released);
    assert!(r.is_pointer_button_down_on);
    assert!(!r.hovered);
    assert_eq!(r.interact_pointer_pos, Some(pt(400, 300)));
    let _ = ctx.end_frame();

    ctx.begin_frame(raw(vec![release(400, 300, ClickKind::NotAClick)]));
    let r = ctx.interact(screen(), spacing(), LayerId::background(), id, area, Sense::drag(), true);
    assert!(!r.dragged);
    assert!(r.drag_released);
    let _ = ctx.end_frame();

    ctx.begin_frame(raw(vec![]));
    assert_eq!(ctx.memory.interaction.drag_id, None);
    let r = ctx.interact(screen(), spacing(), LayerId::background(), id, area, Sense::drag(), true);
    assert!(!r.dragged);
    assert!(!r.drag_released);
    assert!(!r.is_pointer_button_down_on);
    assert_eq!(r.interact_pointer_pos, None);
}

#[test]
fn events_are_taken_in_order_of_arrival() {
    let id = Id::new(3);
    let start = Pass { claims: no_claims(), response: blank_response(id, true) };
    let click = egui_context::input::Click {
        pos: pt(1, 1),
        button: PointerButton::Secondary,
        count: 1,
    };
    let events = vec![
        PointerEvent::Moved(pt(1, 1)),
        PointerEvent::Pressed(pt(1, 1)),
        PointerEvent::Released(Some(click)),
    ];
    let end = apply_events(start, id, Sense::click_and_drag(), true, &events);
    assert_eq!(end.claims.click_id, Some(id));
    assert_eq!(end.claims.drag_id, Some(id));
    assert!(end.response.clicked.get(PointerButton::Secondary));
    assert!(!end.response.clicked.get(PointerButton::Primary));
    assert!(end.response.drag_released);
    assert!(!end.response.dragged);

    // Released before pressed: nothing was down, so no click.
    let events = vec![PointerEvent::Released(Some(click)), PointerEvent::Pressed(pt(1, 1))];
    let end = apply_events(start, id, Sense::click_and_drag(), true, &events);
    assert_eq!(end.response.clicked, ButtonFlags::none());
    assert!(end.response.dragged);
    assert!(!end.response.drag_released);

    let moved = apply_event(start, id, Sense::click(), true, PointerEvent::Moved(pt(9, 9)));
    assert_eq!(moved, start);
    let unhovered = apply_event(start, id, Sense::click(), false, PointerEvent::Pressed(pt(9, 9)));
    assert_eq!(unhovered, start);
}

#[test]
fn claimed_click_is_not_taken_by_a_later_press() {
    let owner = Id::new(1);
    let other = Id::new(2);
    let start = Pass {
        claims: Claims {
            click_id: Some(owner),
            drag_id: Some(owner),
            drag_is_window: false,
            window_interaction: None,
        },
        response: blank_response(other, true),
    };
    let end = apply_event(
        start,
        other,
        Sense::click_and_drag(),
        true,
        PointerEvent::Pressed(pt(1, 1)),
    );
    assert_eq!(end, start);
}

#[test]
fn same_id_and_rect_twice_is_no_clash() {
    let mut ctx = Context::new();
    ctx.begin_frame(raw(vec![]));
    let id = Id::new(9);
    ctx.register_interaction_id(id, rect(10, 10, 100, 40));
    ctx.register_interaction_id(id, rect(10, 10, 100, 40));
    assert!(ctx.output.id_clashes.is_empty());
    // A frame drawn around the widget is fine too.
    ctx.register_interaction_id(id, rect(5, 5, 105, 45));
    assert!(ctx.output.id_clashes.is_empty());
    assert!(ctx.frame_state.is_used(id));
    assert!(!ctx.frame_state.is_used(Id::new(10)));
}

#[test]
fn same_id_at_two_places_is_flagged_at_both() {
    let mut ctx = Context::new();
    ctx.begin_frame(raw(vec![]));
    let id = Id::new(9);
    ctx.register_interaction_id(id, rect(10, 10, 100, 40));
    ctx.register_interaction_id(id, rect(300, 300, 400, 340));
    assert_eq!(
        ctx.output.id_clashes,
        vec![
            IdClash { pos: pt(10, 10), id, kind: ClashKind::FirstUse },
            IdClash { pos: pt(300, 300), id, kind: ClashKind::SecondUse },
        ]
    );
    let (output, _) = ctx.end_frame();
    assert_eq!(output.id_clashes.len(), 2);
    assert!(ctx.output.id_clashes.is_empty());
}

#[test]
fn only_rectangles_without_a_common_position_clash() {
    let id = Id::new(9);
    let pair = |first: Rect, second: Rect| {
        vec![
            IdClash { pos: first.min, id, kind: ClashKind::FirstUse },
            IdClash { pos: second.min, id, kind: ClashKind::SecondUse },
        ]
    };
    let base = rect(0, 0, 10, 10);
    assert_eq!(check_reuse(None, id, base), vec![]);
    // They share a position, though neither holds the other.
    assert_eq!(check_reuse(Some(base), id, rect(5, 5, 15, 15)), vec![]);
    // They share an edge, and a corner.
    assert_eq!(check_reuse(Some(base), id, rect(10, 0, 20, 10)), vec![]);
    assert_eq!(check_reuse(Some(base), id, rect(10, 10, 20, 20)), vec![]);
    // A hair apart.
    let close = Rect::from_min_max(Pos2::new(10_050, 0), Pos2::new(10_080, 10_000));
    assert_eq!(check_reuse(Some(base), id, close), pair(base, close));
    let next = Rect::from_min_max(Pos2::new(10_001, 0), Pos2::new(20_000, 10_000));
    assert_eq!(check_reuse(Some(base), id, next), pair(base, next));
    // Small and close to each other.
    assert_eq!(
        check_reuse(Some(rect(0, 0, 1, 1)), id, rect(2, 2, 3, 3)),
        pair(rect(0, 0, 1, 1), rect(2, 2, 3, 3))
    );
    // Apart on one axis only.
    assert_eq!(check_reuse(Some(base), id, rect(0, 11, 10, 20)), pair(base, rect(0, 11, 10, 20)));
    // Corners out of order: holds no position, not even its own.
    let empty = rect(10, 10, 0, 0);
    assert_eq!(check_reuse(Some(empty), id, empty), pair(empty, empty));
}

#[test]
fn explanation_shows_while_the_pointer_is_over_the_flag() {
    let label = rect(10, 10, 200, 30);
    assert_eq!(explanation_anchor(label, None), None);
    assert_eq!(explanation_anchor(label, Some(pt(300, 20))), None);
    assert_eq!(explanation_anchor(label, Some(pt(10, 31))), None);
    assert_eq!(explanation_anchor(label, Some(pt(50, 20))), Some(pt(12, 34)));
    assert_eq!(explanation_anchor(label, Some(pt(10, 10))), Some(pt(12, 34)));
    assert_eq!(explanation_anchor(label, Some(pt(200, 30))), Some(pt(12, 34)));
    let far = Rect::from_min_max(Pos2::new(i32::MAX - 5, 0), Pos2::new(i32::MAX, i32::MAX - 1));
    assert_eq!(
        explanation_anchor(far, Some(Pos2::new(i32::MAX - 1, 7))),
        Some(Pos2::new(i32::MAX, i32::MAX))
    );
}

#[test]
fn space_clicks_the_focused_widget() {
    let mut ctx = Context::new();
    let id = Id::new(4);
    ctx.begin_frame(raw(vec![Event::KeyPressed(Key::Space)]));
    ctx.memory.interaction.focus.request_focus(id);
    let r = ctx.interact(
        screen(),
        spacing(),
        LayerId::background(),
        id,
        rect(10, 10, 100, 40),
        Sense::click(),
        true,
    );
    assert!(r.clicked.get(PointerButton::Primary));
    assert!(!r.hovered);
    let other = ctx.interact(
        screen(),
        spacing(),
        LayerId::background(),
        Id::new(5),
        rect(10, 50, 100, 80),
        Sense::click(),
        true,
    );
    assert_eq!(other.clicked, ButtonFlags::none());
    assert_eq!(ctx.memory.interaction.focus.interested, vec![id, Id::new(5)]);
}

#[test]
fn click_elsewhere_takes_the_focus_away() {
    let mut ctx = Context::new();
    let id = Id::new(4);
    ctx.begin_frame(raw(vec![press(500, 500), release(500, 500, ClickKind::Single)]));
    ctx.memory.interaction.focus.request_focus(id);
    let _ = ctx.interact(
        screen(),
        spacing(),
        LayerId::background(),
        id,
        rect(10, 10, 100, 40),
        Sense::click(),
        true,
    );
    assert_eq!(ctx.memory.interaction.focus.id, None);
    assert!(!ctx.wants_keyboard_input());
}

#[test]
fn widget_on_a_tooltip_layer_takes_no_input() {
    let mut ctx = Context::new();
    let id = Id::new(4);
    ctx.begin_frame(raw(vec![press(50, 25)]));
    ctx.memory.interaction.focus.request_focus(id);
    let tooltip = LayerId::new(Order::Tooltip, Id::new(1));
    let r = ctx.interact(screen(), spacing(), tooltip, id, rect(10, 10, 100, 40), Sense::click(), true);
    assert!(!r.is_pointer_button_down_on);
    assert_eq!(r.clicked, ButtonFlags::none());
    assert_eq!(ctx.memory.interaction.focus.id, None);
    assert_eq!(ctx.memory.interaction.click_id, None);
    assert!(!ctx.frame_state.is_used(id));
    assert!(ctx.memory.interaction.focus.interested.is_empty());
}

#[test]
fn label_is_interested_in_focus_only_for_a_screen_reader() {
    let mut ctx = Context::new();
    ctx.begin_frame(raw(vec![]));
    let label = Id::new(4);
    let _ = ctx.interact_with_hovered(
        LayerId::background(),
        label,
        rect(10, 10, 100, 40),
        Sense::focusable_noninteractive(),
        true,
        false,
    );
    assert!(ctx.memory.interaction.focus.interested.is_empty());
    assert!(ctx.frame_state.is_used(label));
    ctx.memory.options.screen_reader = true;
    let _ = ctx.interact_with_hovered(
        LayerId::background(),
        label,
        rect(10, 10, 100, 40),
        Sense::focusable_noninteractive(),
        true,
        false,
    );
    assert_eq!(ctx.memory.interaction.focus.interested, vec![label]);
    // Senses nothing at all: not even registered.
    let nothing = Id::new(6);
    let r = ctx.interact_with_hovered(
        LayerId::background(),
        nothing,
        rect(10, 10, 100, 40),
        Sense::hover(),
        true,
        true,
    );
    assert!(r.hovered);
    assert!(!ctx.frame_state.is_used(nothing));
}

#[test]
fn pointer_queries_follow_the_input() {
    let mut ctx = Context::new();
    assert!(!ctx.is_pointer_over_area());
    ctx.begin_frame(raw(vec![Event::PointerMoved(pt(50, 25))]));
    assert_eq!(ctx.hover_pos(), Some(pt(50, 25)));
    assert_eq!(ctx.interact_pos(), Some(pt(50, 25)));
    assert!(ctx.rect_contains_pointer(LayerId::background(), rect(0, 0, 60, 60)));
    assert!(!ctx.rect_contains_pointer(LayerId::debug(), rect(0, 0, 60, 60)));
    assert!(!ctx.rect_contains_pointer(LayerId::background(), rect(60, 60, 90, 90)));
    // Nothing is painted on the background yet.
    assert!(!ctx.is_pointer_over_area());
    assert!(!ctx.wants_pointer_input());
    ctx.frame_state.unused_rect = rect(100, 0, 800, 600);
    assert!(ctx.is_pointer_over_area());
    assert!(ctx.wants_pointer_input());
    assert!(!ctx.is_using_pointer());
    let _ = ctx.end_frame();
    ctx.begin_frame(raw(vec![Event::PointerGone]));
    assert_eq!(ctx.hover_pos(), None);
    assert_eq!(ctx.interact_pos(), Some(pt(50, 25)));
}

#[test]
fn new_layer_goes_in_front_of_its_own_class() {
    let mut ctx = Context::new();
    ctx.begin_frame(raw(vec![]));
    let tip = LayerId::new(Order::Tooltip, Id::new(1));
    let first = LayerId::new(Order::Middle, Id::new(2));
    let second = LayerId::new(Order::Middle, Id::new(3));
    for layer in [tip, first, second] {
        ctx.memory.areas.set_state(AreaState {
            layer_id: layer,
            rect: rect(0, 0, 100, 100),
            interactable: true,
        });
    }
    assert_eq!(ctx.memory.areas.order(), vec![LayerId::background(), first, second, tip]);
    assert_eq!(ctx.layer_id_at(pt(50, 50)), Some(tip));
    assert_eq!(Order::Background.rank(), 0);
    assert_eq!(Order::Debug.rank(), 4);
    assert!(!ctx.debug_on_hover());
    ctx.set_debug_on_hover(true);
    assert!(ctx.debug_on_hover());
}

#[test]
fn answer_leaves_the_state_alone() {
    let mut ctx = Context::new();
    ctx.begin_frame(raw(vec![press(50, 25)]));
    let id = Id::new(8);
    let pass = ctx.answer_for(
        LayerId::background(),
        id,
        rect(10, 10, 100, 40),
        Sense::click_and_drag(),
        true,
        true,
    );
    assert_eq!(pass.claims.click_id, Some(id));
    assert_eq!(pass.claims.drag_id, Some(id));
    assert!(pass.response.dragged);
    assert!(pass.response.hovered);
    assert_eq!(ctx.memory.interaction.click_id, None);
    assert_eq!(ctx.memory.interaction.drag_id, None);
}
