use egui_context::animation::{progress_at, AnimationManager};
use egui_context::context::Context;
use egui_context::fonts::{has_ratio_changed, reconcile};
use egui_context::geometry::{coord, Pos2, Rect, Vec2};
use egui_context::graphics::{GraphicLayers, Pick};
use egui_context::ids::{Id, LayerId, Order, PointerButton};
use egui_context::input::{Event, InputState, RawInput};
use egui_context::memory::AreaState;
use epaint::text::FontDefinitions;
use epaint::{ClippedShape, Shape};

fn pt(x: i32, y: i32) -> Pos2 {
    Pos2::new(x * 1000, y * 1000)
}

fn rect(x0: i32, y0: i32, x1: i32, y1: i32) -> Rect {
    Rect::from_min_max(pt(x0, y0), pt(x1, y1))
}

fn quiet() -> RawInput {
    let mut raw = RawInput::new();
    raw.screen_rect = Some(rect(0, 0, 800, 600));
    raw
}

fn shape(tag: f32) -> ClippedShape {
    ClippedShape(
        epaint::emath::Rect::from_min_max(epaint::emath::pos2(0.0, 0.0), epaint::emath::pos2(tag, tag)),
        Shape::Noop,
    )
}

fn tags(shapes: &[ClippedShape]) -> Vec<f32> {
    shapes.iter().map(|s| s.0.max.x).collect()
}

#[test]
fn repaint_counter_settles_without_input() {
    let mut ctx = Context::new();
    assert_eq!(ctx.repaint_requests, 1);
    ctx.begin_frame(quiet());
    let (output, shapes) = ctx.end_frame();
    assert!(output.needs_repaint);
    assert!(shapes.is_empty());
    assert_eq!(ctx.repaint_requests, 0);
    for _ in 0..5 {
        ctx.begin_frame(quiet());
        let (output, _) = ctx.end_frame();
        assert!(!output.needs_repaint);
        assert_eq!(ctx.repaint_requests, 0);
    }
}

#[test]
fn repaint_request_lasts_two_frames() {
    let mut ctx = Context::new();
    ctx.begin_frame(quiet());
    ctx.request_repaint();
    ctx.request_repaint();
    assert_eq!(ctx.repaint_requests, 2);
    assert!(ctx.end_frame().0.needs_repaint);
    assert_eq!(ctx.repaint_requests, 1);
    ctx.begin_frame(quiet());
    assert!(ctx.end_frame().0.needs_repaint);
    assert_eq!(ctx.repaint_requests, 0);
    ctx.begin_frame(quiet());
    assert!(!ctx.end_frame().0.needs_repaint);
}

#[test]
fn input_asks_for_a_repaint() {
    let mut ctx = Context::new();
    ctx.begin_frame(quiet());
    let _ = ctx.end_frame();
    assert_eq!(ctx.repaint_requests, 0);
    let mut raw = quiet();
    raw.events = vec![Event::PointerMoved(pt(1, 1))];
    ctx.begin_frame(raw);
    assert!(ctx.input.wants_repaint());
    assert!(ctx.end_frame().0.needs_repaint);
    assert_eq!(ctx.repaint_requests, 1);
}

#[test]
fn new_pixel_ratio_rebuilds_the_fonts_and_repaints() {
    let mut ctx = Context::new();
    ctx.begin_frame(quiet());
    let _ = ctx.end_frame();
    ctx.begin_frame(quiet());
    let _ = ctx.end_frame();
    assert_eq!(ctx.repaint_requests, 0);
    let before = ctx.fonts.as_ref().unwrap();
    assert_eq!(before.pixels_per_point, 1000);
    let generation = before.generation;
    let definitions = before.definitions.clone();

    ctx.set_pixels_per_point(2000);
    assert_eq!(ctx.repaint_requests, 2);
    assert_eq!(ctx.memory.new_pixels_per_point, Some(2000));
    assert_eq!(ctx.pixels_per_point(), 1000);
    ctx.begin_frame(quiet());
    assert_eq!(ctx.pixels_per_point(), 2000);
    assert_eq!(ctx.memory.new_pixels_per_point, None);
    let after = ctx.fonts.as_ref().unwrap();
    assert_eq!(after.pixels_per_point, 2000);
    assert_eq!(after.generation, generation + 1);
    assert!(after.definitions == definitions);
    assert!(ctx.end_frame().0.needs_repaint);
}

#[test]
fn same_pixel_ratio_asks_for_no_repaint() {
    let mut ctx = Context::new();
    ctx.begin_frame(quiet());
    let _ = ctx.end_frame();
    assert_eq!(ctx.repaint_requests, 0);
    ctx.set_pixels_per_point(1000);
    assert_eq!(ctx.repaint_requests, 0);
    let generation = ctx.fonts.as_ref().unwrap().generation;
    ctx.begin_frame(quiet());
    assert_eq!(ctx.fonts.as_ref().unwrap().generation, generation);
}

#[test]
fn platform_pixel_ratio_wins() {
    let mut ctx = Context::new();
    ctx.set_pixels_per_point(2000);
    let mut raw = quiet();
    raw.pixels_per_point = Some(1500);
    ctx.begin_frame(raw);
    assert_eq!(ctx.pixels_per_point(), 1500);
    assert_eq!(ctx.fonts.as_ref().unwrap().pixels_per_point, 1500);
}

#[test]
fn pixel_ratio_within_the_tolerance_keeps_the_fonts() {
    assert!(!has_ratio_changed(1000, 1000));
    assert!(!has_ratio_changed(1000, 1001));
    assert!(!has_ratio_changed(1001, 1000));
    assert!(has_ratio_changed(1000, 1002));
    assert!(has_ratio_changed(1002, 1000));
    assert!(has_ratio_changed(0, u32::MAX));
    let first = reconcile(None, None, 1000);
    assert_eq!(first.generation, 0);
    assert!(first.definitions == FontDefinitions::default());
    let kept = reconcile(Some(first), None, 1001);
    assert_eq!(kept.generation, 0);
    assert_eq!(kept.pixels_per_point, 1000);
    let rebuilt = reconcile(Some(kept), None, 1002);
    assert_eq!(rebuilt.generation, 1);
    assert_eq!(rebuilt.pixels_per_point, 1002);
}

#[test]
fn new_fonts_are_used_from_the_next_frame_on() {
    let mut ctx = Context::new();
    let mut mine = FontDefinitions::default();
    mine.font_data.clear();
    mine.fonts_for_family.clear();
    // Before the first frame there is nothing to compare with.
    ctx.set_fonts(FontDefinitions::default());
    assert!(ctx.memory.new_font_definitions.is_some());
    ctx.begin_frame(quiet());
    assert!(ctx.memory.new_font_definitions.is_none());
    assert_eq!(ctx.fonts.as_ref().unwrap().generation, 0);
    let _ = ctx.end_frame();

    // Equal definitions are dropped.
    ctx.set_fonts(FontDefinitions::default());
    assert!(ctx.memory.new_font_definitions.is_none());
    // Other definitions are taken.
    ctx.set_fonts(mine.clone());
    assert!(ctx.memory.new_font_definitions.as_ref() == Some(&mine));
    ctx.begin_frame(quiet());
    let fonts = ctx.fonts.as_ref().unwrap();
    assert_eq!(fonts.generation, 1);
    assert!(fonts.definitions == mine);
    assert!(ctx.memory.new_font_definitions.is_none());
}

#[test]
fn stage_fonts_goes_by_the_flag() {
    let mut ctx = Context::new();
    ctx.stage_fonts(FontDefinitions::default(), true);
    assert!(ctx.memory.new_font_definitions.is_some());
    ctx.begin_frame(quiet());
    ctx.stage_fonts(FontDefinitions::default(), true);
    assert!(ctx.memory.new_font_definitions.is_none());
    ctx.stage_fonts(FontDefinitions::default(), false);
    assert!(ctx.memory.new_font_definitions.is_some());
}

#[test]
fn begin_frame_resets_the_frame_state() {
    let mut ctx = Context::new();
    ctx.begin_frame(quiet());
    ctx.register_interaction_id(Id::new(1), rect(0, 0, 1, 1));
    ctx.frame_state.available_rect = rect(100, 0, 800, 600);
    let _ = ctx.end_frame();
    let mut raw = RawInput::new();
    raw.screen_rect = Some(rect(0, 0, 1024, 768));
    ctx.begin_frame(raw);
    assert!(ctx.frame_state.used_ids.is_empty());
    assert_eq!(ctx.available_rect(), rect(0, 0, 1024, 768));
    assert_eq!(ctx.frame_state.unused_rect, rect(0, 0, 1024, 768));
    assert_eq!(ctx.input.screen_rect(), rect(0, 0, 1024, 768));
    assert_eq!(
        ctx.memory.areas.entries,
        vec![AreaState {
            layer_id: LayerId::background(),
            rect: rect(0, 0, 1024, 768),
            interactable: true
        }]
    );
    // Without a screen rectangle the last one stays.
    let _ = ctx.end_frame();
    ctx.begin_frame(RawInput::new());
    assert_eq!(ctx.input.screen_rect(), rect(0, 0, 1024, 768));
}

#[test]
fn claims_are_dropped_once_no_button_is_held() {
    let mut ctx = Context::new();
    let mut raw = quiet();
    raw.events = vec![Event::PointerPressed { pos: pt(5, 5), button: PointerButton::Primary }];
    ctx.begin_frame(raw);
    ctx.memory.interaction.click_id = Some(Id::new(1));
    ctx.memory.interaction.drag_id = Some(Id::new(1));
    ctx.memory.window_interaction = Some(Id::new(2));
    let _ = ctx.end_frame();
    // The button was held when the frame ended: the claims stay.
    let mut raw = quiet();
    raw.events = vec![Event::PointerReleased {
        pos: pt(5, 5),
        button: PointerButton::Primary,
        click: egui_context::input::ClickKind::Single,
    }];
    ctx.begin_frame(raw);
    assert_eq!(ctx.memory.interaction.click_id, Some(Id::new(1)));
    assert_eq!(ctx.memory.interaction.drag_id, Some(Id::new(1)));
    assert_eq!(ctx.memory.window_interaction, Some(Id::new(2)));
    assert!(ctx.is_using_pointer());
    assert!(!ctx.input.pointer.any_down());
    assert!(ctx.input.pointer.any_click());
    let _ = ctx.end_frame();
    ctx.begin_frame(quiet());
    assert_eq!(ctx.memory.interaction.click_id, None);
    assert_eq!(ctx.memory.interaction.drag_id, None);
    assert_eq!(ctx.memory.window_interaction, None);
    assert!(!ctx.input.pointer.any_click());
}

#[test]
fn focus_is_lost_when_the_widget_disappears() {
    let mut ctx = Context::new();
    ctx.begin_frame(quiet());
    ctx.memory.interaction.focus.request_focus(Id::new(7));
    ctx.register_interaction_id(Id::new(7), rect(0, 0, 10, 10));
    let _ = ctx.end_frame();
    assert_eq!(ctx.memory.interaction.focus.id, Some(Id::new(7)));
    assert!(ctx.memory.interaction.focus.has_focus(Id::new(7)));
    ctx.begin_frame(quiet());
    let _ = ctx.end_frame();
    assert_eq!(ctx.memory.interaction.focus.id, None);
}

#[test]
fn frame_time_moves_on() {
    let input = InputState::new();
    let mut raw = RawInput::new();
    raw.predicted_dt = 20;
    let next = input.begin_frame(raw);
    assert_eq!(next.time, 16);
    assert_eq!(next.predicted_dt, 20);
    let mut raw = RawInput::new();
    raw.time = Some(1000);
    let next = next.begin_frame(raw);
    assert_eq!(next.time, 1000);
    assert_eq!(next.pixels_per_point(), 1000);
    assert!(!next.wants_repaint());
}

#[test]
fn shapes_come_out_back_to_front() {
    let mut graphics = GraphicLayers::new();
    let window_a = LayerId::new(Order::Middle, Id::new(10));
    let window_b = LayerId::new(Order::Middle, Id::new(11));
    let stray = LayerId::new(Order::Middle, Id::new(12));
    let tip = LayerId::new(Order::Tooltip, Id::new(13));
    graphics.add(LayerId::debug(), shape(1.0));
    graphics.add(window_a, shape(2.0));
    graphics.add(tip, shape(3.0));
    graphics.add(stray, shape(4.0));
    graphics.add(window_b, shape(5.0));
    graphics.add(LayerId::background(), shape(6.0));
    graphics.add(window_a, shape(7.0));
    assert_eq!(graphics.lists.len(), 6);
    let order = vec![window_b, LayerId::background(), window_a, window_b];
    let shapes = graphics.drain(&order);
    assert_eq!(tags(&shapes), vec![6.0, 5.0, 2.0, 7.0, 4.0, 3.0, 1.0]);
    assert!(graphics.lists.is_empty());
    assert!(graphics.drain(&order).is_empty());
}

#[test]
fn gather_takes_one_layer_and_leaves_the_rest() {
    let mut graphics = GraphicLayers::new();
    let a = LayerId::new(Order::Middle, Id::new(10));
    let b = LayerId::new(Order::Foreground, Id::new(11));
    graphics.add(a, shape(1.0));
    graphics.add(b, shape(2.0));
    graphics.add(a, shape(3.0));
    assert_eq!(tags(&graphics.gather(Pick::Layer(a))), vec![1.0, 3.0]);
    assert!(graphics.gather(Pick::Layer(a)).is_empty());
    assert!(graphics.gather(Pick::Class(Order::Middle)).is_empty());
    assert_eq!(tags(&graphics.gather(Pick::Class(Order::Foreground))), vec![2.0]);
    assert_eq!(graphics.lists.len(), 2);
}

#[test]
fn end_frame_hands_out_the_shapes_in_layer_order() {
    let mut ctx = Context::new();
    ctx.begin_frame(quiet());
    let front = LayerId::new(Order::Middle, Id::new(2));
    let back = LayerId::new(Order::Middle, Id::new(1));
    ctx.memory.areas.set_state(AreaState { layer_id: back, rect: rect(0, 0, 10, 10), interactable: true });
    ctx.memory.areas.set_state(AreaState { layer_id: front, rect: rect(0, 0, 10, 10), interactable: true });
    ctx.graphics.add(front, shape(1.0));
    ctx.graphics.add(back, shape(2.0));
    ctx.graphics.add(LayerId::background(), shape(3.0));
    let (_, shapes) = ctx.end_frame();
    assert_eq!(tags(&shapes), vec![3.0, 2.0, 1.0]);
    ctx.begin_frame(quiet());
    assert!(ctx.end_frame().1.is_empty());
}

#[test]
fn animation_moves_towards_its_target() {
    let mut anims = AnimationManager::new();
    let id = Id::new(1);
    // A new flag shows its target at once.
    assert_eq!(anims.animate_bool(0, 16, 160, id, false), 0);
    assert_eq!(anims.animate_bool(0, 16, 160, Id::new(2), true), 1000);
    // The target changes at 100 ms; the frame is expected to take 16 of 160 ms.
    let first = anims.animate_bool(100, 16, 160, id, true);
    assert_eq!(first, 100);
    let again = anims.animate_bool(100, 16, 160, id, true);
    assert!(again >= first);
    assert_eq!(again, 100);
    assert_eq!(anims.animate_bool(180, 16, 160, id, true), 600);
    assert_eq!(anims.animate_bool(244, 16, 160, id, true), 1000);
    assert_eq!(anims.animate_bool(5000, 16, 160, id, true), 1000);
    // And back.
    assert_eq!(anims.animate_bool(5000, 16, 160, id, false), 900);
    assert_eq!(anims.animate_bool(5064, 16, 160, id, false), 500);
    assert_eq!(anims.animate_bool(9000, 16, 160, id, false), 0);
    // No time at all: there at once.
    assert_eq!(anims.animate_bool(9000, 0, 0, id, true), 1000);
    assert_eq!(progress_at(Some(50), 10, 40, 160), 250);
    assert_eq!(progress_at(None, 10, 40, 160), 1000);
    assert_eq!(progress_at(Some(0), u64::MAX, u32::MAX, u32::MAX), 1000);
}

#[test]
fn animation_in_flight_asks_for_a_repaint() {
    let mut ctx = Context::new();
    ctx.begin_frame(quiet());
    let _ = ctx.end_frame();
    assert_eq!(ctx.repaint_requests, 0);
    let id = Id::new(1);
    assert_eq!(ctx.animate_bool(id, false), 0);
    assert_eq!(ctx.repaint_requests, 0);
    let v = ctx.animate_bool_with_time(id, true, 160);
    assert_eq!(v, 100);
    assert_eq!(ctx.repaint_requests, 2);
    ctx.clear_animations();
    assert!(ctx.animation_manager.bools.is_empty());
    assert_eq!(ctx.animate_bool(id, true), 1000);
}

#[test]
fn window_is_moved_into_the_free_area() {
    let mut ctx = Context::new();
    ctx.begin_frame(quiet());
    ctx.frame_state.available_rect = rect(100, 50, 800, 600);
    // Fits: stays.
    assert_eq!(
        ctx.constrain_window_rect_to_area(rect(200, 100, 300, 200), None),
        rect(200, 100, 300, 200)
    );
    // Sticks out to the right and bottom: moved left and up.
    assert_eq!(
        ctx.constrain_window_rect_to_area(rect(750, 550, 850, 650), None),
        rect(700, 500, 800, 600)
    );
    // Left of the area: moved right.
    assert_eq!(
        ctx.constrain_window_rect_to_area(rect(0, 0, 50, 40), None),
        rect(100, 50, 150, 90)
    );
    // Wider than the area: held to the screen instead.
    assert_eq!(
        ctx.constrain_window_rect_to_area(rect(50, 100, 800, 200), None),
        rect(50, 100, 800, 200)
    );
    // Wider than the screen: may stick out by what it is too wide.
    assert_eq!(
        ctx.constrain_window_rect_to_area(rect(-500, 100, 500, 200), None),
        rect(-200, 100, 800, 200)
    );
    assert_eq!(
        ctx.constrain_window_rect_to_area(rect(0, 0, 10, 10), Some(rect(20, 20, 40, 40))),
        rect(20, 20, 30, 30)
    );
}

#[test]
fn used_area_holds_panels_and_windows() {
    let mut ctx = Context::new();
    ctx.begin_frame(quiet());
    ctx.frame_state.used_by_panels = rect(0, 0, 800, 30);
    ctx.memory.areas.set_state(AreaState {
        layer_id: LayerId::new(Order::Middle, Id::new(1)),
        rect: rect(100, 100, 300, 400),
        interactable: true,
    });
    ctx.memory.areas.set_state(AreaState {
        layer_id: LayerId::new(Order::Tooltip, Id::new(2)),
        rect: rect(0, 0, 2000, 2000),
        interactable: true,
    });
    assert_eq!(ctx.used_rect(), rect(0, 0, 800, 400));
    assert_eq!(ctx.used_size(), Vec2::new(800_000, 400_000));
}

#[test]
fn rectangles_meet_and_join() {
    let a = rect(0, 0, 10, 10);
    let b = rect(5, 5, 20, 20);
    assert_eq!(a.intersect(b), rect(5, 5, 10, 10));
    assert_eq!(a.union(b), rect(0, 0, 20, 20));
    assert!(a.contains(pt(10, 10)));
    assert!(!a.contains(pt(11, 10)));
    assert!(a.grown_has(1000, 0, pt(11, 10)));
    assert!(!a.grown_has(0, 1000, pt(11, 10)));
    assert!(a.overlaps(b));
    assert!(b.overlaps(a));
    assert!(a.overlaps(a));
    assert!(a.overlaps(rect(10, 10, 11, 11)));
    assert!(!a.overlaps(rect(11, 0, 20, 10)));
    assert!(!a.overlaps(rect(0, -5, 10, -1)));
    assert!(!a.overlaps(rect(8, 8, 2, 2)));
    assert_eq!(b.width(), 15_000);
    assert_eq!(b.height(), 15_000);
    assert_eq!(coord(5), 5);
    assert_eq!(coord(i64::MAX), i32::MAX);
    assert_eq!(coord(i64::MIN), i32::MIN);
}

#[test]
fn escape_takes_the_focus_away() {
    let mut ctx = Context::new();
    ctx.begin_frame(quiet());
    ctx.memory.interaction.focus.request_focus(Id::new(7));
    ctx.register_interaction_id(Id::new(7), rect(0, 0, 10, 10));
    let _ = ctx.end_frame();
    let mut raw = quiet();
    raw.events = vec![Event::KeyPressed(egui_context::input::Key::Tab)];
    assert!(!raw.presses(egui_context::input::Key::Escape));
    ctx.begin_frame(raw);
    assert_eq!(ctx.memory.interaction.focus.id, Some(Id::new(7)));
    ctx.register_interaction_id(Id::new(7), rect(0, 0, 10, 10));
    let _ = ctx.end_frame();
    let mut raw = quiet();
    raw.events = vec![
        Event::PointerMoved(pt(1, 1)),
        Event::KeyPressed(egui_context::input::Key::Escape),
    ];
    assert!(raw.presses(egui_context::input::Key::Escape));
    ctx.begin_frame(raw);
    assert_eq!(ctx.memory.interaction.focus.id, None);
    assert!(ctx.input.key_pressed(egui_context::input::Key::Escape));
    assert!(!ctx.input.key_pressed(egui_context::input::Key::Enter));
}

#[test]
fn layer_stays_visible_for_one_frame_more() {
    let mut ctx = Context::new();
    let window = LayerId::new(Order::Middle, Id::new(1));
    ctx.begin_frame(quiet());
    ctx.memory.areas.set_state(AreaState {
        layer_id: window,
        rect: rect(100, 100, 900, 400),
        interactable: true,
    });
    assert!(ctx.memory.areas.is_visible(window));
    assert!(!ctx.memory.areas.is_visible(LayerId::debug()));
    assert_eq!(ctx.layer_id_at(pt(850, 200)), Some(window));
    assert_eq!(ctx.used_rect().max, pt(900, 400));
    let _ = ctx.end_frame();

    // Not placed again, but seen during the frame before.
    ctx.begin_frame(quiet());
    assert!(ctx.memory.areas.is_visible(window));
    assert_eq!(ctx.layer_id_at(pt(850, 200)), Some(window));
    assert_eq!(ctx.used_rect().max, pt(900, 400));
    let _ = ctx.end_frame();

    // Gone: it is remembered, but catches nothing and uses no space.
    ctx.begin_frame(quiet());
    assert!(!ctx.memory.areas.is_visible(window));
    assert!(ctx.memory.areas.is_visible(LayerId::background()));
    assert_eq!(ctx.memory.areas.entries.len(), 2);
    assert_eq!(ctx.layer_id_at(pt(850, 200)), None);
    assert_eq!(ctx.layer_id_at(pt(200, 200)), Some(LayerId::background()));
    ctx.frame_state.used_by_panels = rect(0, 0, 800, 30);
    assert_eq!(ctx.used_rect(), rect(0, 0, 800, 30));
    assert_eq!(ctx.used_size(), Vec2::new(800_000, 30_000));
}
