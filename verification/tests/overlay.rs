use coomer::input::{key, route_event, EventRoute, IntentResult, MonitorEvent, OverlayIntent};
use coomer::overlay::{
    clear_session, ensure_display_link, intent_result, pause_display_link, sessionless_actions, set_session,
    ClockStart,
    OverlayControls, ScrollTarget, ZoomDirection,
};

#[derive(Debug, Clone, Copy, PartialEq)]
struct NSPoint {
    x: f64,
    y: f64,
}

type Intent = OverlayIntent<NSPoint, f64>;

fn pt(x: f64, y: f64) -> NSPoint {
    NSPoint { x, y }
}

#[test]
fn new_session_controls_are_idle() {
    let c = OverlayControls::initial(pt(4.0, 9.0));
    assert_eq!(c.pointer_view, pt(4.0, 9.0));
    assert_eq!(c.drag_anchor_view, None);
    assert!(!c.flashlight_enabled);
    assert!(!c.flashlight_animating);
}

#[test]
fn toggle_twice_restores_flashlight_switch() {
    let mut c = OverlayControls::initial(pt(1.0, 1.0));
    let a = c.handle_intent(Intent::ToggleFlashlight, false);
    assert!(c.flashlight_enabled);
    assert!(c.flashlight_animating);
    assert_eq!(a.result, IntentResult::Consume);
    assert!(a.restart_flashlight_animation);
    assert!(a.run_animation_clock);
    assert!(a.refresh);
    c.handle_intent(Intent::ToggleFlashlight, true);
    assert!(!c.flashlight_enabled);
    assert!(c.flashlight_animating);
    assert_eq!(c.pointer_view, pt(1.0, 1.0));
}

#[test]
fn reset_restores_defaults_at_pointer() {
    let mut c = OverlayControls::initial(pt(0.0, 0.0));
    c.handle_intent(Intent::ToggleFlashlight, false);
    c.handle_intent(Intent::LeftMouseDown { pointer_view: pt(3.0, 3.0) }, true);
    let a = c.handle_intent(Intent::Reset { pointer_view: pt(10.0, 20.0) }, true);
    assert_eq!(c, OverlayControls::initial(pt(10.0, 20.0)));
    assert!(a.reset_view);
    assert_eq!(a.result, IntentResult::Consume);
    assert!(!a.stop_overlay);
}

#[test]
fn quit_stops_without_refresh() {
    let mut c = OverlayControls::initial(pt(2.0, 2.0));
    let before = c;
    let a = c.handle_intent(Intent::Quit, false);
    assert_eq!(a.result, IntentResult::StopOverlay);
    assert!(a.stop_overlay);
    assert!(!a.refresh);
    assert_eq!(c, before);
}

#[test]
fn keyboard_zoom_steps() {
    let mut c = OverlayControls::initial(pt(2.0, 2.0));
    let before = c;
    let a = c.handle_intent(Intent::ZoomIn, false);
    assert_eq!(a.keyboard_zoom, Some(ZoomDirection::In));
    assert_eq!(a.result, IntentResult::Consume);
    let a = c.handle_intent(Intent::ZoomOut, false);
    assert_eq!(a.keyboard_zoom, Some(ZoomDirection::Out));
    assert_eq!(c, before);
}

#[test]
fn scroll_picks_radius_or_zoom() {
    let mut c = OverlayControls::initial(pt(0.0, 0.0));
    let scroll = |command: bool| Intent::ScrollWheel { pointer_view: pt(5.0, 5.0), dy: 1.0, precise: true, command };
    let a = c.handle_intent(scroll(true), false);
    assert_eq!(a.scroll, Some(ScrollTarget::Zoom));
    assert_eq!(a.result, IntentResult::PassThrough);
    assert_eq!(c.pointer_view, pt(5.0, 5.0));
    let a = c.handle_intent(scroll(true), true);
    assert_eq!(a.scroll, Some(ScrollTarget::FlashlightRadius));
    let a = c.handle_intent(scroll(false), true);
    assert_eq!(a.scroll, Some(ScrollTarget::Zoom));
    c.handle_intent(Intent::ToggleFlashlight, false);
    let a = c.handle_intent(scroll(true), false);
    assert_eq!(a.scroll, Some(ScrollTarget::FlashlightRadius));
}

#[test]
fn drag_pans_from_previous_point() {
    let mut c = OverlayControls::initial(pt(0.0, 0.0));
    let a = c.handle_intent(Intent::LeftMouseDragged { pointer_view: pt(9.0, 9.0) }, false);
    assert_eq!(a.pan_from, None);
    assert_eq!(c.drag_anchor_view, None);
    assert_eq!(c.pointer_view, pt(9.0, 9.0));
    let a = c.handle_intent(Intent::LeftMouseDown { pointer_view: pt(1.0, 2.0) }, false);
    assert_eq!(a.pan_from, None);
    assert_eq!(a.result, IntentResult::PassThrough);
    assert_eq!(c.drag_anchor_view, Some(pt(1.0, 2.0)));
    let a = c.handle_intent(Intent::LeftMouseDragged { pointer_view: pt(4.0, 6.0) }, false);
    assert_eq!(a.pan_from, Some(pt(1.0, 2.0)));
    let a = c.handle_intent(Intent::LeftMouseDragged { pointer_view: pt(5.0, 7.0) }, false);
    assert_eq!(a.pan_from, Some(pt(4.0, 6.0)));
    c.handle_intent(Intent::LeftMouseUp { pointer_view: pt(5.0, 8.0) }, false);
    assert_eq!(c.drag_anchor_view, None);
    assert_eq!(c.pointer_view, pt(5.0, 8.0));
    let a = c.handle_intent(Intent::LeftMouseDragged { pointer_view: pt(6.0, 8.0) }, false);
    assert_eq!(a.pan_from, None);
}

#[test]
fn pointer_moves_pass_through() {
    let mut c = OverlayControls::initial(pt(0.0, 0.0));
    let a = c.handle_intent(Intent::PointerMoved { pointer_view: pt(-3.0, 12.5) }, false);
    assert_eq!(c.pointer_view, pt(-3.0, 12.5));
    assert_eq!(a.result, IntentResult::PassThrough);
    assert!(a.refresh);
    assert_eq!(intent_result(&Intent::PointerMoved { pointer_view: pt(0.0, 0.0) }), IntentResult::PassThrough);
    assert_eq!(intent_result(&Intent::Quit), IntentResult::StopOverlay);
    assert_eq!(intent_result(&Intent::ZoomIn), IntentResult::Consume);
}

#[test]
fn session_slot_set_and_clear() {
    let mut session: Option<&str> = None;
    set_session(&mut session, "first");
    assert_eq!(session, Some("first"));
    set_session(&mut session, "second");
    assert_eq!(session, Some("second"));
    clear_session(&mut session);
    assert_eq!(session, None);
}

#[test]
fn display_link_is_created_once() {
    let none: Option<u8> = None;
    assert_eq!(ensure_display_link(&none), ClockStart::Create);
    assert!(!pause_display_link(&none));
    let some = Some(7u8);
    assert_eq!(ensure_display_link(&some), ClockStart::Resume);
    assert!(pause_display_link(&some));
}

#[test]
fn reset_key_recentres_at_pointer() {
    let p = pt(10.0, 20.0);
    let route = route_event(MonitorEvent::<NSPoint, f64>::KeyDown { key_code: key::RESET, pointer_view: p });
    let EventRoute::Dispatch(intent) = route else {
        panic!("reset key did not reach the overlay");
    };
    let mut c = OverlayControls::initial(pt(0.0, 0.0));
    c.handle_intent(Intent::ToggleFlashlight, false);
    let a = c.handle_intent(intent, true);
    assert_eq!(c, OverlayControls::initial(p));
    assert_eq!(a.result, IntentResult::Consume);
}

#[test]
fn sessionless_intents_keep_their_effects() {
    let q = sessionless_actions(&Intent::Quit);
    assert_eq!(q.result, IntentResult::StopOverlay);
    assert!(q.stop_overlay);
    assert!(!q.refresh);
    let t = sessionless_actions(&Intent::ToggleFlashlight);
    assert_eq!(t.result, IntentResult::Consume);
    assert!(t.run_animation_clock);
    assert!(t.refresh);
    assert!(!t.restart_flashlight_animation);
    let m = sessionless_actions(&Intent::LeftMouseDragged { pointer_view: pt(1.0, 1.0) });
    assert_eq!(m.result, IntentResult::PassThrough);
    assert_eq!(m.pan_from, None);
    assert!(m.refresh);
}

#[test]
fn finishing_the_flashlight_animation_keeps_the_switch() {
    let mut c = OverlayControls::initial(pt(2.0, 3.0));
    c.handle_intent(Intent::ToggleFlashlight, false);
    c.finish_flashlight_animation();
    assert!(c.flashlight_enabled);
    assert!(!c.flashlight_animating);
    assert_eq!(c.pointer_view, pt(2.0, 3.0));
}
