use coomer::input::key;
use coomer::input::{
    forwards_event, overlay_intent_for_key_down, record_overlay_monitor, remove_overlay_monitor,
    route_event, EventRoute, IntentResult, MonitorEvent, OverlayIntent,
};

#[derive(Debug, Clone, Copy, PartialEq)]
struct NSPoint {
    x: f64,
    y: f64,
}

type Intent = OverlayIntent<NSPoint, f64>;

#[test]
fn intent_result_distinct() {
    assert_ne!(IntentResult::Consume, IntentResult::PassThrough);
    assert_ne!(IntentResult::Consume, IntentResult::StopOverlay);
}

#[test]
fn key_down_maps_quit_and_escape() {
    let p = NSPoint { x: 1.0, y: 2.0 };
    assert_eq!(
        overlay_intent_for_key_down::<NSPoint, f64>(key::QUIT, p),
        Some(OverlayIntent::Quit)
    );
    assert_eq!(
        overlay_intent_for_key_down::<NSPoint, f64>(key::ESCAPE, p),
        Some(OverlayIntent::Quit)
    );
}

#[test]
fn key_down_reset_carries_pointer() {
    let p = NSPoint { x: 10.0, y: 20.0 };
    assert_eq!(
        overlay_intent_for_key_down::<NSPoint, f64>(key::RESET, p),
        Some(OverlayIntent::Reset { pointer_view: p })
    );
}

#[test]
fn key_down_unknown_yields_none() {
    assert_eq!(
        overlay_intent_for_key_down::<NSPoint, f64>(0xFFFF, NSPoint { x: 0.0, y: 0.0 }),
        None
    );
}

#[test]
fn key_down_maps_the_other_commands() {
    let p = NSPoint { x: 3.0, y: 4.0 };
    let map = |k: u16| overlay_intent_for_key_down::<NSPoint, f64>(k, p);
    assert_eq!(map(key::FLASHLIGHT_TOGGLE), Some(OverlayIntent::ToggleFlashlight));
    assert_eq!(map(key::ZOOM_IN), Some(OverlayIntent::ZoomIn));
    assert_eq!(map(key::ZOOM_OUT), Some(OverlayIntent::ZoomOut));
    assert_eq!(map(3), Some(OverlayIntent::ToggleFlashlight));
    assert_eq!(map(12), Some(OverlayIntent::Quit));
    assert_eq!(map(53), Some(OverlayIntent::Quit));
    assert_eq!(map(29), Some(OverlayIntent::Reset { pointer_view: p }));
    assert_eq!(map(24), Some(OverlayIntent::ZoomIn));
    assert_eq!(map(27), Some(OverlayIntent::ZoomOut));
    assert_eq!(map(0), None);
    assert_eq!(map(13), None);
}

#[test]
fn key_events_route_to_keyboard_intents_or_are_swallowed() {
    let p = NSPoint { x: 5.0, y: 6.0 };
    let down = |k: u16| route_event(MonitorEvent::<NSPoint, f64>::KeyDown { key_code: k, pointer_view: p });
    assert_eq!(down(key::QUIT), EventRoute::Dispatch(OverlayIntent::Quit));
    assert_eq!(down(key::RESET), EventRoute::Dispatch(OverlayIntent::Reset { pointer_view: p }));
    assert_eq!(down(0x7F), EventRoute::Swallow);
    assert_eq!(route_event(MonitorEvent::<NSPoint, f64>::KeyUp), EventRoute::Swallow);
}

#[test]
fn pointer_events_route_to_pointer_intents() {
    let p = NSPoint { x: 7.0, y: 8.0 };
    assert_eq!(
        route_event(MonitorEvent::<NSPoint, f64>::LeftMouseDown { pointer_view: p }),
        EventRoute::Dispatch(OverlayIntent::LeftMouseDown { pointer_view: p })
    );
    assert_eq!(
        route_event(MonitorEvent::<NSPoint, f64>::LeftMouseDragged { pointer_view: p }),
        EventRoute::Dispatch(OverlayIntent::LeftMouseDragged { pointer_view: p })
    );
    assert_eq!(
        route_event(MonitorEvent::<NSPoint, f64>::LeftMouseUp { pointer_view: p }),
        EventRoute::Dispatch(OverlayIntent::LeftMouseUp { pointer_view: p })
    );
    assert_eq!(
        route_event(MonitorEvent::<NSPoint, f64>::MouseMoved { pointer_view: p }),
        EventRoute::Dispatch(OverlayIntent::PointerMoved { pointer_view: p })
    );
    assert_eq!(route_event(MonitorEvent::<NSPoint, f64>::Other), EventRoute::Forward);
}

#[test]
fn scroll_routes_unless_still() {
    let p = NSPoint { x: 1.5, y: 2.5 };
    let still = MonitorEvent::ScrollWheel { pointer_view: p, dy: 0.0, dy_is_zero: true, precise: true, command: false };
    assert_eq!(route_event(still), EventRoute::Forward);
    let moving = MonitorEvent::ScrollWheel { pointer_view: p, dy: -3.0, dy_is_zero: false, precise: false, command: true };
    let expected: EventRoute<NSPoint, f64> = EventRoute::Dispatch(Intent::ScrollWheel {
        pointer_view: p,
        dy: -3.0,
        precise: false,
        command: true,
    });
    assert_eq!(route_event(moving), expected);
}

#[test]
fn only_pass_through_forwards_the_event() {
    assert!(forwards_event(IntentResult::PassThrough));
    assert!(!forwards_event(IntentResult::Consume));
    assert!(!forwards_event(IntentResult::StopOverlay));
}

#[test]
fn monitor_slot_keeps_one_monitor() {
    let mut slot: Option<u32> = Some(1);
    let removed = remove_overlay_monitor(&mut slot);
    assert_eq!(removed, Some(1));
    assert_eq!(slot, None);
    let _guard = record_overlay_monitor(&mut slot, 2);
    assert_eq!(slot, Some(2));
    assert_eq!(remove_overlay_monitor(&mut slot), Some(2));
    assert_eq!(remove_overlay_monitor::<u32>(&mut slot), None);
}
