//! Overlay intents: what a key press or a pointer event asks of the overlay.

pub mod key;

use vstd::prelude::*;

use crate::overlay::spec_intent_result;

verus! {

/// What the overlay did with an intent, which decides whether the event
/// that carried it travels on to the rest of the application.
#[derive(Debug, Clone, Copy, PartialEq, Eq, Structural)]
pub enum IntentResult {
    Consume,
    PassThrough,
    StopOverlay,
}

/// An intent of the user, carried by one input event.
///
/// `P` is the type of a point in view coordinates and `D` that of a scroll
/// delta; the application instantiates them with its geometry types.
#[derive(Debug, Clone, Copy, PartialEq)]
pub enum OverlayIntent<P, D> {
    Quit,
    ToggleFlashlight,
    Reset { pointer_view: P },
    ZoomIn,
    ZoomOut,
    ScrollWheel { pointer_view: P, dy: D, precise: bool, command: bool },
    LeftMouseDown { pointer_view: P },
    LeftMouseDragged { pointer_view: P },
    LeftMouseUp { pointer_view: P },
    PointerMoved { pointer_view: P },
}

/// The intent that a key code stands for, if any.
pub open spec fn key_down_intent<P, D>(key_code: u16, pointer_view: P) -> Option<OverlayIntent<P, D>> {
    if key_code == key::QUIT || key_code == key::ESCAPE {
        Some(OverlayIntent::Quit)
    } else if key_code == key::FLASHLIGHT_TOGGLE {
        Some(OverlayIntent::ToggleFlashlight)
    } else if key_code == key::RESET {
        Some(OverlayIntent::Reset { pointer_view })
    } else if key_code == key::ZOOM_IN {
        Some(OverlayIntent::ZoomIn)
    } else if key_code == key::ZOOM_OUT {
        Some(OverlayIntent::ZoomOut)
    } else {
        None
    }
}

/// Maps a key-down event to the intent it carries; `pointer_view` is where
/// the pointer was when the key went down (a reset re-centres there).
pub fn overlay_intent_for_key_down<P, D>(key_code: u16, pointer_view: P) -> (r: Option<OverlayIntent<P, D>>)
    ensures
        r == key_down_intent::<P, D>(key_code, pointer_view),
{
    match key_code {
        key::QUIT | key::ESCAPE => Some(OverlayIntent::Quit),
        key::FLASHLIGHT_TOGGLE => Some(OverlayIntent::ToggleFlashlight),
        key::RESET => Some(OverlayIntent::Reset { pointer_view }),
        key::ZOOM_IN => Some(OverlayIntent::ZoomIn),
        key::ZOOM_OUT => Some(OverlayIntent::ZoomOut),
        _ => None,
    }
}

/// An event that the overlay's local monitor sees, reduced to what the
/// routing reads. The application classifies the window-server event and
/// takes the pointer position in view coordinates.
#[derive(Debug, Clone, Copy, PartialEq)]
pub enum MonitorEvent<P, D> {
    KeyDown { key_code: u16, pointer_view: P },
    KeyUp,
    /// `dy_is_zero` tells whether the vertical scroll delta is exactly zero.
    ScrollWheel { pointer_view: P, dy: D, dy_is_zero: bool, precise: bool, command: bool },
    LeftMouseDown { pointer_view: P },
    LeftMouseDragged { pointer_view: P },
    LeftMouseUp { pointer_view: P },
    MouseMoved { pointer_view: P },
    /// Any other kind of event.
    Other,
}

/// Where a monitored event goes.
#[derive(Debug, Clone, Copy, PartialEq)]
pub enum EventRoute<P, D> {
    /// The event is dropped without reaching the overlay.
    Swallow,
    /// The event travels on untouched, without reaching the overlay.
    Forward,
    /// The overlay handles this intent; its result decides the event's fate.
    Dispatch(OverlayIntent<P, D>),
}

/// The route of a monitored event.
pub open spec fn spec_route_event<P, D>(event: MonitorEvent<P, D>) -> EventRoute<P, D> {
    match event {
        MonitorEvent::KeyDown { key_code, pointer_view } => match key_down_intent::<P, D>(
            key_code,
            pointer_view,
        ) {
            Some(intent) => EventRoute::Dispatch(intent),
            None => EventRoute::Swallow,
        },
        MonitorEvent::KeyUp => EventRoute::Swallow,
        MonitorEvent::ScrollWheel { pointer_view, dy, dy_is_zero, precise, command } => if dy_is_zero {
            EventRoute::Forward
        } else {
            EventRoute::Dispatch(OverlayIntent::ScrollWheel { pointer_view, dy, precise, command })
        },
        MonitorEvent::LeftMouseDown { pointer_view } => EventRoute::Dispatch(
            OverlayIntent::LeftMouseDown { pointer_view },
        ),
        MonitorEvent::LeftMouseDragged { pointer_view } => EventRoute::Dispatch(
            OverlayIntent::LeftMouseDragged { pointer_view },
        ),
        MonitorEvent::LeftMouseUp { pointer_view } => EventRoute::Dispatch(
            OverlayIntent::LeftMouseUp { pointer_view },
        ),
        MonitorEvent::MouseMoved { pointer_view } => EventRoute::Dispatch(
            OverlayIntent::PointerMoved { pointer_view },
        ),
        MonitorEvent::Other => EventRoute::Forward,
    }
}

/// Routes a monitored event: key presses become keyboard intents (and are
/// dropped when they carry none), key releases are dropped, a scroll with a
/// zero delta and unknown events travel on, pointer events become intents.
pub fn route_event<P, D>(event: MonitorEvent<P, D>) -> (r: EventRoute<P, D>)
    ensures
        r == spec_route_event(event),
{
    match event {
        MonitorEvent::KeyDown { key_code, pointer_view } => {
            match overlay_intent_for_key_down(key_code, pointer_view) {
                Some(intent) => EventRoute::Dispatch(intent),
                None => EventRoute::Swallow,
            }
        },
        MonitorEvent::KeyUp => EventRoute::Swallow,
        MonitorEvent::ScrollWheel { pointer_view, dy, dy_is_zero, precise, command } => {
            if dy_is_zero {
                EventRoute::Forward
            } else {
                EventRoute::Dispatch(OverlayIntent::ScrollWheel { pointer_view, dy, precise, command })
            }
        },
        MonitorEvent::LeftMouseDown { pointer_view } => EventRoute::Dispatch(
            OverlayIntent::LeftMouseDown { pointer_view },
        ),
        MonitorEvent::LeftMouseDragged { pointer_view } => EventRoute::Dispatch(
            OverlayIntent::LeftMouseDragged { pointer_view },
        ),
        MonitorEvent::LeftMouseUp { pointer_view } => EventRoute::Dispatch(
            OverlayIntent::LeftMouseUp { pointer_view },
        ),
        MonitorEvent::MouseMoved { pointer_view } => EventRoute::Dispatch(
            OverlayIntent::PointerMoved { pointer_view },
        ),
        MonitorEvent::Other => EventRoute::Forward,
    }
}

/// Whether a dispatched event travels on, given what the overlay did with
/// its intent: only a pass-through lets it go; a consumed intent or a stop
/// drops it.
pub fn forwards_event(result: IntentResult) -> (r: bool)
    ensures
        r == (result == IntentResult::PassThrough),
{
    match result {
        IntentResult::PassThrough => true,
        IntentResult::Consume | IntentResult::StopOverlay => false,
    }
}

/// Both `q` and `Esc` quit, and exactly the six overlay keys carry an intent.
pub proof fn lemma_key_map<P, D>(key_code: u16, pointer_view: P)
    ensures
        key_down_intent::<P, D>(key::QUIT, pointer_view) == Some(OverlayIntent::<P, D>::Quit),
        key_down_intent::<P, D>(key::ESCAPE, pointer_view) == Some(OverlayIntent::<P, D>::Quit),
        key_down_intent::<P, D>(key_code, pointer_view) is Some <==> (key_code == key::QUIT
            || key_code == key::ESCAPE || key_code == key::FLASHLIGHT_TOGGLE || key_code == key::RESET
            || key_code == key::ZOOM_IN || key_code == key::ZOOM_OUT),
{
}

/// The README's key bindings, by virtual key code: `q` (12) and `Esc` (53)
/// quit, `f` (3) toggles the flashlight, `0` (29) resets at the pointer,
/// `=` (24) zooms in, `-` (27) zooms out, and every other key carries no
/// intent.
pub proof fn lemma_key_bindings<P, D>(key_code: u16, pointer_view: P)
    ensures
        key_down_intent::<P, D>(12, pointer_view) == Some(OverlayIntent::<P, D>::Quit),
        key_down_intent::<P, D>(53, pointer_view) == Some(OverlayIntent::<P, D>::Quit),
        key_down_intent::<P, D>(3, pointer_view) == Some(OverlayIntent::<P, D>::ToggleFlashlight),
        key_down_intent::<P, D>(29, pointer_view) == Some(OverlayIntent::<P, D>::Reset { pointer_view }),
        key_down_intent::<P, D>(24, pointer_view) == Some(OverlayIntent::<P, D>::ZoomIn),
        key_down_intent::<P, D>(27, pointer_view) == Some(OverlayIntent::<P, D>::ZoomOut),
        !(key_code == 12 || key_code == 53 || key_code == 3 || key_code == 29 || key_code == 24
            || key_code == 27) ==> key_down_intent::<P, D>(key_code, pointer_view) is None,
{
}

/// A key press reaches the overlay carrying exactly the intent its key is
/// bound to, and is dropped when the key is bound to nothing: `q` and `Esc`
/// dispatch a quit, `f` a toggle, `0` a reset at the pointer, `=` a zoom in
/// and `-` a zoom out.
pub proof fn lemma_key_down_routes<P, D>(key_code: u16, pointer_view: P)
    ensures
        spec_route_event(MonitorEvent::<P, D>::KeyDown { key_code: 12, pointer_view })
            == EventRoute::Dispatch(OverlayIntent::<P, D>::Quit),
        spec_route_event(MonitorEvent::<P, D>::KeyDown { key_code: 53, pointer_view })
            == EventRoute::Dispatch(OverlayIntent::<P, D>::Quit),
        spec_route_event(MonitorEvent::<P, D>::KeyDown { key_code: 3, pointer_view })
            == EventRoute::Dispatch(OverlayIntent::<P, D>::ToggleFlashlight),
        spec_route_event(MonitorEvent::<P, D>::KeyDown { key_code: 29, pointer_view })
            == EventRoute::Dispatch(OverlayIntent::<P, D>::Reset { pointer_view }),
        spec_route_event(MonitorEvent::<P, D>::KeyDown { key_code: 24, pointer_view })
            == EventRoute::Dispatch(OverlayIntent::<P, D>::ZoomIn),
        spec_route_event(MonitorEvent::<P, D>::KeyDown { key_code: 27, pointer_view })
            == EventRoute::Dispatch(OverlayIntent::<P, D>::ZoomOut),
        !(key_code == 12 || key_code == 53 || key_code == 3 || key_code == 29 || key_code == 24
            || key_code == 27) ==> spec_route_event(
            MonitorEvent::<P, D>::KeyDown { key_code, pointer_view },
        ) == EventRoute::<P, D>::Swallow,
        match key_down_intent::<P, D>(key_code, pointer_view) {
            Some(intent) => spec_route_event(MonitorEvent::<P, D>::KeyDown { key_code, pointer_view })
                == EventRoute::Dispatch(intent),
            None => spec_route_event(MonitorEvent::<P, D>::KeyDown { key_code, pointer_view })
                == EventRoute::<P, D>::Swallow,
        },
{
}

/// Every other event is routed with its own data: key releases are dropped,
/// a still scroll and unknown events travel on untouched, a moving scroll
/// reaches the overlay with its own pointer, delta, precision and command
/// flag, and each pointer event reaches it as the matching intent at its
/// own position.
pub proof fn lemma_event_routes<P, D>(pointer_view: P, dy: D, precise: bool, command: bool)
    ensures
        spec_route_event(MonitorEvent::<P, D>::KeyUp) == EventRoute::<P, D>::Swallow,
        spec_route_event(MonitorEvent::<P, D>::Other) == EventRoute::<P, D>::Forward,
        spec_route_event(
            MonitorEvent::<P, D>::ScrollWheel { pointer_view, dy, dy_is_zero: true, precise, command },
        ) == EventRoute::<P, D>::Forward,
        spec_route_event(
            MonitorEvent::<P, D>::ScrollWheel { pointer_view, dy, dy_is_zero: false, precise, command },
        ) == EventRoute::Dispatch(OverlayIntent::<P, D>::ScrollWheel { pointer_view, dy, precise, command }),
        spec_route_event(MonitorEvent::<P, D>::LeftMouseDown { pointer_view }) == EventRoute::Dispatch(
            OverlayIntent::<P, D>::LeftMouseDown { pointer_view },
        ),
        spec_route_event(MonitorEvent::<P, D>::LeftMouseDragged { pointer_view })
            == EventRoute::Dispatch(OverlayIntent::<P, D>::LeftMouseDragged { pointer_view }),
        spec_route_event(MonitorEvent::<P, D>::LeftMouseUp { pointer_view }) == EventRoute::Dispatch(
            OverlayIntent::<P, D>::LeftMouseUp { pointer_view },
        ),
        spec_route_event(MonitorEvent::<P, D>::MouseMoved { pointer_view }) == EventRoute::Dispatch(
            OverlayIntent::<P, D>::PointerMoved { pointer_view },
        ),
{
}

/// Whether the event that took `route` travels on, when the overlay answers
/// a dispatched intent with `result`.
pub open spec fn event_travels_on<P, D>(route: EventRoute<P, D>, result: IntentResult) -> bool {
    match route {
        EventRoute::Swallow => false,
        EventRoute::Forward => true,
        EventRoute::Dispatch(_) => result == IntentResult::PassThrough,
    }
}

/// The keyboard belongs to the overlay while it runs: no key press or key
/// release travels on to the rest of the application, whatever the key.
pub proof fn lemma_keys_never_travel_on<P, D>(key_code: u16, pointer_view: P)
    ensures
        ({
            let route = spec_route_event(MonitorEvent::<P, D>::KeyDown { key_code, pointer_view });
            match route {
                EventRoute::Dispatch(intent) => !event_travels_on(route, spec_intent_result(intent)),
                _ => !event_travels_on(route, IntentResult::PassThrough),
            }
        }),
        !event_travels_on(spec_route_event(MonitorEvent::<P, D>::KeyUp), IntentResult::PassThrough),
{
}

/// Pointer events always travel on after the overlay has seen them, and a
/// scroll with no vertical motion travels on without reaching the overlay.
pub proof fn lemma_pointer_events_travel_on<P, D>(event: MonitorEvent<P, D>)
    requires
        !(event is KeyDown || event is KeyUp),
    ensures
        ({
            let route = spec_route_event(event);
            match route {
                EventRoute::Dispatch(intent) => event_travels_on(route, spec_intent_result(intent)),
                _ => route is Forward,
            }
        }),
        (event matches MonitorEvent::ScrollWheel { dy_is_zero, .. } && dy_is_zero) ==> spec_route_event(
            event,
        ) is Forward,
{
}

/// The token of an installed local event monitor; the application removes
/// the monitor when the token goes out of scope.
pub struct LocalMonitorGuard;

/// Takes the active monitor out of `slot`, for the application to remove
/// from the window server; afterwards no monitor is recorded.
pub fn remove_overlay_monitor<M>(slot: &mut Option<M>) -> (removed: Option<M>)
    ensures
        removed == *old(slot),
        *final(slot) == None::<M>,
{
    slot.take()
}

/// Records `monitor` as the active one and hands out its guard. The
/// application calls this right after installing the monitor, having
/// removed the previous one with [`remove_overlay_monitor`].
pub fn record_overlay_monitor<M>(slot: &mut Option<M>, monitor: M) -> (guard: LocalMonitorGuard)
    ensures
        *final(slot) == Some(monitor),
{
    *slot = Some(monitor);
    LocalMonitorGuard
}

} // verus!
