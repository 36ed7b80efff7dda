//! The discrete part of an overlay session: pointer tracking, the drag
//! anchor, the flashlight switch, and what each intent asks the
//! application to do next.

use vstd::prelude::*;

use crate::input::{key, spec_route_event, EventRoute, IntentResult, MonitorEvent, OverlayIntent};

verus! {

/// The parts of a session's draw state that change in discrete steps.
///
/// Zoom factor, image origin, flashlight radius and the animation clocks
/// are continuous and are kept by the application beside this value.
#[derive(Debug, Clone, Copy, PartialEq)]
pub struct OverlayControls<P> {
    /// Where the pointer is, in view coordinates.
    pub pointer_view: P,
    /// Where the current left-button drag was last seen, while one is under way.
    pub drag_anchor_view: Option<P>,
    /// Whether the flashlight is switched on (its target progress is 1).
    pub flashlight_enabled: bool,
    /// Whether the flashlight is animating towards its target.
    pub flashlight_animating: bool,
}

/// Which way a keyboard zoom step goes.
#[derive(Debug, Clone, Copy, PartialEq, Eq, Structural)]
pub enum ZoomDirection {
    In,
    Out,
}

/// What a scroll of the wheel adjusts.
#[derive(Debug, Clone, Copy, PartialEq, Eq, Structural)]
pub enum ScrollTarget {
    /// The flashlight radius (command held while the flashlight shows).
    FlashlightRadius,
    /// The zoom factor, anchored at the pointer.
    Zoom,
}

/// What the application must do after the controls took an intent.
#[derive(Debug, Clone, Copy, PartialEq)]
pub struct IntentActions<P> {
    /// What becomes of the event that carried the intent.
    pub result: IntentResult,
    /// End the overlay: remove the monitor, stop the animation clock,
    /// show the cursor, clear the HUD and the session, and stop the app.
    pub stop_overlay: bool,
    /// Restart the flashlight animation from its current progress.
    pub restart_flashlight_animation: bool,
    /// Return zoom, panning, flashlight progress and radius to their defaults.
    pub reset_view: bool,
    /// Take one keyboard zoom step, anchored at the pointer.
    pub keyboard_zoom: Option<ZoomDirection>,
    /// Apply the scroll delta to this target.
    pub scroll: Option<ScrollTarget>,
    /// Pan the zoomed image by the pointer's move away from this anchor.
    pub pan_from: Option<P>,
    /// Make sure the animation clock runs.
    pub run_animation_clock: bool,
    /// Recompute the HUD's visibility and redraw the view.
    pub refresh: bool,
}

/// What becomes of the event that carried `intent`: quitting stops the
/// overlay, keyboard commands are consumed, pointer events travel on.
pub open spec fn spec_intent_result<P, D>(intent: OverlayIntent<P, D>) -> IntentResult {
    match intent {
        OverlayIntent::Quit => IntentResult::StopOverlay,
        OverlayIntent::ToggleFlashlight
        | OverlayIntent::Reset { .. }
        | OverlayIntent::ZoomIn
        | OverlayIntent::ZoomOut => IntentResult::Consume,
        _ => IntentResult::PassThrough,
    }
}

/// The point an intent places the pointer at, if it moves the pointer.
pub open spec fn intent_pointer<P, D>(intent: OverlayIntent<P, D>) -> Option<P> {
    match intent {
        OverlayIntent::Reset { pointer_view } => Some(pointer_view),
        OverlayIntent::ScrollWheel { pointer_view, .. } => Some(pointer_view),
        OverlayIntent::LeftMouseDown { pointer_view } => Some(pointer_view),
        OverlayIntent::LeftMouseDragged { pointer_view } => Some(pointer_view),
        OverlayIntent::LeftMouseUp { pointer_view } => Some(pointer_view),
        OverlayIntent::PointerMoved { pointer_view } => Some(pointer_view),
        _ => None,
    }
}

impl<P> OverlayControls<P> {
    /// The controls at the start of a session, or after a reset: flashlight
    /// off and still, no drag under way.
    pub open spec fn spec_initial(pointer_view: P) -> Self {
        OverlayControls {
            pointer_view,
            drag_anchor_view: None,
            flashlight_enabled: false,
            flashlight_animating: false,
        }
    }

    /// The controls after `intent`.
    pub open spec fn after<D>(self, intent: OverlayIntent<P, D>) -> Self {
        match intent {
            OverlayIntent::Quit | OverlayIntent::ZoomIn | OverlayIntent::ZoomOut => self,
            OverlayIntent::ToggleFlashlight => OverlayControls {
                flashlight_enabled: !self.flashlight_enabled,
                flashlight_animating: true,
                ..self
            },
            OverlayIntent::Reset { pointer_view } => Self::spec_initial(pointer_view),
            OverlayIntent::ScrollWheel { pointer_view, .. } => OverlayControls { pointer_view, ..self },
            OverlayIntent::LeftMouseDown { pointer_view } => OverlayControls {
                pointer_view,
                drag_anchor_view: Some(pointer_view),
                ..self
            },
            OverlayIntent::LeftMouseDragged { pointer_view } => OverlayControls {
                pointer_view,
                drag_anchor_view: if self.drag_anchor_view is Some {
                    Some(pointer_view)
                } else {
                    None
                },
                ..self
            },
            OverlayIntent::LeftMouseUp { pointer_view } => OverlayControls {
                pointer_view,
                drag_anchor_view: None,
                ..self
            },
            OverlayIntent::PointerMoved { pointer_view } => OverlayControls { pointer_view, ..self },
        }
    }

    /// What the application must do for `intent`, taken in these controls;
    /// `flashlight_visible` tells whether the flashlight's progress is above zero.
    pub open spec fn actions<D>(self, intent: OverlayIntent<P, D>, flashlight_visible: bool) -> IntentActions<P> {
        IntentActions {
            result: spec_intent_result(intent),
            stop_overlay: intent is Quit,
            restart_flashlight_animation: intent is ToggleFlashlight,
            reset_view: intent is Reset,
            keyboard_zoom: match intent {
                OverlayIntent::ZoomIn => Some(ZoomDirection::In),
                OverlayIntent::ZoomOut => Some(ZoomDirection::Out),
                _ => None,
            },
            scroll: match intent {
                OverlayIntent::ScrollWheel { command, .. } => if command && (self.flashlight_enabled
                    || flashlight_visible) {
                    Some(ScrollTarget::FlashlightRadius)
                } else {
                    Some(ScrollTarget::Zoom)
                },
                _ => None,
            },
            pan_from: match intent {
                OverlayIntent::LeftMouseDragged { .. } => self.drag_anchor_view,
                _ => None,
            },
            run_animation_clock: intent is ToggleFlashlight,
            refresh: !(intent is Quit),
        }
    }
}

impl<P: Copy> OverlayControls<P> {
    /// The controls of a new session, with the pointer at `pointer_view`.
    pub fn initial(pointer_view: P) -> (c: Self)
        ensures
            c == Self::spec_initial(pointer_view),
    {
        OverlayControls {
            pointer_view,
            drag_anchor_view: None,
            flashlight_enabled: false,
            flashlight_animating: false,
        }
    }

    /// Ends the flashlight animation once its progress reached the target;
    /// the switch and the pointer stay as they are.
    pub fn finish_flashlight_animation(&mut self)
        ensures
            *final(self) == (OverlayControls { flashlight_animating: false, ..*old(self) }),
    {
        self.flashlight_animating = false;
    }

    /// Takes `intent`: updates the controls and says what the application
    /// must do with the rest of the session and with the event.
    pub fn handle_intent<D>(&mut self, intent: OverlayIntent<P, D>, flashlight_visible: bool) -> (r: IntentActions<P>)
        ensures
            *final(self) == old(self).after(intent),
            r == old(self).actions(intent, flashlight_visible),
    {
        let mut actions = IntentActions {
            result: intent_result(&intent),
            stop_overlay: false,
            restart_flashlight_animation: false,
            reset_view: false,
            keyboard_zoom: None,
            scroll: None,
            pan_from: None,
            run_animation_clock: false,
            refresh: true,
        };
        match intent {
            OverlayIntent::Quit => {
                actions.stop_overlay = true;
                actions.refresh = false;
            },
            OverlayIntent::ToggleFlashlight => {
                self.flashlight_enabled = !self.flashlight_enabled;
                self.flashlight_animating = true;
                actions.restart_flashlight_animation = true;
                actions.run_animation_clock = true;
            },
            OverlayIntent::Reset { pointer_view } => {
                *self = Self::initial(pointer_view);
                actions.reset_view = true;
            },
            OverlayIntent::ZoomIn => {
                actions.keyboard_zoom = Some(ZoomDirection::In);
            },
            OverlayIntent::ZoomOut => {
                actions.keyboard_zoom = Some(ZoomDirection::Out);
            },
            OverlayIntent::ScrollWheel { pointer_view, command, .. } => {
                self.pointer_view = pointer_view;
                actions.scroll = if command && (self.flashlight_enabled || flashlight_visible) {
                    Some(ScrollTarget::FlashlightRadius)
                } else {
                    Some(ScrollTarget::Zoom)
                };
            },
            OverlayIntent::LeftMouseDown { pointer_view } => {
                self.pointer_view = pointer_view;
                self.drag_anchor_view = Some(pointer_view);
            },
            OverlayIntent::LeftMouseDragged { pointer_view } => {
                if let Some(anchor) = self.drag_anchor_view {
                    actions.pan_from = Some(anchor);
                    self.drag_anchor_view = Some(pointer_view);
                }
                self.pointer_view = pointer_view;
            },
            OverlayIntent::LeftMouseUp { pointer_view } => {
                self.pointer_view = pointer_view;
                self.drag_anchor_view = None;
            },
            OverlayIntent::PointerMoved { pointer_view } => {
                self.pointer_view = pointer_view;
            },
        }
        actions
    }
}

/// What the application must do for `intent` when no session is running:
/// there is no state to change, but quitting still stops the overlay, a
/// toggle still starts the animation clock, and every other intent still
/// refreshes the view; the event takes the result its intent calls for.
pub open spec fn spec_sessionless_actions<P, D>(intent: OverlayIntent<P, D>) -> IntentActions<P> {
    IntentActions {
        result: spec_intent_result(intent),
        stop_overlay: intent is Quit,
        restart_flashlight_animation: false,
        reset_view: false,
        keyboard_zoom: None,
        scroll: None,
        pan_from: None,
        run_animation_clock: intent is ToggleFlashlight,
        refresh: !(intent is Quit),
    }
}

/// What the application must do for `intent` when no session is running.
pub fn sessionless_actions<P, D>(intent: &OverlayIntent<P, D>) -> (r: IntentActions<P>)
    ensures
        r == spec_sessionless_actions(*intent),
{
    let is_quit = matches!(intent, OverlayIntent::Quit);
    IntentActions {
        result: intent_result(intent),
        stop_overlay: is_quit,
        restart_flashlight_animation: false,
        reset_view: false,
        keyboard_zoom: None,
        scroll: None,
        pan_from: None,
        run_animation_clock: matches!(intent, OverlayIntent::ToggleFlashlight),
        refresh: !is_quit,
    }
}

/// Without a session, the event's fate, the stop, the animation clock and
/// the refresh are those a session would have asked for; only the changes
/// to the session's state drop out.
pub proof fn lemma_sessionless_matches_session<P, D>(c: OverlayControls<P>, intent: OverlayIntent<P, D>, flashlight_visible: bool)
    ensures
        ({
            let with = c.actions(intent, flashlight_visible);
            let without = spec_sessionless_actions(intent);
            &&& without.result == with.result
            &&& without.stop_overlay == with.stop_overlay
            &&& without.run_animation_clock == with.run_animation_clock
            &&& without.refresh == with.refresh
        }),
{
}

/// What becomes of the event that carried `intent`.
pub fn intent_result<P, D>(intent: &OverlayIntent<P, D>) -> (r: IntentResult)
    ensures
        r == spec_intent_result(*intent),
{
    match intent {
        OverlayIntent::Quit => IntentResult::StopOverlay,
        OverlayIntent::ToggleFlashlight
        | OverlayIntent::Reset { .. }
        | OverlayIntent::ZoomIn
        | OverlayIntent::ZoomOut => IntentResult::Consume,
        _ => IntentResult::PassThrough,
    }
}

/// Every toggle switches the flashlight over and starts animating it,
/// whatever state it was in (on or off, still or mid-animation), and moves
/// neither the pointer nor a drag under way.
pub proof fn lemma_toggle_always_animates<P, D>(c: OverlayControls<P>)
    ensures
        c.after(OverlayIntent::<P, D>::ToggleFlashlight).flashlight_enabled != c.flashlight_enabled,
        c.after(OverlayIntent::<P, D>::ToggleFlashlight).flashlight_animating,
        c.after(OverlayIntent::<P, D>::ToggleFlashlight).pointer_view == c.pointer_view,
        c.after(OverlayIntent::<P, D>::ToggleFlashlight).drag_anchor_view == c.drag_anchor_view,
{
}

/// What each intent does to the controls, field by field:
/// - quitting and keyboard zoom leave them as they are;
/// - a reset switches the flashlight off and still, ends any drag, and puts
///   the pointer where the reset key was pressed;
/// - a scroll or a pointer move only moves the pointer;
/// - pressing the button starts a drag at the pointer, releasing it ends the
///   drag, and a drag step moves the anchor to the new point only while a
///   drag is under way;
/// - no pointer intent touches the flashlight.
pub proof fn lemma_control_transitions<P, D>(c: OverlayControls<P>, p: P, dy: D, precise: bool, command: bool)
    ensures
        c.after(OverlayIntent::<P, D>::Quit) == c,
        c.after(OverlayIntent::<P, D>::ZoomIn) == c,
        c.after(OverlayIntent::<P, D>::ZoomOut) == c,
        ({
            let r = c.after(OverlayIntent::<P, D>::Reset { pointer_view: p });
            &&& !r.flashlight_enabled
            &&& !r.flashlight_animating
            &&& r.drag_anchor_view is None
            &&& r.pointer_view == p
        }),
        c.after(OverlayIntent::<P, D>::ScrollWheel { pointer_view: p, dy, precise, command })
            == (OverlayControls { pointer_view: p, ..c }),
        c.after(OverlayIntent::<P, D>::PointerMoved { pointer_view: p }) == (OverlayControls {
            pointer_view: p,
            ..c
        }),
        ({
            let d = c.after(OverlayIntent::<P, D>::LeftMouseDown { pointer_view: p });
            &&& d.pointer_view == p
            &&& d.drag_anchor_view == Some(p)
            &&& d.flashlight_enabled == c.flashlight_enabled
            &&& d.flashlight_animating == c.flashlight_animating
        }),
        ({
            let u = c.after(OverlayIntent::<P, D>::LeftMouseUp { pointer_view: p });
            &&& u.pointer_view == p
            &&& u.drag_anchor_view is None
            &&& u.flashlight_enabled == c.flashlight_enabled
            &&& u.flashlight_animating == c.flashlight_animating
        }),
        ({
            let g = c.after(OverlayIntent::<P, D>::LeftMouseDragged { pointer_view: p });
            &&& g.pointer_view == p
            &&& (c.drag_anchor_view is Some ==> g.drag_anchor_view == Some(p))
            &&& (c.drag_anchor_view is None ==> g.drag_anchor_view is None)
            &&& g.flashlight_enabled == c.flashlight_enabled
            &&& g.flashlight_animating == c.flashlight_animating
        }),
{
}

/// What each intent asks of the application, field by field: quitting
/// stops without a refresh; a toggle restarts the flashlight animation and
/// runs the animation clock; a reset restores the default view; `=` and `-`
/// take one zoom step in and out; a scroll adjusts the radius or the zoom;
/// a drag step pans from the drag's anchor; nothing else does any of this,
/// and everything but quitting refreshes.
pub proof fn lemma_intent_actions<P, D>(c: OverlayControls<P>, intent: OverlayIntent<P, D>, flashlight_visible: bool)
    ensures
        ({
            let a = c.actions(intent, flashlight_visible);
            &&& a.stop_overlay == (intent is Quit)
            &&& a.refresh == !(intent is Quit)
            &&& a.restart_flashlight_animation == (intent is ToggleFlashlight)
            &&& a.run_animation_clock == (intent is ToggleFlashlight)
            &&& a.reset_view == (intent is Reset)
            &&& (intent is ZoomIn ==> a.keyboard_zoom == Some(ZoomDirection::In))
            &&& (intent is ZoomOut ==> a.keyboard_zoom == Some(ZoomDirection::Out))
            &&& (!(intent is ZoomIn || intent is ZoomOut) ==> a.keyboard_zoom is None)
            &&& (intent is ScrollWheel <==> a.scroll is Some)
            &&& (intent is LeftMouseDragged ==> a.pan_from == c.drag_anchor_view)
            &&& (!(intent is LeftMouseDragged) ==> a.pan_from is None)
        }),
{
}

/// Without a session nothing is reset, zoomed, scrolled or panned, but a
/// quit still stops without a refresh, a toggle still runs the animation
/// clock, every other intent still refreshes, and the event takes the
/// result its intent calls for.
pub proof fn lemma_sessionless_effects<P, D>(intent: OverlayIntent<P, D>)
    ensures
        ({
            let a = spec_sessionless_actions(intent);
            &&& !a.reset_view && !a.restart_flashlight_animation
            &&& a.keyboard_zoom is None && a.scroll is None && a.pan_from is None
            &&& a.stop_overlay == (intent is Quit)
            &&& a.refresh == !(intent is Quit)
            &&& a.run_animation_clock == (intent is ToggleFlashlight)
            &&& (a.result == IntentResult::StopOverlay <==> intent is Quit)
            &&& (a.result == IntentResult::Consume <==> (intent is ToggleFlashlight
                || intent is Reset || intent is ZoomIn || intent is ZoomOut))
        }),
{
}

/// Toggling the flashlight twice gives back its switch, and neither toggle
/// moves the pointer or touches a drag under way.
pub proof fn lemma_toggle_twice_restores_switch<P, D>(c: OverlayControls<P>)
    ensures
        ({
            let once = c.after(OverlayIntent::<P, D>::ToggleFlashlight);
            let twice = once.after(OverlayIntent::<P, D>::ToggleFlashlight);
            &&& once.flashlight_enabled == !c.flashlight_enabled
            &&& twice.flashlight_enabled == c.flashlight_enabled
            &&& twice.flashlight_animating
            &&& twice.pointer_view == c.pointer_view
            &&& twice.drag_anchor_view == c.drag_anchor_view
        }),
{
}

/// A reset restores the default controls whatever came before: flashlight
/// off and still, no drag, the pointer where the reset key was pressed; and
/// it asks the application to restore the default view and redraw.
pub proof fn lemma_reset_restores_defaults<P, D>(c: OverlayControls<P>, pointer_view: P, flashlight_visible: bool)
    ensures
        c.after(OverlayIntent::<P, D>::Reset { pointer_view }) == OverlayControls::<P>::spec_initial(
            pointer_view,
        ),
        c.actions(OverlayIntent::<P, D>::Reset { pointer_view }, flashlight_visible).reset_view,
        c.actions(OverlayIntent::<P, D>::Reset { pointer_view }, flashlight_visible).refresh,
        c.actions(OverlayIntent::<P, D>::Reset { pointer_view }, flashlight_visible).result
            == IntentResult::Consume,
{
}

/// Pressing the reset key re-centres the overlay where the pointer was:
/// the key press reaches the overlay as a reset carrying that point, the
/// controls return to their defaults there, and the key press is consumed.
pub proof fn lemma_reset_key_restores_at_pointer<P, D>(c: OverlayControls<P>, pointer_view: P, flashlight_visible: bool)
    ensures
        spec_route_event(MonitorEvent::<P, D>::KeyDown { key_code: key::RESET, pointer_view })
            == EventRoute::Dispatch(OverlayIntent::<P, D>::Reset { pointer_view }),
        c.after(OverlayIntent::<P, D>::Reset { pointer_view }) == OverlayControls::<P>::spec_initial(
            pointer_view,
        ),
        c.actions(OverlayIntent::<P, D>::Reset { pointer_view }, flashlight_visible).result
            == IntentResult::Consume,
{
}

/// Only quitting stops the overlay; every other intent is followed by a
/// refresh. Keyboard commands are consumed and pointer events pass through.
pub proof fn lemma_intent_results<P, D>(c: OverlayControls<P>, intent: OverlayIntent<P, D>, flashlight_visible: bool)
    ensures
        ({
            let a = c.actions(intent, flashlight_visible);
            &&& (a.result == IntentResult::StopOverlay) <==> (intent is Quit)
            &&& a.stop_overlay <==> (intent is Quit)
            &&& a.refresh <==> !(intent is Quit)
            &&& (a.result == IntentResult::Consume) <==> (intent is ToggleFlashlight
                || intent is Reset || intent is ZoomIn || intent is ZoomOut)
            &&& (a.result == IntentResult::PassThrough) <==> (intent_pointer(intent) is Some
                && !(intent is Reset))
        }),
{
}

/// The pointer follows every intent that carries a position, and no other
/// intent moves it.
pub proof fn lemma_pointer_follows<P, D>(c: OverlayControls<P>, intent: OverlayIntent<P, D>)
    ensures
        match intent_pointer(intent) {
            Some(p) => c.after(intent).pointer_view == p,
            None => c.after(intent).pointer_view == c.pointer_view,
        },
{
}

/// Panning happens only within a drag: a drag step pans from the anchor of
/// the drag under way, and nothing pans once the button is up.
pub proof fn lemma_pan_only_while_dragging<P, D>(c: OverlayControls<P>, intent: OverlayIntent<P, D>, flashlight_visible: bool, up: P, p: P)
    ensures
        c.actions(intent, flashlight_visible).pan_from is Some ==> (intent is LeftMouseDragged
            && c.actions(intent, flashlight_visible).pan_from == c.drag_anchor_view),
        c.after(OverlayIntent::<P, D>::LeftMouseUp { pointer_view: up }).drag_anchor_view is None,
        c.after(OverlayIntent::<P, D>::LeftMouseUp { pointer_view: up }).actions(
            OverlayIntent::<P, D>::LeftMouseDragged { pointer_view: p },
            flashlight_visible,
        ).pan_from is None,
{
}

/// Pressing at `a` and dragging through `b` to `e` pans first from `a`, then
/// from `b`: each step is measured from where the previous one ended.
pub proof fn lemma_drag_steps_chain<P, D>(c: OverlayControls<P>, a: P, b: P, e: P, flashlight_visible: bool)
    ensures
        ({
            let down = c.after(OverlayIntent::<P, D>::LeftMouseDown { pointer_view: a });
            let first = down.after(OverlayIntent::<P, D>::LeftMouseDragged { pointer_view: b });
            &&& down.actions(OverlayIntent::<P, D>::LeftMouseDragged { pointer_view: b }, flashlight_visible).pan_from
                == Some(a)
            &&& first.actions(OverlayIntent::<P, D>::LeftMouseDragged { pointer_view: e }, flashlight_visible).pan_from
                == Some(b)
            &&& first.pointer_view == b
        }),
{
}

/// The scroll wheel adjusts the flashlight radius only while command is
/// held and the flashlight is on or still showing; without command, or with
/// the flashlight off and gone, it zooms.
pub proof fn lemma_scroll_target<P, D>(c: OverlayControls<P>, pointer_view: P, dy: D, precise: bool, command: bool, flashlight_visible: bool)
    ensures
        ({
            let target = c.actions(
                OverlayIntent::ScrollWheel { pointer_view, dy, precise, command },
                flashlight_visible,
            ).scroll;
            &&& !command ==> target == Some(ScrollTarget::Zoom)
            &&& (command && c.flashlight_enabled) ==> target == Some(ScrollTarget::FlashlightRadius)
            &&& (command && flashlight_visible) ==> target == Some(ScrollTarget::FlashlightRadius)
            &&& (command && !c.flashlight_enabled && !flashlight_visible) ==> target == Some(
                ScrollTarget::Zoom,
            )
        }),
{
}

/// A new session's controls: the pointer where given, flashlight off and
/// still, no drag under way.
pub proof fn lemma_initial_controls<P>(p: P)
    ensures
        OverlayControls::<P>::spec_initial(p).pointer_view == p,
        !OverlayControls::<P>::spec_initial(p).flashlight_enabled,
        !OverlayControls::<P>::spec_initial(p).flashlight_animating,
        OverlayControls::<P>::spec_initial(p).drag_anchor_view is None,
{
}

/// Installs `state` as the session's draw state, replacing any earlier one.
pub fn set_session<S>(session: &mut Option<S>, state: S)
    ensures
        *final(session) == Some(state),
{
    *session = Some(state);
}

/// Ends the session's draw state: afterwards there is none.
pub fn clear_session<S>(session: &mut Option<S>)
    ensures
        *final(session) == None::<S>,
{
    *session = None;
}

/// What starting the animation clock takes.
#[derive(Debug, Clone, Copy, PartialEq, Eq, Structural)]
pub enum ClockStart {
    /// A display link exists: un-pause it.
    Resume,
    /// None exists yet: create one, schedule it and record it.
    Create,
}

/// How to make the animation clock run, given the recorded display link.
pub fn ensure_display_link<L>(link: &Option<L>) -> (r: ClockStart)
    ensures
        r == (if link is Some { ClockStart::Resume } else { ClockStart::Create }),
{
    if link.is_some() {
        ClockStart::Resume
    } else {
        ClockStart::Create
    }
}

/// Whether there is a display link to pause; pausing never creates one.
pub fn pause_display_link<L>(link: &Option<L>) -> (r: bool)
    ensures
        r == link is Some,
{
    link.is_some()
}

} // verus!
