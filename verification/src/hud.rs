//! The HUD pill's discrete state: whether it has settled from its launch
//! size, whether it hides to make room for the pointer, and how it moves.

use vstd::prelude::*;

verus! {

/// What the HUD's visibility depends on, as the application measured it
/// against the pill's home frame.
#[derive(Debug, Clone, Copy, PartialEq, Eq, Structural)]
pub struct HudObservation {
    /// The pointer is over the pill.
    pub hover: bool,
    /// The flashlight shows (its progress is above zero).
    pub flashlight_visible: bool,
    /// The flashlight circle touches the padded pill.
    pub flashlight_touches_hud: bool,
    /// The pointer is in the corridor between the pill and the top edge.
    pub in_top_corridor: bool,
}

/// Whether the pill hides for what was observed: it gets out of the way of
/// the pointer, of a visible flashlight, and of a pointer heading for the top.
pub open spec fn spec_hud_hidden(o: HudObservation) -> bool {
    o.hover || (o.flashlight_visible && o.flashlight_touches_hud) || o.in_top_corridor
}

/// The mounted HUD's state.
#[derive(Debug, Clone, Copy, PartialEq, Eq, Structural)]
pub struct HudState {
    /// The pill has shrunk from its launch layout to its settled one.
    pub settled: bool,
    /// The pill is moved off screen and transparent.
    pub hidden: bool,
    /// The system asks for reduced motion: fade instead of slide.
    pub reduce_motion: bool,
}

impl HudState {
    /// The HUD as mounted: in its launch layout and shown.
    pub fn new(reduce_motion: bool) -> (h: Self)
        ensures
            h == (HudState { settled: false, hidden: false, reduce_motion }),
    {
        HudState { settled: false, hidden: false, reduce_motion }
    }

    /// Takes a new observation. Returns whether the pill must move: that is
    /// when its hidden state or the reduced-motion setting changed.
    pub fn update_visibility(&mut self, observed: HudObservation, reduce_motion: bool) -> (moved: bool)
        ensures
            *final(self) == spec_observed(*old(self), observed, reduce_motion),
            moved == (old(self).hidden != spec_hud_hidden(observed) || old(self).reduce_motion
                != reduce_motion),
            moved == (old(self).hidden != final(self).hidden || old(self).reduce_motion
                != final(self).reduce_motion),
    {
        let hidden = observed.hover || (observed.flashlight_visible
            && observed.flashlight_touches_hud) || observed.in_top_corridor;
        if self.hidden == hidden && self.reduce_motion == reduce_motion {
            return false;
        }
        self.hidden = hidden;
        self.reduce_motion = reduce_motion;
        true
    }

    /// Settles the pill into its small layout. Returns whether it must be
    /// animated there: only the first time; later calls change nothing.
    pub fn settle(&mut self, reduce_motion: bool) -> (animate: bool)
        ensures
            animate == !old(self).settled,
            animate == (old(self).settled != final(self).settled),
            *final(self) == spec_settled(*old(self), reduce_motion),
    {
        if self.settled {
            return false;
        }
        self.settled = true;
        self.reduce_motion = reduce_motion;
        true
    }
}

/// The HUD's state after an observation, as `update_visibility` leaves it.
pub open spec fn spec_observed(h: HudState, observed: HudObservation, reduce_motion: bool) -> HudState {
    HudState { hidden: spec_hud_hidden(observed), reduce_motion, ..h }
}

/// The HUD's state after a settle, as `settle` leaves it.
pub open spec fn spec_settled(h: HudState, reduce_motion: bool) -> HudState {
    if h.settled {
        h
    } else {
        HudState { settled: true, reduce_motion, ..h }
    }
}

/// A visibility update sets exactly the hidden state and the reduced-motion
/// setting: the pill hides when the pointer is over it or in the corridor
/// above it, or when a showing flashlight touches it, and otherwise shows;
/// whether the pill has settled is left as it was.
pub proof fn lemma_observation_effects(h: HudState, o: HudObservation, rm: bool)
    ensures
        spec_observed(h, o, rm).settled == h.settled,
        spec_observed(h, o, rm).reduce_motion == rm,
        spec_observed(h, o, rm).hidden <==> (o.hover || o.in_top_corridor || (o.flashlight_visible
            && o.flashlight_touches_hud)),
{
}

/// A settle makes the pill settled and leaves it shown or hidden as it
/// was; the first settle takes the reduced-motion setting given, a later
/// one changes nothing.
pub proof fn lemma_settle_effects(h: HudState, rm: bool)
    ensures
        spec_settled(h, rm).settled,
        spec_settled(h, rm).hidden == h.hidden,
        !h.settled ==> spec_settled(h, rm).reduce_motion == rm,
        h.settled ==> spec_settled(h, rm) == h,
{
}

/// However many visibility updates come between, the pill mounted in its
/// launch layout is still unsettled when the settle timer fires, so that
/// settle animates it to its small layout.
pub proof fn lemma_updates_leave_settle_pending(h: HudState, o1: HudObservation, o2: HudObservation, rm1: bool, rm2: bool)
    requires
        !h.settled,
    ensures
        !spec_observed(h, o1, rm1).settled,
        !spec_observed(spec_observed(h, o1, rm1), o2, rm2).settled,
{
}

/// The pill settles once: after a settle, another settle changes nothing
/// and asks for no animation; and no observation un-settles it.
pub proof fn lemma_settle_once(h: HudState, first: bool, second: bool, observed: HudObservation, rm: bool)
    ensures
        spec_settled(spec_settled(h, first), second) == spec_settled(h, first),
        spec_settled(h, first).settled,
        spec_observed(spec_settled(h, first), observed, rm).settled,
{
}

/// Visibility updates are idempotent: once the pill has taken an
/// observation, the same observation again does not move it.
pub proof fn lemma_same_observation_keeps_still(h: HudState, observed: HudObservation, rm: bool)
    ensures
        ({
            let after = spec_observed(h, observed, rm);
            &&& after.hidden == spec_hud_hidden(observed)
            &&& !(after.hidden != spec_hud_hidden(observed) || after.reduce_motion != rm)
            &&& spec_observed(after, observed, rm) == after
        }),
{
}

/// The pointer over the pill or in the corridor above it always hides the
/// pill; a flashlight hides it only while it shows and touches the pill;
/// with none of these, the pill is shown.
pub proof fn lemma_hidden_exactly_when_in_the_way(o: HudObservation)
    ensures
        (o.hover || o.in_top_corridor) ==> spec_hud_hidden(o),
        !o.flashlight_visible ==> (spec_hud_hidden(o) <==> (o.hover || o.in_top_corridor)),
        (!o.hover && !o.in_top_corridor && !(o.flashlight_visible && o.flashlight_touches_hud))
            ==> !spec_hud_hidden(o),
{
}

/// The frame the pill heads for: off screen when hidden, home otherwise.
pub fn target_frame<R>(home_frame: R, hidden_frame: R, hidden: bool) -> (r: R)
    ensures
        r == (if hidden { hidden_frame } else { home_frame }),
{
    if hidden {
        hidden_frame
    } else {
        home_frame
    }
}

/// The frame the pill is shown at: with reduced motion it stays home (and
/// only fades); otherwise it heads for its target frame.
pub fn presentation_frame<R>(home_frame: R, hidden_frame: R, hidden: bool, reduce_motion: bool) -> (r: R)
    ensures
        r == (if !reduce_motion && hidden { hidden_frame } else { home_frame }),
{
    if reduce_motion {
        home_frame
    } else {
        target_frame(home_frame, hidden_frame, hidden)
    }
}

/// Takes the pending settle timer, for the application to invalidate.
pub fn clear_timer<T>(timer: &mut Option<T>) -> (taken: Option<T>)
    ensures
        taken == *old(timer),
        *final(timer) == None::<T>,
{
    timer.take()
}

/// Unmounts the HUD: takes the pending timer and the mounted pill, for the
/// application to invalidate and remove; afterwards neither is recorded.
pub fn clear<H, T>(hud: &mut Option<H>, timer: &mut Option<T>) -> (taken: (Option<H>, Option<T>))
    ensures
        taken == (*old(hud), *old(timer)),
        *final(hud) == None::<H>,
        *final(timer) == None::<T>,
{
    let t = clear_timer(timer);
    let h = hud.take();
    (h, t)
}

} // verus!
