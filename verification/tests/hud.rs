use coomer::hud::{clear, clear_timer, presentation_frame, target_frame, HudObservation, HudState};

fn observe(hover: bool, flashlight_visible: bool, flashlight_touches_hud: bool, in_top_corridor: bool) -> HudObservation {
    HudObservation { hover, flashlight_visible, flashlight_touches_hud, in_top_corridor }
}

#[test]
fn mounted_hud_is_shown_in_launch_layout() {
    let h = HudState::new(true);
    assert!(!h.settled);
    assert!(!h.hidden);
    assert!(h.reduce_motion);
}

#[test]
fn hover_hides_and_leaving_shows() {
    let mut h = HudState::new(false);
    assert!(h.update_visibility(observe(true, false, false, false), false));
    assert!(h.hidden);
    assert!(!h.update_visibility(observe(true, false, false, false), false));
    assert!(h.update_visibility(observe(false, false, false, false), false));
    assert!(!h.hidden);
}

#[test]
fn flashlight_hides_only_while_visible() {
    let mut h = HudState::new(false);
    assert!(!h.update_visibility(observe(false, false, true, false), false));
    assert!(!h.hidden);
    assert!(h.update_visibility(observe(false, true, true, false), false));
    assert!(h.hidden);
    assert!(h.update_visibility(observe(false, true, false, false), false));
    assert!(!h.hidden);
}

#[test]
fn corridor_hides_and_motion_setting_moves() {
    let mut h = HudState::new(false);
    assert!(h.update_visibility(observe(false, false, false, true), false));
    assert!(h.hidden);
    assert!(h.update_visibility(observe(false, false, false, true), true));
    assert!(h.hidden);
    assert!(h.reduce_motion);
}

#[test]
fn settle_happens_once() {
    let mut h = HudState::new(false);
    assert!(h.settle(true));
    assert!(h.settled);
    assert!(h.reduce_motion);
    assert!(!h.settle(false));
    assert!(h.settled);
    assert!(h.reduce_motion);
    h.update_visibility(observe(true, false, false, false), false);
    assert!(h.settled);
}

#[test]
fn frames_follow_hidden_and_motion() {
    assert_eq!(target_frame("home", "away", false), "home");
    assert_eq!(target_frame("home", "away", true), "away");
    assert_eq!(presentation_frame("home", "away", true, false), "away");
    assert_eq!(presentation_frame("home", "away", true, true), "home");
    assert_eq!(presentation_frame("home", "away", false, false), "home");
    assert_eq!(presentation_frame("home", "away", false, true), "home");
}

#[test]
fn clear_takes_hud_and_timer() {
    let mut timer = Some(5u8);
    assert_eq!(clear_timer(&mut timer), Some(5));
    assert_eq!(timer, None);
    let mut hud = Some("pill");
    let mut timer = Some(9u8);
    assert_eq!(clear(&mut hud, &mut timer), (Some("pill"), Some(9)));
    assert_eq!(hud, None);
    assert_eq!(timer, None);
    assert_eq!(clear::<&str, u8>(&mut hud, &mut timer), (None, None));
}
