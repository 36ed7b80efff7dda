use coomer::capture::screen_for_mouse;

#[test]
fn first_screen_under_pointer_wins() {
    assert_eq!(screen_for_mouse(&[false, true, true]), 1);
    assert_eq!(screen_for_mouse(&[true, false]), 0);
    assert_eq!(screen_for_mouse(&[false, false, true]), 2);
}

#[test]
fn no_screen_under_pointer_falls_back_to_first() {
    assert_eq!(screen_for_mouse(&[false]), 0);
    assert_eq!(screen_for_mouse(&[false, false, false]), 0);
}
