#[test]
fn run_refuses_without_macos() {
    assert_eq!(coomer::run(), Err("coomer only runs on macOS".to_string()));
}
