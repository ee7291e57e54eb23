use scale_comparison::math::ENumberEditor;

#[test]
fn test_editor_default() {
    let e = ENumberEditor::default();
    assert!(!e.editing);
    assert_eq!(e.significand, "");
    assert_eq!(e.exponent, "");
}

#[test]
fn test_editor_begin_and_finish() {
    let mut e = ENumberEditor::begin("2.3".to_string(), "-23".to_string());
    assert!(e.editing);
    assert_eq!(e.significand, "2.3");
    assert_eq!(e.exponent, "-23");
    e.finish();
    assert!(!e.editing);
    assert_eq!(e.significand, "2.3");
    assert_eq!(e.exponent, "-23");
}
