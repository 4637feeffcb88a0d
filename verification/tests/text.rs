use winit_egui_wgpu::text::same_text;

#[test]
fn equal_texts() {
    assert!(same_text("", ""));
    assert!(same_text("main", "main"));
    assert!(same_text("gr\u{fc}n", "gr\u{fc}n"));
    let built = format!("{}{}", "chal", "lenge");
    assert!(same_text(&built, "challenge"));
}

#[test]
fn different_texts() {
    assert!(!same_text("main", "mail"));
    assert!(!same_text("main", "mai"));
    assert!(!same_text("mai", "main"));
    assert!(!same_text("", "a"));
    assert!(!same_text("a", "A"));
    assert!(!same_text("gr\u{fc}n", "grun"));
    assert!(!same_text("\u{e9}", "e\u{301}"));
}
