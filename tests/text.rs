use tamamo_x::text::{decimal_string, same_text};

#[test]
fn decimal_rendering() {
    assert_eq!(decimal_string(0), "0");
    assert_eq!(decimal_string(7), "7");
    assert_eq!(decimal_string(10), "10");
    assert_eq!(decimal_string(4096), "4096");
    assert_eq!(decimal_string(usize::MAX), usize::MAX.to_string());
}

#[test]
fn text_equality() {
    assert!(same_text("hachimi.dll", "hachimi.dll"));
    assert!(!same_text("hachimi.dll", "Hachimi.dll"));
    assert!(!same_text("hachimi.dll", "hachimi.dl"));
    assert!(same_text("", ""));
}
