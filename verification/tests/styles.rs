use tutorial_app::styles::{class_name, label, toggle, StyleButton, TextStyle};

#[test]
fn toggle_flips() {
    let mut b = false;
    toggle(&mut b);
    assert!(b);
    toggle(&mut b);
    assert!(!b);
}

#[test]
fn press_flips_only_its_class() {
    let mut s = TextStyle::new();
    assert!(s.classes().is_empty());
    s.press(StyleButton::Italics);
    assert_eq!(s, TextStyle { red: false, right: false, italics: true, smallcaps: false });
    assert!(s.is_on(StyleButton::Italics));
    assert!(!s.is_on(StyleButton::Red));
    s.press(StyleButton::Italics);
    assert_eq!(s, TextStyle::new());
}

#[test]
fn classes_listed_in_order() {
    let mut s = TextStyle::new();
    s.press(StyleButton::SmallCaps);
    s.press(StyleButton::Red);
    s.press(StyleButton::Right);
    assert_eq!(s.classes(), vec!["red".to_string(), "right".to_string(), "smallcaps".to_string()]);
}

#[test]
fn presses_commute() {
    let mut a = TextStyle::new();
    a.press(StyleButton::Red);
    a.press(StyleButton::Right);
    let mut b = TextStyle::new();
    b.press(StyleButton::Right);
    b.press(StyleButton::Red);
    assert_eq!(a, b);
}

#[test]
fn labels_and_class_names() {
    assert_eq!(label(StyleButton::Red), "Toggle Red");
    assert_eq!(label(StyleButton::Right), "Toggle Right");
    assert_eq!(label(StyleButton::Italics), "Toggle Italics");
    assert_eq!(label(StyleButton::SmallCaps), "Toggle Small Caps");
    assert_eq!(class_name(StyleButton::SmallCaps), "smallcaps");
}

#[test]
fn odd_presses_flip_even_restore() {
    let mut s = TextStyle::new();
    for k in 1..=5 {
        s.press(StyleButton::Red);
        assert_eq!(s.red, k % 2 == 1);
        assert!(!s.right && !s.italics && !s.smallcaps);
    }
    let mut b = true;
    for _ in 0..3 {
        toggle(&mut b);
    }
    assert!(!b);
}
