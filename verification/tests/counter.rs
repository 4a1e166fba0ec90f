use tutorial_app::counter::{ClickCounter, WIN_COUNT};

#[test]
fn starts_at_zero() {
    assert_eq!(ClickCounter::new().count, 0);
}

#[test]
fn wins_on_fiftieth_click_and_restarts() {
    let mut c = ClickCounter::new();
    for i in 1..WIN_COUNT {
        assert!(!c.click_and_settle());
        assert_eq!(c.count, i);
    }
    assert!(c.click_and_settle());
    assert_eq!(c.count, 0);
    assert!(!c.click_and_settle());
    assert_eq!(c.count, 1);
}

#[test]
fn wins_twice_in_hundred_clicks() {
    let mut c = ClickCounter::new();
    let mut wins = 0;
    for _ in 0..120 {
        if c.click_and_settle() {
            wins += 1;
        }
    }
    assert_eq!(wins, 2);
    assert_eq!(c.count, 120 % 50);
}

#[test]
fn settle_at_or_above_mark() {
    let mut c = ClickCounter { count: 73 };
    assert!(c.settle());
    assert_eq!(c.count, 0);
    let mut c = ClickCounter { count: 49 };
    assert!(!c.settle());
    assert_eq!(c.count, 49);
}

#[test]
fn doubles_the_count() {
    let mut c = ClickCounter::new();
    c.click();
    c.click();
    c.click();
    assert_eq!(c.double_count(), 6);
}
