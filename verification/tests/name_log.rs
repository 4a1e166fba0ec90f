use tutorial_app::name_log::{display_name, ChangeListener, EffectLog, FormEvent, NameForm};

#[test]
fn display_name_uses_last_only_when_asked() {
    assert_eq!(display_name("Ada", "Lovelace", true), "Ada Lovelace");
    assert_eq!(display_name("Ada", "Lovelace", false), "Ada");
    assert_eq!(display_name("", "", true), " ");
}

#[test]
fn log_joins_entries_by_lines() {
    let mut l = EffectLog::new();
    assert_eq!(l.logged(), "");
    l.log("one");
    assert_eq!(l.logged(), "one");
    l.log("two");
    l.log("");
    assert_eq!(l.logged(), "one\ntwo\n");
    assert_eq!(l.logged(), l.entries.join("\n"));
}

#[test]
fn effect_logs_on_tracked_changes() {
    let mut f = NameForm::new();
    assert_eq!(f.first_entry(), " ");
    assert_eq!(f.apply(FormEvent::First("Ada".to_string())), Some("Ada ".to_string()));
    assert_eq!(f.apply(FormEvent::Last("Byron".to_string())), Some("Ada Byron".to_string()));
    assert_eq!(f.apply(FormEvent::UseLast(false)), Some("Ada".to_string()));
    assert_eq!(f.apply(FormEvent::Last("Lovelace".to_string())), None);
    assert_eq!(f.apply(FormEvent::UseLast(true)), Some("Ada Lovelace".to_string()));
}

#[test]
fn listener_logs_only_changed_names() {
    let mut l = ChangeListener::new();
    assert_eq!(l.on_change("Ada", "", false), vec!["      listener".to_string(), "Ada".to_string()]);
    assert_eq!(l.on_change("Ada", "Byron", false), vec!["      listener".to_string()]);
    assert_eq!(
        l.on_change("Ada", "Byron", true),
        vec!["      listener".to_string(), "Ada Byron".to_string()]
    );
    assert_eq!(l.prev_name, "Ada Byron");
    assert_eq!(l.on_change("Ada", "Byron", true), vec!["      listener".to_string()]);
}

#[test]
fn listener_first_change_with_empty_name_logs_nothing_new() {
    let mut l = ChangeListener::new();
    assert_eq!(l.on_change("", "x", false), vec!["      listener".to_string()]);
}
