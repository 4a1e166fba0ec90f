use tutorial_app::loading::{
    important_api_call, important_api_call2, load_data, loading_text, optional_value,
    optional_value_text, server_text, shouted_or_default, transition_text,
};

#[test]
fn load_data_values() {
    assert_eq!(load_data(0), 1);
    assert_eq!(load_data(1), 10);
    assert_eq!(load_data(7), 70);
    assert_eq!(load_data(-3), -30);
}

#[test]
fn server_and_status_lines() {
    assert_eq!(server_text(Some(10)), format!("Server returned {:?}", 10));
    assert_eq!(server_text(Some(-250)), "Server returned -250");
    assert_eq!(server_text(None), "Loading...");
    assert_eq!(loading_text(true), "Loading...");
    assert_eq!(loading_text(false), "Idle.");
}

#[test]
fn shouting_matches_std() {
    for s in ["Bill", "", "already LOUD", "mixed 123 áé ß z", "a-z_A-Z"] {
        assert_eq!(important_api_call(s), s.to_ascii_uppercase());
    }
    assert_eq!(important_api_call("Bill"), "BILL");
    let once = important_api_call("straße");
    assert_eq!(important_api_call(&once), once);
}

#[test]
fn shouted_default() {
    assert_eq!(shouted_or_default(None), "default");
    assert_eq!(shouted_or_default(Some("BILL".to_string())), "BILL");
}

#[test]
fn user_names_by_tab() {
    assert_eq!(important_api_call2(0), "Alice");
    assert_eq!(important_api_call2(1), "Bob");
    assert_eq!(important_api_call2(2), "Carol");
    assert_eq!(important_api_call2(3), "User not found");
    assert_eq!(important_api_call2(usize::MAX), "User not found");
}

#[test]
fn transition_lines() {
    assert_eq!(transition_text(true, &Some("Bob".to_string())), "Hang on...  Bob");
    assert_eq!(transition_text(false, &Some("Bob".to_string())), "Bob");
    assert_eq!(transition_text(true, &None), "Hang on...  ");
    assert_eq!(transition_text(false, &None), "");
}

#[test]
fn derived_optional_value() {
    assert_eq!(optional_value(""), None);
    assert_eq!(optional_value("hi"), Some(Some("hi".to_string())));
    assert_eq!(optional_value("hi"), (!"hi".is_empty()).then(|| Some("hi".to_string())));
    assert_eq!(optional_value_text(&Some(None)), "Some(\"\")");
    assert_eq!(optional_value_text(&optional_value("hi")), "Some(\"hi\")");
    assert_eq!(optional_value_text(&optional_value("")), "None");
}
