use tutorial_app::todo::{
    add_todo, pending_notice, pending_text, submitted_text, todo_id_text, uuid_hyphenated,
};

#[test]
fn added_ids_are_version_4() {
    for _ in 0..20 {
        let id = add_todo("buy milk");
        let u = uuid::Uuid::from_u128(id);
        assert_eq!(u.get_version_num(), 4);
        assert_eq!(u.get_variant(), uuid::Variant::RFC4122);
        let text = uuid_hyphenated(id);
        assert_eq!(&text[14..15], "4");
    }
    assert_ne!(add_todo("a"), add_todo("a"));
}

#[test]
fn hyphenated_matches_uuid_crate() {
    let samples: [u128; 4] = [
        0,
        u128::MAX,
        0x67e5504410b1426f9247bb680e5fe0c8,
        0xa1a2a3a4b1b2c1c2d1d2d3d4d5d6d7d8,
    ];
    for v in samples {
        assert_eq!(uuid_hyphenated(v), uuid::Uuid::from_u128(v).hyphenated().to_string());
    }
    assert_eq!(uuid_hyphenated(0x67e5504410b1426f9247bb680e5fe0c8), "67e55044-10b1-426f-9247-bb680e5fe0c8");
}

#[test]
fn todo_id_line_matches_pretty_debug() {
    let v = 0x67e5504410b1426f9247bb680e5fe0c8u128;
    let u = Some(uuid::Uuid::from_u128(v));
    assert_eq!(todo_id_text(Some(v)), format!("{:#?}", u));
    assert_eq!(todo_id_text(None), format!("{:#?}", None::<uuid::Uuid>));
}

#[test]
fn submitted_line_matches_pretty_debug() {
    for s in ["hi", "", "with \"quotes\"", "tab\there", "línea\nnueva"] {
        let o = Some(s.to_string());
        assert_eq!(submitted_text(&o), format!("{:#?}", o));
    }
    assert_eq!(submitted_text(&Some("hi".to_string())), "Some(\n    \"hi\",\n)");
    assert_eq!(submitted_text(&None), "None");
}

#[test]
fn pending_lines() {
    assert_eq!(pending_text(true), format!("{:#?}", true));
    assert_eq!(pending_text(false), "false");
    assert_eq!(pending_notice(true), Some("Loading...".to_string()));
    assert_eq!(pending_notice(false), None);
}
