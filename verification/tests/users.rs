use chat_history::entities::{
    name_or_unnamed, name_or_unnamed_str, PbUuid, ShortUser, User, SOMEONE, UNKNOWN, UNNAMED,
};
use chat_history::ids::{
    MasterInternalId, MessageInternalId, SlaveInternalId, Timestamp, UserId, NO_INTERNAL_ID,
};

fn uuid() -> PbUuid {
    PbUuid { value: "00000000-0000-0000-0000-000000000000".to_owned() }
}

fn user(first: Option<&str>, last: Option<&str>, username: Option<&str>, phone: Option<&str>) -> User {
    User {
        ds_uuid: uuid(),
        id: 100,
        first_name_option: first.map(|s| s.to_owned()),
        last_name_option: last.map(|s| s.to_owned()),
        username_option: username.map(|s| s.to_owned()),
        phone_number_option: phone.map(|s| s.to_owned()),
    }
}

#[test]
fn pretty_name_prefers_first_and_last_name() {
    let u = user(Some("User 100 FN"), Some("User 100 LN"), Some("u100"), Some("+100"));
    assert_eq!(u.pretty_name(), "User 100 FN User 100 LN");
    assert_eq!(u.pretty_name_option(), Some("User 100 FN User 100 LN".to_owned()));
}

#[test]
fn pretty_name_falls_back_in_order() {
    assert_eq!(user(Some("First"), None, Some("nick"), Some("+1")).pretty_name(), "First");
    assert_eq!(user(None, Some("Last"), Some("nick"), Some("+1")).pretty_name(), "Last");
    assert_eq!(user(None, None, Some("nick"), Some("+1")).pretty_name(), "+1");
    assert_eq!(user(None, None, Some("nick"), None).pretty_name(), "nick");
}

#[test]
fn pretty_name_of_unnamed_user_is_placeholder() {
    let u = user(None, None, None, None);
    assert_eq!(u.pretty_name_option(), None);
    assert_eq!(u.pretty_name(), "[unnamed]");
    assert_eq!(u.pretty_name(), UNNAMED);
}

#[test]
fn pretty_name_is_placeholder_only_for_unnamed_user() {
    let candidates = vec![
        user(Some("a"), None, None, None),
        user(None, Some("b"), None, None),
        user(None, None, Some("c"), None),
        user(None, None, None, Some("d")),
        user(Some(""), None, None, None),
    ];
    for u in candidates {
        assert_ne!(u.pretty_name(), UNNAMED);
    }
}

#[test]
fn placeholders_read_as_expected() {
    assert_eq!(UNNAMED, "[unnamed]");
    assert_eq!(UNKNOWN, "[unknown]");
    assert_eq!(SOMEONE, "[someone]");
}

#[test]
fn name_or_unnamed_gives_name_or_placeholder() {
    assert_eq!(name_or_unnamed(&Some("Abcde".to_owned())), "Abcde");
    assert_eq!(name_or_unnamed(&None), "[unnamed]");
    assert_eq!(name_or_unnamed_str(Some("Abcde")), "Abcde");
    assert_eq!(name_or_unnamed_str(None), "[unnamed]");
}

#[test]
fn user_id_is_valid_when_positive() {
    assert!(UserId(1).is_valid());
    assert!(UserId(i64::MAX).is_valid());
    assert!(!UserId(0).is_valid());
    assert!(!UserId(-1).is_valid());
    assert!(!UserId::invalid().is_valid());
    assert_eq!(UserId::invalid(), UserId(0));
    assert_eq!(UserId::min_id(), UserId(i64::MIN));
}

#[test]
fn user_id_of_user_wraps_its_number() {
    assert_eq!(user(None, None, None, None).id(), UserId(100));
}

#[test]
fn timestamp_bounds() {
    assert_eq!(Timestamp::earliest(), Timestamp(0));
    assert_eq!(Timestamp::latest(), Timestamp(i64::MAX));
    assert!(Timestamp(5) < Timestamp(6));
}

#[test]
fn internal_ids_generalize_to_the_same_number() {
    assert_eq!(MasterInternalId(7).generalize(), MessageInternalId(7));
    assert_eq!(SlaveInternalId(7).generalize(), MessageInternalId(7));
    assert_eq!(MasterInternalId(7).generalize(), SlaveInternalId(7).generalize());
    assert_eq!(NO_INTERNAL_ID, -1);
    assert_eq!(MessageInternalId::none(), MessageInternalId(-1));
}

#[test]
fn short_user_becomes_user_with_first_name_only() {
    let short = ShortUser::new_name_str(UserId(42), "Full Name");
    assert_eq!(short, ShortUser::new(UserId(42), Some("Full Name".to_owned())));
    let u = short.to_user(&uuid());
    assert_eq!(
        u,
        User {
            ds_uuid: uuid(),
            id: 42,
            first_name_option: Some("Full Name".to_owned()),
            last_name_option: None,
            username_option: None,
            phone_number_option: None,
        }
    );
}

#[test]
fn default_short_user_is_invalid_and_unnamed() {
    let short = ShortUser::default();
    assert_eq!(short.id, UserId(0));
    assert_eq!(short.full_name_option, None);
}

#[test]
fn random_uuid_is_hyphenated_and_fresh() {
    let a = PbUuid::random();
    let b = PbUuid::random();
    assert_eq!(a.value.chars().count(), 36);
    for (i, c) in a.value.chars().enumerate() {
        if i == 8 || i == 13 || i == 18 || i == 23 {
            assert_eq!(c, '-');
        } else {
            assert!(c.is_ascii_digit() || ('a'..='f').contains(&c));
        }
    }
    assert_ne!(a, b);
    assert_eq!(a.duplicate(), a);
}

#[test]
fn user_duplicate_is_equal() {
    let u = user(Some("a"), Some("b"), Some("c"), Some("d"));
    assert_eq!(u.duplicate(), u);
}

#[test]
fn short_user_is_written_with_id_and_name() {
    let named = ShortUser::new_name_str(UserId(42), "Full \"Name\"");
    assert_eq!(named.to_text(), "ShortUser(id: 42, full_name: Some(\"Full \\\"Name\\\"\"))");
    assert_eq!(ShortUser::default().to_text(), "ShortUser(id: 0, full_name: None)");
}

#[test]
fn random_uuid_has_version_and_variant() {
    for _ in 0..64 {
        let uuid = PbUuid::random();
        let chars: Vec<char> = uuid.value.chars().collect();
        assert_eq!(chars.len(), 36);
        assert_eq!(chars[14], '4');
        assert!(['8', '9', 'a', 'b'].contains(&chars[19]));
    }
}
