use chat_history::content::{Content, ContentPhoto, ContentPoll};
use chat_history::ids::{MasterInternalId, SlaveInternalId, UserId};
use chat_history::merge::{
    comes_before, compare_fields, differences, sort_for_walk, Difference, DifferenceValues,
    MasterMessage, SlaveMessage, WithTypedId,
};
use chat_history::message::{Message, MessageRegular, Typed};
use chat_history::rich_text::RichText;
use chat_history::service::MessageService;

fn regular(edit: Option<i64>, deleted: bool, content: Option<Content>) -> Typed {
    Typed::Regular(MessageRegular {
        edit_timestamp_option: edit,
        is_deleted: deleted,
        forward_from_name_option: None,
        reply_to_message_id_option: None,
        content_option: content,
    })
}

fn msg(internal_id: i64, source_id: Option<i64>, timestamp: i64, text: &str) -> Message {
    Message::new(
        internal_id,
        source_id,
        timestamp,
        UserId(1),
        vec![RichText::make_plain(text.to_owned())],
        regular(None, false, None),
    )
}

fn removed(label: &str) -> Difference {
    Difference { message: format!("Removed in slave: message {label}"), values: None }
}

fn added(label: &str) -> Difference {
    Difference { message: format!("Added in master's view: message {label}"), values: None }
}

fn mismatch(field: &str, label: &str, old: &str, new: &str) -> Difference {
    Difference {
        message: format!("{field} differs for message {label}"),
        values: Some(DifferenceValues { old: old.to_owned(), new: new.to_owned() }),
    }
}

#[test]
fn text_mismatch_gives_one_difference_with_both_values() {
    let master = vec![MasterMessage(msg(0, Some(1), 100, "a"))];
    let slave = vec![SlaveMessage(msg(0, Some(1), 100, "b"))];
    assert_eq!(differences(&master, &slave), vec![mismatch("Text", "#1", "a", "b")]);
}

#[test]
fn disjoint_source_ids_give_one_difference_per_message() {
    let master = vec![MasterMessage(msg(0, Some(1), 100, "a")), MasterMessage(msg(1, Some(3), 300, "c"))];
    let slave = vec![SlaveMessage(msg(0, Some(2), 200, "b")), SlaveMessage(msg(1, Some(4), 400, "d"))];
    let found = differences(&master, &slave);
    assert_eq!(found, vec![removed("#1"), added("#2"), removed("#3"), added("#4")]);
    assert!(found.iter().all(|d| d.values.is_none()));
}

#[test]
fn equal_histories_do_not_differ() {
    let master = vec![MasterMessage(msg(0, Some(1), 100, "a")), MasterMessage(msg(1, Some(2), 200, "b"))];
    let slave = vec![SlaveMessage(msg(5, Some(1), 100, "a")), SlaveMessage(msg(6, Some(2), 200, "b"))];
    assert_eq!(differences(&master, &slave), vec![]);
}

#[test]
fn empty_histories_do_not_differ() {
    assert_eq!(differences(&vec![], &vec![]), vec![]);
    let only = vec![MasterMessage(msg(0, Some(1), 100, "a"))];
    assert_eq!(differences(&only, &vec![]), vec![removed("#1")]);
    let only = vec![SlaveMessage(msg(0, Some(1), 100, "a"))];
    assert_eq!(differences(&vec![], &only), vec![added("#1")]);
}

#[test]
fn messages_without_source_id_are_never_matched() {
    let master = vec![MasterMessage(msg(0, None, 100, "a"))];
    let slave = vec![SlaveMessage(msg(0, None, 100, "a"))];
    assert_eq!(differences(&master, &slave), vec![removed("at 100"), added("at 100")]);
}

#[test]
fn every_field_that_differs_is_reported_in_order() {
    let photo = Content::Photo(ContentPhoto {
        path_option: Some("p.jpg".to_owned()),
        width: 1,
        height: 2,
        is_one_time: false,
    });
    let poll = Content::Poll(ContentPoll { question: "Why?".to_owned() });
    let m = Message::new(
        0,
        Some(7),
        100,
        UserId(1),
        vec![RichText::make_plain("old".to_owned()), RichText::make_bold("text".to_owned())],
        regular(None, false, Some(photo)),
    );
    let s = Message::new(
        0,
        Some(7),
        100,
        UserId(1),
        vec![RichText::make_plain("new".to_owned())],
        regular(Some(150), true, Some(poll)),
    );
    let found = differences(&vec![MasterMessage(m.clone())], &vec![SlaveMessage(s.clone())]);
    assert_eq!(
        found,
        vec![
            mismatch("Text", "#7", "old text", "new"),
            mismatch("Edit timestamp", "#7", "none", "150"),
            mismatch("Deletion flag", "#7", "false", "true"),
            mismatch("Content", "#7", "Photo p.jpg", "Poll Why?"),
        ]
    );
    let mut appended = vec![removed("#0")];
    compare_fields(&m, &s, &mut appended);
    assert_eq!(appended.len(), 5);
    assert_eq!(appended[0], removed("#0"));
    assert_eq!(&appended[1..], &found[..]);
}

#[test]
fn absent_content_is_held_against_present_content() {
    let poll = Content::Poll(ContentPoll { question: "Why?".to_owned() });
    let m = Message::new(0, Some(7), 100, UserId(1), vec![], regular(None, false, None));
    let s = Message::new(0, Some(7), 100, UserId(1), vec![], regular(None, false, Some(poll)));
    assert_eq!(
        differences(&vec![MasterMessage(m)], &vec![SlaveMessage(s)]),
        vec![mismatch("Content", "#7", "none", "Poll Why?")]
    );
}

#[test]
fn service_message_has_no_edit_deletion_or_content() {
    let m = Message::new(0, Some(7), 100, UserId(1), vec![], Typed::Service(MessageService::Notice));
    let s = Message::new(0, Some(7), 100, UserId(1), vec![], regular(None, false, None));
    assert_eq!(differences(&vec![MasterMessage(m)], &vec![SlaveMessage(s)]), vec![]);
}

#[test]
fn walk_goes_by_timestamp_then_source_id() {
    let master = vec![
        MasterMessage(msg(0, Some(30), 300, "c")),
        MasterMessage(msg(1, Some(10), 100, "a")),
        MasterMessage(msg(2, Some(21), 200, "b2")),
        MasterMessage(msg(3, Some(20), 200, "b1")),
    ];
    let found = differences(&master, &vec![]);
    assert_eq!(found, vec![removed("#10"), removed("#20"), removed("#21"), removed("#30")]);
}

#[test]
fn unsorted_sides_are_still_aligned() {
    let master = vec![MasterMessage(msg(0, Some(2), 200, "b")), MasterMessage(msg(1, Some(1), 100, "a"))];
    let slave = vec![SlaveMessage(msg(0, Some(1), 100, "a")), SlaveMessage(msg(1, Some(2), 200, "x"))];
    assert_eq!(differences(&master, &slave), vec![mismatch("Text", "#2", "b", "x")]);
}

#[test]
fn ties_keep_the_order_in_which_they_were_given() {
    let a = msg(0, None, 100, "first");
    let b = msg(1, None, 100, "second");
    let c = msg(2, None, 50, "earlier");
    let sorted = sort_for_walk(&vec![&a, &b, &c]);
    assert_eq!(sorted, vec![&c, &a, &b]);
    let sorted = sort_for_walk(&vec![&b, &a, &c]);
    assert_eq!(sorted, vec![&c, &b, &a]);
}

#[test]
fn absent_source_id_walks_before_present_one() {
    let without = msg(0, None, 100, "x");
    let with = msg(1, Some(i64::MIN), 100, "y");
    assert!(comes_before(&without, &with));
    assert!(!comes_before(&with, &without));
    assert!(comes_before(&without, &without));
    let later = msg(2, None, 101, "z");
    assert!(comes_before(&with, &later));
    assert!(!comes_before(&later, &with));
}

#[test]
fn master_goes_first_where_the_sides_tie() {
    let master = vec![MasterMessage(msg(0, Some(1), 100, "a"))];
    let slave = vec![SlaveMessage(msg(0, None, 100, "a"))];
    assert_eq!(differences(&master, &slave), vec![added("at 100"), removed("#1")]);
    let master = vec![MasterMessage(msg(0, None, 100, "a"))];
    let slave = vec![SlaveMessage(msg(0, None, 100, "b"))];
    assert_eq!(differences(&master, &slave), vec![removed("at 100"), added("at 100")]);
}

#[test]
fn inputs_are_left_as_they_were() {
    let master = vec![MasterMessage(msg(0, Some(2), 200, "b")), MasterMessage(msg(1, Some(1), 100, "a"))];
    let slave = vec![SlaveMessage(msg(0, Some(1), 100, "z"))];
    let master_before = master.iter().map(|m| m.0.clone()).collect::<Vec<_>>();
    let slave_before = slave.iter().map(|m| m.0.clone()).collect::<Vec<_>>();
    differences(&master, &slave);
    assert_eq!(master.iter().map(|m| m.0.clone()).collect::<Vec<_>>(), master_before);
    assert_eq!(slave.iter().map(|m| m.0.clone()).collect::<Vec<_>>(), slave_before);
}

#[test]
fn wrapped_messages_are_equal_by_identifiers_only() {
    let a = MasterMessage(msg(1, Some(10), 100, "a"));
    let b = MasterMessage(msg(1, Some(10), 999, "entirely different"));
    let c = MasterMessage(msg(2, Some(10), 100, "a"));
    let d = MasterMessage(msg(1, None, 100, "a"));
    assert!(a == b);
    assert!(a != c);
    assert!(a != d);
    let x = SlaveMessage(msg(1, Some(10), 100, "a"));
    let y = SlaveMessage(msg(1, Some(10), 5, "b"));
    let z = SlaveMessage(msg(1, Some(11), 100, "a"));
    assert!(x == y);
    assert!(x != z);
}

#[test]
fn typed_ids_generalize_to_the_internal_id() {
    let m = MasterMessage(msg(5, Some(10), 100, "a"));
    let s = SlaveMessage(msg(5, Some(10), 100, "a"));
    assert_eq!(m.typed_id(), MasterInternalId(5));
    assert_eq!(s.typed_id(), SlaveInternalId(5));
    assert_eq!(m.typed_id().generalize(), s.typed_id().generalize());
}

#[test]
fn difference_is_written_with_its_values() {
    let d = mismatch("Text", "#1", "a", "b");
    assert_eq!(d.to_text(), "Text differs for message #1\nWas:    a\nBecame: b");
    assert_eq!(removed("#1").to_text(), "Removed in slave: message #1");
}
