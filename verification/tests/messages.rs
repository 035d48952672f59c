use chat_history::content::{
    Content, ContentAudio, ContentFile, ContentLocation, ContentPhoto, ContentPoll,
    ContentSharedContact, ContentSticker, ContentVideo, ContentVideoMsg, ContentVoiceMsg,
};
use chat_history::entities::SOMEONE;
use chat_history::ids::{MessageInternalId, Timestamp, UserId};
use chat_history::message::{make_searchable_string, Message, MessageRegular, Typed};
use chat_history::paths::DatasetRoot;
use chat_history::rich_text::{RichText, RichTextElement, RichTextValue};
use chat_history::service::MessageService;

fn regular(content_option: Option<Content>) -> Typed {
    Typed::Regular(MessageRegular {
        edit_timestamp_option: None,
        is_deleted: false,
        forward_from_name_option: None,
        reply_to_message_id_option: None,
        content_option,
    })
}

fn os(s: &str) -> Option<String> {
    Some(s.to_owned())
}

#[test]
fn plain_text_message_is_found_by_its_text() {
    let msg = Message::new(
        0,
        Some(869569426176655274),
        1699812983,
        UserId(1),
        vec![RichText::make_plain("Sending you a text!".to_owned())],
        regular(None),
    );
    assert_eq!(msg.searchable_string, "Sending you a text!");
    assert_eq!(
        msg,
        Message {
            internal_id: 0,
            source_id_option: Some(869569426176655274),
            timestamp: 1699812983,
            from_id: 1,
            text: vec![RichTextElement {
                searchable_string: "Sending you a text!".to_owned(),
                val: RichTextValue::Plain { text: "Sending you a text!".to_owned() },
            }],
            searchable_string: "Sending you a text!".to_owned(),
            typed: regular(None),
        }
    );
}

#[test]
fn sticker_without_emoji_and_text_is_found_by_nothing() {
    let sticker = Content::Sticker(ContentSticker {
        path_option: os("Media/848013095925873688.gif"),
        width: 542,
        height: 558,
        thumbnail_path_option: None,
        emoji_option: None,
    });
    let msg = Message::new(1, Some(5405907581016140653), 1699813000, UserId(780327027359649707), vec![], regular(Some(sticker)));
    assert_eq!(msg.searchable_string, "");
    assert_eq!(msg.files_relative(), vec!["Media/848013095925873688.gif"]);

    let empty_emoji = Content::Sticker(ContentSticker {
        path_option: None,
        width: 0,
        height: 0,
        thumbnail_path_option: None,
        emoji_option: os(""),
    });
    assert_eq!(make_searchable_string(&[], &regular(Some(empty_emoji))), "");
}

#[test]
fn location_is_found_by_address_title_and_coordinates() {
    let location = Content::Location(ContentLocation {
        title_option: os("New Bahari"),
        address_option: os("Jl. Gurita No.21x, Denpasar, Bali"),
        lat_str: "-8.70385650".to_string(),
        lon_str: "115.21673666".to_string(),
        duration_sec_option: Some(123),
    });
    let msg = Message::new(0, Some(3891646720130869054), 1687757170, UserId(9017079856339592512), vec![], regular(Some(location)));
    assert_eq!(
        msg.searchable_string,
        "Jl. Gurita No.21x, Denpasar, Bali New Bahari -8.70385650 115.21673666"
    );
    assert!(msg.files_relative().is_empty());
}

#[test]
fn invited_members_are_found_by_name() {
    let typed = Typed::Service(MessageService::GroupInviteMembers {
        members: vec!["Aaaaa Aaaaaaaaaaa".to_owned()],
    });
    let msg = Message::new(0, Some(8082739393298423973), 1643607839, UserId(9017079856339592512), vec![], typed);
    assert_eq!(msg.searchable_string, "Aaaaa Aaaaaaaaaaa");
}

#[test]
fn deleted_message_without_text_is_found_by_nothing() {
    let typed = Typed::Regular(MessageRegular {
        edit_timestamp_option: Some(1693993963),
        is_deleted: true,
        forward_from_name_option: None,
        reply_to_message_id_option: None,
        content_option: None,
    });
    let msg = Message::new(1, Some(8221205389172673925), 1693993938, UserId(1), vec![], typed);
    assert_eq!(msg.searchable_string, "");
}

#[test]
fn forwarded_group_message_keeps_its_text() {
    let typed = Typed::Regular(MessageRegular {
        edit_timestamp_option: Some(1661417955),
        is_deleted: false,
        forward_from_name_option: Some(SOMEONE.to_owned()),
        reply_to_message_id_option: Some(8082739393298423973),
        content_option: None,
    });
    let msg = Message::new(
        1,
        Some(4824408779253713719),
        1661417508,
        UserId(1),
        vec![RichText::make_plain("Last group message".to_owned())],
        typed,
    );
    assert_eq!(msg.searchable_string, "Last group message");
    assert_eq!(msg.internal_id(), MessageInternalId(1));
    assert_eq!(msg.timestamp(), Timestamp(1661417508));
}

#[test]
fn text_and_payload_are_joined_by_one_space() {
    let text = vec![
        RichText::make_bold("  Hello ".to_owned()),
        RichText::make_plain("".to_owned()),
        RichText::make_italic("world\u{a0}!".to_owned()),
    ];
    let poll = Content::Poll(ContentPoll { question: "Why?".to_owned() });
    assert_eq!(make_searchable_string(&text, &regular(Some(poll))), "Hello world ! Why?");
}

#[test]
fn each_content_kind_adds_its_own_text() {
    let audio = Content::Audio(ContentAudio {
        path_option: os("a.mp3"),
        title_option: os("Title"),
        performer_option: os("Performer"),
        mime_type: "audio/mpeg".to_owned(),
        duration_sec_option: None,
        thumbnail_path_option: os("ignored.jpg"),
    });
    assert_eq!(make_searchable_string(&[], &regular(Some(audio))), "Title Performer");

    let video = Content::Video(ContentVideo {
        path_option: os("v.mp4"),
        title_option: None,
        performer_option: os("Performer"),
        width: 1,
        height: 2,
        mime_type: "video/mp4".to_owned(),
        duration_sec_option: Some(3),
        thumbnail_path_option: os("v.jpg"),
        is_one_time: false,
    });
    assert_eq!(make_searchable_string(&[], &regular(Some(video))), "Performer");

    let file = Content::File(ContentFile {
        path_option: os("f.bin"),
        file_name_option: os("report.pdf"),
        mime_type_option: None,
        thumbnail_path_option: None,
    });
    assert_eq!(make_searchable_string(&[], &regular(Some(file))), "report.pdf");

    let contact = Content::SharedContact(ContentSharedContact {
        first_name_option: os("Name"),
        last_name_option: None,
        phone_number_option: os("+11 222"),
        vcard_path_option: os("c.vcf"),
    });
    assert_eq!(make_searchable_string(&[], &regular(Some(contact))), "Name +11 222");

    let photo = Content::Photo(ContentPhoto {
        path_option: os("p.jpg"),
        width: 1,
        height: 1,
        is_one_time: false,
    });
    assert_eq!(make_searchable_string(&[], &regular(Some(photo))), "");

    let sticker = Content::Sticker(ContentSticker {
        path_option: None,
        width: 1,
        height: 1,
        thumbnail_path_option: None,
        emoji_option: os("👍"),
    });
    assert_eq!(make_searchable_string(&[], &regular(Some(sticker))), "👍");
}

#[test]
fn service_events_add_titles_and_members() {
    let create = Typed::Service(MessageService::GroupCreate {
        title: "Group".to_owned(),
        members: vec!["A".to_owned(), "B C".to_owned()],
    });
    assert_eq!(make_searchable_string(&[], &create), "Group A B C");
    let remove = Typed::Service(MessageService::GroupRemoveMembers { members: vec!["A".to_owned()] });
    assert_eq!(make_searchable_string(&[], &remove), "A");
    let migrate = Typed::Service(MessageService::GroupMigrateFrom { title: "Old".to_owned() });
    assert_eq!(make_searchable_string(&[], &migrate), "Old");
    let call = Typed::Service(MessageService::GroupCall { members: vec!["A".to_owned(), "B".to_owned()] });
    assert_eq!(make_searchable_string(&[], &call), "A B");
    let pin = Typed::Service(MessageService::PinMessage { message_id: 5 });
    assert_eq!(make_searchable_string(&[], &pin), "");
    let title = Typed::Service(MessageService::GroupEditTitle { title: "New".to_owned() });
    assert_eq!(make_searchable_string(&[], &title), "");
}

#[test]
fn files_relative_lists_paths_that_are_present() {
    let video_msg = Content::VideoMsg(ContentVideoMsg {
        path_option: os("v.mp4"),
        width: 1,
        height: 1,
        mime_type: "video/mp4".to_owned(),
        duration_sec_option: None,
        thumbnail_path_option: os("v.jpg"),
        is_one_time: false,
    });
    let msg = Message::new(0, None, 0, UserId(1), vec![], regular(Some(video_msg)));
    assert_eq!(msg.files_relative(), vec!["v.mp4", "v.jpg"]);

    let voice = Content::VoiceMsg(ContentVoiceMsg {
        path_option: None,
        mime_type: "audio/ogg".to_owned(),
        duration_sec_option: None,
    });
    let msg = Message::new(0, None, 0, UserId(1), vec![], regular(Some(voice)));
    assert!(msg.files_relative().is_empty());

    let file = Content::File(ContentFile {
        path_option: None,
        file_name_option: None,
        mime_type_option: None,
        thumbnail_path_option: os("t.jpg"),
    });
    let msg = Message::new(0, None, 0, UserId(1), vec![], regular(Some(file)));
    assert_eq!(msg.files_relative(), vec!["t.jpg"]);

    let contact = Content::SharedContact(ContentSharedContact {
        first_name_option: None,
        last_name_option: None,
        phone_number_option: None,
        vcard_path_option: os("c.vcf"),
    });
    let msg = Message::new(0, None, 0, UserId(1), vec![], regular(Some(contact)));
    assert_eq!(msg.files_relative(), vec!["c.vcf"]);

    let photo = ContentPhoto { path_option: os("g.jpg"), width: 1, height: 1, is_one_time: false };
    let edit = Typed::Service(MessageService::GroupEditPhoto { photo: photo.clone() });
    let msg = Message::new(0, None, 0, UserId(1), vec![], edit);
    assert_eq!(msg.files_relative(), vec!["g.jpg"]);
    let suggest = Typed::Service(MessageService::SuggestProfilePhoto { photo });
    let msg = Message::new(0, None, 0, UserId(1), vec![], suggest);
    assert_eq!(msg.files_relative(), vec!["g.jpg"]);
    let msg = Message::new(0, None, 0, UserId(1), vec![], Typed::Service(MessageService::ClearHistory));
    assert!(msg.files_relative().is_empty());
}

#[test]
fn files_are_made_absolute_under_the_root() {
    let sticker = Content::Sticker(ContentSticker {
        path_option: os("Media/s.webp"),
        width: 1,
        height: 1,
        thumbnail_path_option: os("Media/s_thumb.jpg"),
        emoji_option: None,
    });
    let root = DatasetRoot("/data/ds".to_owned());
    assert_eq!(sticker.path_file_option(&root), os("/data/ds/Media/s.webp"));
    let msg = Message::new(0, None, 0, UserId(1), vec![], regular(Some(sticker)));
    assert_eq!(msg.files(&root), vec!["/data/ds/Media/s.webp", "/data/ds/Media/s_thumb.jpg"]);

    let poll = Content::Poll(ContentPoll { question: "?".to_owned() });
    assert_eq!(poll.path_file_option(&root), None);
}

#[test]
fn typed_can_be_read_and_changed() {
    let mut msg = Message::new(0, None, 0, UserId(1), vec![], regular(None));
    assert_eq!(msg.typed(), &regular(None));
    *msg.typed_mut() = Typed::Service(MessageService::Notice);
    assert_eq!(msg.typed(), &Typed::Service(MessageService::Notice));
}

#[test]
fn rich_text_elements_are_made_with_their_searchable_string() {
    let cases = vec![
        (RichText::make_plain(" a\nb ".to_owned()), RichTextValue::Plain { text: " a\nb ".to_owned() }),
        (RichText::make_bold(" a\nb ".to_owned()), RichTextValue::Bold { text: " a\nb ".to_owned() }),
        (RichText::make_italic(" a\nb ".to_owned()), RichTextValue::Italic { text: " a\nb ".to_owned() }),
        (RichText::make_underline(" a\nb ".to_owned()), RichTextValue::Underline { text: " a\nb ".to_owned() }),
        (RichText::make_strikethrough(" a\nb ".to_owned()), RichTextValue::Strikethrough { text: " a\nb ".to_owned() }),
        (RichText::make_blockquote(" a\nb ".to_owned()), RichTextValue::Blockquote { text: " a\nb ".to_owned() }),
        (RichText::make_spoiler(" a\nb ".to_owned()), RichTextValue::Spoiler { text: " a\nb ".to_owned() }),
        (RichText::make_prefmt_inline(" a\nb ".to_owned()), RichTextValue::PrefmtInline { text: " a\nb ".to_owned() }),
        (
            RichText::make_prefmt_block(" a\nb ".to_owned(), os("rust")),
            RichTextValue::PrefmtBlock { text: " a\nb ".to_owned(), language_option: os("rust") },
        ),
    ];
    for (element, val) in cases {
        assert_eq!(element.searchable_string, "a b");
        assert_eq!(element.val, val);
    }
}

#[test]
fn link_is_found_by_text_and_address() {
    let both = RichText::make_link(os("Site"), "https://example.com".to_owned(), false);
    assert_eq!(both.searchable_string, "Site https://example.com");
    assert_eq!(
        both.val,
        RichTextValue::Link { text_option: os("Site"), href: "https://example.com".to_owned(), hidden: false }
    );
    let same = RichText::make_link(os("https://example.com"), "https://example.com".to_owned(), true);
    assert_eq!(same.searchable_string, "https://example.com");
    let bare = RichText::make_link(None, "https://example.com".to_owned(), false);
    assert_eq!(bare.searchable_string, "https://example.com");
}

#[test]
fn unwrap_gives_the_styled_values() {
    let text = vec![RichText::make_plain("a".to_owned()), RichText::make_bold("b".to_owned())];
    let vals = RichText::unwrap(&text);
    assert_eq!(vals.len(), 2);
    assert_eq!(vals[0], &RichTextValue::Plain { text: "a".to_owned() });
    assert_eq!(vals[1], &RichTextValue::Bold { text: "b".to_owned() });
    assert!(text[0].same(&text[0]));
    assert!(!text[0].same(&text[1]));
}

#[test]
fn payload_text_is_normalised() {
    let poll = Content::Poll(ContentPoll { question: "Where\u{00A0}to\n eat?".to_owned() });
    assert_eq!(make_searchable_string(&[], &regular(Some(poll.clone()))), "Where to eat?");
    let msg = Message::new(0, None, 0, UserId(1), vec![], regular(Some(poll)));
    assert_eq!(msg.searchable_string, "Where to eat?");
}

#[test]
fn payload_text_is_normalised_for_every_kind_of_piece() {
    let contact = Content::SharedContact(ContentSharedContact {
        first_name_option: os("First\u{200b}Name"),
        last_name_option: os(" Last\n\nName "),
        phone_number_option: os("+11\u{2003}222"),
        vcard_path_option: None,
    });
    assert_eq!(
        make_searchable_string(&[], &regular(Some(contact))),
        "First Name Last Name +11 222"
    );
    let create = Typed::Service(MessageService::GroupCreate {
        title: "My\u{a0}\u{a0}group".to_owned(),
        members: vec!["A\nB".to_owned(), "\u{feff}C".to_owned()],
    });
    assert_eq!(make_searchable_string(&[], &create), "My group A B C");
}

#[test]
fn text_and_payload_are_normalised_together() {
    let text = vec![RichText::make_plain("Look\u{a0}here".to_owned())];
    let file = Content::File(ContentFile {
        path_option: None,
        file_name_option: os("my\u{2028}report.pdf\n"),
        mime_type_option: None,
        thumbnail_path_option: None,
    });
    assert_eq!(make_searchable_string(&text, &regular(Some(file))), "Look here my report.pdf");
}

#[test]
fn payload_of_separators_only_is_found_by_nothing() {
    let poll = Content::Poll(ContentPoll { question: "\u{a0}\n \u{200b}".to_owned() });
    assert_eq!(make_searchable_string(&[], &regular(Some(poll))), "");
    let invite = Typed::Service(MessageService::GroupInviteMembers {
        members: vec!["".to_owned(), "".to_owned(), "".to_owned()],
    });
    assert_eq!(make_searchable_string(&[], &invite), "");
}
