use chat_history::content::ContentSharedContact;
use chat_history::error::HistoryError;
use chat_history::vcard::{parse_vcard, vcard_properties};

fn trim_vcard_string(s: &str) -> String {
    s.trim().lines().map(|s| s.trim()).collect::<Vec<_>>().join("\n")
}

fn parse(vcard_string: &str) -> Result<ContentSharedContact, HistoryError> {
    parse_vcard(&trim_vcard_string(vcard_string))
}

fn vc(first_name: &str, phone: &str) -> ContentSharedContact {
    ContentSharedContact {
        first_name_option: Some(first_name.to_owned()),
        last_name_option: None,
        phone_number_option: Some(phone.to_owned()),
        vcard_path_option: None,
    }
}

#[test]
fn vcards() -> Result<(), HistoryError> {
    assert_eq!(parse(r"
        BEGIN:VCARD
        VERSION:3.0
        N:;Name (comment);;;
        FN:Name (comment)
        TEL;type=Mobile;waid=112223456543:+11 222-3456-543
        END:VCARD
    ")?, vc("Name (comment)", "+11 222-3456-543"));

    assert_eq!(parse(r"
        BEGIN:VCARD
        VERSION:3.0
        N:Name3;Name1;Name2;;
        FN:Name1 Name2 Name3
        TEL;type=Home:+12 345-6789-8765
        TEL;type=Mobile;waid=9876543212345:+98 765-4321-2345
        END:VCARD
    ")?, vc("Name1 Name2 Name3", "+98 765-4321-2345"));

    assert_eq!(parse(r"
        BEGIN:VCARD
        VERSION:3.0
        N:;+11 222-3333-4444;;;
        FN:+11 222-3333-4444
        TEL;type=CELL;waid=1122233334444:+11 222-3333-4444
        X-WA-BIZ-NAME:+11 222-3333-4444
        X-WA-BIZ-DESCRIPTION:My Fancy Description!
        END:VCARD
    ")?, vc("+11 222-3333-4444", "+11 222-3333-4444"));

    assert_eq!(parse(r"
        BEGIN:VCARD
        VERSION:3.0
        N:Name;Full;;;
        FN:Full Name
        item1.TEL;waid=1122233334444:+11 222-3333-4444
        item1.X-ABLabel:Ponsel
        X-WA-BIZ-DESCRIPTION:My Fancy Description!
        X-WA-BIZ-NAME:Full Name
        END:VCARD
    ")?, vc("Full Name", "+11 222-3333-4444"));

    Ok(())
}

#[test]
fn vcard_name_falls_back_to_first_nonempty_component() {
    let contact = parse_vcard("BEGIN:VCARD\nN:; ;Middle;Last;\nTEL:+1\nEND:VCARD").unwrap();
    assert_eq!(contact, vc("Middle", "+1"));
}

#[test]
fn vcard_empty_full_name_counts_as_absent() {
    let contact = parse_vcard("BEGIN:VCARD\nFN:  \nN:Family;Given\nTEL:+1\nEND:VCARD").unwrap();
    assert_eq!(contact, vc("Family", "+1"));
}

#[test]
fn vcard_mobile_wins_over_home_whatever_the_order() {
    let a = parse_vcard("FN:A\nTEL;type=Mobile:+2\nTEL;type=Home:+1").unwrap();
    let b = parse_vcard("FN:A\nTEL;type=Home:+1\nTEL;type=Mobile:+2").unwrap();
    assert_eq!(a, vc("A", "+2"));
    assert_eq!(b, vc("A", "+2"));
}

#[test]
fn vcard_waid_wins_among_phones_of_the_same_kind() {
    let mobiles = parse_vcard("FN:A\nTEL;type=cell:+1\nTEL;TYPE=CELL;WAID=2:+2").unwrap();
    assert_eq!(mobiles, vc("A", "+2"));
    let others = parse_vcard("FN:A\nTEL;type=Home:+1\nTEL;type=Work;waid=2:+2").unwrap();
    assert_eq!(others, vc("A", "+2"));
    let mobile_over_waid = parse_vcard("FN:A\nTEL;type=Home;waid=1:+1\nTEL;type=Mobile:+2").unwrap();
    assert_eq!(mobile_over_waid, vc("A", "+2"));
}

#[test]
fn vcard_falls_back_to_any_phone() {
    let contact = parse_vcard("FN:A\nTEL;type=Home:+1\nTEL;type=Work:+2").unwrap();
    assert_eq!(contact, vc("A", "+1"));
}

#[test]
fn vcard_without_phone_has_none() {
    let contact = parse_vcard("BEGIN:VCARD\nFN:Nobody Home\nEND:VCARD").unwrap();
    assert_eq!(
        contact,
        ContentSharedContact {
            first_name_option: Some("Nobody Home".to_owned()),
            last_name_option: None,
            phone_number_option: None,
            vcard_path_option: None,
        }
    );
}

#[test]
fn vcard_without_name_fails_to_parse() {
    let failure = parse_vcard("BEGIN:VCARD\nTEL:+1\nEND:VCARD");
    assert_eq!(failure, Err(HistoryError::ParseFailure("vCard has no name".to_owned())));
    assert_eq!(parse_vcard(""), Err(HistoryError::ParseFailure("vCard has no name".to_owned())));
    assert_eq!(
        parse_vcard("N:;;;;\nTEL:+1"),
        Err(HistoryError::ParseFailure("vCard has no name".to_owned()))
    );
}

#[test]
fn vcard_continued_lines_are_joined() {
    let contact = parse_vcard("BEGIN:VCARD\r\nFN:Very Long\r\n  Name\r\nTEL:+1\r\nEND:VCARD\r\n").unwrap();
    assert_eq!(contact, vc("Very Long Name", "+1"));
}

#[test]
fn vcard_properties_are_read_line_by_line() {
    let properties = vcard_properties("item1.TEL;waid=11;type=Cell: +1 \nno colon here\nFN:X");
    assert_eq!(properties.len(), 2);
    assert_eq!(properties[0].name, vec!['T', 'E', 'L']);
    assert_eq!(properties[0].params.len(), 2);
    assert_eq!(properties[0].params[0].iter().collect::<String>(), "waid=11");
    assert_eq!(properties[0].params[1].iter().collect::<String>(), "type=Cell");
    assert_eq!(properties[0].value.iter().collect::<String>(), "+1");
    assert_eq!(properties[1].name, vec!['F', 'N']);
    assert!(properties[1].params.is_empty());
}
