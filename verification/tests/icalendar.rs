use anylist_rs::icalendar::{
    extract_icalendar_token, icalendar_url, icalendar_url_from_response, pick_icalendar_token,
    ICalendarInfo,
};

#[test]
fn test_extract_token() {
    let data = b"some data b2349cc3e7bc49ef85226d199916d1b6 more data";
    let token = extract_icalendar_token(data);
    assert_eq!(token, Some("b2349cc3e7bc49ef85226d199916d1b6".to_string()));
}

#[test]
fn test_extract_token_skips_user_id() {
    // Simulated response with user ID and calendar token
    let data = b"9540e2d686024900b0c28f4498db8165 other b2349cc3e7bc49ef85226d199916d1b6";
    let token = extract_icalendar_token(data);
    assert_eq!(token, Some("b2349cc3e7bc49ef85226d199916d1b6".to_string()));
}

#[test]
fn extract_token_finds_nothing_in_short_or_upper_case_runs() {
    assert_eq!(extract_icalendar_token(b""), None);
    assert_eq!(extract_icalendar_token(b"b2349cc3e7bc49ef85226d199916d1b"), None);
    assert_eq!(extract_icalendar_token(b"B2349CC3E7BC49EF85226D199916D1B6"), None);
}

#[test]
fn extract_token_falls_back_to_the_last_user_id() {
    let data = b"9540e2d686024900b0c28f4498db8165 and 9540aaaaaaaaaaaaaaaaaaaaaaaaaaaa";
    assert_eq!(
        extract_icalendar_token(data),
        Some("9540aaaaaaaaaaaaaaaaaaaaaaaaaaaa".to_string())
    );
}

#[test]
fn extract_token_takes_the_first_that_is_no_user_id() {
    let data = b"aaaaaaaaaaaaaaaaaaaaaaaaaaaaaaaa bbbbbbbbbbbbbbbbbbbbbbbbbbbbbbbb";
    assert_eq!(
        extract_icalendar_token(data),
        Some("aaaaaaaaaaaaaaaaaaaaaaaaaaaaaaaa".to_string())
    );
}

#[test]
fn extract_token_survives_invalid_utf8() {
    let mut data = vec![0xff, 0xfe, b' '];
    data.extend_from_slice(b"0123456789abcdef0123456789abcdef");
    data.push(0x80);
    assert_eq!(
        extract_icalendar_token(&data),
        Some("0123456789abcdef0123456789abcdef".to_string())
    );
}

#[test]
fn pick_token_prefers_what_is_no_user_id() {
    let candidates = vec!["9540x".to_string(), "954".to_string(), "9540".to_string()];
    assert_eq!(pick_icalendar_token(&candidates), Some("954".to_string()));
    let only_ids = vec!["9540a".to_string(), "9540b".to_string()];
    assert_eq!(pick_icalendar_token(&only_ids), Some("9540b".to_string()));
    assert_eq!(pick_icalendar_token(&Vec::new()), None);
}

#[test]
fn icalendar_url_is_made_from_the_token() {
    assert_eq!(icalendar_url("abc"), "https://icalendar.anylist.com/abc.ics");
    assert_eq!(
        icalendar_url_from_response(b"x b2349cc3e7bc49ef85226d199916d1b6"),
        Some("https://icalendar.anylist.com/b2349cc3e7bc49ef85226d199916d1b6.ics".to_string())
    );
    assert_eq!(icalendar_url_from_response(b"nothing here"), None);
}

#[test]
fn icalendar_info_of_an_enable_response() {
    let info = ICalendarInfo::from_enable_response(b"token b2349cc3e7bc49ef85226d199916d1b6");
    assert!(info.enabled());
    assert_eq!(info.token(), Some("b2349cc3e7bc49ef85226d199916d1b6"));
    assert_eq!(
        info.url(),
        Some("https://icalendar.anylist.com/b2349cc3e7bc49ef85226d199916d1b6.ics")
    );
    let empty = ICalendarInfo::from_enable_response(b"");
    assert!(empty.enabled());
    assert_eq!(empty.token(), None);
    assert_eq!(empty.url(), None);
}
