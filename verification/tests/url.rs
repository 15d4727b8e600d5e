use anylist_rs::realtime::url::build_websocket_url;

#[test]
fn url_keeps_unreserved_characters() {
    assert_eq!(
        build_websocket_url("abc-DEF_123.~", "token"),
        "wss://www.anylist.com/data/add-user-listener?client_id=abc-DEF_123.~&access_token=token"
    );
}

#[test]
fn url_percent_encodes_both_parameters() {
    assert_eq!(
        build_websocket_url("a b&c", "x/y=z+1"),
        "wss://www.anylist.com/data/add-user-listener?client_id=a%20b%26c&access_token=x%2Fy%3Dz%2B1"
    );
}

#[test]
fn url_encodes_bytes_outside_ascii_in_upper_case_hex() {
    assert_eq!(
        build_websocket_url("é", "€"),
        "wss://www.anylist.com/data/add-user-listener?client_id=%C3%A9&access_token=%E2%82%AC"
    );
}

#[test]
fn url_of_empty_parameters() {
    assert_eq!(
        build_websocket_url("", ""),
        "wss://www.anylist.com/data/add-user-listener?client_id=&access_token="
    );
}
