use wardnet::api::{default_history_limit, session_cookie, HistoryQuery};
use wardnet::text::decimal_string;
use wardnet::wireguard::{parse_interface_name, InterfaceNameError};

#[test]
fn interface_names_follow_kernel_rules() {
    assert_eq!(parse_interface_name("wg_ward0").unwrap().as_str(), "wg_ward0");
    assert_eq!(parse_interface_name("wg_ward0").unwrap().handle().to_string(), "wg_ward0");
    assert_eq!(parse_interface_name("").err(), Some(InterfaceNameError::Empty));
    assert_eq!(
        parse_interface_name("a-very-long-interface").err(),
        Some(InterfaceNameError::TooLong)
    );
    assert!(parse_interface_name("exactly15bytes_").is_ok());
    assert_eq!(parse_interface_name("wg/0").err(), Some(InterfaceNameError::InvalidChars));
    assert_eq!(parse_interface_name("wg 0").err(), Some(InterfaceNameError::InvalidChars));
}

#[test]
fn interface_name_errors_read_like_the_daemon() {
    assert_eq!(
        InterfaceNameError::Empty.message(),
        "invalid interface name: an empty interface name was provided"
    );
    assert_eq!(
        InterfaceNameError::TooLong.message(),
        "invalid interface name: interface name longer than system max of 16 chars"
    );
    assert_eq!(
        InterfaceNameError::InvalidChars.message(),
        "invalid interface name: interface name contained slash or space characters"
    );
}

#[test]
fn session_cookie_is_http_only_and_strict() {
    assert_eq!(
        session_cookie("abc123", 86_400),
        "wardnet_session=abc123; HttpOnly; SameSite=Strict; Path=/; Max-Age=86400"
    );
    assert_eq!(
        session_cookie("t", 0),
        "wardnet_session=t; HttpOnly; SameSite=Strict; Path=/; Max-Age=0"
    );
}

#[test]
fn history_limit_defaults_to_twenty() {
    assert_eq!(default_history_limit(), 20);
    assert_eq!(HistoryQuery::with_default_limit().limit, 20);
}

#[test]
fn decimal_text_of_numbers() {
    assert_eq!(decimal_string(0), "0");
    assert_eq!(decimal_string(1234567890), "1234567890");
    assert_eq!(decimal_string(u64::MAX), "18446744073709551615");
}
