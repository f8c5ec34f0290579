use cloudflare_ddns::config::IpVersion;
use cloudflare_ddns::ip_utils::{
    accept_address, address_from_reply, echo_endpoint, trim_bounds, trim_text, AddressError,
    EchoReply, RESOLVE_TIMEOUT_SECS,
};

fn response(status: u16, body: &str) -> EchoReply {
    EchoReply::Response { status, body: body.to_string() }
}

#[test]
fn trim_removes_white_space_at_both_ends_only() {
    assert_eq!(trim_text("  203.0.113.9\n"), "203.0.113.9");
    assert_eq!(trim_text("\t\r\n a b \u{a0}\u{3000}"), "a b");
    assert_eq!(trim_text("x"), "x");
    assert_eq!(trim_text(" x"), "x");
    assert_eq!(trim_text("x "), "x");
    assert_eq!(trim_text(""), "");
    assert_eq!(trim_text(" \n\t "), "");
    assert_eq!(trim_text("2001:db8::1"), "2001:db8::1");
}

#[test]
fn trim_agrees_with_std() {
    for text in ["", " ", "a", " a", "a ", " a b ", "\u{2003}é\u{2003}", "\n\n1.2.3.4\r\n", "_ _"] {
        assert_eq!(trim_text(text), text.trim());
    }
}

#[test]
fn address_is_the_trimmed_body() {
    assert_eq!(address_from_reply(&response(200, "203.0.113.9\n")), Ok("203.0.113.9".to_string()));
    assert_eq!(address_from_reply(&response(200, " 2001:db8::1 ")), Ok("2001:db8::1".to_string()));
}

#[test]
fn address_is_not_checked_further() {
    assert_eq!(address_from_reply(&response(200, "not an address")), Ok("not an address".to_string()));
}

#[test]
fn empty_body_is_no_address() {
    assert_eq!(address_from_reply(&response(200, "")), Err(AddressError::EmptyResponse));
    assert_eq!(address_from_reply(&response(200, " \r\n\t")), Err(AddressError::EmptyResponse));
}

#[test]
fn failure_status_is_no_address() {
    assert_eq!(address_from_reply(&response(500, "203.0.113.9")), Err(AddressError::Unreachable));
    assert_eq!(address_from_reply(&response(404, "203.0.113.9")), Err(AddressError::Unreachable));
    assert_eq!(address_from_reply(&response(301, "")), Err(AddressError::Unreachable));
    assert_eq!(address_from_reply(&response(199, "203.0.113.9")), Err(AddressError::Unreachable));
}

#[test]
fn no_response_is_no_address() {
    assert_eq!(address_from_reply(&EchoReply::TimedOut), Err(AddressError::Timeout));
    assert_eq!(address_from_reply(&EchoReply::Unreachable), Err(AddressError::Unreachable));
}

#[test]
fn each_family_has_its_endpoint() {
    assert_eq!(echo_endpoint(IpVersion::V4), "https://4.ipw.cn");
    assert_eq!(echo_endpoint(IpVersion::V6), "https://6.ipw.cn");
    assert_ne!(echo_endpoint(IpVersion::V4), echo_endpoint(IpVersion::V6));
}

#[test]
fn resolve_timeout_is_ten_seconds() {
    assert_eq!(RESOLVE_TIMEOUT_SECS, 10);
}

#[test]
fn trim_bounds_drop_marked_ends() {
    assert_eq!(trim_bounds(&vec![true, false, false, true]), (1, 3));
    assert_eq!(trim_bounds(&vec![false, true, false]), (0, 3));
    assert_eq!(trim_bounds(&vec![true, true, false, true, false, true, true, true]), (2, 5));
    assert_eq!(trim_bounds(&vec![false]), (0, 1));
    assert_eq!(trim_bounds(&vec![false, false]), (0, 2));
}

#[test]
fn trim_bounds_of_nothing_left_are_equal() {
    assert_eq!(trim_bounds(&Vec::new()), (0, 0));
    assert_eq!(trim_bounds(&vec![true]), (1, 1));
    assert_eq!(trim_bounds(&vec![true, true, true]), (3, 3));
}

#[test]
fn trimmed_body_is_accepted_on_success_only() {
    assert_eq!(accept_address(200, "203.0.113.9".to_string()), Ok("203.0.113.9".to_string()));
    assert_eq!(accept_address(299, "x".to_string()), Ok("x".to_string()));
    assert_eq!(accept_address(200, String::new()), Err(AddressError::EmptyResponse));
    assert_eq!(accept_address(300, "203.0.113.9".to_string()), Err(AddressError::Unreachable));
    assert_eq!(accept_address(500, String::new()), Err(AddressError::Unreachable));
    assert_eq!(accept_address(200, " ".to_string()), Ok(" ".to_string()));
}
