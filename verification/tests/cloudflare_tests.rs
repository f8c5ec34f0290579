use cloudflare_ddns::cloudflare::{
    auth_headers, classify_status, credentials_sendable, record_from_reply, record_id_from_reply, record_lookup_url,
    record_url, records_url, zone_id_from_reply, zones_url, ApiResponse, DnsRecord, HttpReply,
    ListDnsRecordsResponse, ListZonesResponse, ResultInfo, StoreError, UpdateDnsRecordParams,
    UpdateDnsRecordRequest, Zone,
};
use cloudflare_ddns::config::Credentials;

fn info() -> ResultInfo {
    ResultInfo { page: 1, per_page: 20, total_pages: 1, count: 1, total_count: 1 }
}

fn zones(success: bool, ids: &[&str]) -> ListZonesResponse {
    ListZonesResponse {
        success,
        errors: Vec::new(),
        messages: Vec::new(),
        result: ids
            .iter()
            .map(|id| Zone { id: id.to_string(), name: "example.com".to_string() })
            .collect(),
        result_info: info(),
    }
}

fn dns_record(id: &str, content: &str) -> DnsRecord {
    DnsRecord {
        id: id.to_string(),
        name: "home.example.com".to_string(),
        content: content.to_string(),
        record_type: "A".to_string(),
        ttl: 300,
        proxied: false,
    }
}

fn records(success: bool, ids: &[&str]) -> ListDnsRecordsResponse {
    ListDnsRecordsResponse {
        success,
        errors: Vec::new(),
        messages: Vec::new(),
        result: ids.iter().map(|id| dns_record(id, "203.0.113.1")).collect(),
        result_info: info(),
    }
}

fn single(success: bool, record: DnsRecord) -> ApiResponse<DnsRecord> {
    ApiResponse { success, errors: Vec::new(), messages: Vec::new(), result: record }
}

#[test]
fn status_classes() {
    assert_eq!(classify_status(200), None);
    assert_eq!(classify_status(204), None);
    assert_eq!(classify_status(299), None);
    assert_eq!(classify_status(199), Some(StoreError::TransportError));
    assert_eq!(classify_status(300), Some(StoreError::TransportError));
    assert_eq!(classify_status(400), Some(StoreError::TransportError));
    assert_eq!(classify_status(401), Some(StoreError::AuthError));
    assert_eq!(classify_status(403), Some(StoreError::AuthError));
    assert_eq!(classify_status(404), Some(StoreError::NotFound));
    assert_eq!(classify_status(429), Some(StoreError::TransportError));
    assert_eq!(classify_status(500), Some(StoreError::TransportError));
    assert_eq!(classify_status(503), Some(StoreError::TransportError));
}

#[test]
fn zone_lookup_takes_first_zone() {
    let reply = HttpReply::Response { status: 200, body: Some(zones(true, &["z1", "z2"])) };
    assert_eq!(zone_id_from_reply(&reply), Ok("z1".to_string()));
}

#[test]
fn zone_lookup_empty_list_is_not_found() {
    let reply = HttpReply::Response { status: 200, body: Some(zones(true, &[])) };
    assert_eq!(zone_id_from_reply(&reply), Err(StoreError::NotFound));
}

#[test]
fn zone_lookup_failures() {
    let unreachable: HttpReply<ListZonesResponse> = HttpReply::Unreachable;
    assert_eq!(zone_id_from_reply(&unreachable), Err(StoreError::TransportError));
    let forbidden = HttpReply::Response { status: 403, body: Some(zones(true, &["z1"])) };
    assert_eq!(zone_id_from_reply(&forbidden), Err(StoreError::AuthError));
    let unauthorized: HttpReply<ListZonesResponse> =
        HttpReply::Response { status: 401, body: None };
    assert_eq!(zone_id_from_reply(&unauthorized), Err(StoreError::AuthError));
    let broken = HttpReply::Response { status: 502, body: Some(zones(true, &["z1"])) };
    assert_eq!(zone_id_from_reply(&broken), Err(StoreError::TransportError));
    let garbled: HttpReply<ListZonesResponse> = HttpReply::Response { status: 200, body: None };
    assert_eq!(zone_id_from_reply(&garbled), Err(StoreError::ResponseParseError));
    let refused = HttpReply::Response { status: 200, body: Some(zones(false, &["z1"])) };
    assert_eq!(zone_id_from_reply(&refused), Err(StoreError::ResponseParseError));
}

#[test]
fn record_lookup_takes_first_record() {
    let reply = HttpReply::Response { status: 200, body: Some(records(true, &["r7", "r8"])) };
    assert_eq!(record_id_from_reply(&reply), Ok("r7".to_string()));
}

#[test]
fn record_lookup_failures() {
    let empty = HttpReply::Response { status: 200, body: Some(records(true, &[])) };
    assert_eq!(record_id_from_reply(&empty), Err(StoreError::NotFound));
    let missing: HttpReply<ListDnsRecordsResponse> =
        HttpReply::Response { status: 404, body: None };
    assert_eq!(record_id_from_reply(&missing), Err(StoreError::NotFound));
    let unreachable: HttpReply<ListDnsRecordsResponse> = HttpReply::Unreachable;
    assert_eq!(record_id_from_reply(&unreachable), Err(StoreError::TransportError));
    let forbidden: HttpReply<ListDnsRecordsResponse> =
        HttpReply::Response { status: 403, body: None };
    assert_eq!(record_id_from_reply(&forbidden), Err(StoreError::AuthError));
    let garbled: HttpReply<ListDnsRecordsResponse> =
        HttpReply::Response { status: 200, body: None };
    assert_eq!(record_id_from_reply(&garbled), Err(StoreError::ResponseParseError));
    let refused = HttpReply::Response { status: 200, body: Some(records(false, &[])) };
    assert_eq!(record_id_from_reply(&refused), Err(StoreError::ResponseParseError));
}

#[test]
fn record_detail_is_handed_on() {
    let reply =
        HttpReply::Response { status: 200, body: Some(single(true, dns_record("r7", "203.0.113.1"))) };
    let record = record_from_reply(reply).expect("a record");
    assert_eq!(record.id, "r7");
    assert_eq!(record.name, "home.example.com");
    assert_eq!(record.content, "203.0.113.1");
    assert_eq!(record.record_type, "A");
    assert_eq!(record.ttl, 300);
    assert!(!record.proxied);
}

#[test]
fn record_detail_failures() {
    let refused =
        HttpReply::Response { status: 200, body: Some(single(false, dns_record("r7", "x"))) };
    assert!(matches!(record_from_reply(refused), Err(StoreError::ResponseParseError)));
    let garbled: HttpReply<ApiResponse<DnsRecord>> =
        HttpReply::Response { status: 200, body: None };
    assert!(matches!(record_from_reply(garbled), Err(StoreError::ResponseParseError)));
    let server =
        HttpReply::Response { status: 500, body: Some(single(true, dns_record("r7", "x"))) };
    assert!(matches!(record_from_reply(server), Err(StoreError::TransportError)));
    let forbidden: HttpReply<ApiResponse<DnsRecord>> =
        HttpReply::Response { status: 401, body: None };
    assert!(matches!(record_from_reply(forbidden), Err(StoreError::AuthError)));
    let gone: HttpReply<ApiResponse<DnsRecord>> = HttpReply::Response { status: 404, body: None };
    assert!(matches!(record_from_reply(gone), Err(StoreError::NotFound)));
    let unreachable: HttpReply<ApiResponse<DnsRecord>> = HttpReply::Unreachable;
    assert!(matches!(record_from_reply(unreachable), Err(StoreError::TransportError)));
}

#[test]
fn urls_are_exact() {
    assert_eq!(zones_url("example.com"), "https://api.cloudflare.com/client/v4/zones?name=example.com");
    assert_eq!(records_url("z1"), "https://api.cloudflare.com/client/v4/zones/z1/dns_records");
    assert_eq!(
        record_lookup_url("z1", "home.example.com"),
        "https://api.cloudflare.com/client/v4/zones/z1/dns_records?name=home.example.com"
    );
    assert_eq!(
        record_url("z1", "r7"),
        "https://api.cloudflare.com/client/v4/zones/z1/dns_records/r7"
    );
    assert_eq!(zones_url(""), "https://api.cloudflare.com/client/v4/zones?name=");
}

#[test]
fn request_body_carries_no_priority() {
    let body = UpdateDnsRecordRequest::build("A", "home.example.com", "203.0.113.9", 300, true);
    assert_eq!(body.record_type, "A");
    assert_eq!(body.name, "home.example.com");
    assert_eq!(body.content, "203.0.113.9");
    assert_eq!(body.ttl, 300);
    assert_eq!(body.priority, None);
    assert!(body.proxied);
}

#[test]
fn update_params_give_url_and_body() {
    let params = UpdateDnsRecordParams {
        zone_id: "z1",
        record_id: "r7",
        record_type: "AAAA",
        name: "home.example.com",
        content: "2001:db8::1",
        ttl: 120,
        proxied: false,
    };
    assert_eq!(params.url(), "https://api.cloudflare.com/client/v4/zones/z1/dns_records/r7");
    let body = params.body();
    assert_eq!(body.record_type, "AAAA");
    assert_eq!(body.name, "home.example.com");
    assert_eq!(body.content, "2001:db8::1");
    assert_eq!(body.ttl, 120);
    assert_eq!(body.priority, None);
    assert!(!body.proxied);
}

#[test]
fn token_goes_into_authorization_header() {
    let headers = auth_headers(&Credentials::Token { token: "secret".to_string() });
    assert_eq!(headers.len(), 1);
    assert_eq!(headers[0].name, "Authorization");
    assert_eq!(headers[0].value, "Bearer secret");
}

#[test]
fn pair_goes_into_its_two_headers() {
    let headers = auth_headers(&Credentials::EmailKey {
        email: "me@example.com".to_string(),
        key: "k".to_string(),
    });
    assert_eq!(headers.len(), 3);
    assert_eq!(headers[0].name, "X-Auth-Email");
    assert_eq!(headers[0].value, "me@example.com");
    assert_eq!(headers[1].name, "X-Auth-Key");
    assert_eq!(headers[1].value, "k");
    assert_eq!(headers[2].name, "Content-Type");
    assert_eq!(headers[2].value, "application/json");
}

fn token(text: &str) -> Credentials {
    Credentials::Token { token: text.to_string() }
}

fn pair(email: &str, key: &str) -> Credentials {
    Credentials::EmailKey { email: email.to_string(), key: key.to_string() }
}

#[test]
fn ordinary_credentials_can_be_sent() {
    assert!(credentials_sendable(&token("s3cr3t-Token_0123")));
    assert!(credentials_sendable(&token("")));
    assert!(credentials_sendable(&token("with space and\ttab")));
    assert!(credentials_sendable(&token("caf\u{e9} \u{4e2d}")));
    assert!(credentials_sendable(&pair("me@example.com", "0123456789abcdef")));
}

#[test]
fn control_characters_cannot_be_sent() {
    assert!(!credentials_sendable(&token("line\nbreak")));
    assert!(!credentials_sendable(&token("\r")));
    assert!(!credentials_sendable(&token("nul\u{0}")));
    assert!(!credentials_sendable(&token("unit\u{1f}")));
    assert!(!credentials_sendable(&token("del\u{7f}")));
    assert!(!credentials_sendable(&pair("me@example.com\n", "k")));
    assert!(!credentials_sendable(&pair("me@example.com", "k\u{7f}")));
}

#[test]
fn sendable_credentials_make_header_values() {
    for credentials in [token("abc\tdef"), token("\u{80}"), pair("a b", "~")] {
        assert!(credentials_sendable(&credentials));
        for header in auth_headers(&credentials) {
            assert!(header.value.bytes().all(|b| b == b'\t' || (b >= 32 && b != 127)));
        }
    }
}
