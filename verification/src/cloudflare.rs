//! The provider's side: the shapes of its replies, how a reply is read as
//! the answer of a record store, and what is sent to it.

use vstd::prelude::*;
use vstd::string::*;
use crate::config::Credentials;
use crate::config::CredentialsView;

verus! {

#[derive(Debug, Clone)]
pub struct Zone {
    pub id: String,
    pub name: String,
}

/// A DNS record as the provider holds it.
#[derive(Debug, Clone)]
pub struct DnsRecord {
    pub id: String,
    pub name: String,
    pub content: String,
    pub record_type: String,
    pub ttl: u32,
    pub proxied: bool,
}

pub ghost struct DnsRecordView {
    pub id: Seq<char>,
    pub name: Seq<char>,
    pub content: Seq<char>,
    pub record_type: Seq<char>,
    pub ttl: u32,
    pub proxied: bool,
}

impl View for DnsRecord {
    type V = DnsRecordView;

    open spec fn view(&self) -> DnsRecordView {
        DnsRecordView {
            id: self.id@,
            name: self.name@,
            content: self.content@,
            record_type: self.record_type@,
            ttl: self.ttl,
            proxied: self.proxied,
        }
    }
}

/// The body of a request that creates or updates a record.
#[derive(Debug, Clone)]
pub struct UpdateDnsRecordRequest {
    pub record_type: String,
    pub name: String,
    pub content: String,
    pub ttl: u32,
    pub priority: Option<u16>,
    pub proxied: bool,
}

pub ghost struct UpdateDnsRecordRequestView {
    pub record_type: Seq<char>,
    pub name: Seq<char>,
    pub content: Seq<char>,
    pub ttl: u32,
    pub priority: Option<u16>,
    pub proxied: bool,
}

impl View for UpdateDnsRecordRequest {
    type V = UpdateDnsRecordRequestView;

    open spec fn view(&self) -> UpdateDnsRecordRequestView {
        UpdateDnsRecordRequestView {
            record_type: self.record_type@,
            name: self.name@,
            content: self.content@,
            ttl: self.ttl,
            priority: self.priority,
            proxied: self.proxied,
        }
    }
}

/// What an update of one record needs: where the record is and what it
/// shall hold.
#[derive(Debug, Clone)]
pub struct UpdateDnsRecordParams<'a> {
    pub zone_id: &'a str,
    pub record_id: &'a str,
    pub record_type: &'a str,
    pub name: &'a str,
    pub content: &'a str,
    pub ttl: u32,
    pub proxied: bool,
}

#[derive(Debug, Clone)]
pub struct ApiError {
    pub code: u32,
    pub message: String,
}

/// The envelope around a single result.
#[derive(Debug, Clone)]
pub struct ApiResponse<T> {
    pub success: bool,
    pub errors: Vec<ApiError>,
    pub messages: Vec<String>,
    pub result: T,
}

#[derive(Debug, Clone)]
pub struct ResultInfo {
    pub page: u32,
    pub per_page: u32,
    pub total_pages: u32,
    pub count: u32,
    pub total_count: u32,
}

#[derive(Debug, Clone)]
pub struct ListZonesResponse {
    pub success: bool,
    pub errors: Vec<ApiError>,
    pub messages: Vec<String>,
    pub result: Vec<Zone>,
    pub result_info: ResultInfo,
}

#[derive(Debug, Clone)]
pub struct ListDnsRecordsResponse {
    pub success: bool,
    pub errors: Vec<ApiError>,
    pub messages: Vec<String>,
    pub result: Vec<DnsRecord>,
    pub result_info: ResultInfo,
}

/// Why a call to the record store gave no result.
#[derive(Debug, Clone, Copy, PartialEq, Eq, Structural)]
pub enum StoreError {
    /// What was asked for does not exist.
    NotFound,
    /// The credentials were rejected.
    AuthError,
    /// The network failed or the provider answered with a failure status.
    TransportError,
    /// The provider answered with a success status, but not with the
    /// expected successful envelope.
    ResponseParseError,
}

/// What came back from one HTTP exchange. `body` is `None` where the text
/// received could not be decoded as the expected envelope.
#[derive(Debug, Clone)]
pub enum HttpReply<T> {
    /// No response: the request failed or timed out.
    Unreachable,
    Response { status: u16, body: Option<T> },
}

/// One HTTP header.
#[derive(Debug, Clone)]
pub struct Header {
    pub name: String,
    pub value: String,
}

impl View for Header {
    type V = (Seq<char>, Seq<char>);

    open spec fn view(&self) -> (Seq<char>, Seq<char>) {
        (self.name@, self.value@)
    }
}

/// Whether an HTTP status code reports success.
pub open spec fn status_is_success(status: u16) -> bool {
    200 <= status < 300
}

/// The failure that a status code other than success stands for.
pub open spec fn status_failure(status: u16) -> StoreError {
    if status == 401 || status == 403 {
        StoreError::AuthError
    } else if status == 404 {
        StoreError::NotFound
    } else {
        StoreError::TransportError
    }
}

/// The failure that a status code stands for, if it stands for one.
pub fn classify_status(status: u16) -> (r: Option<StoreError>)
    ensures
        r == if status_is_success(status) {
            None
        } else {
            Some(status_failure(status))
        },
{
    if 200 <= status && status < 300 {
        None
    } else if status == 401 || status == 403 {
        Some(StoreError::AuthError)
    } else if status == 404 {
        Some(StoreError::NotFound)
    } else {
        Some(StoreError::TransportError)
    }
}

/// What a reply yields before its body is looked at: the failure it stands
/// for, or the decoded body.
pub open spec fn reply_body<T>(reply: HttpReply<T>) -> Result<T, StoreError> {
    match reply {
        HttpReply::Unreachable => Err(StoreError::TransportError),
        HttpReply::Response { status, body } => if !status_is_success(status) {
            Err(status_failure(status))
        } else {
            match body {
                None => Err(StoreError::ResponseParseError),
                Some(b) => Ok(b),
            }
        },
    }
}

/// The zone id that a zone listing yields: the id of the first zone listed.
pub open spec fn zone_lookup(reply: HttpReply<ListZonesResponse>) -> Result<Seq<char>, StoreError> {
    match reply_body(reply) {
        Err(e) => Err(e),
        Ok(body) => if !body.success {
            Err(StoreError::ResponseParseError)
        } else if body.result@.len() == 0 {
            Err(StoreError::NotFound)
        } else {
            Ok(body.result@[0].id@)
        },
    }
}

/// The record id that a record listing yields: the id of the first record
/// listed.
pub open spec fn record_lookup(reply: HttpReply<ListDnsRecordsResponse>) -> Result<
    Seq<char>,
    StoreError,
> {
    match reply_body(reply) {
        Err(e) => Err(e),
        Ok(body) => if !body.success {
            Err(StoreError::ResponseParseError)
        } else if body.result@.len() == 0 {
            Err(StoreError::NotFound)
        } else {
            Ok(body.result@[0].id@)
        },
    }
}

/// The record that a reply about a single record yields.
pub open spec fn record_detail(reply: HttpReply<ApiResponse<DnsRecord>>) -> Result<
    DnsRecord,
    StoreError,
> {
    match reply_body(reply) {
        Err(e) => Err(e),
        Ok(body) => if !body.success {
            Err(StoreError::ResponseParseError)
        } else {
            Ok(body.result)
        },
    }
}

/// Reads the reply to a zone listing.
pub fn zone_id_from_reply(reply: &HttpReply<ListZonesResponse>) -> (r: Result<String, StoreError>)
    ensures
        match zone_lookup(*reply) {
            Ok(id) => r matches Ok(text) && text@ == id,
            Err(e) => r == Err::<String, StoreError>(e),
        },
{
    match reply {
        HttpReply::Unreachable => Err(StoreError::TransportError),
        HttpReply::Response { status, body } => match classify_status(*status) {
            Some(e) => Err(e),
            None => match body {
                None => Err(StoreError::ResponseParseError),
                Some(b) => if !b.success {
                    Err(StoreError::ResponseParseError)
                } else if b.result.len() == 0 {
                    Err(StoreError::NotFound)
                } else {
                    Ok(b.result[0].id.clone())
                },
            },
        },
    }
}

/// Reads the reply to a record listing.
pub fn record_id_from_reply(reply: &HttpReply<ListDnsRecordsResponse>) -> (r: Result<
    String,
    StoreError,
>)
    ensures
        match record_lookup(*reply) {
            Ok(id) => r matches Ok(text) && text@ == id,
            Err(e) => r == Err::<String, StoreError>(e),
        },
{
    match reply {
        HttpReply::Unreachable => Err(StoreError::TransportError),
        HttpReply::Response { status, body } => match classify_status(*status) {
            Some(e) => Err(e),
            None => match body {
                None => Err(StoreError::ResponseParseError),
                Some(b) => if !b.success {
                    Err(StoreError::ResponseParseError)
                } else if b.result.len() == 0 {
                    Err(StoreError::NotFound)
                } else {
                    Ok(b.result[0].id.clone())
                },
            },
        },
    }
}

/// Reads the reply to a request about a single record: a fetch, a creation
/// or an update.
pub fn record_from_reply(reply: HttpReply<ApiResponse<DnsRecord>>) -> (r: Result<
    DnsRecord,
    StoreError,
>)
    ensures
        r == record_detail(reply),
{
    match reply {
        HttpReply::Unreachable => Err(StoreError::TransportError),
        HttpReply::Response { status, body } => match classify_status(status) {
            Some(e) => Err(e),
            None => match body {
                None => Err(StoreError::ResponseParseError),
                Some(b) => if !b.success {
                    Err(StoreError::ResponseParseError)
                } else {
                    Ok(b.result)
                },
            },
        },
    }
}

/// The address under which all zones are listed.
pub open spec fn zones_endpoint() -> Seq<char> {
    "https://api.cloudflare.com/client/v4/zones"@
}

/// The address that lists the zones named `zone_name`.
pub open spec fn zones_url_text(zone_name: Seq<char>) -> Seq<char> {
    zones_endpoint() + "?name="@ + zone_name
}

/// The address of the records of the zone `zone_id`.
pub open spec fn records_url_text(zone_id: Seq<char>) -> Seq<char> {
    zones_endpoint() + "/"@ + zone_id + "/dns_records"@
}

/// The address that lists the records named `record_name` in the zone
/// `zone_id`.
pub open spec fn record_lookup_url_text(zone_id: Seq<char>, record_name: Seq<char>) -> Seq<char> {
    records_url_text(zone_id) + "?name="@ + record_name
}

/// The address of the record `record_id` in the zone `zone_id`.
pub open spec fn record_url_text(zone_id: Seq<char>, record_id: Seq<char>) -> Seq<char> {
    records_url_text(zone_id) + "/"@ + record_id
}

/// The address to ask for the zone named `zone_name`. The name is inserted
/// as it is.
pub fn zones_url(zone_name: &str) -> (url: String)
    ensures
        url@ == zones_url_text(zone_name@),
{
    String::from_str("https://api.cloudflare.com/client/v4/zones").concat("?name=").concat(
        zone_name,
    )
}

/// The address to create a record at.
pub fn records_url(zone_id: &str) -> (url: String)
    ensures
        url@ == records_url_text(zone_id@),
{
    String::from_str("https://api.cloudflare.com/client/v4/zones").concat("/").concat(
        zone_id,
    ).concat("/dns_records")
}

/// The address to ask for the record named `record_name`.
pub fn record_lookup_url(zone_id: &str, record_name: &str) -> (url: String)
    ensures
        url@ == record_lookup_url_text(zone_id@, record_name@),
{
    records_url(zone_id).concat("?name=").concat(record_name)
}

/// The address to fetch or update one record at.
pub fn record_url(zone_id: &str, record_id: &str) -> (url: String)
    ensures
        url@ == record_url_text(zone_id@, record_id@),
{
    records_url(zone_id).concat("/").concat(record_id)
}

/// The body that asks for a record of the given type and name to hold
/// `content`. No priority is ever sent.
pub open spec fn request_body(
    record_type: Seq<char>,
    name: Seq<char>,
    content: Seq<char>,
    ttl: u32,
    proxied: bool,
) -> UpdateDnsRecordRequestView {
    UpdateDnsRecordRequestView { record_type, name, content, ttl, priority: None, proxied }
}

impl UpdateDnsRecordRequest {
    /// The body of a request for a record of the given type and name to
    /// hold `content`.
    pub fn build(record_type: &str, name: &str, content: &str, ttl: u32, proxied: bool) -> (body:
        UpdateDnsRecordRequest)
        ensures
            body@ == request_body(record_type@, name@, content@, ttl, proxied),
    {
        UpdateDnsRecordRequest {
            record_type: String::from_str(record_type),
            name: String::from_str(name),
            content: String::from_str(content),
            ttl,
            priority: None,
            proxied,
        }
    }
}

impl<'a> UpdateDnsRecordParams<'a> {
    /// The address the update is sent to.
    pub fn url(&self) -> (url: String)
        ensures
            url@ == record_url_text(self.zone_id@, self.record_id@),
    {
        record_url(self.zone_id, self.record_id)
    }

    /// The body the update carries.
    pub fn body(&self) -> (body: UpdateDnsRecordRequest)
        ensures
            body@ == request_body(
                self.record_type@,
                self.name@,
                self.content@,
                self.ttl,
                self.proxied,
            ),
    {
        UpdateDnsRecordRequest::build(
            self.record_type,
            self.name,
            self.content,
            self.ttl,
            self.proxied,
        )
    }
}

/// The headers that carry `credentials`: a bearer token in `Authorization`,
/// or the pair in `X-Auth-Email` and `X-Auth-Key` followed by the JSON
/// content type.
pub open spec fn auth_headers_text(credentials: CredentialsView) -> Seq<(Seq<char>, Seq<char>)> {
    match credentials {
        CredentialsView::Token { token } => seq![("Authorization"@, "Bearer "@ + token)],
        CredentialsView::EmailKey { email, key } => seq![
            ("X-Auth-Email"@, email),
            ("X-Auth-Key"@, key),
            ("Content-Type"@, "application/json"@),
        ],
    }
}

/// The headers to send with every request.
pub fn auth_headers(credentials: &Credentials) -> (headers: Vec<Header>)
    ensures
        headers@.map_values(|h: Header| h@) == auth_headers_text(credentials@),
{
    let mut headers: Vec<Header> = Vec::new();
    match credentials {
        Credentials::Token { token } => {
            headers.push(
                Header {
                    name: String::from_str("Authorization"),
                    value: String::from_str("Bearer ").concat(token.as_str()),
                },
            );
        },
        Credentials::EmailKey { email, key } => {
            headers.push(Header { name: String::from_str("X-Auth-Email"), value: email.clone() });
            headers.push(Header { name: String::from_str("X-Auth-Key"), value: key.clone() });
            headers.push(
                Header {
                    name: String::from_str("Content-Type"),
                    value: String::from_str("application/json"),
                },
            );
        },
    }
    assert(headers@.map_values(|h: Header| h@) =~= auth_headers_text(credentials@));
    headers
}
/// Whether a header value may hold `c`: a tab, or any character but the
/// control characters below the space and the delete character.
pub open spec fn header_char_ok(c: char) -> bool {
    c == '\t' || (c as u32 >= 32 && c as u32 != 127)
}

/// Whether a header can carry `text` as its value.
pub open spec fn header_value_ok(text: Seq<char>) -> bool {
    forall|i: int| 0 <= i < text.len() ==> header_char_ok(#[trigger] text[i])
}

/// `HeaderValue::from_str` of reqwest's `header` module: whether it accepts
/// `text`. It goes through the bytes of the text and refuses it if one of
/// them is below 32 and no tab, or is 127. The bytes of a character beyond
/// ASCII are all above 127, so the contract says the same of the
/// characters.
#[verifier::external_body]
fn header_accepts(text: &str) -> (accepted: bool)
    ensures
        accepted == header_value_ok(text@),
{
    reqwest::header::HeaderValue::from_str(text).is_ok()
}

/// Whether every header of `credentials` can be sent: whether none of
/// their values holds a character that a header value may not hold.
pub fn credentials_sendable(credentials: &Credentials) -> (sendable: bool)
    ensures
        sendable == forall|i: int|
            0 <= i < auth_headers_text(credentials@).len() ==> header_value_ok(
                #[trigger] auth_headers_text(credentials@)[i].1,
            ),
{
    let headers = auth_headers(credentials);
    let ghost wanted = auth_headers_text(credentials@);
    assert(forall|k: int|
        0 <= k < headers@.len() ==> headers@[k]@ == headers@.map_values(|h: Header| h@)[k]);
    let mut i: usize = 0;
    while i < headers.len()
        invariant
            i <= headers.len(),
            wanted == auth_headers_text(credentials@),
            headers@.len() == wanted.len(),
            forall|k: int| 0 <= k < headers@.len() ==> headers@[k].value@ == wanted[k].1,
            forall|k: int| 0 <= k < i ==> header_value_ok(#[trigger] wanted[k].1),
        decreases headers.len() - i,
    {
        if !header_accepts(headers[i].value.as_str()) {
            assert(!header_value_ok(wanted[i as int].1));
            return false;
        }
        i = i + 1;
    }
    true
}

} // verus!
