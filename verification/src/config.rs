//! The configuration of one run: credentials, zone and managed records.

use vstd::prelude::*;
use vstd::string::*;

verus! {

/// How the client authenticates, as named by the `auth_type` text.
#[derive(Debug, Clone, Copy, PartialEq, Eq, Structural)]
pub enum AuthType {
    EmailKey,
    Token,
}

/// The address family a record follows, as named by the `ip_version` text.
#[derive(Debug, Clone, Copy, PartialEq, Eq, Structural)]
pub enum IpVersion {
    V4,
    V6,
}

/// Why a configuration cannot be used.
#[derive(Debug, Clone, Copy, PartialEq, Eq, Structural)]
pub enum ConfigError {
    /// `auth_type` is neither `token` nor `emailkey`.
    InvalidAuthType,
    /// `ip_version` is neither `v4` nor `v6`.
    InvalidIpVersion,
    /// The record type is not the one its address family requires.
    KindMismatch,
    /// The credentials of the selected mode are not all present.
    MissingCredentials,
    /// The credentials of both modes are fully present.
    AmbiguousCredentials,
}

/// The credentials of exactly one authentication mode.
#[derive(Debug, Clone)]
pub enum Credentials {
    Token { token: String },
    EmailKey { email: String, key: String },
}

pub ghost enum CredentialsView {
    Token { token: Seq<char> },
    EmailKey { email: Seq<char>, key: Seq<char> },
}

impl View for Credentials {
    type V = CredentialsView;

    open spec fn view(&self) -> CredentialsView {
        match *self {
            Credentials::Token { token } => CredentialsView::Token { token: token@ },
            Credentials::EmailKey { email, key } => CredentialsView::EmailKey {
                email: email@,
                key: key@,
            },
        }
    }
}

#[derive(Debug, Clone)]
pub struct CloudflareConfig {
    pub auth_type: String,
    pub auth_email: Option<String>,
    pub auth_key: Option<String>,
    pub api_token: Option<String>,
    pub zone_name: String,
}

#[derive(Debug, Clone)]
pub struct DnsRecordConfig {
    pub name: String,
    pub record_type: String,
    pub ttl: u32,
    pub proxied: bool,
    pub ip_version: String,
}

#[derive(Debug, Clone)]
pub struct Config {
    pub cloudflare: CloudflareConfig,
    pub dns_records: Vec<DnsRecordConfig>,
}

pub ghost struct DnsRecordConfigView {
    pub name: Seq<char>,
    pub record_type: Seq<char>,
    pub ttl: u32,
    pub proxied: bool,
    pub ip_version: Seq<char>,
}

impl View for DnsRecordConfig {
    type V = DnsRecordConfigView;

    open spec fn view(&self) -> DnsRecordConfigView {
        DnsRecordConfigView {
            name: self.name@,
            record_type: self.record_type@,
            ttl: self.ttl,
            proxied: self.proxied,
            ip_version: self.ip_version@,
        }
    }
}

/// The text `token`.
pub open spec fn token_text() -> Seq<char> {
    seq!['t', 'o', 'k', 'e', 'n']
}

/// The text `emailkey`.
pub open spec fn emailkey_text() -> Seq<char> {
    seq!['e', 'm', 'a', 'i', 'l', 'k', 'e', 'y']
}

/// The text `v4`.
pub open spec fn v4_text() -> Seq<char> {
    seq!['v', '4']
}

/// The text `v6`.
pub open spec fn v6_text() -> Seq<char> {
    seq!['v', '6']
}

/// The text `A`, the record type of an IPv4 address.
pub open spec fn a_text() -> Seq<char> {
    seq!['A']
}

/// The text `AAAA`, the record type of an IPv6 address.
pub open spec fn aaaa_text() -> Seq<char> {
    seq!['A', 'A', 'A', 'A']
}

/// The authentication mode that `text` names, if it names one.
pub open spec fn parse_auth_type(text: Seq<char>) -> Option<AuthType> {
    if text == token_text() {
        Some(AuthType::Token)
    } else if text == emailkey_text() {
        Some(AuthType::EmailKey)
    } else {
        None
    }
}

/// The address family that `text` names, if it names one.
pub open spec fn parse_ip_version(text: Seq<char>) -> Option<IpVersion> {
    if text == v4_text() {
        Some(IpVersion::V4)
    } else if text == v6_text() {
        Some(IpVersion::V6)
    } else {
        None
    }
}

/// The record type that carries addresses of the family `version`.
pub open spec fn kind_text(version: IpVersion) -> Seq<char> {
    match version {
        IpVersion::V4 => a_text(),
        IpVersion::V6 => aaaa_text(),
    }
}

/// What checking a record's configuration yields: its address family, or the
/// reason it cannot be managed.
pub open spec fn validate_record(record: DnsRecordConfigView) -> Result<IpVersion, ConfigError> {
    match parse_ip_version(record.ip_version) {
        None => Err(ConfigError::InvalidIpVersion),
        Some(version) => if record.record_type == kind_text(version) {
            Ok(version)
        } else {
            Err(ConfigError::KindMismatch)
        },
    }
}

/// The credentials a configuration selects. The mode named by `auth_type`
/// must be fully present and the other mode must not be.
pub open spec fn select_credentials(
    auth_type: Seq<char>,
    auth_email: Option<Seq<char>>,
    auth_key: Option<Seq<char>>,
    api_token: Option<Seq<char>>,
) -> Result<CredentialsView, ConfigError> {
    let pair_present = auth_email is Some && auth_key is Some;
    match parse_auth_type(auth_type) {
        None => Err(ConfigError::InvalidAuthType),
        Some(AuthType::Token) => if api_token is None {
            Err(ConfigError::MissingCredentials)
        } else if pair_present {
            Err(ConfigError::AmbiguousCredentials)
        } else {
            Ok(CredentialsView::Token { token: api_token->0 })
        },
        Some(AuthType::EmailKey) => if !pair_present {
            Err(ConfigError::MissingCredentials)
        } else if api_token is Some {
            Err(ConfigError::AmbiguousCredentials)
        } else {
            Ok(CredentialsView::EmailKey { email: auth_email->0, key: auth_key->0 })
        },
    }
}

/// The view of an optional text.
pub open spec fn text_view(text: Option<String>) -> Option<Seq<char>> {
    match text {
        Some(s) => Some(s@),
        None => None,
    }
}

/// Whether `text` reads exactly as the literal `literal`.
pub fn text_is(text: &String, literal: &str) -> (same: bool)
    ensures
        same == (text@ == literal@),
{
    let wanted = String::from_str(literal);
    *text == wanted
}

impl CloudflareConfig {
    /// The authentication mode named by `auth_type`: `token` or `emailkey`,
    /// spelled exactly so. Any other text is an error.
    pub fn get_auth_type(&self) -> (r: Result<AuthType, &'static str>)
        ensures
            match parse_auth_type(self.auth_type@) {
                Some(mode) => r == Ok::<AuthType, &'static str>(mode),
                None => r matches Err(message) && message@ == "Invalid auth type"@,
            },
    {
        proof {
            reveal_strlit("token");
            reveal_strlit("emailkey");
            assert("token"@ =~= token_text());
            assert("emailkey"@ =~= emailkey_text());
        }
        if text_is(&self.auth_type, "token") {
            Ok(AuthType::Token)
        } else if text_is(&self.auth_type, "emailkey") {
            Ok(AuthType::EmailKey)
        } else {
            Err("Invalid auth type")
        }
    }

    /// The credentials this configuration selects, or why it selects none.
    pub fn credentials(&self) -> (r: Result<Credentials, ConfigError>)
        ensures
            match select_credentials(
                self.auth_type@,
                text_view(self.auth_email),
                text_view(self.auth_key),
                text_view(self.api_token),
            ) {
                Ok(chosen) => r matches Ok(c) && c@ == chosen,
                Err(e) => r == Err::<Credentials, ConfigError>(e),
            },
    {
        let mode = match self.get_auth_type() {
            Ok(mode) => mode,
            Err(_) => { return Err(ConfigError::InvalidAuthType); },
        };
        match mode {
            AuthType::Token => match &self.api_token {
                None => Err(ConfigError::MissingCredentials),
                Some(token) => if self.auth_email.is_some() && self.auth_key.is_some() {
                    Err(ConfigError::AmbiguousCredentials)
                } else {
                    Ok(Credentials::Token { token: token.clone() })
                },
            },
            AuthType::EmailKey => match (&self.auth_email, &self.auth_key) {
                (Some(email), Some(key)) => if self.api_token.is_some() {
                    Err(ConfigError::AmbiguousCredentials)
                } else {
                    Ok(Credentials::EmailKey { email: email.clone(), key: key.clone() })
                },
                _ => Err(ConfigError::MissingCredentials),
            },
        }
    }
}

impl DnsRecordConfig {
    /// The address family named by `ip_version`: `v4` or `v6`, spelled
    /// exactly so. Any other text is an error.
    pub fn get_ip_version(&self) -> (r: Result<IpVersion, &'static str>)
        ensures
            match parse_ip_version(self.ip_version@) {
                Some(version) => r == Ok::<IpVersion, &'static str>(version),
                None => r matches Err(message) && message@ == "Invalid IP version"@,
            },
    {
        proof {
            reveal_strlit("v4");
            reveal_strlit("v6");
            assert("v4"@ =~= v4_text());
            assert("v6"@ =~= v6_text());
        }
        if text_is(&self.ip_version, "v4") {
            Ok(IpVersion::V4)
        } else if text_is(&self.ip_version, "v6") {
            Ok(IpVersion::V6)
        } else {
            Err("Invalid IP version")
        }
    }

    /// Checks the record before any request is made for it: the address
    /// family must be known and the record type must be the one that family
    /// requires (`A` for `v4`, `AAAA` for `v6`).
    pub fn validate(&self) -> (r: Result<IpVersion, ConfigError>)
        ensures
            r == validate_record(self@),
    {
        proof {
            reveal_strlit("A");
            reveal_strlit("AAAA");
            assert("A"@ =~= a_text());
            assert("AAAA"@ =~= aaaa_text());
        }
        match self.get_ip_version() {
            Err(_) => Err(ConfigError::InvalidIpVersion),
            Ok(IpVersion::V4) => if text_is(&self.record_type, "A") {
                Ok(IpVersion::V4)
            } else {
                Err(ConfigError::KindMismatch)
            },
            Ok(IpVersion::V6) => if text_is(&self.record_type, "AAAA") {
                Ok(IpVersion::V6)
            } else {
                Err(ConfigError::KindMismatch)
            },
        }
    }
}

} // verus!
