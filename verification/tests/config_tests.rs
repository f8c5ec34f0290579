use cloudflare_ddns::config::{
    AuthType, CloudflareConfig, ConfigError, Credentials, DnsRecordConfig, IpVersion,
};

fn cloudflare(
    auth_type: &str,
    email: Option<&str>,
    key: Option<&str>,
    token: Option<&str>,
) -> CloudflareConfig {
    CloudflareConfig {
        auth_type: auth_type.to_string(),
        auth_email: email.map(|s| s.to_string()),
        auth_key: key.map(|s| s.to_string()),
        api_token: token.map(|s| s.to_string()),
        zone_name: "example.com".to_string(),
    }
}

fn record(record_type: &str, ip_version: &str) -> DnsRecordConfig {
    DnsRecordConfig {
        name: "home.example.com".to_string(),
        record_type: record_type.to_string(),
        ttl: 300,
        proxied: false,
        ip_version: ip_version.to_string(),
    }
}

#[test]
fn auth_type_token_is_recognised() {
    assert_eq!(cloudflare("token", None, None, None).get_auth_type(), Ok(AuthType::Token));
}

#[test]
fn auth_type_emailkey_is_recognised() {
    assert_eq!(cloudflare("emailkey", None, None, None).get_auth_type(), Ok(AuthType::EmailKey));
}

#[test]
fn auth_type_other_text_is_rejected() {
    assert_eq!(cloudflare("Token", None, None, None).get_auth_type(), Err("Invalid auth type"));
    assert_eq!(cloudflare("", None, None, None).get_auth_type(), Err("Invalid auth type"));
    assert_eq!(cloudflare("token ", None, None, None).get_auth_type(), Err("Invalid auth type"));
    assert_eq!(cloudflare("email", None, None, None).get_auth_type(), Err("Invalid auth type"));
}

#[test]
fn ip_version_v4_and_v6_are_recognised() {
    assert_eq!(record("A", "v4").get_ip_version(), Ok(IpVersion::V4));
    assert_eq!(record("AAAA", "v6").get_ip_version(), Ok(IpVersion::V6));
}

#[test]
fn ip_version_other_text_is_rejected() {
    assert_eq!(record("A", "V4").get_ip_version(), Err("Invalid IP version"));
    assert_eq!(record("A", "4").get_ip_version(), Err("Invalid IP version"));
    assert_eq!(record("A", "").get_ip_version(), Err("Invalid IP version"));
    assert_eq!(record("A", "v46").get_ip_version(), Err("Invalid IP version"));
}

#[test]
fn validate_accepts_matching_kind() {
    assert_eq!(record("A", "v4").validate(), Ok(IpVersion::V4));
    assert_eq!(record("AAAA", "v6").validate(), Ok(IpVersion::V6));
}

#[test]
fn validate_rejects_mismatched_kind() {
    assert_eq!(record("AAAA", "v4").validate(), Err(ConfigError::KindMismatch));
    assert_eq!(record("A", "v6").validate(), Err(ConfigError::KindMismatch));
    assert_eq!(record("a", "v4").validate(), Err(ConfigError::KindMismatch));
    assert_eq!(record("CNAME", "v4").validate(), Err(ConfigError::KindMismatch));
}

#[test]
fn validate_rejects_unknown_family_before_kind() {
    assert_eq!(record("A", "v5").validate(), Err(ConfigError::InvalidIpVersion));
    assert_eq!(record("TXT", "ipv4").validate(), Err(ConfigError::InvalidIpVersion));
}

#[test]
fn credentials_token_mode() {
    match cloudflare("token", None, None, Some("secret")).credentials() {
        Ok(Credentials::Token { token }) => assert_eq!(token, "secret"),
        other => panic!("unexpected: {:?}", other),
    }
}

#[test]
fn credentials_token_mode_ignores_half_a_pair() {
    match cloudflare("token", Some("me@example.com"), None, Some("secret")).credentials() {
        Ok(Credentials::Token { token }) => assert_eq!(token, "secret"),
        other => panic!("unexpected: {:?}", other),
    }
}

#[test]
fn credentials_pair_mode() {
    match cloudflare("emailkey", Some("me@example.com"), Some("k"), None).credentials() {
        Ok(Credentials::EmailKey { email, key }) => {
            assert_eq!(email, "me@example.com");
            assert_eq!(key, "k");
        }
        other => panic!("unexpected: {:?}", other),
    }
}

#[test]
fn credentials_missing() {
    assert!(matches!(
        cloudflare("token", None, None, None).credentials(),
        Err(ConfigError::MissingCredentials)
    ));
    assert!(matches!(
        cloudflare("emailkey", Some("me@example.com"), None, None).credentials(),
        Err(ConfigError::MissingCredentials)
    ));
    assert!(matches!(
        cloudflare("emailkey", None, Some("k"), None).credentials(),
        Err(ConfigError::MissingCredentials)
    ));
    assert!(matches!(
        cloudflare("emailkey", None, None, Some("secret")).credentials(),
        Err(ConfigError::MissingCredentials)
    ));
}

#[test]
fn credentials_ambiguous() {
    assert!(matches!(
        cloudflare("token", Some("me@example.com"), Some("k"), Some("secret")).credentials(),
        Err(ConfigError::AmbiguousCredentials)
    ));
    assert!(matches!(
        cloudflare("emailkey", Some("me@example.com"), Some("k"), Some("secret")).credentials(),
        Err(ConfigError::AmbiguousCredentials)
    ));
}

#[test]
fn credentials_invalid_auth_type() {
    assert!(matches!(
        cloudflare("basic", Some("me@example.com"), Some("k"), Some("secret")).credentials(),
        Err(ConfigError::InvalidAuthType)
    ));
}
