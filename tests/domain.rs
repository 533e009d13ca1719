use dyndns_bridge::domain::{extract_subdomain, ConfigError, DomainParts};
use dyndns_bridge::handler::Config;

#[test]
fn test_extract_subdomain() {
    let (subdomain, domain) = extract_subdomain("subdomain.domain.com".to_string());
    assert_eq!(subdomain, "subdomain");
    assert_eq!(domain, "domain.com");

    let (subdomain, domain) = extract_subdomain("subdomain.other.co.uk".to_string());
    assert_eq!(subdomain, "subdomain.other");
    assert_eq!(domain, "co.uk");

    let (subdomain, domain) = extract_subdomain("domain.com".to_string());
    assert_eq!(subdomain, "");
    assert_eq!(domain, "domain.com");
}

#[test]
fn split_two_labels_has_empty_prefix() {
    let parts = DomainParts::from_domain("domain.com").unwrap();
    assert_eq!(parts.prefix, "");
    assert_eq!(parts.root, "domain.com");
}

#[test]
fn split_three_labels() {
    let parts = DomainParts::from_domain("sub.domain.com").unwrap();
    assert_eq!(parts.prefix, "sub");
    assert_eq!(parts.root, "domain.com");
}

#[test]
fn split_is_not_public_suffix_aware() {
    let parts = DomainParts::from_domain("sub.other.co.uk").unwrap();
    assert_eq!(parts.prefix, "sub.other");
    assert_eq!(parts.root, "co.uk");
    let parts = DomainParts::from_domain("example.co.uk").unwrap();
    assert_eq!(parts.prefix, "example");
    assert_eq!(parts.root, "co.uk");
}

#[test]
fn single_label_domain_is_rejected() {
    assert_eq!(DomainParts::from_domain("localhost").unwrap_err(), ConfigError::MalformedDomain);
    assert_eq!(DomainParts::from_domain("").unwrap_err(), ConfigError::MalformedDomain);
    assert!(Config::new("localhost", None).is_err());
}

#[test]
fn config_keeps_split_and_token() {
    let c = Config::new("dyn.example.org", Some("secret".to_string())).unwrap();
    assert_eq!(c.parts.prefix, "dyn");
    assert_eq!(c.parts.root, "example.org");
    assert_eq!(c.token, Some("secret".to_string()));
}
