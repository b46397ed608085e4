use http_acl::authority::{is_valid_host, Authority, AuthorityError, Host};
use http_acl::ip::IpAddr;
use http_acl::url::get_url_path;

#[test]
fn test_is_valid_host() {
    assert!(is_valid_host("localhost"));
    assert!(is_valid_host("example.com"));
    assert!(is_valid_host("127.0.0.1"));
    assert!(is_valid_host("::1"));
    assert!(is_valid_host("[::1]"));
}

#[test]
fn test_authority_parse() {
    assert_eq!(
        Authority::parse("localhost").unwrap(),
        Authority {
            host: Host::Domain("localhost".to_string()),
            port: 0
        }
    );
    assert_eq!(
        Authority::parse("localhost:5000").unwrap(),
        Authority {
            host: Host::Domain("localhost".to_string()),
            port: 5000
        }
    );
    assert_eq!(
        Authority::parse("example.com").unwrap(),
        Authority {
            host: Host::Domain("example.com".to_string()),
            port: 0
        }
    );
    assert_eq!(
        Authority::parse("example.com:443").unwrap(),
        Authority {
            host: Host::Domain("example.com".to_string()),
            port: 443
        }
    );
    assert_eq!(
        Authority::parse("127.0.0.1").unwrap(),
        Authority {
            host: Host::Ip(IpAddr::v4(127, 0, 0, 1)),
            port: 0
        }
    );
    assert_eq!(
        Authority::parse("127.0.0.1:80").unwrap(),
        Authority {
            host: Host::Ip(IpAddr::v4(127, 0, 0, 1)),
            port: 80
        }
    );
    assert_eq!(
        Authority::parse("::1").unwrap(),
        Authority {
            host: Host::Ip(IpAddr::v6(0, 0, 0, 0, 0, 0, 0, 1)),
            port: 0
        }
    );
    assert_eq!(
        Authority::parse("[::1]").unwrap(),
        Authority {
            host: Host::Ip(IpAddr::v6(0, 0, 0, 0, 0, 0, 0, 1)),
            port: 0
        }
    );
    assert_eq!(
        Authority::parse("[::1]:80").unwrap(),
        Authority {
            host: Host::Ip(IpAddr::v6(0, 0, 0, 0, 0, 0, 0, 1)),
            port: 80
        }
    );
}

#[test]
fn authority_parse_normalizes_domain() {
    assert_eq!(
        Authority::parse("EXAMPLE.com").unwrap(),
        Authority {
            host: Host::Domain("example.com".to_string()),
            port: 0
        }
    );
}

#[test]
fn authority_parse_rejects_invalid_host() {
    assert_eq!(
        Authority::parse("exa mple.com"),
        Err(AuthorityError::InvalidHost)
    );
    assert_eq!(
        Authority::parse("example.com:99999"),
        Err(AuthorityError::InvalidHost)
    );
    assert!(!is_valid_host("exa mple.com"));
    assert!(!is_valid_host("localhost:5000"));
}

#[test]
fn authority_parse_largest_port() {
    assert_eq!(
        Authority::parse("example.com:65535").unwrap().port,
        65535
    );
    assert_eq!(
        Authority::parse("10.0.0.1:65535").unwrap(),
        Authority {
            host: Host::Ip(IpAddr::v4(10, 0, 0, 1)),
            port: 65535
        }
    );
}

#[test]
fn url_path_of_url() {
    assert_eq!(
        get_url_path("https://example.com/a/b?x=1"),
        Some("/a/b".to_string())
    );
    assert_eq!(get_url_path("not a url"), None);
}

#[test]
fn authority_forms_with_ports() {
    assert_eq!(
        Authority::parse("127.1:80").unwrap(),
        Authority {
            host: Host::Domain("127.1".to_string()),
            port: 80
        }
    );
    assert_eq!(
        Authority::parse("example.com:+80").unwrap(),
        Authority {
            host: Host::Domain("example.com".to_string()),
            port: 80
        }
    );
    assert!(Authority::parse("127.0.0.1:+80").is_ok());
    assert!(!is_valid_host("127.1:80"));
    assert!(is_valid_host("127.1"));
}
