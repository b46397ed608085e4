use std::sync::Arc;

use http_acl::acl::{HttpAcl, RequestValidator};
use http_acl::authority::Authority;
use http_acl::builder::HttpAclBuilder;
use http_acl::classification::AclClassification;
use http_acl::ip::{IpAddr, IpNet};
use http_acl::ranges::PortRange;

fn net(a: u8, b: u8, c: u8, d: u8, prefix: u8) -> IpNet {
    IpNet::new(IpAddr::v4(a, b, c, d), prefix).unwrap()
}

#[test]
fn lib_acl() {
    let acl = HttpAclBuilder::new()
        .add_allowed_host("example.com".to_string())
        .unwrap()
        .add_allowed_host("example.org".to_string())
        .unwrap()
        .add_denied_host("example.net".to_string())
        .unwrap()
        .add_allowed_port_range(PortRange::new(8080, 8080))
        .unwrap()
        .add_denied_port_range(PortRange::new(8443, 8443))
        .unwrap()
        .add_allowed_ip_range(net(1, 0, 0, 0, 8))
        .unwrap()
        .add_denied_ip_range(net(9, 0, 0, 0, 8))
        .unwrap()
        .try_build()
        .unwrap();

    assert!(acl.is_host_allowed("example.com").is_allowed());
    assert!(acl.is_host_allowed("example.org").is_allowed());
    assert!(!acl.is_host_allowed("example.net").is_allowed());
    assert!(acl.is_port_allowed(8080).is_allowed());
    assert!(!acl.is_port_allowed(8443).is_allowed());
    assert!(acl.is_ip_allowed(&IpAddr::v4(1, 1, 1, 1)).is_allowed());
    assert!(acl.is_ip_allowed(&IpAddr::v4(9, 9, 9, 9)).is_denied());
    assert!(acl.is_ip_allowed(&IpAddr::v4(192, 168, 1, 1)).is_denied());
}

#[test]
fn lib_host_acl() {
    let acl = HttpAclBuilder::new()
        .add_allowed_host("example.com".to_string())
        .unwrap()
        .add_allowed_host("example.org".to_string())
        .unwrap()
        .add_denied_host("example.net".to_string())
        .unwrap()
        .try_build()
        .unwrap();

    assert!(acl.is_host_allowed("example.com").is_allowed());
    assert!(acl.is_host_allowed("example.org").is_allowed());
    assert!(!acl.is_host_allowed("example.net").is_allowed());
}

#[test]
fn lib_port_acl() {
    let acl = HttpAclBuilder::new()
        .clear_allowed_port_ranges()
        .add_allowed_port_range(PortRange::new(8080, 8080))
        .unwrap()
        .add_denied_port_range(PortRange::new(8441, 8443))
        .unwrap()
        .try_build()
        .unwrap();

    assert!(acl.is_port_allowed(80).is_denied());
    assert!(acl.is_port_allowed(8080).is_allowed());
    assert!(acl.is_port_allowed(8440).is_denied());
    assert!(!acl.is_port_allowed(8441).is_allowed());
    assert!(!acl.is_port_allowed(8442).is_allowed());
    assert!(!acl.is_port_allowed(8443).is_allowed());
    assert!(acl.is_port_allowed(8444).is_denied());
}

#[test]
fn lib_ip_acl() {
    let acl = HttpAclBuilder::new()
        .clear_allowed_ip_ranges()
        .add_allowed_ip_range(net(1, 0, 0, 0, 8))
        .unwrap()
        .add_denied_ip_range(net(9, 0, 0, 0, 8))
        .unwrap()
        .try_build()
        .unwrap();

    assert!(acl.is_ip_allowed(&IpAddr::v4(1, 1, 1, 1)).is_allowed());
    assert!(acl.is_ip_allowed(&IpAddr::v4(9, 9, 9, 9)).is_denied());
    assert!(acl.is_ip_allowed(&IpAddr::v4(192, 168, 1, 1)).is_denied());
}

#[test]
fn lib_private_ip_acl() {
    let acl = HttpAclBuilder::new()
        .private_ip_ranges(true)
        .ip_acl_default(true)
        .try_build()
        .unwrap();

    assert!(acl.is_ip_allowed(&IpAddr::v4(192, 168, 1, 1)).is_allowed());
    assert!(acl.is_ip_allowed(&IpAddr::v4(203, 0, 113, 12)).is_denied());

    let acl = HttpAclBuilder::new().ip_acl_default(true).try_build().unwrap();

    assert!(acl.is_ip_allowed(&IpAddr::v4(192, 168, 1, 1)).is_denied());
    assert!(acl.is_ip_allowed(&IpAddr::v4(203, 0, 113, 12)).is_denied());
}

#[test]
fn lib_default_ip_acl() {
    let acl = HttpAclBuilder::new().try_build().unwrap();

    assert!(acl.is_ip_allowed(&IpAddr::v4(192, 168, 1, 1)).is_denied());
    assert!(acl.is_ip_allowed(&IpAddr::v4(1, 1, 1, 1)).is_denied());
    assert!(!acl.is_port_allowed(8080).is_allowed());
}

#[test]
fn url_path_acl() {
    let acl = HttpAclBuilder::new()
        .add_allowed_url_path("/allowed".to_string())
        .unwrap()
        .add_allowed_url_path("/allowed/:id".to_string())
        .unwrap()
        .add_denied_url_path("/denied".to_string())
        .unwrap()
        .add_denied_url_path("/denied/{*path}".to_string())
        .unwrap()
        .try_build()
        .unwrap();

    assert!(acl.is_url_path_allowed("/allowed").is_allowed());
    assert!(acl.is_url_path_allowed("/allowed/allowed").is_allowed());
    assert!(acl.is_url_path_allowed("/denied").is_denied());
    assert!(acl.is_url_path_allowed("/denied/denied").is_denied());
    assert!(acl.is_url_path_allowed("/denied/denied/denied").is_denied());
}

#[test]
fn header_acl() {
    let acl = HttpAclBuilder::new()
        .add_allowed_header("X-Allowed".to_string(), Some("true".to_string()))
        .unwrap()
        .add_allowed_header("X-Allowed2".to_string(), None)
        .unwrap()
        .add_denied_header("X-Denied".to_string(), Some("true".to_string()))
        .unwrap()
        .add_denied_header("X-Denied2".to_string(), None)
        .unwrap()
        .try_build()
        .unwrap();

    assert!(acl.is_header_allowed("X-Allowed", "true").is_allowed());
    assert!(acl.is_header_allowed("X-Allowed2", "false").is_allowed());
    assert!(acl.is_header_allowed("X-Denied", "true").is_denied());
    assert!(acl.is_header_allowed("X-Denied2", "false").is_denied());
}

struct DangerCheck;

impl RequestValidator for DangerCheck {
    fn validate(
        &self,
        scheme: &str,
        authority: &Authority,
        headers: &[(&str, &str)],
        body: Option<&[u8]>,
    ) -> AclClassification {
        if scheme == "http" {
            return AclClassification::DeniedUserAcl;
        }

        if authority.host.is_ip() {
            return AclClassification::DeniedUserAcl;
        }

        for (header_name, header_value) in headers {
            if *header_name == "<dangerous-header>" && *header_value == "<dangerous-value>" {
                return AclClassification::DeniedUserAcl;
            }
        }

        if let Some(body) = body {
            if body == b"<dangerous-body>" {
                return AclClassification::DeniedUserAcl;
            }
        }

        AclClassification::AllowedDefault
    }
}

#[test]
fn valid_acl() {
    let acl = HttpAclBuilder::new()
        .try_build_full(Some(Arc::new(DangerCheck)))
        .unwrap();

    assert!(acl
        .is_valid(
            "https",
            &Authority::from_domain("example.com".to_string()),
            &[("<header>", "<value>")],
            Some(b"body"),
        )
        .is_allowed());
    assert!(acl
        .is_valid(
            "http",
            &Authority::from_domain("example.com".to_string()),
            &[("<header>", "<value>")],
            Some(b"body"),
        )
        .is_denied());
    assert!(acl
        .is_valid(
            "https",
            &Authority::from_ip(IpAddr::v4(1, 1, 1, 1)),
            &[("<header>", "<value>")],
            Some(b"body"),
        )
        .is_denied());
    assert!(acl
        .is_valid(
            "https",
            &Authority::from_domain("example.com".to_string()),
            &[("<dangerous-header>", "<dangerous-value>")],
            Some(b"body"),
        )
        .is_denied());
    assert!(acl
        .is_valid(
            "https",
            &Authority::from_domain("example.com".to_string()),
            &[("<header>", "<value>")],
            Some(b"<dangerous-body>"),
        )
        .is_denied());
}

#[test]
fn no_validator_allows_by_default() {
    let acl = HttpAcl::builder().build();
    assert_eq!(
        acl.is_valid(
            "http",
            &Authority::from_domain("example.com".to_string()),
            &[],
            None
        ),
        AclClassification::AllowedDefault
    );
}
