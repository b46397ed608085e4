use http_acl::acl::HttpAcl;
use http_acl::builder::HttpAclBuilder;
use http_acl::classification::{AclClassification, HttpRequestMethod};
use http_acl::enforce::{check_request, check_resolution, filter_resolved, HttpAclError, RequestDenial, RequestDimension};
use http_acl::error::AddError;
use http_acl::ip::{is_global_ip, is_private_ip, IpAddr, IpNet, IpRange, SocketAddr};
use http_acl::ip::IntoIpRange;
use http_acl::ranges::{has_overlapping_ranges, range_overlaps, PortRange};

fn net(a: u8, b: u8, c: u8, d: u8, prefix: u8) -> IpNet {
    IpNet::new(IpAddr::v4(a, b, c, d), prefix).unwrap()
}

fn classify_all(acl: &HttpAcl) -> Vec<AclClassification> {
    let mut out = Vec::new();
    for scheme in ["http", "https", "ftp"] {
        out.push(acl.is_scheme_allowed(scheme));
    }
    for method in ["GET", "POST", "BREW"] {
        out.push(acl.is_method_allowed(&HttpRequestMethod::from_name(method)));
    }
    for host in ["example.com", "example.net", "other.org"] {
        out.push(acl.is_host_allowed(host));
    }
    for port in [80, 443, 8080, 8441, 9000] {
        out.push(acl.is_port_allowed(port));
    }
    for ip in [
        IpAddr::v4(1, 1, 1, 1),
        IpAddr::v4(9, 9, 9, 9),
        IpAddr::v4(10, 0, 0, 5),
        IpAddr::v4(192, 168, 1, 1),
    ] {
        out.push(acl.is_ip_allowed(&ip));
    }
    for (name, value) in [("X-Allowed", "true"), ("X-Allowed", "no"), ("X-Other", "1")] {
        out.push(acl.is_header_allowed(name, value));
    }
    for path in ["/allowed", "/denied/x", "/elsewhere"] {
        out.push(acl.is_url_path_allowed(path));
    }
    out
}

fn sample_builder() -> HttpAclBuilder {
    HttpAclBuilder::new()
        .add_allowed_host("example.com".to_string())
        .unwrap()
        .add_denied_host("example.net".to_string())
        .unwrap()
        .add_allowed_port_range(PortRange::new(8080, 8080))
        .unwrap()
        .add_denied_port_range(PortRange::new(8441, 8443))
        .unwrap()
        .add_allowed_ip_range(net(1, 0, 0, 0, 8))
        .unwrap()
        .add_denied_ip_range(net(9, 0, 0, 0, 8))
        .unwrap()
        .add_allowed_header("X-Allowed".to_string(), Some("true".to_string()))
        .unwrap()
        .add_allowed_url_path("/allowed".to_string())
        .unwrap()
        .add_denied_url_path("/denied/{*rest}".to_string())
        .unwrap()
        .add_static_dns_mapping(
            "internal.example".to_string(),
            SocketAddr::new(IpAddr::v4(10, 1, 2, 3), 443),
        )
        .unwrap()
}

#[test]
fn conflicting_rules_are_rejected_when_added() {
    let b = HttpAclBuilder::new().add_allowed_host("example.com".to_string()).unwrap();
    assert_eq!(
        b.clone().add_denied_host("example.com".to_string()).unwrap_err(),
        AddError::AlreadyAllowedHost("example.com".to_string())
    );
    assert_eq!(
        b.add_allowed_host("example.com".to_string()).unwrap_err(),
        AddError::AlreadyAllowedHost("example.com".to_string())
    );
    let b = HttpAclBuilder::new().add_denied_method(HttpRequestMethod::OTHER("BREW".to_string())).unwrap();
    assert_eq!(
        b.add_allowed_method(HttpRequestMethod::from_name("BREW")).unwrap_err(),
        AddError::AlreadyDeniedMethod(HttpRequestMethod::OTHER("BREW".to_string()))
    );
    assert_eq!(
        HttpAclBuilder::new()
            .add_denied_method(HttpRequestMethod::GET)
            .unwrap_err(),
        AddError::AlreadyAllowedMethod(HttpRequestMethod::GET)
    );
}

#[test]
fn conflicting_rules_fail_validation() {
    let mut b = HttpAclBuilder::new();
    b.allowed_hosts = vec!["example.com".to_string()];
    b.denied_hosts = vec!["example.com".to_string()];
    assert!(matches!(b.try_build(), Err(AddError::BothAllowedAndDenied(_))));

    let mut b = HttpAclBuilder::new();
    b.denied_port_ranges = vec![PortRange::new(80, 80)];
    assert!(matches!(b.try_build(), Err(AddError::BothAllowedAndDenied(_))));

    let mut b = HttpAclBuilder::new();
    b.allowed_url_paths = vec!["/x".to_string()];
    b.denied_url_paths = vec!["/x".to_string()];
    assert!(matches!(b.try_build(), Err(AddError::BothAllowedAndDenied(_))));

    let mut b = HttpAclBuilder::new();
    b.allowed_headers = vec![("X-A".to_string(), None)];
    b.denied_headers = vec![("X-A".to_string(), Some("1".to_string()))];
    assert!(matches!(b.try_build(), Err(AddError::BothAllowedAndDenied(_))));
}

#[test]
fn unvalidated_conflict_is_decided_by_deny_list() {
    let mut b = HttpAclBuilder::new();
    b.allowed_hosts = vec!["example.com".to_string()];
    b.denied_hosts = vec!["example.com".to_string()];
    b.denied_methods = vec![HttpRequestMethod::GET];
    b.denied_port_ranges = vec![PortRange::new(443, 443)];
    let acl = b.build();
    assert_eq!(acl.is_host_allowed("example.com"), AclClassification::DeniedUserAcl);
    assert_eq!(acl.is_method_allowed(&HttpRequestMethod::GET), AclClassification::DeniedUserAcl);
    assert_eq!(acl.is_port_allowed(443), AclClassification::DeniedUserAcl);
    assert_eq!(acl.is_port_allowed(80), AclClassification::AllowedUserAcl);
}

#[test]
fn default_fallback() {
    let allow = HttpAclBuilder::new()
        .clear_allowed_methods()
        .clear_allowed_port_ranges()
        .method_acl_default(true)
        .host_acl_default(true)
        .port_acl_default(true)
        .ip_acl_default(true)
        .header_acl_default(true)
        .url_path_acl_default(true)
        .try_build()
        .unwrap();
    assert_eq!(allow.is_method_allowed(&HttpRequestMethod::GET), AclClassification::AllowedDefault);
    assert_eq!(allow.is_host_allowed("any.example"), AclClassification::AllowedDefault);
    assert_eq!(allow.is_port_allowed(65535), AclClassification::AllowedDefault);
    assert_eq!(allow.is_ip_allowed(&IpAddr::v4(8, 8, 8, 8)), AclClassification::AllowedDefault);
    assert_eq!(allow.is_header_allowed("X-Any", "v"), AclClassification::AllowedDefault);
    assert_eq!(allow.is_url_path_allowed("/any/path"), AclClassification::AllowedDefault);

    let deny = HttpAclBuilder::new()
        .clear_allowed_methods()
        .clear_allowed_port_ranges()
        .header_acl_default(false)
        .url_path_acl_default(false)
        .try_build()
        .unwrap();
    assert_eq!(deny.is_method_allowed(&HttpRequestMethod::GET), AclClassification::DeniedDefault);
    assert_eq!(deny.is_host_allowed("any.example"), AclClassification::DeniedDefault);
    assert_eq!(deny.is_port_allowed(0), AclClassification::DeniedDefault);
    assert_eq!(deny.is_ip_allowed(&IpAddr::v4(8, 8, 8, 8)), AclClassification::DeniedDefault);
    assert_eq!(deny.is_header_allowed("X-Any", "v"), AclClassification::DeniedDefault);
    assert_eq!(deny.is_url_path_allowed("/any/path"), AclClassification::DeniedDefault);
}

#[test]
fn port_range_overlap_rejected() {
    let b = HttpAclBuilder::new()
        .add_allowed_port_range(PortRange::new(8440, 8442))
        .unwrap();
    assert!(matches!(
        b.add_denied_port_range(PortRange::new(8441, 8443)),
        Err(AddError::Overlaps(_))
    ));
}

#[test]
fn ip_globality() {
    let acl = HttpAclBuilder::new().try_build().unwrap();
    assert_eq!(acl.is_ip_allowed(&IpAddr::v4(192, 168, 1, 1)), AclClassification::DeniedPrivateRange);

    let acl = HttpAclBuilder::new()
        .private_ip_ranges(true)
        .ip_acl_default(true)
        .try_build()
        .unwrap();
    assert_eq!(acl.is_ip_allowed(&IpAddr::v4(192, 168, 1, 1)), AclClassification::AllowedDefault);

    let acl = HttpAclBuilder::new()
        .add_allowed_ip_range(net(1, 0, 0, 0, 8))
        .unwrap()
        .add_denied_ip_range(net(9, 0, 0, 0, 8))
        .unwrap()
        .try_build()
        .unwrap();
    assert_eq!(acl.is_ip_allowed(&IpAddr::v4(1, 1, 1, 1)), AclClassification::AllowedUserAcl);
    assert_eq!(acl.is_ip_allowed(&IpAddr::v4(9, 9, 9, 9)), AclClassification::DeniedUserAcl);
    assert_eq!(acl.is_ip_allowed(&IpAddr::v4(100, 64, 0, 1)), AclClassification::DeniedNotGlobal);
    assert_eq!(acl.is_ip_allowed(&IpAddr::v4(224, 0, 0, 1)), AclClassification::DeniedNotGlobal);
}

#[test]
fn ip_classification_without_private_distinction() {
    let acl = HttpAclBuilder::new()
        .distinguish_private_ip_ranges(false)
        .add_allowed_ip_range(net(10, 0, 0, 0, 8))
        .unwrap()
        .ip_acl_default(true)
        .try_build()
        .unwrap();
    assert_eq!(acl.is_ip_allowed(&IpAddr::v4(10, 1, 1, 1)), AclClassification::AllowedUserAcl);
    assert_eq!(acl.is_ip_allowed(&IpAddr::v4(192, 168, 1, 1)), AclClassification::DeniedNotGlobal);
    assert_eq!(acl.is_ip_allowed(&IpAddr::v4(8, 8, 8, 8)), AclClassification::AllowedDefault);

    let acl = HttpAclBuilder::new()
        .distinguish_private_ip_ranges(false)
        .non_global_ip_ranges(true)
        .ip_acl_default(true)
        .try_build()
        .unwrap();
    assert_eq!(acl.is_ip_allowed(&IpAddr::v4(192, 168, 1, 1)), AclClassification::AllowedDefault);
    assert_eq!(acl.is_ip_allowed(&IpAddr::v4(127, 0, 0, 1)), AclClassification::AllowedDefault);
}

#[test]
fn ip_blocks() {
    assert!(is_global_ip(&IpAddr::v4(1, 1, 1, 1)));
    assert!(!is_global_ip(&IpAddr::v4(10, 0, 0, 1)));
    assert!(is_private_ip(&IpAddr::v4(172, 16, 0, 1)));
    assert!(!is_private_ip(&IpAddr::v4(172, 32, 0, 1)));
    assert!(is_global_ip(&IpAddr::v4(172, 32, 0, 1)));
    assert!(!is_global_ip(&IpAddr::v4(255, 255, 255, 255)));
    assert!(is_global_ip(&IpAddr::v4(192, 0, 0, 9)));
    assert!(!is_global_ip(&IpAddr::v4(192, 0, 0, 8)));
    assert!(is_private_ip(&IpAddr::v6(0xfd00, 0, 0, 0, 0, 0, 0, 1)));
    assert!(is_private_ip(&IpAddr::v6(0, 0, 0, 0, 0, 0, 0, 1)));
    assert!(is_global_ip(&IpAddr::v6(0x2606, 0x4700, 0, 0, 0, 0, 0, 0x1111)));
    assert!(!is_global_ip(&IpAddr::v6(0x2001, 0xdb8, 0, 0, 0, 0, 0, 1)));
    assert!(!is_global_ip(&IpAddr::v6(0, 0, 0, 0, 0, 0xffff, 0x0a00, 1)));
}

#[test]
fn path_matching() {
    let acl = HttpAclBuilder::new()
        .add_allowed_url_path("/allowed".to_string())
        .unwrap()
        .add_allowed_url_path("/allowed/{id}".to_string())
        .unwrap()
        .add_denied_url_path("/denied".to_string())
        .unwrap()
        .add_denied_url_path("/denied/{*path}".to_string())
        .unwrap()
        .url_path_acl_default(false)
        .try_build()
        .unwrap();
    assert_eq!(acl.is_url_path_allowed("/allowed"), AclClassification::AllowedUserAcl);
    assert_eq!(acl.is_url_path_allowed("/allowed/42"), AclClassification::AllowedUserAcl);
    assert_eq!(acl.is_url_path_allowed("/denied"), AclClassification::DeniedUserAcl);
    assert_eq!(acl.is_url_path_allowed("/denied/x"), AclClassification::DeniedUserAcl);
    assert_eq!(acl.is_url_path_allowed("/denied/x/y"), AclClassification::DeniedUserAcl);
    assert_eq!(acl.is_url_path_allowed("/other"), AclClassification::DeniedDefault);
}

#[test]
fn path_templates_covered_by_the_other_list() {
    let b = HttpAclBuilder::new()
        .add_denied_url_path("/denied/{*path}".to_string())
        .unwrap();
    assert_eq!(
        b.clone().add_allowed_url_path("/denied/x".to_string()).unwrap_err(),
        AddError::AlreadyDeniedUrlPath("/denied/x".to_string())
    );
    assert!(matches!(
        b.add_denied_url_path("/denied/{*other}".to_string()),
        Err(AddError::AlreadyDeniedUrlPath(_)) | Err(AddError::InvalidEntity(_))
    ));
    assert!(matches!(
        HttpAclBuilder::new().add_allowed_url_path("/a/{*x}/b".to_string()),
        Err(AddError::InvalidEntity(_))
    ));
}

#[test]
fn header_matching() {
    let acl = HttpAclBuilder::new()
        .add_allowed_header("X-Allowed".to_string(), None)
        .unwrap()
        .add_allowed_header("X-Allowed2".to_string(), Some("true".to_string()))
        .unwrap()
        .add_denied_header("X-Denied".to_string(), None)
        .unwrap()
        .add_denied_header("X-Denied2".to_string(), Some("true".to_string()))
        .unwrap()
        .header_acl_default(false)
        .try_build()
        .unwrap();
    assert_eq!(acl.is_header_allowed("X-Allowed", "anything"), AclClassification::AllowedUserAcl);
    assert_eq!(acl.is_header_allowed("X-Allowed2", "true"), AclClassification::AllowedUserAcl);
    assert_eq!(acl.is_header_allowed("X-Allowed2", "false"), AclClassification::DeniedUserAcl);
    assert_eq!(acl.is_header_allowed("X-Denied", "anything"), AclClassification::DeniedUserAcl);
    assert_eq!(acl.is_header_allowed("X-Denied2", "true"), AclClassification::DeniedUserAcl);
    assert_eq!(acl.is_header_allowed("X-Denied2", "false"), AclClassification::AllowedUserAcl);
    assert_eq!(acl.is_header_allowed("X-Other", "x"), AclClassification::DeniedDefault);
}

#[test]
fn resolver_filtering() {
    let acl = HttpAclBuilder::new()
        .add_denied_host("example.com".to_string())
        .unwrap()
        .build();
    assert_eq!(
        check_resolution(&acl, "example.com"),
        Err(HttpAclError::HostDenied { host: "example.com".to_string() })
    );

    let acl = HttpAclBuilder::new()
        .add_allowed_host("good.example".to_string())
        .unwrap()
        .add_denied_ip_range(net(10, 0, 0, 0, 8))
        .unwrap()
        .ip_acl_default(true)
        .try_build()
        .unwrap();
    assert_eq!(check_resolution(&acl, "good.example"), Ok(()));
    let resolved = vec![
        SocketAddr::new(IpAddr::v4(10, 0, 0, 5), 443),
        SocketAddr::new(IpAddr::v4(93, 184, 216, 34), 443),
    ];
    assert_eq!(
        filter_resolved(&acl, resolved),
        vec![SocketAddr::new(IpAddr::v4(93, 184, 216, 34), 443)]
    );
    assert_eq!(filter_resolved(&acl, Vec::new()), Vec::new());
}

#[test]
fn request_checks() {
    let acl = HttpAclBuilder::new()
        .add_denied_host("example.com".to_string())
        .unwrap()
        .add_allowed_host("good.example".to_string())
        .unwrap()
        .build();
    let get = HttpRequestMethod::GET;
    assert_eq!(
        check_request(&acl, "http", &get, Some("example.com"), Some(80), "/"),
        Err(RequestDenial::Denied(RequestDimension::Host, AclClassification::DeniedUserAcl))
    );
    assert_eq!(check_request(&acl, "https", &get, Some("good.example"), Some(443), "/"), Ok(()));
    assert_eq!(
        check_request(&acl, "https", &get, Some("good.example"), Some(8080), "/"),
        Err(RequestDenial::Denied(RequestDimension::Port, AclClassification::DeniedDefault))
    );
    assert_eq!(
        check_request(&acl, "ftp", &get, Some("good.example"), Some(21), "/"),
        Err(RequestDenial::Denied(RequestDimension::Scheme, AclClassification::DeniedUserAcl))
    );
    assert_eq!(
        check_request(&acl, "https", &get, Some("10.0.0.1"), Some(443), "/"),
        Err(RequestDenial::Denied(RequestDimension::Ip, AclClassification::DeniedPrivateRange))
    );
    assert_eq!(
        check_request(&acl, "https", &HttpRequestMethod::from_name("BREW"), Some("good.example"), None, "/"),
        Err(RequestDenial::Denied(RequestDimension::Method, AclClassification::DeniedDefault))
    );
    assert_eq!(check_request(&acl, "https", &get, None, None, "/"), Err(RequestDenial::MissingHost));
    assert_eq!(
        check_request(&acl, "https", &get, Some("bad host"), None, "/"),
        Err(RequestDenial::InvalidHost)
    );
}

#[test]
fn repeated_builds_classify_alike() {
    let b = sample_builder();
    let first = b.clone().try_build().unwrap();
    let second = b.try_build().unwrap();
    assert_eq!(classify_all(&first), classify_all(&second));
    assert_eq!(
        first.resolve_static_dns_mapping("internal.example"),
        second.resolve_static_dns_mapping("internal.example")
    );
}

#[test]
fn rebuilt_builder_classifies_alike() {
    let source = sample_builder();
    let rebuilt = HttpAclBuilder {
        allow_http: source.allow_http,
        allow_https: source.allow_https,
        allowed_methods: source.allowed_methods.clone(),
        denied_methods: source.denied_methods.clone(),
        allowed_hosts: source.allowed_hosts.clone(),
        denied_hosts: source.denied_hosts.clone(),
        allowed_port_ranges: source.allowed_port_ranges.clone(),
        denied_port_ranges: source.denied_port_ranges.clone(),
        allowed_ip_ranges: source.allowed_ip_ranges.clone(),
        denied_ip_ranges: source.denied_ip_ranges.clone(),
        static_dns_mapping: source.static_dns_mapping.clone(),
        allowed_headers: source.allowed_headers.clone(),
        denied_headers: source.denied_headers.clone(),
        allowed_url_paths: source.allowed_url_paths.clone(),
        denied_url_paths: source.denied_url_paths.clone(),
        allow_non_global_ip_ranges: source.allow_non_global_ip_ranges,
        allow_private_ip_ranges: source.allow_private_ip_ranges,
        distinguish_private_ip_ranges: source.distinguish_private_ip_ranges,
        method_acl_default: source.method_acl_default,
        host_acl_default: source.host_acl_default,
        port_acl_default: source.port_acl_default,
        ip_acl_default: source.ip_acl_default,
        header_acl_default: source.header_acl_default,
        url_path_acl_default: source.url_path_acl_default,
    };
    let first = source.try_build().unwrap();
    let second = rebuilt.try_build().unwrap();
    assert_eq!(classify_all(&first), classify_all(&second));
}

#[test]
fn error_variants() {
    assert_eq!(
        HttpAclBuilder::new().add_allowed_host("exa mple.com".to_string()).unwrap_err(),
        AddError::InvalidEntity("exa mple.com".to_string())
    );
    assert!(matches!(
        HttpAclBuilder::new().allowed_hosts(vec!["a.example".to_string(), "a.example".to_string()]),
        Err(AddError::NotUnique(_))
    ));
    assert_eq!(
        HttpAclBuilder::new().add_allowed_port_range(PortRange::new(80, 80)).unwrap_err(),
        AddError::AlreadyAllowedPortRange(PortRange::new(80, 80))
    );
    let backwards = IpRange::new(IpAddr::v4(9, 0, 0, 0), IpAddr::v4(1, 0, 0, 0));
    assert!(matches!(
        HttpAclBuilder::new().add_allowed_ip_range(backwards),
        Err(AddError::InvalidEntity(_))
    ));
    let mixed = (IpAddr::v4(1, 0, 0, 0), IpAddr::v6(0, 0, 0, 0, 0, 0, 0, 1));
    assert!(matches!(
        HttpAclBuilder::new().add_denied_ip_range(mixed),
        Err(AddError::InvalidEntity(_))
    ));
    let b = HttpAclBuilder::new()
        .add_allowed_ip_range(net(1, 0, 0, 0, 8))
        .unwrap();
    assert_eq!(
        b.clone().add_denied_ip_range(net(1, 0, 0, 0, 8)).unwrap_err(),
        AddError::AlreadyAllowedIpRange(net(1, 0, 0, 0, 8).into_range().unwrap())
    );
    assert!(matches!(b.add_denied_ip_range(net(1, 2, 0, 0, 16)), Err(AddError::Overlaps(_))));
    let addr = SocketAddr::new(IpAddr::v4(10, 0, 0, 1), 80);
    let b = HttpAclBuilder::new()
        .add_static_dns_mapping("svc.internal".to_string(), addr)
        .unwrap();
    assert_eq!(
        b.add_static_dns_mapping("svc.internal".to_string(), addr).unwrap_err(),
        AddError::AlreadyPresentStaticDnsMapping("svc.internal".to_string(), addr)
    );
    assert_eq!(
        HttpAclBuilder::new()
            .add_allowed_header("X-A".to_string(), None)
            .unwrap()
            .add_denied_header("X-A".to_string(), Some("1".to_string()))
            .unwrap_err(),
        AddError::AlreadyAllowedHeader("X-A".to_string(), Some("1".to_string()))
    );
    let mut b = HttpAclBuilder::new();
    b.allowed_port_ranges = vec![PortRange::new(1, 10), PortRange::new(5, 20)];
    assert!(matches!(b.try_build(), Err(AddError::Overlaps(_))));
    let mut b = HttpAclBuilder::new();
    b.denied_hosts = vec!["x.example".to_string(), "x.example".to_string()];
    assert!(matches!(b.try_build(), Err(AddError::NotUnique(_))));
    let mut b = HttpAclBuilder::new();
    b.static_dns_mapping = vec![("bad host".to_string(), addr)];
    assert!(matches!(b.try_build(), Err(AddError::InvalidEntity(_))));
}

#[test]
fn bulk_setters_replace_or_fail_whole() {
    let b = HttpAclBuilder::new()
        .allowed_hosts(vec!["a.example".to_string(), "b.example".to_string()])
        .unwrap()
        .remove_allowed_host("a.example".to_string());
    assert_eq!(b.allowed_hosts, vec!["b.example".to_string()]);
    let b = b.denied_hosts(vec!["b.example".to_string()]);
    assert_eq!(b.unwrap_err(), AddError::AlreadyAllowedHost("b.example".to_string()));
    let b = HttpAclBuilder::new()
        .allowed_port_ranges(vec![PortRange::new(1, 10), PortRange::new(20, 30)])
        .unwrap();
    assert!(matches!(
        b.clone().denied_port_ranges(vec![PortRange::new(5, 6)]),
        Err(AddError::Overlaps(_))
    ));
    assert!(matches!(
        HttpAclBuilder::new().allowed_ip_ranges(vec![net(1, 0, 0, 0, 8), net(1, 1, 0, 0, 16)]),
        Err(AddError::Overlaps(_))
    ));
    let b = b.remove_allowed_port_range(PortRange::new(1, 10));
    assert_eq!(b.allowed_port_ranges, vec![PortRange::new(20, 30)]);
}

#[test]
fn ranges_and_networks() {
    let n = net(192, 168, 1, 77, 24);
    assert_eq!(n.network(), IpAddr::v4(192, 168, 1, 0));
    assert_eq!(n.broadcast(), IpAddr::v4(192, 168, 1, 255));
    let all = IpNet::new(IpAddr::v6(0x2001, 0xdb8, 0, 0, 0, 0, 0, 1), 0).unwrap();
    assert_eq!(all.network(), IpAddr::V6(0));
    assert_eq!(all.broadcast(), IpAddr::V6(u128::MAX));
    assert!(IpNet::new(IpAddr::v4(1, 2, 3, 4), 33).is_none());
    let ranges = [PortRange::new(1, 5), PortRange::new(6, 9), PortRange::new(9, 12)];
    assert!(has_overlapping_ranges(&ranges));
    assert!(!has_overlapping_ranges(&ranges[..2]));
    assert!(range_overlaps(&ranges, &PortRange::new(5, 6), None));
    assert!(!range_overlaps(&ranges[..1], &ranges[0], Some(0)));
}

#[test]
fn static_dns_and_messages() {
    let acl = sample_builder().try_build().unwrap();
    assert_eq!(
        acl.resolve_static_dns_mapping("internal.example"),
        Some(SocketAddr::new(IpAddr::v4(10, 1, 2, 3), 443))
    );
    assert_eq!(acl.resolve_static_dns_mapping("other.example"), None);
    assert_eq!(
        AclClassification::Denied("it is late".to_string()).message(),
        "The entity is denied because it is late."
    );
    assert_eq!(HttpRequestMethod::from_name("PATCH"), HttpRequestMethod::PATCH);
    assert_eq!(HttpRequestMethod::from_name("BREW").as_str(), "BREW");
}

#[test]
fn overlapping_ranges_across_lists_fail_validation() {
    let mut b = HttpAclBuilder::new();
    b.allowed_port_ranges = vec![PortRange::new(8440, 8442)];
    b.denied_port_ranges = vec![PortRange::new(8441, 8443)];
    assert!(matches!(b.try_build(), Err(AddError::Overlaps(_))));

    let mut b = HttpAclBuilder::new();
    b.allowed_ip_ranges = vec![net(10, 0, 0, 0, 8).into_range().unwrap()];
    b.denied_ip_ranges = vec![net(10, 1, 0, 0, 16).into_range().unwrap()];
    assert!(matches!(b.try_build(), Err(AddError::Overlaps(_))));
}

#[test]
fn documentation_addresses_are_not_private() {
    let acl = HttpAclBuilder::new()
        .private_ip_ranges(true)
        .ip_acl_default(true)
        .try_build()
        .unwrap();
    assert_eq!(acl.is_ip_allowed(&IpAddr::v4(203, 0, 113, 12)), AclClassification::DeniedNotGlobal);
    assert_eq!(acl.is_ip_allowed(&IpAddr::v4(192, 0, 2, 1)), AclClassification::DeniedNotGlobal);
    let acl = HttpAclBuilder::new()
        .add_allowed_ip_range(net(203, 0, 113, 0, 24))
        .unwrap()
        .try_build()
        .unwrap();
    assert_eq!(acl.is_ip_allowed(&IpAddr::v4(203, 0, 113, 12)), AclClassification::AllowedUserAcl);
}

#[test]
fn templates_with_too_many_parameters_are_refused() {
    let many: String = (0..26).map(|i| format!("/{{p{i}}}")).collect();
    assert!(matches!(
        HttpAclBuilder::new().add_allowed_url_path(many.clone()),
        Err(AddError::InvalidEntity(_))
    ));
    let mut b = HttpAclBuilder::new();
    b.denied_url_paths = vec![many];
    assert!(matches!(b.try_build(), Err(AddError::InvalidEntity(_))));
    let fewer: String = (0..25).map(|i| format!("/{{p{i}}}")).collect();
    assert!(HttpAclBuilder::new().add_allowed_url_path(fewer).is_ok());
}

#[test]
fn standard_method_names() {
    for (name, method) in [
        ("CONNECT", HttpRequestMethod::CONNECT),
        ("DELETE", HttpRequestMethod::DELETE),
        ("GET", HttpRequestMethod::GET),
        ("HEAD", HttpRequestMethod::HEAD),
        ("OPTIONS", HttpRequestMethod::OPTIONS),
        ("PATCH", HttpRequestMethod::PATCH),
        ("POST", HttpRequestMethod::POST),
        ("PUT", HttpRequestMethod::PUT),
        ("TRACE", HttpRequestMethod::TRACE),
    ] {
        assert_eq!(HttpRequestMethod::from_name(name), method);
        assert_eq!(method.as_str(), name);
    }
    assert_eq!(
        HttpRequestMethod::from_name("get"),
        HttpRequestMethod::OTHER("get".to_string())
    );
}

#[test]
fn single_port_rules() {
    let acl = HttpAclBuilder::new()
        .clear_allowed_ports()
        .add_allowed_port(8080)
        .unwrap()
        .add_denied_port(8443)
        .unwrap()
        .build();
    assert_eq!(acl.is_port_allowed(8080), AclClassification::AllowedUserAcl);
    assert_eq!(acl.is_port_allowed(8443), AclClassification::DeniedUserAcl);
    assert_eq!(acl.is_port_allowed(80), AclClassification::DeniedDefault);

    let b = HttpAclBuilder::new().allowed_ports(vec![80, 8080]).unwrap();
    assert_eq!(b.allowed_port_ranges, vec![PortRange::new(80, 80), PortRange::new(8080, 8080)]);
    assert_eq!(
        b.clone().add_denied_port(8080).unwrap_err(),
        AddError::AlreadyAllowedPortRange(PortRange::new(8080, 8080))
    );
    let b = b.remove_allowed_port(80).denied_ports(vec![443]).unwrap().clear_denied_ports();
    assert_eq!(b.allowed_port_ranges, vec![PortRange::new(8080, 8080)]);
    assert!(b.denied_port_ranges.is_empty());
    assert!(matches!(
        HttpAclBuilder::new().allowed_ports(vec![8080, 8080]),
        Err(AddError::NotUnique(_))
    ));
}
