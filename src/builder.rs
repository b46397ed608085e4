//! The builder of a policy: a plain configuration record with fluent setters
//! that reject conflicting rules as they are added, and a validating build.

use vstd::prelude::*;

use crate::authority::{host_is_valid, is_valid_host};
use crate::classification::HttpRequestMethod;
use crate::error::{opt_text, AddError, AddErrorView};
use crate::ip::{IpRange, SocketAddr};
use crate::ip::IntoIpRange;
use crate::lists::{
    any_overlaps_with, contains_name, contains_range, first_shared_name, first_shared_range,
    first_where, has_unique_elements, lemma_first_where_at, lemma_first_where_none, member_of,
    names_unique, not_named, other_than, without_name, without_range,
};
use crate::model::{keys_of, AclModel, HeaderRule};
use crate::ranges::{has_overlap, has_overlapping_ranges, overlaps_any, range_overlaps, PortRange};
use crate::router::{
    build_router, fits_router, router_at, router_insert, routes_match, templates_accepted,
};
use crate::text::{names_of, Named};

verus! {

/// The rules of a list of header entries.
pub open spec fn header_rules(v: Seq<(String, Option<String>)>) -> Seq<HeaderRule> {
    v.map_values(|e: (String, Option<String>)| (e.0@, opt_text(e.1)))
}

/// The entries of a list of static DNS mappings.
pub open spec fn dns_entries(v: Seq<(String, SocketAddr)>) -> Seq<(Seq<char>, SocketAddr)> {
    v.map_values(|e: (String, SocketAddr)| (e.0@, e.1))
}

/// A builder for [`HttpAcl`]. Its fields are the policy's configuration as
/// plain data; `try_build` checks it whole before it becomes a policy.
#[derive(Clone, Debug)]
pub struct HttpAclBuilder {
    pub allow_http: bool,
    pub allow_https: bool,
    pub allowed_methods: Vec<HttpRequestMethod>,
    pub denied_methods: Vec<HttpRequestMethod>,
    pub allowed_hosts: Vec<String>,
    pub denied_hosts: Vec<String>,
    pub allowed_port_ranges: Vec<PortRange>,
    pub denied_port_ranges: Vec<PortRange>,
    pub allowed_ip_ranges: Vec<IpRange>,
    pub denied_ip_ranges: Vec<IpRange>,
    pub static_dns_mapping: Vec<(String, SocketAddr)>,
    pub allowed_headers: Vec<(String, Option<String>)>,
    pub denied_headers: Vec<(String, Option<String>)>,
    pub allowed_url_paths: Vec<String>,
    pub denied_url_paths: Vec<String>,
    pub allow_non_global_ip_ranges: bool,
    pub allow_private_ip_ranges: bool,
    pub distinguish_private_ip_ranges: bool,
    pub method_acl_default: bool,
    pub host_acl_default: bool,
    pub port_acl_default: bool,
    pub ip_acl_default: bool,
    pub header_acl_default: bool,
    pub url_path_acl_default: bool,
}

impl View for HttpAclBuilder {
    type V = AclModel;

    open spec fn view(&self) -> AclModel {
        AclModel {
            allow_http: self.allow_http,
            allow_https: self.allow_https,
            allowed_methods: names_of(self.allowed_methods@),
            denied_methods: names_of(self.denied_methods@),
            allowed_hosts: names_of(self.allowed_hosts@),
            denied_hosts: names_of(self.denied_hosts@),
            allowed_port_ranges: self.allowed_port_ranges@,
            denied_port_ranges: self.denied_port_ranges@,
            allowed_ip_ranges: self.allowed_ip_ranges@,
            denied_ip_ranges: self.denied_ip_ranges@,
            static_dns_mapping: dns_entries(self.static_dns_mapping@),
            allowed_headers: header_rules(self.allowed_headers@),
            denied_headers: header_rules(self.denied_headers@),
            allowed_url_paths: names_of(self.allowed_url_paths@),
            denied_url_paths: names_of(self.denied_url_paths@),
            allow_non_global_ip_ranges: self.allow_non_global_ip_ranges,
            allow_private_ip_ranges: self.allow_private_ip_ranges,
            distinguish_private_ip_ranges: self.distinguish_private_ip_ranges,
            method_acl_default: self.method_acl_default,
            host_acl_default: self.host_acl_default,
            port_acl_default: self.port_acl_default,
            ip_acl_default: self.ip_acl_default,
            header_acl_default: self.header_acl_default,
            url_path_acl_default: self.url_path_acl_default,
        }
    }
}

/// The model of a new builder: HTTP and HTTPS allowed, the nine standard
/// methods allowed, ports 80 and 443 allowed, private ranges told apart and
/// denied, headers and URL paths allowed by default, all else denied by default.
pub open spec fn initial_model() -> AclModel {
    AclModel {
        allow_http: true,
        allow_https: true,
        allowed_methods: seq![
            "CONNECT"@,
            "DELETE"@,
            "GET"@,
            "HEAD"@,
            "OPTIONS"@,
            "PATCH"@,
            "POST"@,
            "PUT"@,
            "TRACE"@,
        ],
        denied_methods: Seq::empty(),
        allowed_hosts: Seq::empty(),
        denied_hosts: Seq::empty(),
        allowed_port_ranges: seq![PortRange { start: 80, end: 80 }, PortRange { start: 443, end: 443 }],
        denied_port_ranges: Seq::empty(),
        allowed_ip_ranges: Seq::empty(),
        denied_ip_ranges: Seq::empty(),
        static_dns_mapping: Seq::empty(),
        allowed_headers: Seq::empty(),
        denied_headers: Seq::empty(),
        allowed_url_paths: Seq::empty(),
        denied_url_paths: Seq::empty(),
        allow_non_global_ip_ranges: false,
        allow_private_ip_ranges: false,
        distinguish_private_ip_ranges: true,
        method_acl_default: false,
        host_acl_default: false,
        port_acl_default: false,
        ip_acl_default: false,
        header_acl_default: true,
        url_path_acl_default: true,
    }
}

/// The view of the outcome of a fallible setter.
pub open spec fn outcome(r: Result<HttpAclBuilder, AddError>) -> Result<AclModel, AddErrorView> {
    match r {
        Ok(b) => Ok(b@),
        Err(e) => Err(e@),
    }
}

impl HttpAclBuilder {
    /// Create a new [`HttpAclBuilder`].
    pub fn new() -> (r: HttpAclBuilder)
        ensures
            r@ == initial_model(),
    {
        let allowed_methods = vec![
            HttpRequestMethod::CONNECT,
            HttpRequestMethod::DELETE,
            HttpRequestMethod::GET,
            HttpRequestMethod::HEAD,
            HttpRequestMethod::OPTIONS,
            HttpRequestMethod::PATCH,
            HttpRequestMethod::POST,
            HttpRequestMethod::PUT,
            HttpRequestMethod::TRACE,
        ];
        let r = HttpAclBuilder {
            allow_http: true,
            allow_https: true,
            allowed_methods,
            denied_methods: Vec::new(),
            allowed_hosts: Vec::new(),
            denied_hosts: Vec::new(),
            allowed_port_ranges: vec![PortRange::new(80, 80), PortRange::new(443, 443)],
            denied_port_ranges: Vec::new(),
            allowed_ip_ranges: Vec::new(),
            denied_ip_ranges: Vec::new(),
            static_dns_mapping: Vec::new(),
            allowed_headers: Vec::new(),
            denied_headers: Vec::new(),
            allowed_url_paths: Vec::new(),
            denied_url_paths: Vec::new(),
            allow_non_global_ip_ranges: false,
            allow_private_ip_ranges: false,
            distinguish_private_ip_ranges: true,
            method_acl_default: false,
            host_acl_default: false,
            port_acl_default: false,
            ip_acl_default: false,
            header_acl_default: true,
            url_path_acl_default: true,
        };
        proof {
            assert(r@.allowed_methods =~= initial_model().allowed_methods);
            assert(r@.denied_methods =~= Seq::<Seq<char>>::empty());
            assert(r@.allowed_hosts =~= Seq::<Seq<char>>::empty());
            assert(r@.denied_hosts =~= Seq::<Seq<char>>::empty());
            assert(r@.allowed_port_ranges =~= initial_model().allowed_port_ranges);
            assert(r@.static_dns_mapping =~= Seq::<(Seq<char>, SocketAddr)>::empty());
            assert(r@.allowed_headers =~= Seq::<HeaderRule>::empty());
            assert(r@.denied_headers =~= Seq::<HeaderRule>::empty());
            assert(r@.allowed_url_paths =~= Seq::<Seq<char>>::empty());
            assert(r@.denied_url_paths =~= Seq::<Seq<char>>::empty());
        }
        r
    }

    /// Sets whether HTTP is allowed.
    pub fn http(self, allow: bool) -> (r: HttpAclBuilder)
        ensures
            r@ == (AclModel { allow_http: allow, ..self@ }),
    {
        let mut b = self;
        b.allow_http = allow;
        b
    }

    /// Sets whether HTTPS is allowed.
    pub fn https(self, allow: bool) -> (r: HttpAclBuilder)
        ensures
            r@ == (AclModel { allow_https: allow, ..self@ }),
    {
        let mut b = self;
        b.allow_https = allow;
        b
    }

    /// Sets whether non-global IP ranges are allowed when private ranges are
    /// not told apart.
    pub fn non_global_ip_ranges(self, allow: bool) -> (r: HttpAclBuilder)
        ensures
            r@ == (AclModel { allow_non_global_ip_ranges: allow, ..self@ }),
    {
        let mut b = self;
        b.allow_non_global_ip_ranges = allow;
        b
    }

    /// Sets whether private IP ranges are allowed when they are told apart.
    pub fn private_ip_ranges(self, allow: bool) -> (r: HttpAclBuilder)
        ensures
            r@ == (AclModel { allow_private_ip_ranges: allow, ..self@ }),
    {
        let mut b = self;
        b.allow_private_ip_ranges = allow;
        b
    }

    /// Sets whether private IP ranges are told apart from other non-global
    /// ones.
    pub fn distinguish_private_ip_ranges(self, distinguish: bool) -> (r: HttpAclBuilder)
        ensures
            r@ == (AclModel { distinguish_private_ip_ranges: distinguish, ..self@ }),
    {
        let mut b = self;
        b.distinguish_private_ip_ranges = distinguish;
        b
    }

    /// Set default action for HTTP methods if no ACL match is found.
    pub fn method_acl_default(self, allow: bool) -> (r: HttpAclBuilder)
        ensures
            r@ == (AclModel { method_acl_default: allow, ..self@ }),
    {
        let mut b = self;
        b.method_acl_default = allow;
        b
    }

    /// Set default action for hosts if no ACL match is found.
    pub fn host_acl_default(self, allow: bool) -> (r: HttpAclBuilder)
        ensures
            r@ == (AclModel { host_acl_default: allow, ..self@ }),
    {
        let mut b = self;
        b.host_acl_default = allow;
        b
    }

    /// Set default action for ports if no ACL match is found.
    pub fn port_acl_default(self, allow: bool) -> (r: HttpAclBuilder)
        ensures
            r@ == (AclModel { port_acl_default: allow, ..self@ }),
    {
        let mut b = self;
        b.port_acl_default = allow;
        b
    }

    /// Set default action for IPs if no ACL match is found.
    pub fn ip_acl_default(self, allow: bool) -> (r: HttpAclBuilder)
        ensures
            r@ == (AclModel { ip_acl_default: allow, ..self@ }),
    {
        let mut b = self;
        b.ip_acl_default = allow;
        b
    }

    /// Set default action for headers if no ACL match is found.
    pub fn header_acl_default(self, allow: bool) -> (r: HttpAclBuilder)
        ensures
            r@ == (AclModel { header_acl_default: allow, ..self@ }),
    {
        let mut b = self;
        b.header_acl_default = allow;
        b
    }

    /// Set default action for URL paths if no ACL match is found.
    pub fn url_path_acl_default(self, allow: bool) -> (r: HttpAclBuilder)
        ensures
            r@ == (AclModel { url_path_acl_default: allow, ..self@ }),
    {
        let mut b = self;
        b.url_path_acl_default = allow;
        b
    }
}

/// Holds of the texts that are not valid hosts.
pub open spec fn invalid_host() -> spec_fn(Seq<char>) -> bool {
    |h: Seq<char>| !host_is_valid(h)
}

/// The position of the first text of `hosts` that is not a valid host.
fn first_invalid_host<T: Named>(hosts: &Vec<T>) -> (r: Option<usize>)
    ensures
        match r {
            Some(i) => i < hosts@.len() && first_where(names_of(hosts@), invalid_host()) == Some(
                i as int,
            ),
            None => first_where(names_of(hosts@), invalid_host()) is None,
        },
{
    let ghost p = invalid_host();
    let mut i: usize = 0;
    while i < hosts.len()
        invariant
            p == invalid_host(),
            i <= hosts@.len(),
            forall|k: int| 0 <= k < i ==> !p(#[trigger] names_of(hosts@)[k]),
        decreases hosts@.len() - i,
    {
        if !is_valid_host(hosts[i].name_str()) {
            proof {
                assert(names_of(hosts@)[i as int] == hosts@[i as int].name());
                lemma_first_where_at(names_of(hosts@), p, i as int);
            }
            return Some(i);
        }
        proof {
            assert(names_of(hosts@)[i as int] == hosts@[i as int].name());
        }
        i = i + 1;
    }
    proof {
        lemma_first_where_none(names_of(hosts@), p);
    }
    None
}

proof fn lemma_names_push<T: Named>(v: Seq<T>, x: T)
    ensures
        names_of(v.push(x)) == names_of(v).push(x.name()),
{
    assert(names_of(v.push(x)) =~= names_of(v).push(x.name()));
}

impl HttpAclBuilder {
    /// Adds a method to the allowed methods.
    pub fn add_allowed_method(self, method: HttpRequestMethod) -> (r: Result<
        HttpAclBuilder,
        AddError,
    >)
        ensures
            outcome(r) == if self@.denied_methods.contains(method@) {
                Err(AddErrorView::AlreadyDeniedMethod(method@))
            } else if self@.allowed_methods.contains(method@) {
                Err(AddErrorView::AlreadyAllowedMethod(method@))
            } else {
                Ok(AclModel { allowed_methods: self@.allowed_methods.push(method@), ..self@ })
            },
    {
        if contains_name(&self.denied_methods, method.as_str()) {
            Err(AddError::AlreadyDeniedMethod(method))
        } else if contains_name(&self.allowed_methods, method.as_str()) {
            Err(AddError::AlreadyAllowedMethod(method))
        } else {
            let mut b = self;
            proof {
                lemma_names_push(b.allowed_methods@, method);
            }
            b.allowed_methods.push(method);
            Ok(b)
        }
    }

    /// Removes a method from the allowed methods.
    pub fn remove_allowed_method(self, method: HttpRequestMethod) -> (r: HttpAclBuilder)
        ensures
            r@ == (AclModel {
                allowed_methods: names_of(self.allowed_methods@.filter(not_named(method@))),
                ..self@
            }),
    {
        let mut b = self;
        b.allowed_methods = without_name(b.allowed_methods, method.as_str());
        b
    }

    /// Sets the allowed methods: none of them may be denied, and no two may
    /// have the same name.
    pub fn allowed_methods(self, methods: Vec<HttpRequestMethod>) -> (r: Result<
        HttpAclBuilder,
        AddError,
    >)
        ensures
            outcome(r) == match first_where(
                names_of(methods@),
                member_of(self@.denied_methods),
            ) {
                Some(i) => Err(AddErrorView::AlreadyDeniedMethod(names_of(methods@)[i])),
                None => if names_of(methods@).no_duplicates() {
                    Ok(AclModel { allowed_methods: names_of(methods@), ..self@ })
                } else {
                    Err(AddErrorView::NotUnique)
                },
            },
    {
        match first_shared_name(&methods, &self.denied_methods) {
            Some(i) => {
                proof {
                    assert(names_of(methods@)[i as int] == methods@[i as int]@);
                }
                Err(AddError::AlreadyDeniedMethod(HttpRequestMethod::from_name(methods[i].as_str())))
            },
            None => {
                if names_unique(&methods) {
                    let mut b = self;
                    b.allowed_methods = methods;
                    Ok(b)
                } else {
                    Err(AddError::NotUnique("Allowed methods must be unique.".to_owned()))
                }
            },
        }
    }

    /// Clears the allowed methods.
    pub fn clear_allowed_methods(self) -> (r: HttpAclBuilder)
        ensures
            r@ == (AclModel { allowed_methods: Seq::empty(), ..self@ }),
    {
        let mut b = self;
        b.allowed_methods = Vec::new();
        proof {
            assert(names_of(b.allowed_methods@) =~= Seq::<Seq<char>>::empty());
        }
        b
    }

    /// Adds a method to the denied methods.
    pub fn add_denied_method(self, method: HttpRequestMethod) -> (r: Result<
        HttpAclBuilder,
        AddError,
    >)
        ensures
            outcome(r) == if self@.allowed_methods.contains(method@) {
                Err(AddErrorView::AlreadyAllowedMethod(method@))
            } else if self@.denied_methods.contains(method@) {
                Err(AddErrorView::AlreadyDeniedMethod(method@))
            } else {
                Ok(AclModel { denied_methods: self@.denied_methods.push(method@), ..self@ })
            },
    {
        if contains_name(&self.allowed_methods, method.as_str()) {
            Err(AddError::AlreadyAllowedMethod(method))
        } else if contains_name(&self.denied_methods, method.as_str()) {
            Err(AddError::AlreadyDeniedMethod(method))
        } else {
            let mut b = self;
            proof {
                lemma_names_push(b.denied_methods@, method);
            }
            b.denied_methods.push(method);
            Ok(b)
        }
    }

    /// Removes a method from the denied methods.
    pub fn remove_denied_method(self, method: HttpRequestMethod) -> (r: HttpAclBuilder)
        ensures
            r@ == (AclModel {
                denied_methods: names_of(self.denied_methods@.filter(not_named(method@))),
                ..self@
            }),
    {
        let mut b = self;
        b.denied_methods = without_name(b.denied_methods, method.as_str());
        b
    }

    /// Sets the denied methods: none of them may be allowed, and no two may
    /// have the same name.
    pub fn denied_methods(self, methods: Vec<HttpRequestMethod>) -> (r: Result<
        HttpAclBuilder,
        AddError,
    >)
        ensures
            outcome(r) == match first_where(
                names_of(methods@),
                member_of(self@.allowed_methods),
            ) {
                Some(i) => Err(AddErrorView::AlreadyAllowedMethod(names_of(methods@)[i])),
                None => if names_of(methods@).no_duplicates() {
                    Ok(AclModel { denied_methods: names_of(methods@), ..self@ })
                } else {
                    Err(AddErrorView::NotUnique)
                },
            },
    {
        match first_shared_name(&methods, &self.allowed_methods) {
            Some(i) => {
                proof {
                    assert(names_of(methods@)[i as int] == methods@[i as int]@);
                }
                Err(AddError::AlreadyAllowedMethod(HttpRequestMethod::from_name(methods[i].as_str())))
            },
            None => {
                if names_unique(&methods) {
                    let mut b = self;
                    b.denied_methods = methods;
                    Ok(b)
                } else {
                    Err(AddError::NotUnique("Denied methods must be unique.".to_owned()))
                }
            },
        }
    }

    /// Clears the denied methods.
    pub fn clear_denied_methods(self) -> (r: HttpAclBuilder)
        ensures
            r@ == (AclModel { denied_methods: Seq::empty(), ..self@ }),
    {
        let mut b = self;
        b.denied_methods = Vec::new();
        proof {
            assert(names_of(b.denied_methods@) =~= Seq::<Seq<char>>::empty());
        }
        b
    }

    /// Adds a host to the allowed hosts.
    pub fn add_allowed_host(self, host: String) -> (r: Result<HttpAclBuilder, AddError>)
        ensures
            outcome(r) == if !host_is_valid(host@) {
                Err(AddErrorView::InvalidEntity)
            } else if self@.denied_hosts.contains(host@) {
                Err(AddErrorView::AlreadyDeniedHost(host@))
            } else if self@.allowed_hosts.contains(host@) {
                Err(AddErrorView::AlreadyAllowedHost(host@))
            } else {
                Ok(AclModel { allowed_hosts: self@.allowed_hosts.push(host@), ..self@ })
            },
            r matches Err(AddError::InvalidEntity(h)) ==> h@ == host@,
    {
        if !is_valid_host(host.as_str()) {
            Err(AddError::InvalidEntity(host))
        } else if contains_name(&self.denied_hosts, host.as_str()) {
            Err(AddError::AlreadyDeniedHost(host))
        } else if contains_name(&self.allowed_hosts, host.as_str()) {
            Err(AddError::AlreadyAllowedHost(host))
        } else {
            let mut b = self;
            proof {
                lemma_names_push(b.allowed_hosts@, host);
            }
            b.allowed_hosts.push(host);
            Ok(b)
        }
    }

    /// Removes a host from the allowed hosts.
    pub fn remove_allowed_host(self, host: String) -> (r: HttpAclBuilder)
        ensures
            r@ == (AclModel {
                allowed_hosts: names_of(self.allowed_hosts@.filter(not_named(host@))),
                ..self@
            }),
    {
        let mut b = self;
        b.allowed_hosts = without_name(b.allowed_hosts, host.as_str());
        b
    }

    /// Sets the allowed hosts: each must be valid and not denied, and no two
    /// may be equal.
    pub fn allowed_hosts(self, hosts: Vec<String>) -> (r: Result<HttpAclBuilder, AddError>)
        ensures
            outcome(r) == match first_where(names_of(hosts@), invalid_host()) {
                Some(i) => Err(AddErrorView::InvalidEntity),
                None => match first_where(names_of(hosts@), member_of(self@.denied_hosts)) {
                    Some(i) => Err(AddErrorView::AlreadyDeniedHost(names_of(hosts@)[i])),
                    None => if names_of(hosts@).no_duplicates() {
                        Ok(AclModel { allowed_hosts: names_of(hosts@), ..self@ })
                    } else {
                        Err(AddErrorView::NotUnique)
                    },
                },
            },
    {
        if let Some(i) = first_invalid_host(&hosts) {
            return Err(AddError::InvalidEntity(hosts[i].clone()));
        }
        match first_shared_name(&hosts, &self.denied_hosts) {
            Some(i) => {
                proof {
                    assert(names_of(hosts@)[i as int] == hosts@[i as int]@);
                }
                Err(AddError::AlreadyDeniedHost(hosts[i].clone()))
            },
            None => {
                if names_unique(&hosts) {
                    let mut b = self;
                    b.allowed_hosts = hosts;
                    Ok(b)
                } else {
                    Err(AddError::NotUnique("Allowed hosts must be unique.".to_owned()))
                }
            },
        }
    }

    /// Clears the allowed hosts.
    pub fn clear_allowed_hosts(self) -> (r: HttpAclBuilder)
        ensures
            r@ == (AclModel { allowed_hosts: Seq::empty(), ..self@ }),
    {
        let mut b = self;
        b.allowed_hosts = Vec::new();
        proof {
            assert(names_of(b.allowed_hosts@) =~= Seq::<Seq<char>>::empty());
        }
        b
    }

    /// Adds a host to the denied hosts.
    pub fn add_denied_host(self, host: String) -> (r: Result<HttpAclBuilder, AddError>)
        ensures
            outcome(r) == if !host_is_valid(host@) {
                Err(AddErrorView::InvalidEntity)
            } else if self@.allowed_hosts.contains(host@) {
                Err(AddErrorView::AlreadyAllowedHost(host@))
            } else if self@.denied_hosts.contains(host@) {
                Err(AddErrorView::AlreadyDeniedHost(host@))
            } else {
                Ok(AclModel { denied_hosts: self@.denied_hosts.push(host@), ..self@ })
            },
            r matches Err(AddError::InvalidEntity(h)) ==> h@ == host@,
    {
        if !is_valid_host(host.as_str()) {
            Err(AddError::InvalidEntity(host))
        } else if contains_name(&self.allowed_hosts, host.as_str()) {
            Err(AddError::AlreadyAllowedHost(host))
        } else if contains_name(&self.denied_hosts, host.as_str()) {
            Err(AddError::AlreadyDeniedHost(host))
        } else {
            let mut b = self;
            proof {
                lemma_names_push(b.denied_hosts@, host);
            }
            b.denied_hosts.push(host);
            Ok(b)
        }
    }

    /// Removes a host from the denied hosts.
    pub fn remove_denied_host(self, host: String) -> (r: HttpAclBuilder)
        ensures
            r@ == (AclModel {
                denied_hosts: names_of(self.denied_hosts@.filter(not_named(host@))),
                ..self@
            }),
    {
        let mut b = self;
        b.denied_hosts = without_name(b.denied_hosts, host.as_str());
        b
    }

    /// Sets the denied hosts: each must be valid and not allowed, and no two
    /// may be equal.
    pub fn denied_hosts(self, hosts: Vec<String>) -> (r: Result<HttpAclBuilder, AddError>)
        ensures
            outcome(r) == match first_where(names_of(hosts@), invalid_host()) {
                Some(i) => Err(AddErrorView::InvalidEntity),
                None => match first_where(names_of(hosts@), member_of(self@.allowed_hosts)) {
                    Some(i) => Err(AddErrorView::AlreadyAllowedHost(names_of(hosts@)[i])),
                    None => if names_of(hosts@).no_duplicates() {
                        Ok(AclModel { denied_hosts: names_of(hosts@), ..self@ })
                    } else {
                        Err(AddErrorView::NotUnique)
                    },
                },
            },
    {
        if let Some(i) = first_invalid_host(&hosts) {
            return Err(AddError::InvalidEntity(hosts[i].clone()));
        }
        match first_shared_name(&hosts, &self.allowed_hosts) {
            Some(i) => {
                proof {
                    assert(names_of(hosts@)[i as int] == hosts@[i as int]@);
                }
                Err(AddError::AlreadyAllowedHost(hosts[i].clone()))
            },
            None => {
                if names_unique(&hosts) {
                    let mut b = self;
                    b.denied_hosts = hosts;
                    Ok(b)
                } else {
                    Err(AddError::NotUnique("Denied hosts must be unique.".to_owned()))
                }
            },
        }
    }

    /// Clears the denied hosts.
    pub fn clear_denied_hosts(self) -> (r: HttpAclBuilder)
        ensures
            r@ == (AclModel { denied_hosts: Seq::empty(), ..self@ }),
    {
        let mut b = self;
        b.denied_hosts = Vec::new();
        proof {
            assert(names_of(b.denied_hosts@) =~= Seq::<Seq<char>>::empty());
        }
        b
    }
}


/// The ranges that a list of values denotes, if each denotes a well-formed one.
pub open spec fn ranges_of<Ip: IntoIpRange>(v: Seq<Ip>) -> Option<Seq<IpRange>> {
    if forall|i: int| 0 <= i < v.len() ==> (#[trigger] v[i]).spec_range() is Some {
        Some(v.map_values(|x: Ip| x.spec_range().unwrap()))
    } else {
        None
    }
}

/// The ranges of the values, in order; `None` when one denotes none.
#[verifier::loop_isolation(false)]
fn collect_ranges<Ip: IntoIpRange>(mut rest: Vec<Ip>) -> (r: Option<Vec<IpRange>>)
    ensures
        r matches Some(v) ==> ranges_of(rest@) == Some(v@),
        r is None ==> ranges_of(rest@) is None,
{
    let ghost orig = rest@;
    let mut out: Vec<IpRange> = Vec::new();
    let mut k: usize = 0;
    let n = rest.len();
    while rest.len() > 0
        invariant
            n == orig.len(),
            k + rest@.len() == orig.len(),
            rest@ == orig.subrange(k as int, orig.len() as int),
            out@.len() == k,
            forall|i: int| 0 <= i < k ==> (#[trigger] orig[i]).spec_range() == Some(out@[i]),
        decreases rest@.len(),
    {
        let x = rest.remove(0);
        proof {
            assert(x == orig[k as int]);
            assert(rest@ =~= orig.subrange(k as int + 1, orig.len() as int));
        }
        match x.into_range() {
            Some(range) => {
                out.push(range);
                k = k + 1;
            },
            None => {
                proof {
                    assert(orig[k as int].spec_range() is None);
                }
                return None;
            },
        }
    }
    proof {
        assert(forall|i: int| 0 <= i < orig.len() ==> (#[trigger] orig[i]).spec_range() is Some);
        assert(orig.map_values(|x: Ip| x.spec_range().unwrap()) =~= out@);
    }
    Some(out)
}

/// A template is already covered by a list of templates when the list holds
/// it, or when the list compiles into a router that matches it.
pub open spec fn path_hit(templates: Seq<Seq<char>>, path: Seq<char>) -> bool {
    templates.contains(path) || (templates_accepted(templates) && routes_match(templates, path))
}

/// Holds of the texts that `templates` covers.
pub open spec fn hit_by(templates: Seq<Seq<char>>) -> spec_fn(Seq<char>) -> bool {
    |p: Seq<char>| path_hit(templates, p)
}

/// Whether `templates`, compiled into `router` if it compiles, covers `path`.
fn template_hit(
    templates: &Vec<String>,
    router: &Option<matchit::Router<()>>,
    path: &str,
) -> (r: bool)
    requires
        match router {
            Some(x) => templates_accepted(names_of(templates@))
                && crate::router::router_routes(*x) == names_of(templates@),
            None => !templates_accepted(names_of(templates@)),
        },
    ensures
        r == path_hit(names_of(templates@), path@),
{
    if contains_name(templates, path) {
        return true;
    }
    match router {
        Some(x) => router_at(x, path),
        None => false,
    }
}

/// The position of the first template of `paths` that `templates` covers.
fn first_hit(paths: &Vec<String>, templates: &Vec<String>) -> (r: Option<usize>)
    ensures
        match r {
            Some(i) => i < paths@.len() && first_where(
                names_of(paths@),
                hit_by(names_of(templates@)),
            ) == Some(i as int),
            None => first_where(names_of(paths@), hit_by(names_of(templates@))) is None,
        },
{
    let ghost p = hit_by(names_of(templates@));
    let router = build_router(templates);
    let mut i: usize = 0;
    while i < paths.len()
        invariant
            p == hit_by(names_of(templates@)),
            match router {
                Some(x) => templates_accepted(names_of(templates@))
                    && crate::router::router_routes(x) == names_of(templates@),
                None => !templates_accepted(names_of(templates@)),
            },
            i <= paths@.len(),
            forall|k: int| 0 <= k < i ==> !p(#[trigger] names_of(paths@)[k]),
        decreases paths@.len() - i,
    {
        proof {
            assert(names_of(paths@)[i as int] == paths@[i as int]@);
        }
        if template_hit(templates, &router, paths[i].as_str()) {
            proof {
                lemma_first_where_at(names_of(paths@), p, i as int);
            }
            return Some(i);
        }
        i = i + 1;
    }
    proof {
        lemma_first_where_none(names_of(paths@), p);
    }
    None
}

proof fn lemma_header_keys(v: Seq<(String, Option<String>)>)
    ensures
        keys_of(header_rules(v)) == names_of(v),
{
    assert(keys_of(header_rules(v)) =~= names_of(v));
}

pub(crate) proof fn lemma_dns_keys(v: Seq<(String, SocketAddr)>)
    ensures
        keys_of(dns_entries(v)) == names_of(v),
{
    assert(keys_of(dns_entries(v)) =~= names_of(v));
}

/// A copy of an optional string.
fn copy_opt(o: &Option<String>) -> (r: Option<String>)
    ensures
        opt_text(r) == opt_text(*o),
{
    match o {
        Some(s) => Some(s.clone()),
        None => None,
    }
}

/// The outcome of adding a range to the allowed port ranges.
pub open spec fn spec_add_allowed_port_range(m: AclModel, range: PortRange)
    -> Result<AclModel, AddErrorView> {
    if m.denied_port_ranges.contains(range) {
        Err(AddErrorView::AlreadyDeniedPortRange(range))
    } else if m.allowed_port_ranges.contains(range) {
        Err(AddErrorView::AlreadyAllowedPortRange(range))
    } else if overlaps_any(m.allowed_port_ranges, range, None) || overlaps_any(
        m.denied_port_ranges,
        range,
        None,
    ) {
        Err(AddErrorView::Overlaps)
    } else {
        Ok(
            AclModel {
                allowed_port_ranges: m.allowed_port_ranges.push(range),
                ..m
            },
        )
    }
}

/// The outcome of adding a range to the denied port ranges.
pub open spec fn spec_add_denied_port_range(m: AclModel, range: PortRange)
    -> Result<AclModel, AddErrorView> {
    if m.allowed_port_ranges.contains(range) {
        Err(AddErrorView::AlreadyAllowedPortRange(range))
    } else if m.denied_port_ranges.contains(range) {
        Err(AddErrorView::AlreadyDeniedPortRange(range))
    } else if overlaps_any(m.allowed_port_ranges, range, None) || overlaps_any(
        m.denied_port_ranges,
        range,
        None,
    ) {
        Err(AddErrorView::Overlaps)
    } else {
        Ok(
            AclModel {
                denied_port_ranges: m.denied_port_ranges.push(range),
                ..m
            },
        )
    }
}

/// The outcome of setting the allowed port ranges.
pub open spec fn spec_allowed_port_ranges(m: AclModel, ranges: Seq<PortRange>)
    -> Result<AclModel, AddErrorView> {
    match first_where(ranges, member_of(m.denied_port_ranges)) {
        Some(i) => Err(AddErrorView::AlreadyDeniedPortRange(ranges[i])),
        None => if !ranges.no_duplicates() {
            Err(AddErrorView::NotUnique)
        } else if has_overlap(ranges) || exists|i: int|
            0 <= i < ranges.len() && overlaps_any(
                m.denied_port_ranges,
                #[trigger] ranges[i],
                None,
            ) {
            Err(AddErrorView::Overlaps)
        } else {
            Ok(AclModel { allowed_port_ranges: ranges, ..m })
        },
    }
}

/// The outcome of setting the denied port ranges.
pub open spec fn spec_denied_port_ranges(m: AclModel, ranges: Seq<PortRange>)
    -> Result<AclModel, AddErrorView> {
    match first_where(ranges, member_of(m.allowed_port_ranges)) {
        Some(i) => Err(AddErrorView::AlreadyAllowedPortRange(ranges[i])),
        None => if !ranges.no_duplicates() {
            Err(AddErrorView::NotUnique)
        } else if has_overlap(ranges) || exists|i: int|
            0 <= i < ranges.len() && overlaps_any(
                m.allowed_port_ranges,
                #[trigger] ranges[i],
                None,
            ) {
            Err(AddErrorView::Overlaps)
        } else {
            Ok(AclModel { denied_port_ranges: ranges, ..m })
        },
    }
}

impl HttpAclBuilder {
    /// Adds a port range to the allowed port ranges.
    pub fn add_allowed_port_range(self, port_range: PortRange) -> (r: Result<
        HttpAclBuilder,
        AddError,
    >)
        ensures
            outcome(r) == spec_add_allowed_port_range(self@, port_range),
    {
        if contains_range(&self.denied_port_ranges, &port_range) {
            Err(AddError::AlreadyDeniedPortRange(port_range))
        } else if contains_range(&self.allowed_port_ranges, &port_range) {
            Err(AddError::AlreadyAllowedPortRange(port_range))
        } else if range_overlaps(&self.allowed_port_ranges, &port_range, None) || range_overlaps(
            &self.denied_port_ranges,
            &port_range,
            None,
        ) {
            Err(AddError::Overlaps("The port range overlaps another port range.".to_owned()))
        } else {
            let mut b = self;
            b.allowed_port_ranges.push(port_range);
            Ok(b)
        }
    }

    /// Removes a port range from the allowed port ranges.
    pub fn remove_allowed_port_range(self, port_range: PortRange) -> (r: HttpAclBuilder)
        ensures
            r@ == (AclModel {
                allowed_port_ranges: self@.allowed_port_ranges.filter(other_than(port_range)),
                ..self@
            }),
    {
        let mut b = self;
        b.allowed_port_ranges = without_range(b.allowed_port_ranges, &port_range);
        b
    }

    /// Sets the allowed port ranges: none of them may be denied, no two may be
    /// equal, and none may overlap another range of either list.
    pub fn allowed_port_ranges(self, port_ranges: Vec<PortRange>) -> (r: Result<
        HttpAclBuilder,
        AddError,
    >)
        ensures
            outcome(r) == spec_allowed_port_ranges(self@, port_ranges@),
    {
        if let Some(i) = first_shared_range(&port_ranges, &self.denied_port_ranges) {
            return Err(AddError::AlreadyDeniedPortRange(port_ranges[i]));
        }
        if !has_unique_elements(&port_ranges) {
            return Err(AddError::NotUnique("Allowed port ranges must be unique.".to_owned()));
        }
        if has_overlapping_ranges(&port_ranges) || any_overlaps_with(
            &port_ranges,
            &self.denied_port_ranges,
        ) {
            return Err(AddError::Overlaps("Allowed port ranges must not overlap.".to_owned()));
        }
        let mut b = self;
        b.allowed_port_ranges = port_ranges;
        Ok(b)
    }

    /// Clears the allowed port ranges.
    pub fn clear_allowed_port_ranges(self) -> (r: HttpAclBuilder)
        ensures
            r@ == (AclModel { allowed_port_ranges: Seq::empty(), ..self@ }),
    {
        let mut b = self;
        b.allowed_port_ranges = Vec::new();
        b
    }

    /// Adds a port range to the denied port ranges.
    pub fn add_denied_port_range(self, port_range: PortRange) -> (r: Result<
        HttpAclBuilder,
        AddError,
    >)
        ensures
            outcome(r) == spec_add_denied_port_range(self@, port_range),
    {
        if contains_range(&self.allowed_port_ranges, &port_range) {
            Err(AddError::AlreadyAllowedPortRange(port_range))
        } else if contains_range(&self.denied_port_ranges, &port_range) {
            Err(AddError::AlreadyDeniedPortRange(port_range))
        } else if range_overlaps(&self.allowed_port_ranges, &port_range, None) || range_overlaps(
            &self.denied_port_ranges,
            &port_range,
            None,
        ) {
            Err(AddError::Overlaps("The port range overlaps another port range.".to_owned()))
        } else {
            let mut b = self;
            b.denied_port_ranges.push(port_range);
            Ok(b)
        }
    }

    /// Removes a port range from the denied port ranges.
    pub fn remove_denied_port_range(self, port_range: PortRange) -> (r: HttpAclBuilder)
        ensures
            r@ == (AclModel {
                denied_port_ranges: self@.denied_port_ranges.filter(other_than(port_range)),
                ..self@
            }),
    {
        let mut b = self;
        b.denied_port_ranges = without_range(b.denied_port_ranges, &port_range);
        b
    }

    /// Sets the denied port ranges: none of them may be allowed, no two may be
    /// equal, and none may overlap another range of either list.
    pub fn denied_port_ranges(self, port_ranges: Vec<PortRange>) -> (r: Result<
        HttpAclBuilder,
        AddError,
    >)
        ensures
            outcome(r) == spec_denied_port_ranges(self@, port_ranges@),
    {
        if let Some(i) = first_shared_range(&port_ranges, &self.allowed_port_ranges) {
            return Err(AddError::AlreadyAllowedPortRange(port_ranges[i]));
        }
        if !has_unique_elements(&port_ranges) {
            return Err(AddError::NotUnique("Denied port ranges must be unique.".to_owned()));
        }
        if has_overlapping_ranges(&port_ranges) || any_overlaps_with(
            &port_ranges,
            &self.allowed_port_ranges,
        ) {
            return Err(AddError::Overlaps("Denied port ranges must not overlap.".to_owned()));
        }
        let mut b = self;
        b.denied_port_ranges = port_ranges;
        Ok(b)
    }

    /// Clears the denied port ranges.
    pub fn clear_denied_port_ranges(self) -> (r: HttpAclBuilder)
        ensures
            r@ == (AclModel { denied_port_ranges: Seq::empty(), ..self@ }),
    {
        let mut b = self;
        b.denied_port_ranges = Vec::new();
        b
    }

    /// Adds an IP range to the allowed IP ranges.
    pub fn add_allowed_ip_range<Ip: IntoIpRange>(self, ip_range: Ip) -> (r: Result<
        HttpAclBuilder,
        AddError,
    >)
        ensures
            outcome(r) == match ip_range.spec_range() {
                None => Err(AddErrorView::InvalidEntity),
                Some(x) => if self@.denied_ip_ranges.contains(x) {
                    Err(AddErrorView::AlreadyDeniedIpRange(x))
                } else if self@.allowed_ip_ranges.contains(x) {
                    Err(AddErrorView::AlreadyAllowedIpRange(x))
                } else if overlaps_any(self@.allowed_ip_ranges, x, None) || overlaps_any(
                    self@.denied_ip_ranges,
                    x,
                    None,
                ) {
                    Err(AddErrorView::Overlaps)
                } else {
                    Ok(AclModel { allowed_ip_ranges: self@.allowed_ip_ranges.push(x), ..self@ })
                },
            },
    {
        let ip_range = match ip_range.into_range() {
            Some(x) => x,
            None => {
                return Err(AddError::InvalidEntity("Invalid IP range".to_owned()));
            },
        };
        if contains_range(&self.denied_ip_ranges, &ip_range) {
            Err(AddError::AlreadyDeniedIpRange(ip_range))
        } else if contains_range(&self.allowed_ip_ranges, &ip_range) {
            Err(AddError::AlreadyAllowedIpRange(ip_range))
        } else if range_overlaps(&self.allowed_ip_ranges, &ip_range, None) || range_overlaps(
            &self.denied_ip_ranges,
            &ip_range,
            None,
        ) {
            Err(AddError::Overlaps("The IP range overlaps another IP range.".to_owned()))
        } else {
            let mut b = self;
            b.allowed_ip_ranges.push(ip_range);
            Ok(b)
        }
    }

    /// Removes an IP range from the allowed IP ranges.
    pub fn remove_allowed_ip_range<Ip: IntoIpRange>(self, ip_range: Ip) -> (r: Result<
        HttpAclBuilder,
        AddError,
    >)
        ensures
            outcome(r) == match ip_range.spec_range() {
                None => Err(AddErrorView::InvalidEntity),
                Some(x) => Ok(
                    AclModel {
                        allowed_ip_ranges: self@.allowed_ip_ranges.filter(other_than(x)),
                        ..self@
                    },
                ),
            },
    {
        let ip_range = match ip_range.into_range() {
            Some(x) => x,
            None => {
                return Err(AddError::InvalidEntity("Invalid IP range".to_owned()));
            },
        };
        let mut b = self;
        b.allowed_ip_ranges = without_range(b.allowed_ip_ranges, &ip_range);
        Ok(b)
    }

    /// Sets the allowed IP ranges: each value must denote a well-formed range,
    /// none of them may be denied, no two may be equal, and none may overlap
    /// another range of either list.
    pub fn allowed_ip_ranges<Ip: IntoIpRange>(self, ip_ranges: Vec<Ip>) -> (r: Result<
        HttpAclBuilder,
        AddError,
    >)
        ensures
            outcome(r) == match ranges_of(ip_ranges@) {
                None => Err(AddErrorView::InvalidEntity),
                Some(list) => match first_where(list, member_of(self@.denied_ip_ranges)) {
                    Some(i) => Err(AddErrorView::AlreadyDeniedIpRange(list[i])),
                    None => if !list.no_duplicates() {
                        Err(AddErrorView::NotUnique)
                    } else if has_overlap(list) || exists|i: int|
                        0 <= i < list.len() && overlaps_any(
                            self@.denied_ip_ranges,
                            #[trigger] list[i],
                            None,
                        ) {
                        Err(AddErrorView::Overlaps)
                    } else {
                        Ok(AclModel { allowed_ip_ranges: list, ..self@ })
                    },
                },
            },
    {
        let ip_ranges = match collect_ranges(ip_ranges) {
            Some(v) => v,
            None => {
                return Err(AddError::InvalidEntity("Invalid IP range".to_owned()));
            },
        };
        if let Some(i) = first_shared_range(&ip_ranges, &self.denied_ip_ranges) {
            return Err(AddError::AlreadyDeniedIpRange(ip_ranges[i]));
        }
        if !has_unique_elements(&ip_ranges) {
            return Err(AddError::NotUnique("Allowed IP ranges must be unique.".to_owned()));
        }
        if has_overlapping_ranges(&ip_ranges) || any_overlaps_with(
            &ip_ranges,
            &self.denied_ip_ranges,
        ) {
            return Err(AddError::Overlaps("Allowed IP ranges must not overlap.".to_owned()));
        }
        let mut b = self;
        b.allowed_ip_ranges = ip_ranges;
        Ok(b)
    }

    /// Clears the allowed IP ranges.
    pub fn clear_allowed_ip_ranges(self) -> (r: HttpAclBuilder)
        ensures
            r@ == (AclModel { allowed_ip_ranges: Seq::empty(), ..self@ }),
    {
        let mut b = self;
        b.allowed_ip_ranges = Vec::new();
        b
    }

    /// Adds an IP range to the denied IP ranges.
    pub fn add_denied_ip_range<Ip: IntoIpRange>(self, ip_range: Ip) -> (r: Result<
        HttpAclBuilder,
        AddError,
    >)
        ensures
            outcome(r) == match ip_range.spec_range() {
                None => Err(AddErrorView::InvalidEntity),
                Some(x) => if self@.allowed_ip_ranges.contains(x) {
                    Err(AddErrorView::AlreadyAllowedIpRange(x))
                } else if self@.denied_ip_ranges.contains(x) {
                    Err(AddErrorView::AlreadyDeniedIpRange(x))
                } else if overlaps_any(self@.allowed_ip_ranges, x, None) || overlaps_any(
                    self@.denied_ip_ranges,
                    x,
                    None,
                ) {
                    Err(AddErrorView::Overlaps)
                } else {
                    Ok(AclModel { denied_ip_ranges: self@.denied_ip_ranges.push(x), ..self@ })
                },
            },
    {
        let ip_range = match ip_range.into_range() {
            Some(x) => x,
            None => {
                return Err(AddError::InvalidEntity("Invalid IP range".to_owned()));
            },
        };
        if contains_range(&self.allowed_ip_ranges, &ip_range) {
            Err(AddError::AlreadyAllowedIpRange(ip_range))
        } else if contains_range(&self.denied_ip_ranges, &ip_range) {
            Err(AddError::AlreadyDeniedIpRange(ip_range))
        } else if range_overlaps(&self.allowed_ip_ranges, &ip_range, None) || range_overlaps(
            &self.denied_ip_ranges,
            &ip_range,
            None,
        ) {
            Err(AddError::Overlaps("The IP range overlaps another IP range.".to_owned()))
        } else {
            let mut b = self;
            b.denied_ip_ranges.push(ip_range);
            Ok(b)
        }
    }

    /// Removes an IP range from the denied IP ranges.
    pub fn remove_denied_ip_range<Ip: IntoIpRange>(self, ip_range: Ip) -> (r: Result<
        HttpAclBuilder,
        AddError,
    >)
        ensures
            outcome(r) == match ip_range.spec_range() {
                None => Err(AddErrorView::InvalidEntity),
                Some(x) => Ok(
                    AclModel {
                        denied_ip_ranges: self@.denied_ip_ranges.filter(other_than(x)),
                        ..self@
                    },
                ),
            },
    {
        let ip_range = match ip_range.into_range() {
            Some(x) => x,
            None => {
                return Err(AddError::InvalidEntity("Invalid IP range".to_owned()));
            },
        };
        let mut b = self;
        b.denied_ip_ranges = without_range(b.denied_ip_ranges, &ip_range);
        Ok(b)
    }

    /// Sets the denied IP ranges: each value must denote a well-formed range,
    /// none of them may be allowed, no two may be equal, and none may overlap
    /// another range of either list.
    pub fn denied_ip_ranges<Ip: IntoIpRange>(self, ip_ranges: Vec<Ip>) -> (r: Result<
        HttpAclBuilder,
        AddError,
    >)
        ensures
            outcome(r) == match ranges_of(ip_ranges@) {
                None => Err(AddErrorView::InvalidEntity),
                Some(list) => match first_where(list, member_of(self@.allowed_ip_ranges)) {
                    Some(i) => Err(AddErrorView::AlreadyAllowedIpRange(list[i])),
                    None => if !list.no_duplicates() {
                        Err(AddErrorView::NotUnique)
                    } else if has_overlap(list) || exists|i: int|
                        0 <= i < list.len() && overlaps_any(
                            self@.allowed_ip_ranges,
                            #[trigger] list[i],
                            None,
                        ) {
                        Err(AddErrorView::Overlaps)
                    } else {
                        Ok(AclModel { denied_ip_ranges: list, ..self@ })
                    },
                },
            },
    {
        let ip_ranges = match collect_ranges(ip_ranges) {
            Some(v) => v,
            None => {
                return Err(AddError::InvalidEntity("Invalid IP range".to_owned()));
            },
        };
        if let Some(i) = first_shared_range(&ip_ranges, &self.allowed_ip_ranges) {
            return Err(AddError::AlreadyAllowedIpRange(ip_ranges[i]));
        }
        if !has_unique_elements(&ip_ranges) {
            return Err(AddError::NotUnique("Denied IP ranges must be unique.".to_owned()));
        }
        if has_overlapping_ranges(&ip_ranges) || any_overlaps_with(
            &ip_ranges,
            &self.allowed_ip_ranges,
        ) {
            return Err(AddError::Overlaps("Denied IP ranges must not overlap.".to_owned()));
        }
        let mut b = self;
        b.denied_ip_ranges = ip_ranges;
        Ok(b)
    }

    /// Clears the denied IP ranges.
    pub fn clear_denied_ip_ranges(self) -> (r: HttpAclBuilder)
        ensures
            r@ == (AclModel { denied_ip_ranges: Seq::empty(), ..self@ }),
    {
        let mut b = self;
        b.denied_ip_ranges = Vec::new();
        b
    }
}

impl HttpAclBuilder {
    /// Add a static DNS mapping: the host must be valid and not mapped yet.
    pub fn add_static_dns_mapping(self, host: String, sock_addr: SocketAddr) -> (r: Result<
        HttpAclBuilder,
        AddError,
    >)
        ensures
            outcome(r) == if !host_is_valid(host@) {
                Err(AddErrorView::InvalidEntity)
            } else if keys_of(self@.static_dns_mapping).contains(host@) {
                Err(AddErrorView::AlreadyPresentStaticDnsMapping(host@, sock_addr))
            } else {
                Ok(
                    AclModel {
                        static_dns_mapping: self@.static_dns_mapping.push((host@, sock_addr)),
                        ..self@
                    },
                )
            },
    {
        proof {
            lemma_dns_keys(self.static_dns_mapping@);
        }
        if !is_valid_host(host.as_str()) {
            Err(AddError::InvalidEntity(host))
        } else if contains_name(&self.static_dns_mapping, host.as_str()) {
            Err(AddError::AlreadyPresentStaticDnsMapping(host, sock_addr))
        } else {
            let mut b = self;
            let ghost before = b.static_dns_mapping@;
            b.static_dns_mapping.push((host, sock_addr));
            proof {
                assert(dns_entries(b.static_dns_mapping@) =~= dns_entries(before).push(
                    (host@, sock_addr),
                ));
            }
            Ok(b)
        }
    }

    /// Removes a static DNS mapping.
    pub fn remove_static_dns_mapping(self, host: &str) -> (r: HttpAclBuilder)
        ensures
            r@ == (AclModel {
                static_dns_mapping: dns_entries(self.static_dns_mapping@.filter(not_named(host@))),
                ..self@
            }),
    {
        let mut b = self;
        b.static_dns_mapping = without_name(b.static_dns_mapping, host);
        b
    }

    /// Adds static DNS mappings: each host must be valid and not mapped yet,
    /// and no host may come twice.
    pub fn static_dns_mappings(self, mappings: Vec<(String, SocketAddr)>) -> (r: Result<
        HttpAclBuilder,
        AddError,
    >)
        ensures
            outcome(r) == match first_where(names_of(mappings@), invalid_host()) {
                Some(i) => Err(AddErrorView::InvalidEntity),
                None => match first_where(
                    names_of(mappings@),
                    member_of(keys_of(self@.static_dns_mapping)),
                ) {
                    Some(i) => Err(
                        AddErrorView::AlreadyPresentStaticDnsMapping(
                            mappings@[i].0@,
                            mappings@[i].1,
                        ),
                    ),
                    None => if names_of(mappings@).no_duplicates() {
                        Ok(
                            AclModel {
                                static_dns_mapping: self@.static_dns_mapping + dns_entries(
                                    mappings@,
                                ),
                                ..self@
                            },
                        )
                    } else {
                        Err(AddErrorView::NotUnique)
                    },
                },
            },
    {
        proof {
            lemma_dns_keys(self.static_dns_mapping@);
        }
        if let Some(i) = first_invalid_host(&mappings) {
            return Err(AddError::InvalidEntity(mappings[i].0.clone()));
        }
        match first_shared_name(&mappings, &self.static_dns_mapping) {
            Some(i) => {
                Err(
                    AddError::AlreadyPresentStaticDnsMapping(
                        mappings[i].0.clone(),
                        mappings[i].1,
                    ),
                )
            },
            None => {
                if names_unique(&mappings) {
                    let mut b = self;
                    let ghost before = b.static_dns_mapping@;
                    let mut more = mappings;
                    b.static_dns_mapping.append(&mut more);
                    proof {
                        assert(dns_entries(b.static_dns_mapping@) =~= dns_entries(before)
                            + dns_entries(mappings@));
                    }
                    Ok(b)
                } else {
                    Err(AddError::NotUnique("Static DNS mappings must be unique.".to_owned()))
                }
            },
        }
    }

    /// Clears the static DNS mappings.
    pub fn clear_static_dns_mappings(self) -> (r: HttpAclBuilder)
        ensures
            r@ == (AclModel { static_dns_mapping: Seq::empty(), ..self@ }),
    {
        let mut b = self;
        b.static_dns_mapping = Vec::new();
        proof {
            assert(dns_entries(b.static_dns_mapping@) =~= Seq::<(Seq<char>, SocketAddr)>::empty());
        }
        b
    }

    /// Adds a header to the allowed headers; `None` as the value stands for
    /// every value.
    pub fn add_allowed_header(self, header: String, value: Option<String>) -> (r: Result<
        HttpAclBuilder,
        AddError,
    >)
        ensures
            outcome(r) == if keys_of(self@.denied_headers).contains(header@) {
                Err(AddErrorView::AlreadyDeniedHeader(header@, opt_text(value)))
            } else if keys_of(self@.allowed_headers).contains(header@) {
                Err(AddErrorView::AlreadyAllowedHeader(header@, opt_text(value)))
            } else {
                Ok(
                    AclModel {
                        allowed_headers: self@.allowed_headers.push((header@, opt_text(value))),
                        ..self@
                    },
                )
            },
    {
        proof {
            lemma_header_keys(self.allowed_headers@);
            lemma_header_keys(self.denied_headers@);
        }
        if contains_name(&self.denied_headers, header.as_str()) {
            Err(AddError::AlreadyDeniedHeader(header, value))
        } else if contains_name(&self.allowed_headers, header.as_str()) {
            Err(AddError::AlreadyAllowedHeader(header, value))
        } else {
            let mut b = self;
            let ghost before = b.allowed_headers@;
            let ghost entry = (header@, opt_text(value));
            b.allowed_headers.push((header, value));
            proof {
                assert(header_rules(b.allowed_headers@) =~= header_rules(before).push(entry));
            }
            Ok(b)
        }
    }

    /// Removes a header from the allowed headers.
    pub fn remove_allowed_header(self, header: &str) -> (r: HttpAclBuilder)
        ensures
            r@ == (AclModel {
                allowed_headers: header_rules(self.allowed_headers@.filter(not_named(header@))),
                ..self@
            }),
    {
        let mut b = self;
        b.allowed_headers = without_name(b.allowed_headers, header);
        b
    }

    /// Sets the allowed headers: none of the names may be denied, and no name
    /// may come twice.
    pub fn allowed_headers(self, headers: Vec<(String, Option<String>)>) -> (r: Result<
        HttpAclBuilder,
        AddError,
    >)
        ensures
            outcome(r) == match first_where(
                names_of(headers@),
                member_of(keys_of(self@.denied_headers)),
            ) {
                Some(i) => Err(
                    AddErrorView::AlreadyDeniedHeader(
                        header_rules(headers@)[i].0,
                        header_rules(headers@)[i].1,
                    ),
                ),
                None => if names_of(headers@).no_duplicates() {
                    Ok(AclModel { allowed_headers: header_rules(headers@), ..self@ })
                } else {
                    Err(AddErrorView::NotUnique)
                },
            },
    {
        proof {
            lemma_header_keys(self.denied_headers@);
        }
        match first_shared_name(&headers, &self.denied_headers) {
            Some(i) => {
                Err(AddError::AlreadyDeniedHeader(headers[i].0.clone(), copy_opt(&headers[i].1)))
            },
            None => {
                if names_unique(&headers) {
                    let mut b = self;
                    b.allowed_headers = headers;
                    Ok(b)
                } else {
                    Err(AddError::NotUnique("Allowed headers must be unique.".to_owned()))
                }
            },
        }
    }

    /// Clears the allowed headers.
    pub fn clear_allowed_headers(self) -> (r: HttpAclBuilder)
        ensures
            r@ == (AclModel { allowed_headers: Seq::empty(), ..self@ }),
    {
        let mut b = self;
        b.allowed_headers = Vec::new();
        proof {
            assert(header_rules(b.allowed_headers@) =~= Seq::<HeaderRule>::empty());
        }
        b
    }

    /// Adds a header to the denied headers; `None` as the value stands for
    /// every value.
    pub fn add_denied_header(self, header: String, value: Option<String>) -> (r: Result<
        HttpAclBuilder,
        AddError,
    >)
        ensures
            outcome(r) == if keys_of(self@.allowed_headers).contains(header@) {
                Err(AddErrorView::AlreadyAllowedHeader(header@, opt_text(value)))
            } else if keys_of(self@.denied_headers).contains(header@) {
                Err(AddErrorView::AlreadyDeniedHeader(header@, opt_text(value)))
            } else {
                Ok(
                    AclModel {
                        denied_headers: self@.denied_headers.push((header@, opt_text(value))),
                        ..self@
                    },
                )
            },
    {
        proof {
            lemma_header_keys(self.allowed_headers@);
            lemma_header_keys(self.denied_headers@);
        }
        if contains_name(&self.allowed_headers, header.as_str()) {
            Err(AddError::AlreadyAllowedHeader(header, value))
        } else if contains_name(&self.denied_headers, header.as_str()) {
            Err(AddError::AlreadyDeniedHeader(header, value))
        } else {
            let mut b = self;
            let ghost before = b.denied_headers@;
            let ghost entry = (header@, opt_text(value));
            b.denied_headers.push((header, value));
            proof {
                assert(header_rules(b.denied_headers@) =~= header_rules(before).push(entry));
            }
            Ok(b)
        }
    }

    /// Removes a header from the denied headers.
    pub fn remove_denied_header(self, header: &str) -> (r: HttpAclBuilder)
        ensures
            r@ == (AclModel {
                denied_headers: header_rules(self.denied_headers@.filter(not_named(header@))),
                ..self@
            }),
    {
        let mut b = self;
        b.denied_headers = without_name(b.denied_headers, header);
        b
    }

    /// Sets the denied headers: none of the names may be allowed, and no name
    /// may come twice.
    pub fn denied_headers(self, headers: Vec<(String, Option<String>)>) -> (r: Result<
        HttpAclBuilder,
        AddError,
    >)
        ensures
            outcome(r) == match first_where(
                names_of(headers@),
                member_of(keys_of(self@.allowed_headers)),
            ) {
                Some(i) => Err(
                    AddErrorView::AlreadyAllowedHeader(
                        header_rules(headers@)[i].0,
                        header_rules(headers@)[i].1,
                    ),
                ),
                None => if names_of(headers@).no_duplicates() {
                    Ok(AclModel { denied_headers: header_rules(headers@), ..self@ })
                } else {
                    Err(AddErrorView::NotUnique)
                },
            },
    {
        proof {
            lemma_header_keys(self.allowed_headers@);
        }
        match first_shared_name(&headers, &self.allowed_headers) {
            Some(i) => {
                Err(AddError::AlreadyAllowedHeader(headers[i].0.clone(), copy_opt(&headers[i].1)))
            },
            None => {
                if names_unique(&headers) {
                    let mut b = self;
                    b.denied_headers = headers;
                    Ok(b)
                } else {
                    Err(AddError::NotUnique("Denied headers must be unique.".to_owned()))
                }
            },
        }
    }

    /// Clears the denied headers.
    pub fn clear_denied_headers(self) -> (r: HttpAclBuilder)
        ensures
            r@ == (AclModel { denied_headers: Seq::empty(), ..self@ }),
    {
        let mut b = self;
        b.denied_headers = Vec::new();
        proof {
            assert(header_rules(b.denied_headers@) =~= Seq::<HeaderRule>::empty());
        }
        b
    }
}

impl HttpAclBuilder {
    /// Adds a URL path template to the allowed templates.
    pub fn add_allowed_url_path(self, url_path: String) -> (r: Result<HttpAclBuilder, AddError>)
        ensures
            outcome(r) == if path_hit(self@.denied_url_paths, url_path@) {
                Err(AddErrorView::AlreadyDeniedUrlPath(url_path@))
            } else if path_hit(self@.allowed_url_paths, url_path@) {
                Err(AddErrorView::AlreadyAllowedUrlPath(url_path@))
            } else if !templates_accepted(self@.allowed_url_paths.push(url_path@)) {
                Err(AddErrorView::InvalidEntity)
            } else {
                Ok(AclModel { allowed_url_paths: self@.allowed_url_paths.push(url_path@), ..self@ })
            },
    {
        let denied_router = build_router(&self.denied_url_paths);
        if template_hit(&self.denied_url_paths, &denied_router, url_path.as_str()) {
            return Err(AddError::AlreadyDeniedUrlPath(url_path));
        }
        let allowed_router = build_router(&self.allowed_url_paths);
        if template_hit(&self.allowed_url_paths, &allowed_router, url_path.as_str()) {
            return Err(AddError::AlreadyAllowedUrlPath(url_path));
        }
        proof {
            let xs = self@.allowed_url_paths;
            assert(xs.push(url_path@).drop_last() == xs);
        }
        match allowed_router {
            Some(mut router) => {
                if fits_router(url_path.as_str()) && router_insert(&mut router, url_path.as_str()) {
                    let mut b = self;
                    proof {
                        lemma_names_push(b.allowed_url_paths@, url_path);
                    }
                    b.allowed_url_paths.push(url_path);
                    Ok(b)
                } else {
                    Err(AddError::InvalidEntity("Invalid URL path".to_owned()))
                }
            },
            None => Err(AddError::InvalidEntity("Invalid URL path".to_owned())),
        }
    }

    /// Removes a URL path template from the allowed templates.
    pub fn remove_allowed_url_path(self, url_path: &str) -> (r: HttpAclBuilder)
        ensures
            r@ == (AclModel {
                allowed_url_paths: names_of(self.allowed_url_paths@.filter(not_named(url_path@))),
                ..self@
            }),
    {
        let mut b = self;
        b.allowed_url_paths = without_name(b.allowed_url_paths, url_path);
        b
    }

    /// Sets the allowed URL path templates: none may be covered by the denied
    /// templates, no two may be equal, and the router must take them all.
    pub fn allowed_url_paths(self, url_paths: Vec<String>) -> (r: Result<HttpAclBuilder, AddError>)
        ensures
            outcome(r) == match first_where(
                names_of(url_paths@),
                hit_by(self@.denied_url_paths),
            ) {
                Some(i) => Err(AddErrorView::AlreadyDeniedUrlPath(names_of(url_paths@)[i])),
                None => if !names_of(url_paths@).no_duplicates() {
                    Err(AddErrorView::NotUnique)
                } else if !templates_accepted(names_of(url_paths@)) {
                    Err(AddErrorView::InvalidEntity)
                } else {
                    Ok(AclModel { allowed_url_paths: names_of(url_paths@), ..self@ })
                },
            },
    {
        if let Some(i) = first_hit(&url_paths, &self.denied_url_paths) {
            proof {
                assert(names_of(url_paths@)[i as int] == url_paths@[i as int]@);
            }
            return Err(AddError::AlreadyDeniedUrlPath(url_paths[i].clone()));
        }
        if !names_unique(&url_paths) {
            return Err(AddError::NotUnique("Allowed URL paths must be unique.".to_owned()));
        }
        if build_router(&url_paths).is_none() {
            return Err(AddError::InvalidEntity("Invalid URL path".to_owned()));
        }
        let mut b = self;
        b.allowed_url_paths = url_paths;
        Ok(b)
    }

    /// Clears the allowed URL path templates.
    pub fn clear_allowed_url_paths(self) -> (r: HttpAclBuilder)
        ensures
            r@ == (AclModel { allowed_url_paths: Seq::empty(), ..self@ }),
    {
        let mut b = self;
        b.allowed_url_paths = Vec::new();
        proof {
            assert(names_of(b.allowed_url_paths@) =~= Seq::<Seq<char>>::empty());
        }
        b
    }

    /// Adds a URL path template to the denied templates.
    pub fn add_denied_url_path(self, url_path: String) -> (r: Result<HttpAclBuilder, AddError>)
        ensures
            outcome(r) == if path_hit(self@.allowed_url_paths, url_path@) {
                Err(AddErrorView::AlreadyAllowedUrlPath(url_path@))
            } else if path_hit(self@.denied_url_paths, url_path@) {
                Err(AddErrorView::AlreadyDeniedUrlPath(url_path@))
            } else if !templates_accepted(self@.denied_url_paths.push(url_path@)) {
                Err(AddErrorView::InvalidEntity)
            } else {
                Ok(AclModel { denied_url_paths: self@.denied_url_paths.push(url_path@), ..self@ })
            },
    {
        let allowed_router = build_router(&self.allowed_url_paths);
        if template_hit(&self.allowed_url_paths, &allowed_router, url_path.as_str()) {
            return Err(AddError::AlreadyAllowedUrlPath(url_path));
        }
        let denied_router = build_router(&self.denied_url_paths);
        if template_hit(&self.denied_url_paths, &denied_router, url_path.as_str()) {
            return Err(AddError::AlreadyDeniedUrlPath(url_path));
        }
        proof {
            let xs = self@.denied_url_paths;
            assert(xs.push(url_path@).drop_last() == xs);
        }
        match denied_router {
            Some(mut router) => {
                if fits_router(url_path.as_str()) && router_insert(&mut router, url_path.as_str()) {
                    let mut b = self;
                    proof {
                        lemma_names_push(b.denied_url_paths@, url_path);
                    }
                    b.denied_url_paths.push(url_path);
                    Ok(b)
                } else {
                    Err(AddError::InvalidEntity("Invalid URL path".to_owned()))
                }
            },
            None => Err(AddError::InvalidEntity("Invalid URL path".to_owned())),
        }
    }

    /// Removes a URL path template from the denied templates.
    pub fn remove_denied_url_path(self, url_path: &str) -> (r: HttpAclBuilder)
        ensures
            r@ == (AclModel {
                denied_url_paths: names_of(self.denied_url_paths@.filter(not_named(url_path@))),
                ..self@
            }),
    {
        let mut b = self;
        b.denied_url_paths = without_name(b.denied_url_paths, url_path);
        b
    }

    /// Sets the denied URL path templates: none may be covered by the allowed
    /// templates, no two may be equal, and the router must take them all.
    pub fn denied_url_paths(self, url_paths: Vec<String>) -> (r: Result<HttpAclBuilder, AddError>)
        ensures
            outcome(r) == match first_where(
                names_of(url_paths@),
                hit_by(self@.allowed_url_paths),
            ) {
                Some(i) => Err(AddErrorView::AlreadyAllowedUrlPath(names_of(url_paths@)[i])),
                None => if !names_of(url_paths@).no_duplicates() {
                    Err(AddErrorView::NotUnique)
                } else if !templates_accepted(names_of(url_paths@)) {
                    Err(AddErrorView::InvalidEntity)
                } else {
                    Ok(AclModel { denied_url_paths: names_of(url_paths@), ..self@ })
                },
            },
    {
        if let Some(i) = first_hit(&url_paths, &self.allowed_url_paths) {
            proof {
                assert(names_of(url_paths@)[i as int] == url_paths@[i as int]@);
            }
            return Err(AddError::AlreadyAllowedUrlPath(url_paths[i].clone()));
        }
        if !names_unique(&url_paths) {
            return Err(AddError::NotUnique("Denied URL paths must be unique.".to_owned()));
        }
        if build_router(&url_paths).is_none() {
            return Err(AddError::InvalidEntity("Invalid URL path".to_owned()));
        }
        let mut b = self;
        b.denied_url_paths = url_paths;
        Ok(b)
    }

    /// Clears the denied URL path templates.
    pub fn clear_denied_url_paths(self) -> (r: HttpAclBuilder)
        ensures
            r@ == (AclModel { denied_url_paths: Seq::empty(), ..self@ }),
    {
        let mut b = self;
        b.denied_url_paths = Vec::new();
        proof {
            assert(names_of(b.denied_url_paths@) =~= Seq::<Seq<char>>::empty());
        }
        b
    }
}

impl Default for HttpAclBuilder {
    /// The same builder as [`HttpAclBuilder::new`].
    fn default() -> (r: HttpAclBuilder)
        ensures
            r@ == initial_model(),
    {
        HttpAclBuilder::new()
    }
}

/// The range that holds one port.
pub open spec fn single_port(port: u16) -> PortRange {
    PortRange { start: port, end: port }
}

/// The single-port ranges of a list of ports.
pub open spec fn single_ports(ports: Seq<u16>) -> Seq<PortRange> {
    ports.map_values(|p: u16| single_port(p))
}

fn port_ranges_of(ports: &Vec<u16>) -> (r: Vec<PortRange>)
    ensures
        r@ == single_ports(ports@),
{
    let mut out: Vec<PortRange> = Vec::new();
    let mut i: usize = 0;
    while i < ports.len()
        invariant
            i <= ports@.len(),
            out@ == single_ports(ports@.take(i as int)),
        decreases ports@.len() - i,
    {
        proof {
            assert(single_ports(ports@.take(i as int + 1)) == single_ports(ports@.take(i as int)).push(
                single_port(ports@[i as int]),
            ));
        }
        out.push(PortRange::new(ports[i], ports[i]));
        i = i + 1;
    }
    proof {
        assert(ports@.take(ports@.len() as int) == ports@);
    }
    out
}

impl HttpAclBuilder {
    /// Adds a single port to the allowed ports, as the range `port..=port`.
    pub fn add_allowed_port(self, port: u16) -> (r: Result<HttpAclBuilder, AddError>)
        ensures
            outcome(r) == spec_add_allowed_port_range(self@, single_port(port)),
    {
        self.add_allowed_port_range(PortRange::new(port, port))
    }

    /// Removes the range `port..=port` from the allowed ports.
    pub fn remove_allowed_port(self, port: u16) -> (r: HttpAclBuilder)
        ensures
            r@ == (AclModel {
                allowed_port_ranges: self@.allowed_port_ranges.filter(other_than(single_port(port))),
                ..self@
            }),
    {
        self.remove_allowed_port_range(PortRange::new(port, port))
    }

    /// Sets the allowed ports, each as a single-port range.
    pub fn allowed_ports(self, ports: Vec<u16>) -> (r: Result<HttpAclBuilder, AddError>)
        ensures
            outcome(r) == spec_allowed_port_ranges(self@, single_ports(ports@)),
    {
        self.allowed_port_ranges(port_ranges_of(&ports))
    }

    /// Clears the allowed ports.
    pub fn clear_allowed_ports(self) -> (r: HttpAclBuilder)
        ensures
            r@ == (AclModel { allowed_port_ranges: Seq::empty(), ..self@ }),
    {
        self.clear_allowed_port_ranges()
    }

    /// Adds a single port to the denied ports, as the range `port..=port`.
    pub fn add_denied_port(self, port: u16) -> (r: Result<HttpAclBuilder, AddError>)
        ensures
            outcome(r) == spec_add_denied_port_range(self@, single_port(port)),
    {
        self.add_denied_port_range(PortRange::new(port, port))
    }

    /// Removes the range `port..=port` from the denied ports.
    pub fn remove_denied_port(self, port: u16) -> (r: HttpAclBuilder)
        ensures
            r@ == (AclModel {
                denied_port_ranges: self@.denied_port_ranges.filter(other_than(single_port(port))),
                ..self@
            }),
    {
        self.remove_denied_port_range(PortRange::new(port, port))
    }

    /// Sets the denied ports, each as a single-port range.
    pub fn denied_ports(self, ports: Vec<u16>) -> (r: Result<HttpAclBuilder, AddError>)
        ensures
            outcome(r) == spec_denied_port_ranges(self@, single_ports(ports@)),
    {
        self.denied_port_ranges(port_ranges_of(&ports))
    }

    /// Clears the denied ports.
    pub fn clear_denied_ports(self) -> (r: HttpAclBuilder)
        ensures
            r@ == (AclModel { denied_port_ranges: Seq::empty(), ..self@ }),
    {
        self.clear_denied_port_ranges()
    }
}

} // verus!
