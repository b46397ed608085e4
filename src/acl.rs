//! The policy: immutable, and queried once per request dimension.

use std::sync::Arc;

use matchit::Router;
use vstd::prelude::*;

use crate::authority::Authority;
use crate::builder::{dns_entries, header_rules, HttpAclBuilder};
use crate::classification::{AclClassification, HttpRequestMethod};
use crate::ip::{is_global_ip, is_loopback_ip, is_private_ip, IpAddr, SocketAddr};
use crate::lists::{contains_name, find_named, ip_in_ranges, port_in_ranges};
use crate::model::{lemma_lookup_at, lemma_lookup_none, lookup, AclModel};
use crate::router::{router_at, router_routes};
use crate::text::{names_of, str_eq};

verus! {

/// A check that looks at a whole request, beside the per-dimension rules.
/// Applications implement it for checks the rules cannot express.
pub trait RequestValidator: Send + Sync {
    /// Classifies a request from its scheme, authority, headers and body.
    fn validate(
        &self,
        scheme: &str,
        authority: &Authority,
        headers: &[(&str, &str)],
        body: Option<&[u8]>,
    ) -> AclClassification;
}

/// A shared request check.
pub type ValidateFn = Arc<dyn RequestValidator>;

/// Represents an HTTP ACL: a built policy, with its URL path templates
/// compiled into routers.
pub struct HttpAcl {
    config: HttpAclBuilder,
    allowed_url_paths_router: Router<()>,
    denied_url_paths_router: Router<()>,
    validate_fn: Option<ValidateFn>,
}

impl View for HttpAcl {
    type V = AclModel;

    closed spec fn view(&self) -> AclModel {
        AclModel {
            allowed_url_paths: router_routes(self.allowed_url_paths_router),
            denied_url_paths: router_routes(self.denied_url_paths_router),
            ..self.config@
        }
    }
}

impl HttpAcl {
    /// Whether the policy has a request check.
    pub closed spec fn has_validator(&self) -> bool {
        self.validate_fn is Some
    }

    /// Puts a policy together from its configuration and the routers compiled
    /// from its URL path templates.
    pub(crate) fn assemble(
        config: HttpAclBuilder,
        allowed_url_paths_router: Router<()>,
        denied_url_paths_router: Router<()>,
        validate_fn: Option<ValidateFn>,
    ) -> (r: HttpAcl)
        ensures
            r@ == (AclModel {
                allowed_url_paths: router_routes(allowed_url_paths_router),
                denied_url_paths: router_routes(denied_url_paths_router),
                ..config@
            }),
            r.has_validator() == validate_fn is Some,
    {
        HttpAcl { config, allowed_url_paths_router, denied_url_paths_router, validate_fn }
    }

    /// Returns whether the scheme is allowed.
    pub fn is_scheme_allowed(&self, scheme: &str) -> (r: AclClassification)
        ensures
            r == self@.scheme_class(scheme@),
    {
        if (str_eq(scheme, "http") && self.config.allow_http) || (str_eq(scheme, "https")
            && self.config.allow_https) {
            AclClassification::AllowedUserAcl
        } else {
            AclClassification::DeniedUserAcl
        }
    }

    /// Returns whether the method is allowed.
    pub fn is_method_allowed(&self, method: &HttpRequestMethod) -> (r: AclClassification)
        ensures
            r == self@.method_class(method@),
    {
        if contains_name(&self.config.denied_methods, method.as_str()) {
            AclClassification::DeniedUserAcl
        } else if contains_name(&self.config.allowed_methods, method.as_str()) {
            AclClassification::AllowedUserAcl
        } else {
            AclClassification::from_default(self.config.method_acl_default)
        }
    }

    /// Returns whether the host is allowed.
    pub fn is_host_allowed(&self, host: &str) -> (r: AclClassification)
        ensures
            r == self@.host_class(host@),
    {
        if contains_name(&self.config.denied_hosts, host) {
            AclClassification::DeniedUserAcl
        } else if contains_name(&self.config.allowed_hosts, host) {
            AclClassification::AllowedUserAcl
        } else {
            AclClassification::from_default(self.config.host_acl_default)
        }
    }

    /// Returns whether the port is allowed.
    pub fn is_port_allowed(&self, port: u16) -> (r: AclClassification)
        ensures
            r == self@.port_class(port),
    {
        if port_in_ranges(&self.config.denied_port_ranges, port) {
            AclClassification::DeniedUserAcl
        } else if port_in_ranges(&self.config.allowed_port_ranges, port) {
            AclClassification::AllowedUserAcl
        } else {
            AclClassification::from_default(self.config.port_acl_default)
        }
    }

    /// Returns whether an IP is allowed.
    pub fn is_ip_allowed(&self, ip: &IpAddr) -> (r: AclClassification)
        ensures
            r == self@.ip_class(*ip),
    {
        let allowed = ip_in_ranges(&self.config.allowed_ip_ranges, ip);
        if self.config.distinguish_private_ip_ranges {
            let non_global = !is_global_ip(ip) || is_loopback_ip(ip);
            let private = is_private_ip(ip);
            if non_global && !private {
                if allowed {
                    AclClassification::AllowedUserAcl
                } else {
                    AclClassification::DeniedNotGlobal
                }
            } else if allowed {
                AclClassification::AllowedUserAcl
            } else if ip_in_ranges(&self.config.denied_ip_ranges, ip) {
                AclClassification::DeniedUserAcl
            } else if private && !self.config.allow_private_ip_ranges {
                AclClassification::DeniedPrivateRange
            } else {
                AclClassification::from_default(self.config.ip_acl_default)
            }
        } else if !is_global_ip(ip) && !self.config.allow_non_global_ip_ranges {
            if allowed {
                AclClassification::AllowedUserAcl
            } else {
                AclClassification::DeniedNotGlobal
            }
        } else if allowed {
            AclClassification::AllowedUserAcl
        } else if ip_in_ranges(&self.config.denied_ip_ranges, ip) {
            AclClassification::DeniedUserAcl
        } else {
            AclClassification::from_default(self.config.ip_acl_default)
        }
    }

    /// Resolve static DNS mapping.
    pub fn resolve_static_dns_mapping(&self, host: &str) -> (r: Option<SocketAddr>)
        ensures
            r == lookup(self@.static_dns_mapping, host@),
    {
        let ghost entries = dns_entries(self.config.static_dns_mapping@);
        match find_named(&self.config.static_dns_mapping, host) {
            Some(i) => {
                proof {
                    assert forall|k: int| 0 <= k < i implies (#[trigger] entries[k]).0 != host@ by {
                        assert(entries[k].0 == self.config.static_dns_mapping@[k].0@);
                    }
                    lemma_lookup_at(entries, host@, i as int);
                }
                Some(self.config.static_dns_mapping[i].1)
            },
            None => {
                proof {
                    assert forall|k: int| 0 <= k < entries.len() implies (
                    #[trigger] entries[k]).0 != host@ by {
                        assert(entries[k].0 == self.config.static_dns_mapping@[k].0@);
                    }
                    lemma_lookup_none(entries, host@);
                }
                None
            },
        }
    }

    /// The rule for the header name in `rules`, as `lookup` reads it: `None`
    /// when there is none, else the rule's value.
    fn header_rule<'a>(rules: &'a Vec<(String, Option<String>)>, name: &str) -> (r: Option<
        &'a Option<String>,
    >)
        ensures
            lookup(header_rules(rules@), name@) == (match r {
                Some(v) => Some(crate::error::opt_text(*v)),
                None => None::<Option<Seq<char>>>,
            }),
    {
        let ghost entries = header_rules(rules@);
        match find_named(rules, name) {
            Some(i) => {
                proof {
                    assert forall|k: int| 0 <= k < i implies (#[trigger] entries[k]).0 != name@ by {
                        assert(entries[k].0 == rules@[k].0@);
                    }
                    lemma_lookup_at(entries, name@, i as int);
                }
                Some(&rules[i].1)
            },
            None => {
                proof {
                    assert forall|k: int| 0 <= k < entries.len() implies (
                    #[trigger] entries[k]).0 != name@ by {
                        assert(entries[k].0 == rules@[k].0@);
                    }
                    lemma_lookup_none(entries, name@);
                }
                None
            },
        }
    }

    /// Whether a rule's value is about `value`: no value, or the same value.
    fn rule_value_matches(rule_value: &Option<String>, value: &str) -> (r: bool)
        ensures
            r == crate::model::rule_value_matches(crate::error::opt_text(*rule_value), value@),
    {
        match rule_value {
            None => true,
            Some(v) => str_eq(v.as_str(), value),
        }
    }

    /// Returns whether a header is allowed.
    pub fn is_header_allowed(&self, header_name: &str, header_value: &str) -> (r: AclClassification)
        ensures
            r == self@.header_class(header_name@, header_value@),
    {
        if let Some(allowed_value) = Self::header_rule(&self.config.allowed_headers, header_name) {
            if Self::rule_value_matches(allowed_value, header_value) {
                AclClassification::AllowedUserAcl
            } else {
                AclClassification::DeniedUserAcl
            }
        } else if let Some(denied_value) = Self::header_rule(
            &self.config.denied_headers,
            header_name,
        ) {
            if Self::rule_value_matches(denied_value, header_value) {
                AclClassification::DeniedUserAcl
            } else {
                AclClassification::AllowedUserAcl
            }
        } else {
            AclClassification::from_default(self.config.header_acl_default)
        }
    }

    /// Returns whether a URL path is allowed.
    pub fn is_url_path_allowed(&self, url_path: &str) -> (r: AclClassification)
        ensures
            r == self@.url_path_class(url_path@),
    {
        if router_at(&self.allowed_url_paths_router, url_path) {
            AclClassification::AllowedUserAcl
        } else if router_at(&self.denied_url_paths_router, url_path) {
            AclClassification::DeniedUserAcl
        } else {
            AclClassification::from_default(self.config.url_path_acl_default)
        }
    }

    /// Returns whether a request is valid according to the request check;
    /// without one, every request is allowed by default.
    pub fn is_valid(
        &self,
        scheme: &str,
        authority: &Authority,
        headers: &[(&str, &str)],
        body: Option<&[u8]>,
    ) -> (r: AclClassification)
        ensures
            !self.has_validator() ==> r == AclClassification::AllowedDefault,
    {
        match &self.validate_fn {
            Some(validate_fn) => validate_fn.validate(scheme, authority, headers, body),
            None => AclClassification::AllowedDefault,
        }
    }

    /// Returns whether HTTP is allowed.
    pub fn allow_http(&self) -> (r: bool)
        ensures
            r == self@.allow_http,
    {
        self.config.allow_http
    }

    /// Returns whether HTTPS is allowed.
    pub fn allow_https(&self) -> (r: bool)
        ensures
            r == self@.allow_https,
    {
        self.config.allow_https
    }

    /// Returns whether private IP ranges are allowed.
    pub fn allow_private_ip_ranges(&self) -> (r: bool)
        ensures
            r == self@.allow_private_ip_ranges,
    {
        self.config.allow_private_ip_ranges
    }

    /// Returns the default action for HTTP methods if no ACL match is found.
    pub fn method_acl_default(&self) -> (r: bool)
        ensures
            r == self@.method_acl_default,
    {
        self.config.method_acl_default
    }

    /// Returns the default action for hosts if no ACL match is found.
    pub fn host_acl_default(&self) -> (r: bool)
        ensures
            r == self@.host_acl_default,
    {
        self.config.host_acl_default
    }

    /// Returns the default action for ports if no ACL match is found.
    pub fn port_acl_default(&self) -> (r: bool)
        ensures
            r == self@.port_acl_default,
    {
        self.config.port_acl_default
    }

    /// Returns the default action for IPs if no ACL match is found.
    pub fn ip_acl_default(&self) -> (r: bool)
        ensures
            r == self@.ip_acl_default,
    {
        self.config.ip_acl_default
    }

    /// Returns the allowed methods.
    pub fn allowed_methods(&self) -> (r: &[HttpRequestMethod])
        ensures
            names_of(r@) == self@.allowed_methods,
    {
        self.config.allowed_methods.as_slice()
    }

    /// Returns the denied methods.
    pub fn denied_methods(&self) -> (r: &[HttpRequestMethod])
        ensures
            names_of(r@) == self@.denied_methods,
    {
        self.config.denied_methods.as_slice()
    }

    /// Returns a new [`HttpAclBuilder`].
    pub fn builder() -> (r: HttpAclBuilder)
        ensures
            r@ == crate::builder::initial_model(),
    {
        HttpAclBuilder::new()
    }
}

impl Default for HttpAcl {
    /// The policy of a new builder, built.
    fn default() -> (r: HttpAcl)
        ensures
            r@ == crate::builder::initial_model(),
    {
        HttpAclBuilder::new().build()
    }
}

} // verus!
