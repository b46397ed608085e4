//! The mathematical model of a policy, and the classification rules stated
//! over it.

use vstd::prelude::*;

use crate::classification::AclClassification;
use crate::ip::{IpAddr, IpRange, SocketAddr};
use crate::ranges::PortRange;
use crate::router::routes_match;

verus! {

/// A header rule: a header name and, optionally, the one value it is about.
pub type HeaderRule = (Seq<char>, Option<Seq<char>>);

/// The value of a policy, and of the builder it is built from.
pub struct AclModel {
    pub allow_http: bool,
    pub allow_https: bool,
    pub allowed_methods: Seq<Seq<char>>,
    pub denied_methods: Seq<Seq<char>>,
    pub allowed_hosts: Seq<Seq<char>>,
    pub denied_hosts: Seq<Seq<char>>,
    pub allowed_port_ranges: Seq<PortRange>,
    pub denied_port_ranges: Seq<PortRange>,
    pub allowed_ip_ranges: Seq<IpRange>,
    pub denied_ip_ranges: Seq<IpRange>,
    pub static_dns_mapping: Seq<(Seq<char>, SocketAddr)>,
    pub allowed_headers: Seq<HeaderRule>,
    pub denied_headers: Seq<HeaderRule>,
    pub allowed_url_paths: Seq<Seq<char>>,
    pub denied_url_paths: Seq<Seq<char>>,
    pub allow_non_global_ip_ranges: bool,
    pub allow_private_ip_ranges: bool,
    pub distinguish_private_ip_ranges: bool,
    pub method_acl_default: bool,
    pub host_acl_default: bool,
    pub port_acl_default: bool,
    pub ip_acl_default: bool,
    pub header_acl_default: bool,
    pub url_path_acl_default: bool,
}

/// The value of the first entry whose key is `key`.
pub open spec fn lookup<V>(entries: Seq<(Seq<char>, V)>, key: Seq<char>) -> Option<V>
    decreases entries.len(),
{
    if entries.len() == 0 {
        None
    } else if entries[0].0 == key {
        Some(entries[0].1)
    } else {
        lookup(entries.drop_first(), key)
    }
}

/// The keys of a list of entries.
pub open spec fn keys_of<V>(entries: Seq<(Seq<char>, V)>) -> Seq<Seq<char>> {
    entries.map_values(|e: (Seq<char>, V)| e.0)
}

pub open spec fn in_port_ranges(ranges: Seq<PortRange>, port: u16) -> bool {
    exists|i: int| 0 <= i < ranges.len() && (#[trigger] ranges[i]).spec_contains(port)
}

pub open spec fn in_ip_ranges(ranges: Seq<IpRange>, ip: IpAddr) -> bool {
    exists|i: int| 0 <= i < ranges.len() && (#[trigger] ranges[i]).spec_contains(ip)
}

/// Whether a header rule's value condemns or admits `value`: a rule without a
/// value is about every value.
pub open spec fn rule_value_matches(rule_value: Option<Seq<char>>, value: Seq<char>) -> bool {
    rule_value is None || rule_value == Some(value)
}

impl AclModel {
    pub open spec fn scheme_class(self, scheme: Seq<char>) -> AclClassification {
        if (scheme == "http"@ && self.allow_http) || (scheme == "https"@ && self.allow_https) {
            AclClassification::AllowedUserAcl
        } else {
            AclClassification::DeniedUserAcl
        }
    }

    /// Deny-list, then allow-list, then the default.
    pub open spec fn method_class(self, method: Seq<char>) -> AclClassification {
        if self.denied_methods.contains(method) {
            AclClassification::DeniedUserAcl
        } else if self.allowed_methods.contains(method) {
            AclClassification::AllowedUserAcl
        } else {
            AclClassification::spec_from_default(self.method_acl_default)
        }
    }

    /// Deny-list, then allow-list, then the default; hosts match exactly.
    pub open spec fn host_class(self, host: Seq<char>) -> AclClassification {
        if self.denied_hosts.contains(host) {
            AclClassification::DeniedUserAcl
        } else if self.allowed_hosts.contains(host) {
            AclClassification::AllowedUserAcl
        } else {
            AclClassification::spec_from_default(self.host_acl_default)
        }
    }

    /// Deny-ranges, then allow-ranges, then the default.
    pub open spec fn port_class(self, port: u16) -> AclClassification {
        if in_port_ranges(self.denied_port_ranges, port) {
            AclClassification::DeniedUserAcl
        } else if in_port_ranges(self.allowed_port_ranges, port) {
            AclClassification::AllowedUserAcl
        } else {
            AclClassification::spec_from_default(self.port_acl_default)
        }
    }

    /// Allow-ranges, then deny-ranges, then the default.
    pub open spec fn ip_rule_class(self, ip: IpAddr) -> AclClassification {
        if in_ip_ranges(self.allowed_ip_ranges, ip) {
            AclClassification::AllowedUserAcl
        } else if in_ip_ranges(self.denied_ip_ranges, ip) {
            AclClassification::DeniedUserAcl
        } else {
            AclClassification::spec_from_default(self.ip_acl_default)
        }
    }

    /// With private ranges told apart: an address that is neither global nor
    /// private passes only through an allow-range; a private one is denied,
    /// unless private ranges are allowed, after the range rules.
    pub open spec fn ip_class_refined(self, ip: IpAddr) -> AclClassification {
        let non_global = !ip.spec_is_global() || ip.spec_is_loopback();
        let private = ip.spec_is_private();
        if non_global && !private {
            if in_ip_ranges(self.allowed_ip_ranges, ip) {
                AclClassification::AllowedUserAcl
            } else {
                AclClassification::DeniedNotGlobal
            }
        } else if in_ip_ranges(self.allowed_ip_ranges, ip) {
            AclClassification::AllowedUserAcl
        } else if in_ip_ranges(self.denied_ip_ranges, ip) {
            AclClassification::DeniedUserAcl
        } else if private && !self.allow_private_ip_ranges {
            AclClassification::DeniedPrivateRange
        } else {
            AclClassification::spec_from_default(self.ip_acl_default)
        }
    }

    /// Without private ranges told apart: a non-global address passes only
    /// through an allow-range, unless non-global ranges are allowed.
    pub open spec fn ip_class_coarse(self, ip: IpAddr) -> AclClassification {
        if !ip.spec_is_global() && !self.allow_non_global_ip_ranges {
            if in_ip_ranges(self.allowed_ip_ranges, ip) {
                AclClassification::AllowedUserAcl
            } else {
                AclClassification::DeniedNotGlobal
            }
        } else {
            self.ip_rule_class(ip)
        }
    }

    pub open spec fn ip_class(self, ip: IpAddr) -> AclClassification {
        if self.distinguish_private_ip_ranges {
            self.ip_class_refined(ip)
        } else {
            self.ip_class_coarse(ip)
        }
    }

    /// The allow-rule for the header name decides if there is one, then the
    /// deny-rule, then the default.
    pub open spec fn header_class(self, name: Seq<char>, value: Seq<char>) -> AclClassification {
        match lookup(self.allowed_headers, name) {
            Some(v) => if rule_value_matches(v, value) {
                AclClassification::AllowedUserAcl
            } else {
                AclClassification::DeniedUserAcl
            },
            None => match lookup(self.denied_headers, name) {
                Some(v) => if rule_value_matches(v, value) {
                    AclClassification::DeniedUserAcl
                } else {
                    AclClassification::AllowedUserAcl
                },
                None => AclClassification::spec_from_default(self.header_acl_default),
            },
        }
    }

    /// The allow-routes, then the deny-routes, then the default.
    pub open spec fn url_path_class(self, path: Seq<char>) -> AclClassification {
        if routes_match(self.allowed_url_paths, path) {
            AclClassification::AllowedUserAcl
        } else if routes_match(self.denied_url_paths, path) {
            AclClassification::DeniedUserAcl
        } else {
            AclClassification::spec_from_default(self.url_path_acl_default)
        }
    }

    /// Two policies classify every input of every dimension alike.
    pub open spec fn classifies_as(self, other: AclModel) -> bool {
        &&& forall|s: Seq<char>| #[trigger] self.scheme_class(s) == other.scheme_class(s)
        &&& forall|m: Seq<char>| #[trigger] self.method_class(m) == other.method_class(m)
        &&& forall|h: Seq<char>| #[trigger] self.host_class(h) == other.host_class(h)
        &&& forall|p: u16| #[trigger] self.port_class(p) == other.port_class(p)
        &&& forall|ip: IpAddr| #[trigger] self.ip_class(ip) == other.ip_class(ip)
        &&& forall|n: Seq<char>, v: Seq<char>| #[trigger]
            self.header_class(n, v) == other.header_class(n, v)
        &&& forall|p: Seq<char>| #[trigger] self.url_path_class(p) == other.url_path_class(p)
        &&& forall|h: Seq<char>| #[trigger]
            lookup(self.static_dns_mapping, h) == lookup(other.static_dns_mapping, h)
    }
}

} // verus!

verus! {

/// `lookup` finds the first entry with the key.
pub proof fn lemma_lookup_at<V>(entries: Seq<(Seq<char>, V)>, key: Seq<char>, i: int)
    requires
        0 <= i < entries.len(),
        entries[i].0 == key,
        forall|k: int| 0 <= k < i ==> (#[trigger] entries[k]).0 != key,
    ensures
        lookup(entries, key) == Some(entries[i].1),
    decreases i,
{
    if i > 0 {
        assert(entries[0].0 != key);
        assert forall|k: int| 0 <= k < i - 1 implies (#[trigger] entries.drop_first()[k]).0 != key by {
            assert(entries.drop_first()[k] == entries[k + 1]);
        }
        lemma_lookup_at(entries.drop_first(), key, i - 1);
    }
}

/// `lookup` finds nothing when no entry has the key.
pub proof fn lemma_lookup_none<V>(entries: Seq<(Seq<char>, V)>, key: Seq<char>)
    requires
        forall|k: int| 0 <= k < entries.len() ==> (#[trigger] entries[k]).0 != key,
    ensures
        lookup(entries, key) is None,
    decreases entries.len(),
{
    if entries.len() > 0 {
        assert(entries[0].0 != key);
        assert forall|k: int| 0 <= k < entries.len() - 1 implies (
        #[trigger] entries.drop_first()[k]).0 != key by {
            assert(entries.drop_first()[k] == entries[k + 1]);
        }
        lemma_lookup_none(entries.drop_first(), key);
    }
}

} // verus!
