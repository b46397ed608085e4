//! Laws that relate the policy's functions, proved over the model.

use vstd::prelude::*;

use crate::acl::HttpAcl;
use crate::builder::{path_hit, HttpAclBuilder};
use crate::classification::AclClassification;
use crate::enforce::admits;
use crate::ip::{IpAddr, SocketAddr};
use crate::model::{in_ip_ranges, in_port_ranges, keys_of, lookup, AclModel};
use crate::validation::{any_hit, meets_across, shares, url_path_error, validation_error};

verus! {

/// Some rule stands in both the allow-list and the deny-list of its dimension:
/// a method, a host, a port range, an IP range, a header name or a URL path
/// template; or some port or IP address lies in ranges of both lists.
pub open spec fn has_conflicting_rule(m: AclModel) -> bool {
    shares(m.allowed_methods, m.denied_methods) || shares(m.allowed_hosts, m.denied_hosts)
        || shares(m.allowed_port_ranges, m.denied_port_ranges) || shares(
        m.allowed_ip_ranges,
        m.denied_ip_ranges,
    ) || meets_across(m.allowed_port_ranges, m.denied_port_ranges) || meets_across(
        m.allowed_ip_ranges,
        m.denied_ip_ranges,
    ) || shares(keys_of(m.allowed_headers), keys_of(m.denied_headers)) || shares(
        m.allowed_url_paths,
        m.denied_url_paths,
    )
}

/// A configuration in which some rule is both allowed and denied does not
/// validate: `try_build` refuses it.
pub proof fn lemma_conflicting_rule_fails_validation(m: AclModel)
    requires
        has_conflicting_rule(m),
    ensures
        validation_error(m) is Some,
{
    if shares(m.allowed_url_paths, m.denied_url_paths) {
        let i = choose|i: int|
            0 <= i < m.allowed_url_paths.len() && m.denied_url_paths.contains(
                #[trigger] m.allowed_url_paths[i],
            );
        assert(path_hit(m.denied_url_paths, m.allowed_url_paths[i]));
        assert(any_hit(m.allowed_url_paths, m.denied_url_paths));
        assert(url_path_error(m) is Some);
    }
}

/// Without validation, a rule that stands in both lists is decided by the
/// deny-list for methods, hosts and ports: a denied method or host, and a port
/// in a denied range, are denied by rule whatever the allow-lists hold.
pub proof fn lemma_deny_list_wins(m: AclModel, method: Seq<char>, host: Seq<char>, port: u16)
    ensures
        m.denied_methods.contains(method) ==> m.method_class(method)
            == AclClassification::DeniedUserAcl,
        m.denied_hosts.contains(host) ==> m.host_class(host) == AclClassification::DeniedUserAcl,
        in_port_ranges(m.denied_port_ranges, port) ==> m.port_class(port)
            == AclClassification::DeniedUserAcl,
{
}

/// With empty allow- and deny-lists in a dimension, every input falls to that
/// dimension's default: allowed by default when the flag is set, denied by
/// default when not. For IP addresses this holds of global addresses, which
/// the globality rules do not stop.
pub proof fn lemma_default_fallback(
    m: AclModel,
    method: Seq<char>,
    host: Seq<char>,
    port: u16,
    ip: IpAddr,
    name: Seq<char>,
    value: Seq<char>,
    path: Seq<char>,
)
    ensures
        m.allowed_methods.len() == 0 && m.denied_methods.len() == 0 ==> m.method_class(method)
            == AclClassification::spec_from_default(m.method_acl_default),
        m.allowed_hosts.len() == 0 && m.denied_hosts.len() == 0 ==> m.host_class(host)
            == AclClassification::spec_from_default(m.host_acl_default),
        m.allowed_port_ranges.len() == 0 && m.denied_port_ranges.len() == 0 ==> m.port_class(port)
            == AclClassification::spec_from_default(m.port_acl_default),
        m.allowed_ip_ranges.len() == 0 && m.denied_ip_ranges.len() == 0 && ip.spec_is_global()
            ==> m.ip_class(ip) == AclClassification::spec_from_default(m.ip_acl_default),
        m.allowed_headers.len() == 0 && m.denied_headers.len() == 0 ==> m.header_class(name, value)
            == AclClassification::spec_from_default(m.header_acl_default),
        m.allowed_url_paths.len() == 0 && m.denied_url_paths.len() == 0 ==> m.url_path_class(path)
            == AclClassification::spec_from_default(m.url_path_acl_default),
{
    if m.allowed_ip_ranges.len() == 0 && m.denied_ip_ranges.len() == 0 && ip.spec_is_global() {
        assert(!in_ip_ranges(m.allowed_ip_ranges, ip));
        assert(!in_ip_ranges(m.denied_ip_ranges, ip));
        assert(!ip.spec_is_private());
    }
}

/// An allow-rule without a value admits every value of its header, one with a
/// value admits that value only; a deny-rule, for a header without an
/// allow-rule, condemns values alike.
pub proof fn lemma_header_rules(m: AclModel, name: Seq<char>, value: Seq<char>)
    ensures
        lookup(m.allowed_headers, name) == Some(None::<Seq<char>>) ==> m.header_class(name, value)
            == AclClassification::AllowedUserAcl,
        forall|w: Seq<char>|
            lookup(m.allowed_headers, name) == Some(Some(w)) ==> m.header_class(name, value) == (
            if value == w {
                AclClassification::AllowedUserAcl
            } else {
                AclClassification::DeniedUserAcl
            }),
        lookup(m.allowed_headers, name) is None && lookup(m.denied_headers, name) == Some(
            None::<Seq<char>>,
        ) ==> m.header_class(name, value) == AclClassification::DeniedUserAcl,
        forall|w: Seq<char>|
            lookup(m.allowed_headers, name) is None && lookup(m.denied_headers, name) == Some(
                Some(w),
            ) ==> m.header_class(name, value) == (if value == w {
                AclClassification::DeniedUserAcl
            } else {
                AclClassification::AllowedUserAcl
            }),
{
}

/// The resolver's filter keeps exactly the resolved addresses whose IP address
/// and port the policy allows.
pub proof fn lemma_resolved_addresses_rechecked(m: AclModel, addresses: Seq<SocketAddr>)
    ensures
        forall|a: SocketAddr|
            #[trigger] addresses.filter(admits(m)).contains(a) <==> (addresses.contains(a)
                && m.ip_class(a.ip).spec_is_allowed() && m.port_class(a.port).spec_is_allowed()),
{
    let p = admits(m);
    assert forall|a: SocketAddr|
        #[trigger] addresses.filter(p).contains(a) <==> (addresses.contains(a)
            && m.ip_class(a.ip).spec_is_allowed() && m.port_class(a.port).spec_is_allowed()) by {
        if addresses.filter(p).contains(a) {
            addresses.lemma_filter_contains_rev(p, a);
            let j = choose|j: int|
                0 <= j < addresses.filter(p).len() && addresses.filter(p)[j] == a;
            addresses.lemma_filter_pred(p, j);
        }
        if addresses.contains(a) && p(a) {
            let j = choose|j: int| 0 <= j < addresses.len() && addresses[j] == a;
            addresses.lemma_filter_contains(p, j);
        }
    }
}

/// Two policies that `try_build` made from the same builder state classify
/// every input alike.
pub proof fn lemma_same_builder_same_policy(builder: HttpAclBuilder, first: HttpAcl, second: HttpAcl)
    requires
        first@ == builder@,
        second@ == builder@,
    ensures
        first@.classifies_as(second@),
{
}

/// Validation and the built policy depend on the builder's configuration
/// alone: a builder rebuilt field for field from another (as a serialization
/// round trip does) validates alike, and the policies built from the two
/// classify every input alike.
pub proof fn lemma_rebuilt_builder_same_policy(
    source: HttpAclBuilder,
    rebuilt: HttpAclBuilder,
    first: HttpAcl,
    second: HttpAcl,
)
    requires
        rebuilt@ == source@,
        first@ == source@,
        second@ == rebuilt@,
    ensures
        validation_error(rebuilt@) == validation_error(source@),
        first@.classifies_as(second@),
{
}

} // verus!
