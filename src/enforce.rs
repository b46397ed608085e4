//! The decisions of the two enforcement points: the check of a request before
//! it is sent, and the filtering of what a host name resolves to.

use vstd::prelude::*;

use crate::acl::HttpAcl;
use crate::authority::{authority_of, Authority, Host, HostView};
use crate::classification::{AclClassification, HttpRequestMethod};
use crate::ip::SocketAddr;
use crate::model::AclModel;

verus! {

/// The part of a request that a denial is about.
#[derive(Clone, Copy, Debug, PartialEq, Eq, Structural, Hash)]
pub enum RequestDimension {
    Scheme,
    Method,
    Host,
    Ip,
    Port,
    UrlPath,
}

/// Why a request is refused before it is sent.
#[derive(Clone, Debug, PartialEq, Eq, Hash)]
pub enum RequestDenial {
    /// The dimension's rules deny the request, with this classification.
    Denied(RequestDimension, AclClassification),
    /// The request's host cannot be parsed.
    InvalidHost,
    /// The request names no host.
    MissingHost,
}

/// The decision on a request, dimension after dimension: scheme, method, host
/// or IP address, port (when known), URL path. The first denial decides.
pub open spec fn request_decision(
    m: AclModel,
    scheme: Seq<char>,
    method: Seq<char>,
    host: Option<Seq<char>>,
    port: Option<u16>,
    path: Seq<char>,
) -> Result<(), RequestDenial> {
    if !m.scheme_class(scheme).spec_is_allowed() {
        Err(RequestDenial::Denied(RequestDimension::Scheme, m.scheme_class(scheme)))
    } else if !m.method_class(method).spec_is_allowed() {
        Err(RequestDenial::Denied(RequestDimension::Method, m.method_class(method)))
    } else {
        match host {
            None => Err(RequestDenial::MissingHost),
            Some(h) => match authority_of(h) {
                None => Err(RequestDenial::InvalidHost),
                Some(a) => {
                    let (dimension, class) = match a.host {
                        HostView::Ip(ip) => (RequestDimension::Ip, m.ip_class(ip)),
                        HostView::Domain(d) => (RequestDimension::Host, m.host_class(d)),
                    };
                    if !class.spec_is_allowed() {
                        Err(RequestDenial::Denied(dimension, class))
                    } else if port is Some && !m.port_class(port.unwrap()).spec_is_allowed() {
                        Err(
                            RequestDenial::Denied(
                                RequestDimension::Port,
                                m.port_class(port.unwrap()),
                            ),
                        )
                    } else if !m.url_path_class(path).spec_is_allowed() {
                        Err(RequestDenial::Denied(RequestDimension::UrlPath, m.url_path_class(path)))
                    } else {
                        Ok(())
                    }
                },
            },
        }
    }
}

/// Checks a request before it is sent.
pub fn check_request(
    acl: &HttpAcl,
    scheme: &str,
    method: &HttpRequestMethod,
    host: Option<&str>,
    port: Option<u16>,
    path: &str,
) -> (r: Result<(), RequestDenial>)
    ensures
        r == request_decision(
            acl@,
            scheme@,
            method@,
            match host {
                Some(h) => Some(h@),
                None => None,
            },
            port,
            path@,
        ),
{
    let scheme_class = acl.is_scheme_allowed(scheme);
    if scheme_class.is_denied() {
        return Err(RequestDenial::Denied(RequestDimension::Scheme, scheme_class));
    }
    let method_class = acl.is_method_allowed(method);
    if method_class.is_denied() {
        return Err(RequestDenial::Denied(RequestDimension::Method, method_class));
    }
    let host = match host {
        Some(h) => h,
        None => {
            return Err(RequestDenial::MissingHost);
        },
    };
    let authority = match Authority::parse(host) {
        Ok(a) => a,
        Err(_) => {
            return Err(RequestDenial::InvalidHost);
        },
    };
    let (dimension, class) = match &authority.host {
        Host::Ip(ip) => (RequestDimension::Ip, acl.is_ip_allowed(ip)),
        Host::Domain(d) => (RequestDimension::Host, acl.is_host_allowed(d.as_str())),
    };
    if class.is_denied() {
        return Err(RequestDenial::Denied(dimension, class));
    }
    if let Some(p) = port {
        let port_class = acl.is_port_allowed(p);
        if port_class.is_denied() {
            return Err(RequestDenial::Denied(RequestDimension::Port, port_class));
        }
    }
    let path_class = acl.is_url_path_allowed(path);
    if path_class.is_denied() {
        return Err(RequestDenial::Denied(RequestDimension::UrlPath, path_class));
    }
    Ok(())
}

/// An error that can occur when resolving a host.
#[derive(Clone, Debug, PartialEq, Eq, Hash)]
pub enum HttpAclError {
    /// Host resolution denied by ACL.
    HostDenied {
        /// The host that was denied.
        host: String,
    },
}

/// Checks a host name before it is resolved: a name the host rules deny is
/// not resolved at all.
pub fn check_resolution(acl: &HttpAcl, name: &str) -> (r: Result<(), HttpAclError>)
    ensures
        r is Ok <==> acl@.host_class(name@).spec_is_allowed(),
        r matches Err(HttpAclError::HostDenied { host }) ==> host@ == name@,
{
    if acl.is_host_allowed(name).is_denied() {
        Err(HttpAclError::HostDenied { host: name.to_owned() })
    } else {
        Ok(())
    }
}

/// Holds of the socket addresses whose IP address and port the policy both
/// allow.
pub open spec fn admits(m: AclModel) -> spec_fn(SocketAddr) -> bool {
    |a: SocketAddr| m.ip_class(a.ip).spec_is_allowed() && m.port_class(a.port).spec_is_allowed()
}

/// The resolved addresses that the policy admits, in their order.
#[verifier::loop_isolation(false)]
pub fn filter_resolved(acl: &HttpAcl, addresses: Vec<SocketAddr>) -> (r: Vec<SocketAddr>)
    ensures
        r@ == addresses@.filter(admits(acl@)),
{
    let ghost keep = admits(acl@);
    let mut out: Vec<SocketAddr> = Vec::new();
    let mut i: usize = 0;
    while i < addresses.len()
        invariant
            i <= addresses@.len(),
            out@ == addresses@.take(i as int).filter(keep),
        decreases addresses@.len() - i,
    {
        let a = addresses[i];
        proof {
            reveal(Seq::filter);
            assert(addresses@.take(i as int + 1).drop_last() == addresses@.take(i as int));
            assert(addresses@.take(i as int + 1).last() == a);
        }
        if acl.is_ip_allowed(&a.ip).is_allowed() && acl.is_port_allowed(a.port).is_allowed() {
            out.push(a);
        }
        i = i + 1;
    }
    proof {
        assert(addresses@.take(addresses@.len() as int) == addresses@);
    }
    out
}

} // verus!
