//! Parsing of authorities, the `host[:port]` part of a request target, and of
//! host names.

use vstd::prelude::*;

use crate::ip::IpAddr;
use crate::text::concat_str;

verus! {

/// A parsed host: a domain or an IP address.
#[derive(Clone, Debug, PartialEq, Eq, Hash)]
pub enum Host {
    /// A domain.
    Domain(String),
    /// An IP address.
    Ip(IpAddr),
}

/// The value of a [`Host`].
pub enum HostView {
    Domain(Seq<char>),
    Ip(IpAddr),
}

impl View for Host {
    type V = HostView;

    open spec fn view(&self) -> HostView {
        match self {
            Host::Domain(d) => HostView::Domain(d@),
            Host::Ip(ip) => HostView::Ip(*ip),
        }
    }
}

impl Host {
    /// Returns true if the host is an IP address.
    pub fn is_ip(&self) -> (r: bool)
        ensures
            r == (self is Ip),
    {
        match self {
            Host::Ip(_) => true,
            Host::Domain(_) => false,
        }
    }

    /// Returns true if the host is a domain.
    pub fn is_domain(&self) -> (r: bool)
        ensures
            r == (self is Domain),
    {
        match self {
            Host::Domain(_) => true,
            Host::Ip(_) => false,
        }
    }
}

/// A parsed authority. A port of 0 stands for "no port given".
#[derive(Clone, Debug, PartialEq, Eq, Hash)]
pub struct Authority {
    /// The host, which can be a domain or an IP address.
    pub host: Host,
    /// The port.
    pub port: u16,
}

/// The value of an [`Authority`].
pub struct AuthorityView {
    pub host: HostView,
    pub port: u16,
}

impl View for Authority {
    type V = AuthorityView;

    open spec fn view(&self) -> AuthorityView {
        AuthorityView { host: self.host@, port: self.port }
    }
}

/// An error that can occur when parsing an authority.
#[non_exhaustive]
#[derive(Clone, Debug, PartialEq, Eq, Hash)]
pub enum AuthorityError {
    /// The host is invalid.
    InvalidHost,
}

/// What url::Host::parse makes of a text: a domain or an IP address, or `None`
/// when it refuses the text.
pub uninterp spec fn url_host_of(input: Seq<char>) -> Option<HostView>;

/// Relies on url::Host::parse, which reads a domain, an IPv4 address or a
/// bracketed IPv6 address; the result depends on the text alone.
#[verifier::external_body]
fn parse_url_host(input: &str) -> (r: Option<Host>)
    ensures
        url_host_of(input@) == (match r {
            Some(h) => Some(h@),
            None => None::<HostView>,
        }),
{
    match url::Host::parse(input) {
        Ok(url::Host::Domain(domain)) => Some(Host::Domain(domain)),
        Ok(url::Host::Ipv4(ip)) => Some(Host::Ip(IpAddr::V4(u32::from(ip)))),
        Ok(url::Host::Ipv6(ip)) => Some(Host::Ip(IpAddr::V6(u128::from(ip)))),
        Err(_) => None,
    }
}

/// `i` is the first position of `c` in `s`.
pub open spec fn is_first(s: Seq<char>, c: char, i: int) -> bool {
    0 <= i < s.len() && s[i] == c && forall|k: int| 0 <= k < i ==> s[k] != c
}

/// `i` is the last position of `c` in `s`.
pub open spec fn is_last(s: Seq<char>, c: char, i: int) -> bool {
    0 <= i < s.len() && s[i] == c && forall|k: int| i < k < s.len() ==> s[k] != c
}

pub open spec fn first_index(s: Seq<char>, c: char) -> Option<int> {
    if exists|i: int| is_first(s, c, i) {
        Some(choose|i: int| is_first(s, c, i))
    } else {
        None
    }
}

pub open spec fn last_index(s: Seq<char>, c: char) -> Option<int> {
    if exists|i: int| is_last(s, c, i) {
        Some(choose|i: int| is_last(s, c, i))
    } else {
        None
    }
}

fn find_first(s: &str, c: char) -> (r: Option<usize>)
    ensures
        r matches Some(i) ==> first_index(s@, c) == Some(i as int) && is_first(s@, c, i as int),
        r is None ==> first_index(s@, c) is None,
{
    let n = s.unicode_len();
    let mut i: usize = 0;
    while i < n
        invariant
            n == s@.len(),
            i <= n,
            forall|k: int| 0 <= k < i ==> s@[k] != c,
        decreases n - i,
    {
        if s.get_char(i) == c {
            proof {
                assert(is_first(s@, c, i as int));
                let j = choose|j: int| is_first(s@, c, j);
                assert(j == i);
            }
            return Some(i);
        }
        i = i + 1;
    }
    None
}

fn find_last(s: &str, c: char) -> (r: Option<usize>)
    ensures
        r matches Some(i) ==> last_index(s@, c) == Some(i as int) && is_last(s@, c, i as int),
        r is None ==> last_index(s@, c) is None,
{
    let n = s.unicode_len();
    let mut i: usize = n;
    while i > 0
        invariant
            n == s@.len(),
            i <= n,
            forall|k: int| i <= k < n ==> s@[k] != c,
        decreases i,
    {
        if s.get_char(i - 1) == c {
            proof {
                assert(is_last(s@, c, i - 1));
                let j = choose|j: int| is_last(s@, c, j);
                assert(j == i - 1);
            }
            return Some(i - 1);
        }
        i = i - 1;
    }
    None
}

pub open spec fn is_digit(c: char) -> bool {
    '0' <= c <= '9'
}

/// The value of a string of decimal digits.
pub open spec fn decimal_value(s: Seq<char>) -> int
    decreases s.len(),
{
    if s.len() == 0 {
        0
    } else {
        decimal_value(s.drop_last()) * 10 + (s.last() as int - '0' as int)
    }
}

/// The port a text denotes: one or more decimal digits, of value at most 65535.
pub open spec fn port_of(s: Seq<char>) -> Option<u16> {
    if s.len() > 0 && (forall|k: int| 0 <= k < s.len() ==> is_digit(#[trigger] s[k]))
        && decimal_value(s) <= 65535 {
        Some(decimal_value(s) as u16)
    } else {
        None
    }
}

proof fn lemma_decimal_nonneg(s: Seq<char>)
    requires
        forall|k: int| 0 <= k < s.len() ==> is_digit(#[trigger] s[k]),
    ensures
        decimal_value(s) >= 0,
    decreases s.len(),
{
    if s.len() > 0 {
        lemma_decimal_nonneg(s.drop_last());
    }
}

/// Reads a port number.
pub fn parse_port(s: &str) -> (r: Option<u16>)
    ensures
        r == port_of(s@),
{
    let n = s.unicode_len();
    if n == 0 {
        return None;
    }
    let mut acc: u32 = 0;
    let mut i: usize = 0;
    while i < n
        invariant
            n == s@.len(),
            i <= n,
            forall|k: int| 0 <= k < i ==> is_digit(#[trigger] s@[k]),
            acc <= 65536,
            acc == (if decimal_value(s@.take(i as int)) >= 65536 {
                65536
            } else {
                decimal_value(s@.take(i as int))
            }),
        decreases n - i,
    {
        let c = s.get_char(i);
        if !('0' <= c && c <= '9') {
            return None;
        }
        proof {
            assert(s@.take(i as int + 1).drop_last() == s@.take(i as int));
            assert(s@.take(i as int + 1).last() == c);
            lemma_decimal_nonneg(s@.take(i as int));
        }
        let d: u32 = (c as u32) - ('0' as u32);
        if acc == 65536 || acc * 10 + d >= 65536 {
            acc = 65536;
        } else {
            acc = acc * 10 + d;
        }
        i = i + 1;
    }
    proof {
        assert(s@.take(n as int) == s@);
    }
    if acc <= 65535 {
        Some(acc as u16)
    } else {
        None
    }
}

/// The state of a scan of a text for the dotted-quad form of an IPv4
/// address: the dots seen, the length of the current group of digits, whether
/// that group starts with a zero, and whether the form still holds.
pub struct QuadScan {
    pub dots: int,
    pub group: int,
    pub zero_led: bool,
    pub ok: bool,
}

pub open spec fn quad_scan(s: Seq<char>) -> QuadScan
    decreases s.len(),
{
    if s.len() == 0 {
        QuadScan { dots: 0, group: 0, zero_led: false, ok: true }
    } else {
        let st = quad_scan(s.drop_last());
        let c = s.last();
        if !st.ok {
            st
        } else if c == '.' {
            QuadScan { dots: st.dots + 1, group: 0, zero_led: false, ok: st.group > 0 && st.dots < 3 }
        } else if is_digit(c) {
            if st.group == 0 {
                QuadScan { dots: st.dots, group: 1, zero_led: c == '0', ok: true }
            } else {
                QuadScan {
                    dots: st.dots,
                    group: st.group + 1,
                    zero_led: st.zero_led,
                    ok: st.group < 3 && !st.zero_led,
                }
            }
        } else {
            QuadScan { ok: false, ..st }
        }
    }
}

/// Four groups of one to three decimal digits separated by dots, none with a
/// leading zero: the only IPv4 form an address with a port may take.
pub open spec fn is_dotted_quad(s: Seq<char>) -> bool {
    quad_scan(s).ok && quad_scan(s).dots == 3 && quad_scan(s).group > 0
}

fn dotted_quad(s: &str) -> (r: bool)
    ensures
        r == is_dotted_quad(s@),
{
    let n = s.unicode_len();
    let mut dots: usize = 0;
    let mut group: usize = 0;
    let mut zero_led = false;
    let mut ok = true;
    let mut i: usize = 0;
    while i < n
        invariant
            n == s@.len(),
            i <= n,
            dots <= 4,
            group <= 4,
            ok ==> dots <= 3,
            quad_scan(s@.take(i as int)) == (QuadScan {
                dots: dots as int,
                group: group as int,
                zero_led,
                ok,
            }),
            ok ==> group <= 3,
        decreases n - i,
    {
        proof {
            assert(s@.take(i as int + 1).drop_last() == s@.take(i as int));
        }
        let c = s.get_char(i);
        if !ok {
        } else if c == '.' {
            ok = group > 0 && dots < 3;
            dots = dots + 1;
            group = 0;
            zero_led = false;
        } else if '0' <= c && c <= '9' {
            if group == 0 {
                group = 1;
                zero_led = c == '0';
            } else {
                ok = group < 3 && !zero_led;
                group = group + 1;
            }
        } else {
            ok = false;
        }
        i = i + 1;
    }
    proof {
        assert(s@.take(n as int) == s@);
    }
    ok && dots == 3 && group > 0
}

/// `ip:port`, or `[ip]:port` for IPv6, split at the last colon; an IPv4
/// address must be a dotted quad.
pub open spec fn socket_form(s: Seq<char>) -> Option<(IpAddr, u16)> {
    match last_index(s, ':') {
        Some(i) => match (port_of(s.subrange(i + 1, s.len() as int)), url_host_of(
            s.subrange(0, i),
        )) {
            (Some(port), Some(HostView::Ip(ip))) => if ip is V6 || is_dotted_quad(
                s.subrange(0, i),
            ) {
                Some((ip, port))
            } else {
                None
            },
            _ => None,
        },
        None => None,
    }
}

/// A port as an unsigned integer reads it: digits, after an optional `+`.
pub open spec fn signed_port_of(s: Seq<char>) -> Option<u16> {
    if s.len() > 0 && s[0] == '+' {
        port_of(s.drop_first())
    } else {
        port_of(s)
    }
}

/// Reads a port number that may carry a leading `+`.
fn parse_signed_port(s: &str) -> (r: Option<u16>)
    ensures
        r == signed_port_of(s@),
{
    let n = s.unicode_len();
    if n > 0 && s.get_char(0) == '+' {
        proof {
            assert(s@.subrange(1, n as int) == s@.drop_first());
        }
        parse_port(s.substring_char(1, n))
    } else {
        parse_port(s)
    }
}

/// A bare IPv6 address, without brackets.
pub open spec fn bare_ipv6(s: Seq<char>) -> Option<IpAddr> {
    if s.contains(':') {
        match url_host_of("["@ + s + "]"@) {
            Some(HostView::Ip(ip)) => Some(ip),
            _ => None,
        }
    } else {
        None
    }
}

/// `domain:port`, split at the first colon.
pub open spec fn domain_port_form(s: Seq<char>) -> Option<(Seq<char>, u16)> {
    match first_index(s, ':') {
        Some(i) => match signed_port_of(s.subrange(i + 1, s.len() as int)) {
            Some(port) => if url_host_of(s.subrange(0, i)) is Some {
                Some((s.subrange(0, i), port))
            } else {
                None
            },
            None => None,
        },
        None => None,
    }
}

/// The authority a text denotes, tried in this order: an IP address with a
/// port, a bare IPv6 address, a host as url reads it, a domain with a port.
pub open spec fn authority_of(s: Seq<char>) -> Option<AuthorityView> {
    if let Some((ip, port)) = socket_form(s) {
        Some(AuthorityView { host: HostView::Ip(ip), port })
    } else if let Some(ip) = bare_ipv6(s) {
        Some(AuthorityView { host: HostView::Ip(ip), port: 0 })
    } else if let Some(host) = url_host_of(s) {
        Some(AuthorityView { host, port: 0 })
    } else if let Some((domain, port)) = domain_port_form(s) {
        Some(AuthorityView { host: HostView::Domain(domain), port })
    } else {
        None
    }
}

/// A host is valid when it is an IP address with a port, a bare IPv6 address,
/// or a host that url reads.
pub open spec fn host_is_valid(s: Seq<char>) -> bool {
    socket_form(s) is Some || bare_ipv6(s) is Some || url_host_of(s) is Some
}

fn parse_socket_form(s: &str) -> (r: Option<(IpAddr, u16)>)
    ensures
        r == socket_form(s@),
{
    match find_last(s, ':') {
        Some(i) => {
            let n = s.unicode_len();
            let port = parse_port(s.substring_char(i + 1, n));
            let host = parse_url_host(s.substring_char(0, i));
            match (port, host) {
                (Some(port), Some(Host::Ip(ip))) => {
                    let v6 = match ip {
                        IpAddr::V6(_) => true,
                        IpAddr::V4(_) => false,
                    };
                    if v6 || dotted_quad(s.substring_char(0, i)) {
                        Some((ip, port))
                    } else {
                        None
                    }
                },
                _ => None,
            }
        },
        None => None,
    }
}

fn parse_bare_ipv6(s: &str) -> (r: Option<IpAddr>)
    ensures
        r == bare_ipv6(s@),
{
    match find_first(s, ':') {
        Some(i) => {
            proof {
                assert(s@[i as int] == ':');
                assert(s@.contains(':'));
            }
            let open = concat_str("[", s);
            let bracketed = concat_str(open.as_str(), "]");
            match parse_url_host(bracketed.as_str()) {
                Some(Host::Ip(ip)) => Some(ip),
                _ => None,
            }
        },
        None => {
            proof {
                if s@.contains(':') {
                    let k = choose|k: int| 0 <= k < s@.len() && s@[k] == ':';
                    let j = choose|j: int| 0 <= j <= k && s@[j] == ':' && forall|m: int| 0 <= m < j ==> s@[m] != ':';
                    assert(false) by {
                        lemma_first_exists(s@, ':', k);
                    }
                }
            }
            None
        },
    }
}

proof fn lemma_first_exists(s: Seq<char>, c: char, k: int)
    requires
        0 <= k < s.len(),
        s[k] == c,
    ensures
        exists|i: int| is_first(s, c, i),
    decreases k,
{
    if forall|m: int| 0 <= m < k ==> s[m] != c {
        assert(is_first(s, c, k));
    } else {
        let m = choose|m: int| 0 <= m < k && s[m] == c;
        lemma_first_exists(s, c, m);
    }
}

fn parse_domain_port_form(s: &str) -> (r: Option<(String, u16)>)
    ensures
        match r {
            Some((d, p)) => domain_port_form(s@) == Some((d@, p)),
            None => domain_port_form(s@) is None,
        },
{
    match find_first(s, ':') {
        Some(i) => {
            let n = s.unicode_len();
            match parse_signed_port(s.substring_char(i + 1, n)) {
                Some(port) => {
                    let domain = s.substring_char(0, i);
                    if parse_url_host(domain).is_some() {
                        Some((domain.to_owned(), port))
                    } else {
                        None
                    }
                },
                None => None,
            }
        },
        None => None,
    }
}

/// Checks if a host is valid or if it is a valid IP address.
pub fn is_valid_host(host: &str) -> (r: bool)
    ensures
        r == host_is_valid(host@),
{
    parse_socket_form(host).is_some() || parse_bare_ipv6(host).is_some() || parse_url_host(
        host,
    ).is_some()
}

impl Authority {
    /// Parses an authority from a string: `host`, `host:port`, a bare IP
    /// address, `ip:port` or `[ipv6]:port`.
    pub fn parse(authority: &str) -> (r: Result<Authority, AuthorityError>)
        ensures
            match r {
                Ok(a) => authority_of(authority@) == Some(a@),
                Err(_) => authority_of(authority@) is None,
            },
    {
        if let Some((ip, port)) = parse_socket_form(authority) {
            return Ok(Authority { host: Host::Ip(ip), port });
        }
        if let Some(ip) = parse_bare_ipv6(authority) {
            return Ok(Authority { host: Host::Ip(ip), port: 0 });
        }
        if let Some(host) = parse_url_host(authority) {
            return Ok(Authority { host, port: 0 });
        }
        if let Some((domain, port)) = parse_domain_port_form(authority) {
            return Ok(Authority { host: Host::Domain(domain), port });
        }
        Err(AuthorityError::InvalidHost)
    }

    /// The authority of a domain, with no port.
    pub fn from_domain(domain: String) -> (r: Authority)
        ensures
            r@ == (AuthorityView { host: HostView::Domain(domain@), port: 0 }),
    {
        Authority { host: Host::Domain(domain), port: 0 }
    }

    /// The authority of an IP address, with no port.
    pub fn from_ip(ip: IpAddr) -> (r: Authority)
        ensures
            r@ == (AuthorityView { host: HostView::Ip(ip), port: 0 }),
    {
        Authority { host: Host::Ip(ip), port: 0 }
    }
}

} // verus!
