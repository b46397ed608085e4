//! Errors raised while a policy is built.

use vstd::prelude::*;

use crate::classification::HttpRequestMethod;
use crate::ip::{IpRange, SocketAddr};
use crate::ranges::PortRange;

verus! {

/// Represents an error that can occur when adding a new allowed or denied entity to an ACL.
#[non_exhaustive]
#[derive(Clone, Debug, PartialEq, Eq, Hash)]
pub enum AddError {
    /// The HTTP method is already allowed.
    AlreadyAllowedMethod(HttpRequestMethod),
    /// The HTTP method is already denied.
    AlreadyDeniedMethod(HttpRequestMethod),
    /// The host is already allowed.
    AlreadyAllowedHost(String),
    /// The host is already denied.
    AlreadyDeniedHost(String),
    /// The port range is already allowed.
    AlreadyAllowedPortRange(PortRange),
    /// The port range is already denied.
    AlreadyDeniedPortRange(PortRange),
    /// The IP range is already allowed.
    AlreadyAllowedIpRange(IpRange),
    /// The IP range is already denied.
    AlreadyDeniedIpRange(IpRange),
    /// The IP range is not a global IP range.
    NonGlobalIpRange(IpRange),
    /// The header is already allowed.
    AlreadyAllowedHeader(String, Option<String>),
    /// The header is already denied.
    AlreadyDeniedHeader(String, Option<String>),
    /// The URL path is already allowed.
    AlreadyAllowedUrlPath(String),
    /// The URL path is already denied.
    AlreadyDeniedUrlPath(String),
    /// The static DNS mapping is already present.
    AlreadyPresentStaticDnsMapping(String, SocketAddr),
    /// The entity is not allowed or denied because it is invalid.
    InvalidEntity(String),
    /// The entity is not unique.
    NotUnique(String),
    /// The entity overlaps with another.
    Overlaps(String),
    /// The entity is both allowed and denied.
    BothAllowedAndDenied(String),
    /// General error with a message.
    Error(String),
}

/// The value of an [`AddError`]: its kind and the entity it names. The
/// messages that the last five kinds carry are for people and are left out.
pub enum AddErrorView {
    AlreadyAllowedMethod(Seq<char>),
    AlreadyDeniedMethod(Seq<char>),
    AlreadyAllowedHost(Seq<char>),
    AlreadyDeniedHost(Seq<char>),
    AlreadyAllowedPortRange(PortRange),
    AlreadyDeniedPortRange(PortRange),
    AlreadyAllowedIpRange(IpRange),
    AlreadyDeniedIpRange(IpRange),
    NonGlobalIpRange(IpRange),
    AlreadyAllowedHeader(Seq<char>, Option<Seq<char>>),
    AlreadyDeniedHeader(Seq<char>, Option<Seq<char>>),
    AlreadyAllowedUrlPath(Seq<char>),
    AlreadyDeniedUrlPath(Seq<char>),
    AlreadyPresentStaticDnsMapping(Seq<char>, SocketAddr),
    InvalidEntity,
    NotUnique,
    Overlaps,
    BothAllowedAndDenied,
    Error,
}

/// The text of an optional string.
pub open spec fn opt_text(o: Option<String>) -> Option<Seq<char>> {
    match o {
        Some(s) => Some(s@),
        None => None,
    }
}

impl View for AddError {
    type V = AddErrorView;

    open spec fn view(&self) -> AddErrorView {
        match self {
            AddError::AlreadyAllowedMethod(m) => AddErrorView::AlreadyAllowedMethod(m@),
            AddError::AlreadyDeniedMethod(m) => AddErrorView::AlreadyDeniedMethod(m@),
            AddError::AlreadyAllowedHost(h) => AddErrorView::AlreadyAllowedHost(h@),
            AddError::AlreadyDeniedHost(h) => AddErrorView::AlreadyDeniedHost(h@),
            AddError::AlreadyAllowedPortRange(r) => AddErrorView::AlreadyAllowedPortRange(*r),
            AddError::AlreadyDeniedPortRange(r) => AddErrorView::AlreadyDeniedPortRange(*r),
            AddError::AlreadyAllowedIpRange(r) => AddErrorView::AlreadyAllowedIpRange(*r),
            AddError::AlreadyDeniedIpRange(r) => AddErrorView::AlreadyDeniedIpRange(*r),
            AddError::NonGlobalIpRange(r) => AddErrorView::NonGlobalIpRange(*r),
            AddError::AlreadyAllowedHeader(h, v) => AddErrorView::AlreadyAllowedHeader(
                h@,
                opt_text(*v),
            ),
            AddError::AlreadyDeniedHeader(h, v) => AddErrorView::AlreadyDeniedHeader(
                h@,
                opt_text(*v),
            ),
            AddError::AlreadyAllowedUrlPath(p) => AddErrorView::AlreadyAllowedUrlPath(p@),
            AddError::AlreadyDeniedUrlPath(p) => AddErrorView::AlreadyDeniedUrlPath(p@),
            AddError::AlreadyPresentStaticDnsMapping(h, a) => {
                AddErrorView::AlreadyPresentStaticDnsMapping(h@, *a)
            },
            AddError::InvalidEntity(_) => AddErrorView::InvalidEntity,
            AddError::NotUnique(_) => AddErrorView::NotUnique,
            AddError::Overlaps(_) => AddErrorView::Overlaps,
            AddError::BothAllowedAndDenied(_) => AddErrorView::BothAllowedAndDenied,
            AddError::Error(_) => AddErrorView::Error,
        }
    }
}

} // verus!
