//! Outbound HTTP request access control: a policy of allow and deny rules per
//! request dimension (scheme, method, host, port, IP, header, URL path), a
//! validating builder for it, and the checks that enforce it before a request
//! is sent and after its host name is resolved.

pub mod ip;
pub mod ranges;
pub mod router;
pub mod text;
pub mod classification;
pub mod authority;
pub mod error;
pub mod model;
pub mod lists;
pub mod acl;
pub mod builder;
pub mod validation;
pub mod enforce;
pub mod url;
pub mod laws;

pub use acl::HttpAcl;
pub use builder::HttpAclBuilder;
pub use classification::{AclClassification, HttpRequestMethod};
pub use ip::{IntoIpRange, IpNet};
