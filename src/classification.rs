//! The outcome of checking one request dimension, and HTTP request methods.

use vstd::prelude::*;

use crate::text::{concat_str, str_eq, Named};

verus! {

/// Why an entity is allowed or denied.
#[non_exhaustive]
#[derive(Clone, Debug, PartialEq, Eq, Hash)]
pub enum AclClassification {
    /// The entity is allowed according to the allowed ACL.
    AllowedUserAcl,
    /// The entity is allowed because the default is to allow if no ACL match is found.
    AllowedDefault,
    /// The entity is denied according to the denied ACL.
    DeniedUserAcl,
    /// The entity is denied because the default is to deny if no ACL match is found.
    DeniedDefault,
    /// The entity is denied, for the reason given.
    Denied(String),
    /// The IP is denied because it is not global.
    DeniedNotGlobal,
    /// The IP is denied because it is in a private range.
    DeniedPrivateRange,
}

impl AclClassification {
    pub open spec fn spec_is_allowed(&self) -> bool {
        self is AllowedUserAcl || self is AllowedDefault
    }

    /// Returns whether the classification allows the entity.
    pub fn is_allowed(&self) -> (r: bool)
        ensures
            r == self.spec_is_allowed(),
    {
        match self {
            AclClassification::AllowedUserAcl | AclClassification::AllowedDefault => true,
            _ => false,
        }
    }

    /// Returns whether the classification denies the entity.
    pub fn is_denied(&self) -> (r: bool)
        ensures
            r == !self.spec_is_allowed(),
    {
        match self {
            AclClassification::DeniedUserAcl
            | AclClassification::Denied(_)
            | AclClassification::DeniedDefault
            | AclClassification::DeniedNotGlobal
            | AclClassification::DeniedPrivateRange => true,
            _ => false,
        }
    }

    /// The classification for a dimension's default flag.
    pub open spec fn spec_from_default(allow: bool) -> AclClassification {
        if allow {
            AclClassification::AllowedDefault
        } else {
            AclClassification::DeniedDefault
        }
    }

    pub fn from_default(allow: bool) -> (r: AclClassification)
        ensures
            r == Self::spec_from_default(allow),
    {
        if allow {
            AclClassification::AllowedDefault
        } else {
            AclClassification::DeniedDefault
        }
    }

    /// The sentence that says why the entity is allowed or denied.
    pub open spec fn spec_message(&self) -> Seq<char> {
        match self {
            AclClassification::AllowedUserAcl => "The entity is allowed according to the allowed ACL."@,
            AclClassification::AllowedDefault =>
                "The entity is allowed because the default is to allow if no ACL match is found."@,
            AclClassification::DeniedUserAcl => "The entity is denied according to the denied ACL."@,
            AclClassification::DeniedDefault =>
                "The entity is denied because the default is to deny if no ACL match is found."@,
            AclClassification::Denied(reason) => "The entity is denied because "@ + reason@ + "."@,
            AclClassification::DeniedNotGlobal => "The ip is denied because it is not global."@,
            AclClassification::DeniedPrivateRange =>
                "The ip is denied because it is in a private range."@,
        }
    }

    /// A sentence that says why the entity is allowed or denied.
    pub fn message(&self) -> (r: String)
        ensures
            r@ == self.spec_message(),
    {
        match self {
            AclClassification::AllowedUserAcl => {
                "The entity is allowed according to the allowed ACL.".to_owned()
            },
            AclClassification::AllowedDefault => {
                "The entity is allowed because the default is to allow if no ACL match is found.".to_owned()
            },
            AclClassification::DeniedUserAcl => {
                "The entity is denied according to the denied ACL.".to_owned()
            },
            AclClassification::DeniedDefault => {
                "The entity is denied because the default is to deny if no ACL match is found.".to_owned()
            },
            AclClassification::Denied(reason) => {
                let head = concat_str("The entity is denied because ", reason.as_str());
                concat_str(head.as_str(), ".")
            },
            AclClassification::DeniedNotGlobal => {
                "The ip is denied because it is not global.".to_owned()
            },
            AclClassification::DeniedPrivateRange => {
                "The ip is denied because it is in a private range.".to_owned()
            },
        }
    }
}

/// An HTTP request method. A method is identified by its name: `OTHER` holds
/// the name of a method outside the standard nine.
#[derive(Clone, Debug, PartialEq, Eq, Hash)]
pub enum HttpRequestMethod {
    /// The CONNECT method.
    CONNECT,
    /// The DELETE method.
    DELETE,
    /// The GET method.
    GET,
    /// The HEAD method.
    HEAD,
    /// The OPTIONS method.
    OPTIONS,
    /// The PATCH method.
    PATCH,
    /// The POST method.
    POST,
    /// The PUT method.
    PUT,
    /// The TRACE method.
    TRACE,
    /// Any other method.
    OTHER(String),
}

impl View for HttpRequestMethod {
    type V = Seq<char>;

    /// The method's name.
    open spec fn view(&self) -> Seq<char> {
        match self {
            HttpRequestMethod::CONNECT => "CONNECT"@,
            HttpRequestMethod::DELETE => "DELETE"@,
            HttpRequestMethod::GET => "GET"@,
            HttpRequestMethod::HEAD => "HEAD"@,
            HttpRequestMethod::OPTIONS => "OPTIONS"@,
            HttpRequestMethod::PATCH => "PATCH"@,
            HttpRequestMethod::POST => "POST"@,
            HttpRequestMethod::PUT => "PUT"@,
            HttpRequestMethod::TRACE => "TRACE"@,
            HttpRequestMethod::OTHER(name) => name@,
        }
    }
}

impl HttpRequestMethod {
    /// Return the method's name.
    pub fn as_str(&self) -> (r: &str)
        ensures
            r@ == self@,
    {
        match self {
            HttpRequestMethod::CONNECT => "CONNECT",
            HttpRequestMethod::DELETE => "DELETE",
            HttpRequestMethod::GET => "GET",
            HttpRequestMethod::HEAD => "HEAD",
            HttpRequestMethod::OPTIONS => "OPTIONS",
            HttpRequestMethod::PATCH => "PATCH",
            HttpRequestMethod::POST => "POST",
            HttpRequestMethod::PUT => "PUT",
            HttpRequestMethod::TRACE => "TRACE",
            HttpRequestMethod::OTHER(other) => other.as_str(),
        }
    }

    /// The standard method with the given name, if there is one.
    pub open spec fn standard(name: Seq<char>) -> Option<HttpRequestMethod> {
        if name == "CONNECT"@ {
            Some(HttpRequestMethod::CONNECT)
        } else if name == "DELETE"@ {
            Some(HttpRequestMethod::DELETE)
        } else if name == "GET"@ {
            Some(HttpRequestMethod::GET)
        } else if name == "HEAD"@ {
            Some(HttpRequestMethod::HEAD)
        } else if name == "OPTIONS"@ {
            Some(HttpRequestMethod::OPTIONS)
        } else if name == "PATCH"@ {
            Some(HttpRequestMethod::PATCH)
        } else if name == "POST"@ {
            Some(HttpRequestMethod::POST)
        } else if name == "PUT"@ {
            Some(HttpRequestMethod::PUT)
        } else if name == "TRACE"@ {
            Some(HttpRequestMethod::TRACE)
        } else {
            None
        }
    }

    /// The method with the given name: one of the standard nine, or `OTHER`.
    pub fn from_name(method: &str) -> (r: HttpRequestMethod)
        ensures
            r@ == method@,
            Self::standard(method@) matches Some(m) ==> r == m,
            Self::standard(method@) is None ==> r is OTHER,
    {
        if str_eq(method, "CONNECT") {
            HttpRequestMethod::CONNECT
        } else if str_eq(method, "DELETE") {
            HttpRequestMethod::DELETE
        } else if str_eq(method, "GET") {
            HttpRequestMethod::GET
        } else if str_eq(method, "HEAD") {
            HttpRequestMethod::HEAD
        } else if str_eq(method, "OPTIONS") {
            HttpRequestMethod::OPTIONS
        } else if str_eq(method, "PATCH") {
            HttpRequestMethod::PATCH
        } else if str_eq(method, "POST") {
            HttpRequestMethod::POST
        } else if str_eq(method, "PUT") {
            HttpRequestMethod::PUT
        } else if str_eq(method, "TRACE") {
            HttpRequestMethod::TRACE
        } else {
            HttpRequestMethod::OTHER(method.to_owned())
        }
    }

    /// Returns whether the two methods have the same name.
    pub fn same_as(&self, other: &HttpRequestMethod) -> (r: bool)
        ensures
            r == (self@ == other@),
    {
        str_eq(self.as_str(), other.as_str())
    }
}

impl Named for HttpRequestMethod {
    open spec fn name(&self) -> Seq<char> {
        self@
    }

    fn name_str(&self) -> (r: &str) {
        self.as_str()
    }
}

} // verus!
