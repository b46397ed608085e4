//! The validation of a whole builder, and the builds that turn a builder into
//! a policy.

use matchit::Router;
use vstd::prelude::*;

use crate::acl::{HttpAcl, ValidateFn};
use crate::authority::{host_is_valid, is_valid_host};
use crate::builder::{header_rules, path_hit, HttpAclBuilder};
use crate::error::{AddError, AddErrorView};
use crate::ip::{validate_ip_range, IpRange};
use crate::lists::{
    any_overlaps_with, first_shared_name, first_shared_range, has_unique_elements, names_unique,
};
use crate::model::{keys_of, AclModel};
use crate::ranges::{has_overlap, has_overlapping_ranges, overlaps_any, Interval};
use crate::router::{build_router, empty_router, router_at, router_routes, templates_accepted};
use crate::text::{names_of, Named};

verus! {

/// Some range of `xs` intersects some range of `ys`.
pub open spec fn meets_across<T: Interval>(xs: Seq<T>, ys: Seq<T>) -> bool {
    exists|i: int| 0 <= i < xs.len() && overlaps_any(ys, #[trigger] xs[i], None)
}

/// Some element of `xs` is an element of `ys`.
pub open spec fn shares<A>(xs: Seq<A>, ys: Seq<A>) -> bool {
    exists|i: int| 0 <= i < xs.len() && ys.contains(#[trigger] xs[i])
}

pub open spec fn all_valid_hosts(hosts: Seq<Seq<char>>) -> bool {
    forall|i: int| 0 <= i < hosts.len() ==> host_is_valid(#[trigger] hosts[i])
}

pub open spec fn all_well_formed(ranges: Seq<IpRange>) -> bool {
    forall|i: int| 0 <= i < ranges.len() ==> (#[trigger] ranges[i]).well_formed()
}

pub open spec fn method_error(m: AclModel) -> Option<AddErrorView> {
    if !m.allowed_methods.no_duplicates() || !m.denied_methods.no_duplicates() {
        Some(AddErrorView::NotUnique)
    } else if shares(m.allowed_methods, m.denied_methods) {
        Some(AddErrorView::BothAllowedAndDenied)
    } else {
        None
    }
}

pub open spec fn host_error(m: AclModel) -> Option<AddErrorView> {
    if !m.allowed_hosts.no_duplicates() || !m.denied_hosts.no_duplicates() {
        Some(AddErrorView::NotUnique)
    } else if !all_valid_hosts(m.allowed_hosts) || !all_valid_hosts(m.denied_hosts) {
        Some(AddErrorView::InvalidEntity)
    } else if shares(m.allowed_hosts, m.denied_hosts) {
        Some(AddErrorView::BothAllowedAndDenied)
    } else {
        None
    }
}

pub open spec fn port_error(m: AclModel) -> Option<AddErrorView> {
    if !m.allowed_port_ranges.no_duplicates() || !m.denied_port_ranges.no_duplicates() {
        Some(AddErrorView::NotUnique)
    } else if has_overlap(m.allowed_port_ranges) || has_overlap(m.denied_port_ranges) {
        Some(AddErrorView::Overlaps)
    } else if shares(m.allowed_port_ranges, m.denied_port_ranges) {
        Some(AddErrorView::BothAllowedAndDenied)
    } else if meets_across(m.allowed_port_ranges, m.denied_port_ranges) {
        Some(AddErrorView::Overlaps)
    } else {
        None
    }
}

pub open spec fn ip_error(m: AclModel) -> Option<AddErrorView> {
    if !all_well_formed(m.allowed_ip_ranges) || !all_well_formed(m.denied_ip_ranges) {
        Some(AddErrorView::InvalidEntity)
    } else if !m.allowed_ip_ranges.no_duplicates() || !m.denied_ip_ranges.no_duplicates() {
        Some(AddErrorView::NotUnique)
    } else if has_overlap(m.allowed_ip_ranges) || has_overlap(m.denied_ip_ranges) {
        Some(AddErrorView::Overlaps)
    } else if shares(m.allowed_ip_ranges, m.denied_ip_ranges) {
        Some(AddErrorView::BothAllowedAndDenied)
    } else if meets_across(m.allowed_ip_ranges, m.denied_ip_ranges) {
        Some(AddErrorView::Overlaps)
    } else {
        None
    }
}

pub open spec fn dns_error(m: AclModel) -> Option<AddErrorView> {
    if !keys_of(m.static_dns_mapping).no_duplicates() {
        Some(AddErrorView::NotUnique)
    } else if !all_valid_hosts(keys_of(m.static_dns_mapping)) {
        Some(AddErrorView::InvalidEntity)
    } else {
        None
    }
}

pub open spec fn header_error(m: AclModel) -> Option<AddErrorView> {
    if !keys_of(m.allowed_headers).no_duplicates() || !keys_of(m.denied_headers).no_duplicates() {
        Some(AddErrorView::NotUnique)
    } else if shares(keys_of(m.allowed_headers), keys_of(m.denied_headers)) {
        Some(AddErrorView::BothAllowedAndDenied)
    } else {
        None
    }
}

/// Some template of `paths` is covered by `templates`.
pub open spec fn any_hit(paths: Seq<Seq<char>>, templates: Seq<Seq<char>>) -> bool {
    exists|i: int| 0 <= i < paths.len() && path_hit(templates, #[trigger] paths[i])
}

pub open spec fn url_path_error(m: AclModel) -> Option<AddErrorView> {
    if !m.allowed_url_paths.no_duplicates() || !m.denied_url_paths.no_duplicates() {
        Some(AddErrorView::NotUnique)
    } else if !templates_accepted(m.allowed_url_paths) || !templates_accepted(m.denied_url_paths) {
        Some(AddErrorView::InvalidEntity)
    } else if any_hit(m.allowed_url_paths, m.denied_url_paths) || any_hit(
        m.denied_url_paths,
        m.allowed_url_paths,
    ) {
        Some(AddErrorView::BothAllowedAndDenied)
    } else {
        None
    }
}

/// The first error of a configuration, checked dimension by dimension:
/// methods, hosts, ports, IPs, static DNS mappings, headers, URL paths.
pub open spec fn validation_error(m: AclModel) -> Option<AddErrorView> {
    if method_error(m) is Some {
        method_error(m)
    } else if host_error(m) is Some {
        host_error(m)
    } else if port_error(m) is Some {
        port_error(m)
    } else if ip_error(m) is Some {
        ip_error(m)
    } else if dns_error(m) is Some {
        dns_error(m)
    } else if header_error(m) is Some {
        header_error(m)
    } else {
        url_path_error(m)
    }
}

/// The outcome of a check, as a view.
pub open spec fn check_outcome(r: Result<(), AddError>) -> Option<AddErrorView> {
    match r {
        Ok(_) => None,
        Err(e) => Some(e@),
    }
}

fn shares_names<T: Named, U: Named>(items: &Vec<T>, others: &Vec<U>) -> (r: bool)
    ensures
        r == shares(names_of(items@), names_of(others@)),
{
    match first_shared_name(items, others) {
        Some(i) => true,
        None => false,
    }
}

fn shares_ranges<T: crate::ranges::Interval>(items: &Vec<T>, others: &Vec<T>) -> (r: bool)
    ensures
        r == shares(items@, others@),
{
    match first_shared_range(items.as_slice(), others.as_slice()) {
        Some(i) => true,
        None => false,
    }
}

fn all_hosts_valid<T: Named>(hosts: &Vec<T>) -> (r: bool)
    ensures
        r == all_valid_hosts(names_of(hosts@)),
{
    let mut i: usize = 0;
    while i < hosts.len()
        invariant
            i <= hosts@.len(),
            forall|k: int| 0 <= k < i ==> host_is_valid(#[trigger] names_of(hosts@)[k]),
        decreases hosts@.len() - i,
    {
        proof {
            assert(names_of(hosts@)[i as int] == hosts@[i as int].name());
        }
        if !is_valid_host(hosts[i].name_str()) {
            return false;
        }
        i = i + 1;
    }
    true
}

fn all_ranges_well_formed(ranges: &Vec<IpRange>) -> (r: bool)
    ensures
        r == all_well_formed(ranges@),
{
    let mut i: usize = 0;
    while i < ranges.len()
        invariant
            i <= ranges@.len(),
            forall|k: int| 0 <= k < i ==> (#[trigger] ranges@[k]).well_formed(),
        decreases ranges@.len() - i,
    {
        if validate_ip_range(ranges[i]).is_none() {
            return false;
        }
        i = i + 1;
    }
    true
}

/// Whether some template of `paths` is covered by `templates`, which compile
/// into `router`.
fn any_path_hit(paths: &Vec<String>, templates: &Vec<String>, router: &Router<()>) -> (r: bool)
    requires
        templates_accepted(names_of(templates@)),
        router_routes(*router) == names_of(templates@),
    ensures
        r == any_hit(names_of(paths@), names_of(templates@)),
{
    let mut i: usize = 0;
    while i < paths.len()
        invariant
            templates_accepted(names_of(templates@)),
            router_routes(*router) == names_of(templates@),
            i <= paths@.len(),
            forall|k: int|
                0 <= k < i ==> !path_hit(names_of(templates@), #[trigger] names_of(paths@)[k]),
        decreases paths@.len() - i,
    {
        proof {
            assert(names_of(paths@)[i as int] == paths@[i as int]@);
        }
        if crate::lists::contains_name(templates, paths[i].as_str()) || router_at(
            router,
            paths[i].as_str(),
        ) {
            return true;
        }
        i = i + 1;
    }
    false
}

impl HttpAclBuilder {
    fn check_methods(&self) -> (r: Result<(), AddError>)
        ensures
            check_outcome(r) == method_error(self@),
    {
        if !names_unique(&self.allowed_methods) {
            return Err(AddError::NotUnique("Allowed methods must be unique.".to_owned()));
        }
        if !names_unique(&self.denied_methods) {
            return Err(AddError::NotUnique("Denied methods must be unique.".to_owned()));
        }
        if shares_names(&self.allowed_methods, &self.denied_methods) {
            return Err(
                AddError::BothAllowedAndDenied("A method is both allowed and denied.".to_owned()),
            );
        }
        Ok(())
    }

    fn check_hosts(&self) -> (r: Result<(), AddError>)
        ensures
            check_outcome(r) == host_error(self@),
    {
        if !names_unique(&self.allowed_hosts) {
            return Err(AddError::NotUnique("Allowed hosts must be unique.".to_owned()));
        }
        if !names_unique(&self.denied_hosts) {
            return Err(AddError::NotUnique("Denied hosts must be unique.".to_owned()));
        }
        if !all_hosts_valid(&self.allowed_hosts) || !all_hosts_valid(&self.denied_hosts) {
            return Err(AddError::InvalidEntity("A host is invalid.".to_owned()));
        }
        if shares_names(&self.allowed_hosts, &self.denied_hosts) {
            return Err(
                AddError::BothAllowedAndDenied("A host is both allowed and denied.".to_owned()),
            );
        }
        Ok(())
    }

    fn check_port_ranges(&self) -> (r: Result<(), AddError>)
        ensures
            check_outcome(r) == port_error(self@),
    {
        if !has_unique_elements(self.allowed_port_ranges.as_slice()) {
            return Err(AddError::NotUnique("Allowed port ranges must be unique.".to_owned()));
        }
        if !has_unique_elements(self.denied_port_ranges.as_slice()) {
            return Err(AddError::NotUnique("Denied port ranges must be unique.".to_owned()));
        }
        if has_overlapping_ranges(self.allowed_port_ranges.as_slice()) {
            return Err(AddError::Overlaps("Allowed port ranges must not overlap.".to_owned()));
        }
        if has_overlapping_ranges(self.denied_port_ranges.as_slice()) {
            return Err(AddError::Overlaps("Denied port ranges must not overlap.".to_owned()));
        }
        if shares_ranges(&self.allowed_port_ranges, &self.denied_port_ranges) {
            return Err(
                AddError::BothAllowedAndDenied(
                    "A port range is both allowed and denied.".to_owned(),
                ),
            );
        }
        if any_overlaps_with(
            self.allowed_port_ranges.as_slice(),
            self.denied_port_ranges.as_slice(),
        ) {
            return Err(
                AddError::Overlaps("An allowed port range overlaps a denied one.".to_owned()),
            );
        }
        Ok(())
    }

    fn check_ip_ranges(&self) -> (r: Result<(), AddError>)
        ensures
            check_outcome(r) == ip_error(self@),
    {
        if !all_ranges_well_formed(&self.allowed_ip_ranges) || !all_ranges_well_formed(
            &self.denied_ip_ranges,
        ) {
            return Err(AddError::InvalidEntity("Invalid IP range".to_owned()));
        }
        if !has_unique_elements(self.allowed_ip_ranges.as_slice()) {
            return Err(AddError::NotUnique("Allowed IP ranges must be unique.".to_owned()));
        }
        if !has_unique_elements(self.denied_ip_ranges.as_slice()) {
            return Err(AddError::NotUnique("Denied IP ranges must be unique.".to_owned()));
        }
        if has_overlapping_ranges(self.allowed_ip_ranges.as_slice()) {
            return Err(AddError::Overlaps("Allowed IP ranges must not overlap.".to_owned()));
        }
        if has_overlapping_ranges(self.denied_ip_ranges.as_slice()) {
            return Err(AddError::Overlaps("Denied IP ranges must not overlap.".to_owned()));
        }
        if shares_ranges(&self.allowed_ip_ranges, &self.denied_ip_ranges) {
            return Err(
                AddError::BothAllowedAndDenied("An IP range is both allowed and denied.".to_owned()),
            );
        }
        if any_overlaps_with(self.allowed_ip_ranges.as_slice(), self.denied_ip_ranges.as_slice()) {
            return Err(AddError::Overlaps("An allowed IP range overlaps a denied one.".to_owned()));
        }
        Ok(())
    }

    fn check_static_dns_mapping(&self) -> (r: Result<(), AddError>)
        ensures
            check_outcome(r) == dns_error(self@),
    {
        proof {
            crate::builder::lemma_dns_keys(self.static_dns_mapping@);
        }
        if !names_unique(&self.static_dns_mapping) {
            return Err(AddError::NotUnique("Static DNS mapping must be unique.".to_owned()));
        }
        if !all_hosts_valid(&self.static_dns_mapping) {
            return Err(AddError::InvalidEntity("A mapped host is invalid.".to_owned()));
        }
        Ok(())
    }

    fn check_headers(&self) -> (r: Result<(), AddError>)
        ensures
            check_outcome(r) == header_error(self@),
    {
        proof {
            assert(keys_of(header_rules(self.allowed_headers@)) =~= names_of(
                self.allowed_headers@,
            ));
            assert(keys_of(header_rules(self.denied_headers@)) =~= names_of(self.denied_headers@));
        }
        if !names_unique(&self.allowed_headers) {
            return Err(AddError::NotUnique("Allowed headers must be unique.".to_owned()));
        }
        if !names_unique(&self.denied_headers) {
            return Err(AddError::NotUnique("Denied headers must be unique.".to_owned()));
        }
        if shares_names(&self.allowed_headers, &self.denied_headers) {
            return Err(
                AddError::BothAllowedAndDenied("A header is both allowed and denied.".to_owned()),
            );
        }
        Ok(())
    }

    /// Checks the URL path templates and compiles them into the allow-router
    /// and the deny-router.
    fn compile_url_paths(&self) -> (r: Result<(Router<()>, Router<()>), AddError>)
        ensures
            match r {
                Ok((allowed, denied)) => url_path_error(self@) is None && router_routes(allowed)
                    == self@.allowed_url_paths && router_routes(denied)
                    == self@.denied_url_paths,
                Err(e) => url_path_error(self@) == Some(e@),
            },
    {
        if !names_unique(&self.allowed_url_paths) {
            return Err(AddError::NotUnique("Allowed URL paths must be unique.".to_owned()));
        }
        if !names_unique(&self.denied_url_paths) {
            return Err(AddError::NotUnique("Denied URL paths must be unique.".to_owned()));
        }
        let allowed = match build_router(&self.allowed_url_paths) {
            Some(router) => router,
            None => {
                return Err(AddError::InvalidEntity("Invalid allowed URL path".to_owned()));
            },
        };
        let denied = match build_router(&self.denied_url_paths) {
            Some(router) => router,
            None => {
                return Err(AddError::InvalidEntity("Invalid denied URL path".to_owned()));
            },
        };
        if any_path_hit(&self.allowed_url_paths, &self.denied_url_paths, &denied) || any_path_hit(
            &self.denied_url_paths,
            &self.allowed_url_paths,
            &allowed,
        ) {
            return Err(
                AddError::BothAllowedAndDenied("A URL path is both allowed and denied.".to_owned()),
            );
        }
        Ok((allowed, denied))
    }

    /// Builds the [`HttpAcl`] without validation. URL path templates that do
    /// not compile leave their router empty.
    pub fn build(self) -> (r: HttpAcl)
        ensures
            r@ == (AclModel {
                allowed_url_paths: if templates_accepted(self@.allowed_url_paths) {
                    self@.allowed_url_paths
                } else {
                    Seq::empty()
                },
                denied_url_paths: if templates_accepted(self@.denied_url_paths) {
                    self@.denied_url_paths
                } else {
                    Seq::empty()
                },
                ..self@
            }),
            !r.has_validator(),
    {
        self.build_full(None)
    }

    /// Builds the [`HttpAcl`] without validation, with a request check.
    pub fn build_full(self, validate_fn: Option<ValidateFn>) -> (r: HttpAcl)
        ensures
            r@ == (AclModel {
                allowed_url_paths: if templates_accepted(self@.allowed_url_paths) {
                    self@.allowed_url_paths
                } else {
                    Seq::empty()
                },
                denied_url_paths: if templates_accepted(self@.denied_url_paths) {
                    self@.denied_url_paths
                } else {
                    Seq::empty()
                },
                ..self@
            }),
            r.has_validator() == validate_fn is Some,
    {
        let allowed = match build_router(&self.allowed_url_paths) {
            Some(router) => router,
            None => empty_router(),
        };
        let denied = match build_router(&self.denied_url_paths) {
            Some(router) => router,
            None => empty_router(),
        };
        HttpAcl::assemble(self, allowed, denied, validate_fn)
    }

    /// Builds the [`HttpAcl`] and returns an error if the configuration is
    /// invalid, with a request check.
    pub fn try_build_full(self, validate_fn: Option<ValidateFn>) -> (r: Result<HttpAcl, AddError>)
        ensures
            match r {
                Ok(acl) => validation_error(self@) is None && acl@ == self@ && acl.has_validator()
                    == validate_fn is Some,
                Err(e) => validation_error(self@) == Some(e@),
            },
    {
        if let Err(e) = self.check_methods() {
            return Err(e);
        }
        if let Err(e) = self.check_hosts() {
            return Err(e);
        }
        if let Err(e) = self.check_port_ranges() {
            return Err(e);
        }
        if let Err(e) = self.check_ip_ranges() {
            return Err(e);
        }
        if let Err(e) = self.check_static_dns_mapping() {
            return Err(e);
        }
        if let Err(e) = self.check_headers() {
            return Err(e);
        }
        match self.compile_url_paths() {
            Ok((allowed, denied)) => {
                let acl = HttpAcl::assemble(self, allowed, denied, validate_fn);
                Ok(acl)
            },
            Err(e) => Err(e),
        }
    }

    /// Builds the [`HttpAcl`] and returns an error if the configuration is
    /// invalid. Deserialized configurations go through here to compile their
    /// URL path routers.
    pub fn try_build(self) -> (r: Result<HttpAcl, AddError>)
        ensures
            match r {
                Ok(acl) => validation_error(self@) is None && acl@ == self@ && !acl.has_validator(),
                Err(e) => validation_error(self@) == Some(e@),
            },
    {
        self.try_build_full(None)
    }
}

} // verus!
