//! Route tables of URL path templates, held in matchit routers.
//!
//! A template has literal segments, named parameters (`{id}`) and a trailing
//! catch-all (`{*rest}`). What a router matches is matchit's to decide; the
//! library speaks of it through the names below.

use matchit::Router;
use vstd::prelude::*;

use crate::text::names_of;

verus! {

#[verifier::external_type_specification]
#[verifier::external_body]
#[verifier::reject_recursive_types(T)]
pub struct ExRouter<T>(Router<T>);

/// The route templates a router holds, in the order they were inserted.
pub uninterp spec fn router_routes(router: Router<()>) -> Seq<Seq<char>>;

/// Whether a router that holds `routes` takes `template` as one more route.
pub uninterp spec fn route_accepted(routes: Seq<Seq<char>>, template: Seq<char>) -> bool;

/// Whether a router that holds `routes` matches `path`.
pub uninterp spec fn route_found(routes: Seq<Seq<char>>, path: Seq<char>) -> bool;

/// Relies on matchit::Router::new: a new router holds no route.
#[verifier::external_body]
pub(crate) fn empty_router() -> (r: Router<()>)
    ensures
        router_routes(r) == Seq::<Seq<char>>::empty(),
{
    Router::new()
}

/// The number of `{` characters in a text. Each route parameter of a template
/// opens with one.
pub open spec fn brace_count(s: Seq<char>) -> nat
    decreases s.len(),
{
    if s.len() == 0 {
        0
    } else {
        brace_count(s.drop_last()) + if s.last() == '{' {
            1nat
        } else {
            0nat
        }
    }
}

/// A router panics on a template with 26 named parameters; a template with at
/// most 25 opening braces has fewer.
pub open spec fn template_fits(template: Seq<char>) -> bool {
    brace_count(template) <= 25
}

/// Returns whether the template has at most 25 opening braces.
pub fn fits_router(template: &str) -> (r: bool)
    ensures
        r == template_fits(template@),
{
    let n = template.unicode_len();
    let mut count: usize = 0;
    let mut i: usize = 0;
    while i < n
        invariant
            n == template@.len(),
            i <= n,
            count == brace_count(template@.take(i as int)),
            count <= i,
        decreases n - i,
    {
        proof {
            assert(template@.take(i as int + 1).drop_last() == template@.take(i as int));
        }
        if template.get_char(i) == '{' {
            count = count + 1;
        }
        i = i + 1;
    }
    proof {
        assert(template@.take(n as int) == template@);
    }
    count <= 25
}

/// Relies on matchit::Router::insert: whether the template is taken depends on
/// the routes already held and the template; once taken it is held after them.
/// After a refusal nothing is known of the router. Insertion panics once a
/// template has a 26th named parameter, which `requires` leaves out.
#[verifier::external_body]
pub(crate) fn router_insert(router: &mut Router<()>, template: &str) -> (r: bool)
    requires
        template_fits(template@),
    ensures
        r == route_accepted(router_routes(*old(router)), template@),
        r ==> router_routes(*final(router)) == router_routes(*old(router)).push(template@),
{
    router.insert(template, ()).is_ok()
}

/// A router that holds `routes` matches `path`; one that holds no route
/// matches nothing.
pub open spec fn routes_match(routes: Seq<Seq<char>>, path: Seq<char>) -> bool {
    routes.len() > 0 && route_found(routes, path)
}

/// Relies on matchit::Router::at: whether a path matches depends on the routes
/// held and the path, and a router without routes matches no path.
#[verifier::external_body]
pub(crate) fn router_at(router: &Router<()>, path: &str) -> (r: bool)
    ensures
        r == (router_routes(*router).len() > 0 && route_found(router_routes(*router), path@)),
{
    router.at(path).is_ok()
}

/// Every template of `templates` fits a router and is taken when they are
/// inserted in order into an empty router.
pub open spec fn templates_accepted(templates: Seq<Seq<char>>) -> bool
    decreases templates.len(),
{
    if templates.len() == 0 {
        true
    } else {
        templates_accepted(templates.drop_last()) && template_fits(templates.last())
            && route_accepted(templates.drop_last(), templates.last())
    }
}

/// Builds a router from the templates, inserted in order; `None` when the
/// router refuses one of them.
pub fn build_router(templates: &Vec<String>) -> (r: Option<Router<()>>)
    ensures
        r is Some <==> templates_accepted(names_of(templates@)),
        r matches Some(router) ==> router_routes(router) == names_of(templates@),
{
    let mut router = empty_router();
    let mut i: usize = 0;
    while i < templates.len()
        invariant
            i <= templates@.len(),
            router_routes(router) == names_of(templates@).take(i as int),
            templates_accepted(names_of(templates@).take(i as int)),
        decreases templates@.len() - i,
    {
        proof {
            let all = names_of(templates@);
            assert(all.take(i as int + 1).drop_last() == all.take(i as int));
        }
        if !fits_router(templates[i].as_str()) || !router_insert(&mut router, templates[i].as_str()) {
            proof {
                let all = names_of(templates@);
                if templates_accepted(all) {
                    lemma_accepted_prefix(all, i as int + 1);
                    assert(all.take(i as int + 1).last() == all[i as int]);
                }
            }
            return None;
        }
        proof {
            let all = names_of(templates@);
            assert(all.take(i as int).push(all[i as int]) == all.take(i as int + 1));
        }
        i = i + 1;
    }
    proof {
        assert(names_of(templates@).take(templates@.len() as int) == names_of(templates@));
    }
    Some(router)
}

/// Acceptance of a sequence implies acceptance of each of its prefixes.
proof fn lemma_accepted_prefix(templates: Seq<Seq<char>>, n: int)
    requires
        0 <= n <= templates.len(),
        templates_accepted(templates),
    ensures
        templates_accepted(templates.take(n)),
    decreases templates.len() - n,
{
    if n < templates.len() {
        assert(templates.drop_last().take(n) == templates.take(n));
        lemma_accepted_prefix(templates.drop_last(), n);
    } else {
        assert(templates.take(n) == templates);
    }
}

} // verus!
