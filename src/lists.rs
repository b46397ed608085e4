//! Searches and edits over the lists a policy is made of.

use vstd::prelude::*;

use crate::ranges::Interval;
use crate::text::{names_of, str_eq, Named};

verus! {

/// `i` is the first position of `xs` whose element satisfies `p`.
pub open spec fn is_first_where<A>(xs: Seq<A>, p: spec_fn(A) -> bool, i: int) -> bool {
    0 <= i < xs.len() && p(xs[i]) && forall|k: int| 0 <= k < i ==> !p(#[trigger] xs[k])
}

/// The first position of `xs` whose element satisfies `p`, if any.
pub open spec fn first_where<A>(xs: Seq<A>, p: spec_fn(A) -> bool) -> Option<int> {
    if exists|i: int| is_first_where(xs, p, i) {
        Some(choose|i: int| is_first_where(xs, p, i))
    } else {
        None
    }
}

/// Holds of the members of `ys`.
pub open spec fn member_of<A>(ys: Seq<A>) -> spec_fn(A) -> bool {
    |x: A| ys.contains(x)
}

pub proof fn lemma_first_where_at<A>(xs: Seq<A>, p: spec_fn(A) -> bool, i: int)
    requires
        is_first_where(xs, p, i),
    ensures
        first_where(xs, p) == Some(i),
{
    let j = choose|j: int| is_first_where(xs, p, j);
    assert(is_first_where(xs, p, j));
    if j < i {
        assert(!p(xs[j]));
    } else if i < j {
        assert(!p(xs[i]));
    }
}

pub proof fn lemma_first_where_none<A>(xs: Seq<A>, p: spec_fn(A) -> bool)
    requires
        forall|k: int| 0 <= k < xs.len() ==> !p(#[trigger] xs[k]),
    ensures
        first_where(xs, p) is None,
{
}

/// Holds of the entries not named `name`.
pub open spec fn not_named<T: Named>(name: Seq<char>) -> spec_fn(T) -> bool {
    |x: T| x.name() != name
}

/// Holds of the values other than `x`.
pub open spec fn other_than<T>(x: T) -> spec_fn(T) -> bool {
    |y: T| y != x
}

/// Returns whether `items` holds an entry named `name`.
pub fn contains_name<T: Named>(items: &Vec<T>, name: &str) -> (r: bool)
    ensures
        r == names_of(items@).contains(name@),
{
    let mut i: usize = 0;
    while i < items.len()
        invariant
            i <= items@.len(),
            forall|k: int| 0 <= k < i ==> items@[k].name() != name@,
        decreases items@.len() - i,
    {
        if str_eq(items[i].name_str(), name) {
            proof {
                assert(names_of(items@)[i as int] == name@);
            }
            return true;
        }
        i = i + 1;
    }
    proof {
        assert forall|k: int| 0 <= k < names_of(items@).len() implies names_of(items@)[k]
            != name@ by {
            assert(names_of(items@)[k] == items@[k].name());
        }
    }
    false
}

/// Returns whether no two entries of `items` have the same name.
pub fn names_unique<T: Named>(items: &Vec<T>) -> (r: bool)
    ensures
        r == names_of(items@).no_duplicates(),
{
    let ghost names = names_of(items@);
    let mut i: usize = 0;
    while i < items.len()
        invariant
            names == names_of(items@),
            i <= items@.len(),
            forall|a: int, b: int| 0 <= a < b < i ==> names[a] != names[b],
        decreases items@.len() - i,
    {
        let mut j: usize = 0;
        while j < i
            invariant
                names == names_of(items@),
                i < items@.len(),
                j <= i,
                forall|a: int, b: int| 0 <= a < b < i ==> names[a] != names[b],
                forall|a: int| 0 <= a < j ==> names[a] != names[i as int],
            decreases i - j,
        {
            if str_eq(items[j].name_str(), items[i].name_str()) {
                proof {
                    assert(names[j as int] == items@[j as int].name());
                    assert(names[i as int] == items@[i as int].name());
                }
                return false;
            }
            j = j + 1;
        }
        i = i + 1;
    }
    true
}

/// The position of the first entry of `items` whose name `others` holds.
pub fn first_shared_name<T: Named, U: Named>(items: &Vec<T>, others: &Vec<U>) -> (r: Option<usize>)
    ensures
        match r {
            Some(i) => first_where(names_of(items@), member_of(names_of(others@))) == Some(
                i as int,
            ),
            None => first_where(names_of(items@), member_of(names_of(others@))) is None,
        },
        match r {
            Some(i) => i < items@.len() && names_of(others@).contains(names_of(items@)[i as int])
                && forall|k: int|
                0 <= k < i ==> !names_of(others@).contains(#[trigger] names_of(items@)[k]),
            None => forall|k: int|
                0 <= k < items@.len() ==> !names_of(others@).contains(
                    #[trigger] names_of(items@)[k],
                ),
        },
{
    let mut i: usize = 0;
    while i < items.len()
        invariant
            i <= items@.len(),
            forall|k: int|
                0 <= k < i ==> !names_of(others@).contains(#[trigger] names_of(items@)[k]),
        decreases items@.len() - i,
    {
        if contains_name(others, items[i].name_str()) {
            proof {
                let p = member_of(names_of(others@));
                assert forall|k: int| 0 <= k < i implies !p(#[trigger] names_of(items@)[k]) by {}
                lemma_first_where_at(names_of(items@), p, i as int);
            }
            return Some(i);
        }
        i = i + 1;
    }
    proof {
        let p = member_of(names_of(others@));
        assert forall|k: int| 0 <= k < names_of(items@).len() implies !p(
            #[trigger] names_of(items@)[k],
        ) by {}
        lemma_first_where_none(names_of(items@), p);
    }
    None
}

/// The entries of `items` not named `name`, in their order.
pub fn without_name<T: Named>(items: Vec<T>, name: &str) -> (r: Vec<T>)
    ensures
        r@ == items@.filter(not_named(name@)),
{
    let ghost keep = not_named(name@);
    let ghost orig = items@;
    let mut items = items;
    let mut i: usize = 0;
    let ghost mut j: int = 0;
    while i < items.len()
        invariant
            keep == not_named::<T>(name@),
            0 <= j <= orig.len(),
            i <= items@.len(),
            items@.subrange(0, i as int) == orig.take(j).filter(keep),
            items@.subrange(i as int, items@.len() as int) == orig.subrange(j, orig.len() as int),
        decreases items@.len() - i,
    {
        proof {
            assert(orig.subrange(j, orig.len() as int).len() == items@.len() - i);
            assert(j < orig.len());
            assert(items@[i as int] == orig.subrange(j, orig.len() as int)[0]);
            reveal(Seq::filter);
            assert(orig.take(j + 1).drop_last() == orig.take(j));
            assert(orig.take(j + 1).last() == orig[j]);
        }
        let same = str_eq(items[i].name_str(), name);
        if same {
            let ghost before = items@;
            proof {
                assert(before[i as int] == orig[j]);
                assert(orig[j].name() == name@);
                assert(!keep(orig[j]));
                reveal(Seq::filter);
                assert(orig.take(j + 1).filter(keep) == orig.take(j).filter(keep));
            }
            items.remove(i);
            proof {
                assert(items@.subrange(0, i as int) == before.subrange(0, i as int));
                assert(items@.subrange(i as int, items@.len() as int) == before.subrange(
                    i as int + 1,
                    before.len() as int,
                ));
                assert(orig.subrange(j + 1, orig.len() as int) == orig.subrange(
                    j,
                    orig.len() as int,
                ).subrange(1, orig.len() - j));
                j = j + 1;
            }
        } else {
            proof {
                assert(items@.subrange(0, i as int + 1) == items@.subrange(0, i as int).push(
                    items@[i as int],
                ));
                assert(items@.subrange(i as int + 1, items@.len() as int) == items@.subrange(
                    i as int,
                    items@.len() as int,
                ).subrange(1, items@.len() - i));
                assert(orig.subrange(j + 1, orig.len() as int) == orig.subrange(
                    j,
                    orig.len() as int,
                ).subrange(1, orig.len() - j));
                assert(keep(orig[j]));
                reveal(Seq::filter);
                assert(orig.take(j + 1).filter(keep) == orig.take(j).filter(keep).push(orig[j]));
                j = j + 1;
            }
            i = i + 1;
        }
    }
    proof {
        assert(orig.subrange(j, orig.len() as int).len() == 0);
        assert(orig.take(j) == orig);
        assert(items@ == items@.subrange(0, i as int));
    }
    items
}

/// Returns whether `items` holds `x`.
pub fn contains_range<T: Interval>(items: &[T], x: &T) -> (r: bool)
    ensures
        r == items@.contains(*x),
{
    let mut i: usize = 0;
    while i < items.len()
        invariant
            i <= items@.len(),
            forall|k: int| 0 <= k < i ==> items@[k] != *x,
        decreases items@.len() - i,
    {
        if items[i].same_as(x) {
            return true;
        }
        i = i + 1;
    }
    false
}

/// Returns whether no two positions of `items` hold the same range.
pub fn has_unique_elements<T: Interval>(items: &[T]) -> (r: bool)
    ensures
        r == items@.no_duplicates(),
{
    let mut i: usize = 0;
    while i < items.len()
        invariant
            i <= items@.len(),
            forall|a: int, b: int| 0 <= a < b < i ==> items@[a] != items@[b],
        decreases items@.len() - i,
    {
        let mut j: usize = 0;
        while j < i
            invariant
                i < items@.len(),
                j <= i,
                forall|a: int, b: int| 0 <= a < b < i ==> items@[a] != items@[b],
                forall|a: int| 0 <= a < j ==> items@[a] != items@[i as int],
            decreases i - j,
        {
            if items[j].same_as(&items[i]) {
                return false;
            }
            j = j + 1;
        }
        i = i + 1;
    }
    true
}

/// The position of the first range of `items` that `others` holds too.
pub fn first_shared_range<T: Interval>(items: &[T], others: &[T]) -> (r: Option<usize>)
    ensures
        match r {
            Some(i) => first_where(items@, member_of(others@)) == Some(i as int),
            None => first_where(items@, member_of(others@)) is None,
        },
        match r {
            Some(i) => i < items@.len() && others@.contains(items@[i as int]) && forall|k: int|
                0 <= k < i ==> !others@.contains(#[trigger] items@[k]),
            None => forall|k: int| 0 <= k < items@.len() ==> !others@.contains(#[trigger] items@[k]),
        },
{
    let mut i: usize = 0;
    while i < items.len()
        invariant
            i <= items@.len(),
            forall|k: int| 0 <= k < i ==> !others@.contains(#[trigger] items@[k]),
        decreases items@.len() - i,
    {
        if contains_range(others, &items[i]) {
            proof {
                let p = member_of(others@);
                assert forall|k: int| 0 <= k < i implies !p(#[trigger] items@[k]) by {}
                lemma_first_where_at(items@, p, i as int);
            }
            return Some(i);
        }
        i = i + 1;
    }
    proof {
        let p = member_of(others@);
        assert forall|k: int| 0 <= k < items@.len() implies !p(#[trigger] items@[k]) by {}
        lemma_first_where_none(items@, p);
    }
    None
}

/// Returns whether a range of `items` intersects a range of `others`.
pub fn any_overlaps_with<T: Interval>(items: &[T], others: &[T]) -> (r: bool)
    ensures
        r == exists|i: int|
            0 <= i < items@.len() && crate::ranges::overlaps_any(others@, #[trigger] items@[i], None),
{
    let mut i: usize = 0;
    while i < items.len()
        invariant
            i <= items@.len(),
            forall|k: int|
                0 <= k < i ==> !crate::ranges::overlaps_any(others@, #[trigger] items@[k], None),
        decreases items@.len() - i,
    {
        if crate::ranges::range_overlaps(others, &items[i], None) {
            return true;
        }
        i = i + 1;
    }
    false
}

/// The ranges of `items` other than `x`, in their order.
pub fn without_range<T: Interval>(items: Vec<T>, x: &T) -> (r: Vec<T>)
    ensures
        r@ == items@.filter(other_than(*x)),
{
    let ghost keep = other_than(*x);
    let ghost orig = items@;
    let mut items = items;
    let mut i: usize = 0;
    let ghost mut j: int = 0;
    while i < items.len()
        invariant
            keep == other_than(*x),
            0 <= j <= orig.len(),
            i <= items@.len(),
            items@.subrange(0, i as int) == orig.take(j).filter(keep),
            items@.subrange(i as int, items@.len() as int) == orig.subrange(j, orig.len() as int),
        decreases items@.len() - i,
    {
        proof {
            assert(orig.subrange(j, orig.len() as int).len() == items@.len() - i);
            assert(j < orig.len());
            assert(items@[i as int] == orig.subrange(j, orig.len() as int)[0]);
            reveal(Seq::filter);
            assert(orig.take(j + 1).drop_last() == orig.take(j));
            assert(orig.take(j + 1).last() == orig[j]);
        }
        if items[i].same_as(x) {
            let ghost before = items@;
            proof {
                assert(before[i as int] == orig[j]);
                assert(!keep(orig[j]));
                reveal(Seq::filter);
                assert(orig.take(j + 1).filter(keep) == orig.take(j).filter(keep));
            }
            items.remove(i);
            proof {
                assert(items@.subrange(0, i as int) == before.subrange(0, i as int));
                assert(items@.subrange(i as int, items@.len() as int) == before.subrange(
                    i as int + 1,
                    before.len() as int,
                ));
                assert(orig.subrange(j + 1, orig.len() as int) == orig.subrange(
                    j,
                    orig.len() as int,
                ).subrange(1, orig.len() - j));
                j = j + 1;
            }
        } else {
            proof {
                assert(items@.subrange(0, i as int + 1) == items@.subrange(0, i as int).push(
                    items@[i as int],
                ));
                assert(items@.subrange(i as int + 1, items@.len() as int) == items@.subrange(
                    i as int,
                    items@.len() as int,
                ).subrange(1, items@.len() - i));
                assert(orig.subrange(j + 1, orig.len() as int) == orig.subrange(
                    j,
                    orig.len() as int,
                ).subrange(1, orig.len() - j));
                assert(keep(orig[j]));
                reveal(Seq::filter);
                assert(orig.take(j + 1).filter(keep) == orig.take(j).filter(keep).push(orig[j]));
                j = j + 1;
            }
            i = i + 1;
        }
    }
    proof {
        assert(orig.subrange(j, orig.len() as int).len() == 0);
        assert(orig.take(j) == orig);
        assert(items@ == items@.subrange(0, i as int));
    }
    items
}

} // verus!

verus! {

/// The position of the first entry of `items` named `name`.
pub fn find_named<T: Named>(items: &Vec<T>, name: &str) -> (r: Option<usize>)
    ensures
        match r {
            Some(i) => i < items@.len() && items@[i as int].name() == name@ && forall|k: int|
                0 <= k < i ==> (#[trigger] items@[k]).name() != name@,
            None => forall|k: int| 0 <= k < items@.len() ==> (#[trigger] items@[k]).name() != name@,
        },
{
    let mut i: usize = 0;
    while i < items.len()
        invariant
            i <= items@.len(),
            forall|k: int| 0 <= k < i ==> (#[trigger] items@[k]).name() != name@,
        decreases items@.len() - i,
    {
        if str_eq(items[i].name_str(), name) {
            return Some(i);
        }
        i = i + 1;
    }
    None
}

/// Returns whether a range of `ranges` holds `port`.
pub fn port_in_ranges(ranges: &Vec<crate::ranges::PortRange>, port: u16) -> (r: bool)
    ensures
        r == crate::model::in_port_ranges(ranges@, port),
{
    let mut i: usize = 0;
    while i < ranges.len()
        invariant
            i <= ranges@.len(),
            forall|k: int| 0 <= k < i ==> !(#[trigger] ranges@[k]).spec_contains(port),
        decreases ranges@.len() - i,
    {
        if ranges[i].contains(port) {
            return true;
        }
        i = i + 1;
    }
    false
}

/// Returns whether a range of `ranges` holds `ip`.
pub fn ip_in_ranges(ranges: &Vec<crate::ip::IpRange>, ip: &crate::ip::IpAddr) -> (r: bool)
    ensures
        r == crate::model::in_ip_ranges(ranges@, *ip),
{
    let mut i: usize = 0;
    while i < ranges.len()
        invariant
            i <= ranges@.len(),
            forall|k: int| 0 <= k < i ==> !(#[trigger] ranges@[k]).spec_contains(*ip),
        decreases ranges@.len() - i,
    {
        if ranges[i].contains(ip) {
            return true;
        }
        i = i + 1;
    }
    false
}

} // verus!
