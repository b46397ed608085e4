//! Named entries and plain string operations.

use vstd::prelude::*;

verus! {

/// An entry identified by a name: a host, a URL path template, a method, a
/// header rule or a static DNS mapping.
pub trait Named {
    spec fn name(&self) -> Seq<char>;

    fn name_str(&self) -> (r: &str)
        ensures
            r@ == self.name(),
    ;
}

impl Named for String {
    open spec fn name(&self) -> Seq<char> {
        self@
    }

    fn name_str(&self) -> (r: &str) {
        self.as_str()
    }
}

impl<V> Named for (String, V) {
    open spec fn name(&self) -> Seq<char> {
        self.0@
    }

    fn name_str(&self) -> (r: &str) {
        self.0.as_str()
    }
}

/// The names of a list of entries.
pub open spec fn names_of<T: Named>(v: Seq<T>) -> Seq<Seq<char>> {
    v.map_values(|x: T| x.name())
}

/// Returns whether the two strings hold the same characters.
pub fn str_eq(a: &str, b: &str) -> (r: bool)
    ensures
        r == (a@ == b@),
{
    let ua = a.unicode_len();
    let ub = b.unicode_len();
    if ua != ub {
        return false;
    }
    let mut i: usize = 0;
    while i < ua
        invariant
            ua == a@.len(),
            ub == b@.len(),
            ua == ub,
            i <= ua,
            forall|k: int| 0 <= k < i ==> a@[k] == b@[k],
        decreases ua - i,
    {
        if a.get_char(i) != b.get_char(i) {
            return false;
        }
        i = i + 1;
    }
    proof {
        assert(a@ =~= b@);
    }
    true
}

/// The two texts one after the other.
pub(crate) fn concat_str(a: &str, b: &str) -> (r: String)
    ensures
        r@ == a@ + b@,
{
    a.to_owned().concat(b)
}

} // verus!
