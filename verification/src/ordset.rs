//! An insertion-ordered set of strings.
//!
//! The two output lists of the analysis (named exports and re-export
//! specifiers) are duplicate-free and keep the order of first insertion.
//! `StrSet` realizes that contract directly over a vector.

use vstd::prelude::*;

verus! {

/// The character sequences of the strings in `v`, in order.
pub open spec fn views_of(v: Seq<String>) -> Seq<Seq<char>> {
    v.map_values(|s: String| s@)
}

/// Compares two string slices by their character sequences.
pub fn str_eq(a: &str, b: &str) -> (r: bool)
    ensures
        r == (a@ == b@),
{
    let x: String = a.to_owned();
    let y: String = b.to_owned();
    x == y
}

/// An insertion-ordered set of strings: each character sequence occurs at
/// most once, at the position of its first insertion.
pub struct StrSet {
    items: Vec<String>,
}

impl View for StrSet {
    type V = Seq<Seq<char>>;

    closed spec fn view(&self) -> Seq<Seq<char>> {
        views_of(self.items@)
    }
}

impl StrSet {
    pub fn new() -> (r: StrSet)
        ensures
            r@ == Seq::<Seq<char>>::empty(),
    {
        let r = StrSet { items: Vec::new() };
        proof {
            assert(r@ =~= Seq::<Seq<char>>::empty());
        }
        r
    }

    pub fn contains(&self, x: &str) -> (r: bool)
        ensures
            r == self@.contains(x@),
    {
        let mut i: usize = 0;
        while i < self.items.len()
            invariant
                0 <= i <= self.items.len(),
                forall|j: int| 0 <= j < i ==> self.items@[j]@ != x@,
            decreases self.items.len() - i,
        {
            if str_eq(self.items[i].as_str(), x) {
                proof {
                    assert(self@[i as int] == x@);
                }
                return true;
            }
            i += 1;
        }
        proof {
            assert(forall|j: int| 0 <= j < self@.len() ==> self@[j] == self.items@[j]@);
        }
        false
    }

    pub fn insert(&mut self, x: &str)
        ensures
            final(self)@ == crate::ins(old(self)@, x@),
    {
        if !self.contains(x) {
            let owned: String = x.to_owned();
            self.items.push(owned);
            proof {
                assert(self@ =~= old(self)@.push(x@));
            }
        }
    }

    pub fn into_vec(self) -> (r: Vec<String>)
        ensures
            views_of(r@) == self@,
    {
        self.items
    }
}

} // verus!
