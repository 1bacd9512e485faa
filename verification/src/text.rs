//! Text helpers shared by the other modules.

use vstd::prelude::*;
use vstd::std_specs::iter::IteratorSpec;

verus! {

/// The characters of an optional text.
pub open spec fn optional_text(text: Option<String>) -> Option<Seq<char>> {
    match text {
        Some(t) => Some(t@),
        None => None,
    }
}

/// Whether two texts hold the same characters.
pub fn same_text(a: &str, b: &str) -> (same: bool)
    ensures
        same == (a@ == b@),
{
    broadcast use vstd::string::group_string_axioms;

    let mut left = a.chars();
    let mut right = b.chars();
    let ghost mut n: int = 0;
    loop
        invariant
            0 <= n <= a@.len(),
            n <= b@.len(),
            left.remaining() == a@.skip(n),
            right.remaining() == b@.skip(n),
            left.obeys_prophetic_iter_laws(),
            right.obeys_prophetic_iter_laws(),
            a@.take(n) == b@.take(n),
        decreases a@.len() - n,
    {
        let x = left.next();
        let y = right.next();
        match x {
            None => {
                proof {
                    assert(a@.take(n) =~= a@);
                    if y is None {
                        assert(b@.take(n) =~= b@);
                    }
                }
                return y.is_none();
            },
            Some(c) => {
                match y {
                    None => {
                        return false;
                    },
                    Some(d) => {
                        if c != d {
                            assert(a@[n] != b@[n]);
                            return false;
                        }
                        proof {
                            assert(a@.skip(n).drop_first() =~= a@.skip(n + 1));
                            assert(b@.skip(n).drop_first() =~= b@.skip(n + 1));
                            assert(a@.take(n + 1) =~= a@.take(n).push(a@[n]));
                            assert(b@.take(n + 1) =~= b@.take(n).push(b@[n]));
                            n = n + 1;
                        }
                    },
                }
            },
        }
    }
}

} // verus!
