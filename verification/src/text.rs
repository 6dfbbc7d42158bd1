//! The order of `String`s: lexicographic by character.
//!
//! `String`'s `Ord` compares the UTF-8 bytes lexicographically, and UTF-8
//! preserves the order of code points, so it is the lexicographic order of
//! the characters by code point, a proper prefix coming first.

use vstd::prelude::*;

verus! {

/// `a < b` in the order of `String`.
pub open spec fn lex_lt(a: Seq<char>, b: Seq<char>) -> bool
    decreases a.len(),
{
    if a.len() == 0 {
        b.len() > 0
    } else if b.len() == 0 {
        false
    } else if a[0] != b[0] {
        (a[0] as int) < (b[0] as int)
    } else {
        lex_lt(a.drop_first(), b.drop_first())
    }
}

/// The order is strict and total: of two different strings exactly one
/// comes first, and no string comes before itself.
pub proof fn lemma_lex_trichotomy(a: Seq<char>, b: Seq<char>)
    ensures
        !(lex_lt(a, b) && lex_lt(b, a)),
        a != b ==> lex_lt(a, b) || lex_lt(b, a),
        a == b ==> !lex_lt(a, b),
    decreases a.len(),
{
    if a.len() > 0 && b.len() > 0 && a[0] == b[0] {
        lemma_lex_trichotomy(a.drop_first(), b.drop_first());
        if a != b {
            if a.drop_first() =~= b.drop_first() {
                assert forall|i: int| 0 <= i < a.len() implies a[i] == b[i] by {
                    if i > 0 {
                        assert(a[i] == a.drop_first()[i - 1]);
                        assert(b[i] == b.drop_first()[i - 1]);
                    }
                }
                assert(a =~= b);
            }
        }
    } else if a.len() > 0 && b.len() > 0 {
        assert((a[0] as int) != (b[0] as int));
    } else if a.len() == 0 && b.len() == 0 {
        assert(a =~= b);
    }
}

/// `a < b` for two strings, as `String`'s `Ord` decides it.
pub fn precedes(a: &str, b: &str) -> (r: bool)
    ensures
        r == lex_lt(a@, b@),
{
    let na = a.unicode_len();
    let nb = b.unicode_len();
    let mut i: usize = 0;
    proof {
        assert(a@.skip(0) =~= a@);
        assert(b@.skip(0) =~= b@);
    }
    while i < na && i < nb
        invariant
            na == a@.len(),
            nb == b@.len(),
            i <= na,
            i <= nb,
            lex_lt(a@, b@) == lex_lt(a@.skip(i as int), b@.skip(i as int)),
        decreases na - i,
    {
        let ca = a.get_char(i);
        let cb = b.get_char(i);
        let ghost sa = a@.skip(i as int);
        let ghost sb = b@.skip(i as int);
        assert(sa[0] == ca && sb[0] == cb);
        if ca != cb {
            return (ca as u32) < (cb as u32);
        }
        assert(sa.drop_first() =~= a@.skip(i + 1));
        assert(sb.drop_first() =~= b@.skip(i + 1));
        i = i + 1;
    }
    i == na && i < nb
}

/// Two strings in the order that sorting a vector of them gives.
pub open spec fn ordered_pair(a: Seq<char>, b: Seq<char>) -> Seq<Seq<char>> {
    if lex_lt(b, a) {
        seq![b, a]
    } else {
        seq![a, b]
    }
}

/// Sorting two strings gives the same result whichever order they come in.
pub proof fn lemma_ordered_pair_symmetric(a: Seq<char>, b: Seq<char>)
    ensures
        ordered_pair(a, b) == ordered_pair(b, a),
{
    lemma_lex_trichotomy(a, b);
}

/// `vec![a, b]` after `sort()`.
pub fn sorted_pair(a: String, b: String) -> (r: Vec<String>)
    ensures
        r@.len() == 2,
        seq![r@[0]@, r@[1]@] == ordered_pair(a@, b@),
{
    let mut v: Vec<String> = Vec::new();
    if precedes(b.as_str(), a.as_str()) {
        v.push(b);
        v.push(a);
    } else {
        v.push(a);
        v.push(b);
    }
    v
}

} // verus!
