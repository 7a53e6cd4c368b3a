//! Single-asterisk pattern matching, safe on every input including the bare
//! `*` pattern.

use vstd::prelude::*;
use crate::text::{chars_of, contains_sub, ends_with_sub, find_sub, is_match_at, match_at,
    starts_with_sub};

verus! {

/// The pattern holds the character `c` somewhere.
pub open spec fn contains_char(p: Seq<char>, c: char) -> bool {
    exists|i: int| 0 <= i < p.len() && p[i] == c
}

/// Position of the first `*` in the pattern, meaningful only when one exists.
pub open spec fn star_pos(p: Seq<char>) -> int {
    choose|i: int|
        0 <= i < p.len() && p[i] == '*' && (forall|k: int| 0 <= k < i ==> p[k] != '*')
}

/// What the matcher accepts: an empty pattern only matches empty text; a
/// pattern without `*` matches its own text exactly; a pattern with a `*`
/// requires the part before the first `*` as a prefix and then accepts the
/// text when the part after it is empty, is a suffix, or occurs anywhere
/// past the prefix.
pub open spec fn glob_matches(p: Seq<char>, t: Seq<char>) -> bool {
    if p.len() == 0 {
        t.len() == 0
    } else if contains_char(p, '*') {
        let pos = star_pos(p);
        let before = p.subrange(0, pos);
        let after = p.subrange(pos + 1, p.len() as int);
        if !starts_with_sub(t, before) {
            false
        } else if after.len() > 0 && !ends_with_sub(t, after) {
            contains_sub(t.subrange(before.len() as int, t.len() as int), after)
        } else {
            true
        }
    } else {
        p == t
    }
}

/// Copy of the range `[from, to)` of a character vector.
fn sub_vec(v: &Vec<char>, from: usize, to: usize) -> (r: Vec<char>)
    requires
        from <= to <= v@.len(),
    ensures
        r@ == v@.subrange(from as int, to as int),
{
    let mut r: Vec<char> = Vec::new();
    let mut i: usize = from;
    while i < to
        invariant
            from <= i <= to <= v@.len(),
            r@ == v@.subrange(from as int, i as int),
        decreases to - i,
    {
        r.push(v[i]);
        i = i + 1;
        proof {
            assert(r@ =~= v@.subrange(from as int, i as int));
        }
    }
    r
}

/// Does the text match the pattern, where `*` stands for any run of
/// characters once?
pub fn matches_pattern(pattern: &str, text: &str) -> (r: bool)
    ensures
        r == glob_matches(pattern@, text@),
{
    if pattern.is_empty() {
        return text.is_empty();
    }
    let p = chars_of(pattern);
    let t = chars_of(text);
    let star: Vec<char> = vec!['*'];
    proof {
        assert(star@ =~= seq!['*']);
    }
    if let Some(pos) = find_sub(&p, &star) {
        proof {
            assert(p@[pos as int] == '*');
            assert(forall|k: int| 0 <= k < pos ==> p@[k] != '*') by {
                assert(forall|k: int|
                    0 <= k < pos ==> !is_match_at(p@, seq!['*'], k) && (p@[k] == '*'
                        ==> is_match_at(p@, seq!['*'], k)));
            }
            assert(star_pos(p@) == pos) by {
                let sp = star_pos(p@);
                assert(0 <= sp < p@.len() && p@[sp] == '*' && (forall|k: int|
                    0 <= k < sp ==> p@[k] != '*'));
            }
        }
        let plen: usize = p.len();
        let before = sub_vec(&p, 0, pos);
        let after = sub_vec(&p, pos + 1, plen);
        if before.len() > t.len() || !match_at(&t, &before, 0) {
            return false;
        }
        if after.len() > 0 {
            let suffix_ok = after.len() <= t.len() && match_at(&t, &after, t.len() - after.len());
            if !suffix_ok {
                let tail = sub_vec(&t, before.len(), t.len());
                return find_sub(&tail, &after).is_some();
            }
        }
        return true;
    }
    proof {
        assert(forall|i: int|
            0 <= i < p@.len() && p@[i] == '*' ==> is_match_at(p@, seq!['*'], i));
    }
    if p.len() != t.len() {
        return false;
    }
    let eq = match_at(&t, &p, 0);
    proof {
        if is_match_at(t@, p@, 0) {
            assert(p@ =~= t@);
        }
    }
    eq
}

} // verus!
