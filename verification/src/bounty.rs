//! Bounty-issue analysis: pulling the advertised reward out of an issue body
//! and grading an issue's difficulty from its labels.
//!
//! A reward is advertised as a run of digits, optional whitespace, and the
//! currency tag `RTC`; the first such run in the body counts.

use vstd::prelude::*;
use crate::text::{contains_str, contains_sub};

verus! {

/// A decimal digit.
pub open spec fn is_digit(c: char) -> bool {
    48 <= c as u32 <= 57
}

/// The whitespace the reward pattern skips between the digits and the tag.
pub open spec fn is_gap(c: char) -> bool {
    c == ' ' || c == '\t' || c == '\n' || c == '\r' || c == '\u{0B}' || c == '\u{0C}'
}

/// The value of one digit.
pub open spec fn digit_val(c: char) -> nat {
    ((c as u32) - 48) as nat
}

/// The value of a digit run, most significant digit first.
pub open spec fn digits_value(ds: Seq<char>) -> nat
    decreases ds.len(),
{
    if ds.len() == 0 {
        0
    } else {
        digits_value(ds.drop_last()) * 10 + digit_val(ds.last())
    }
}

/// First position at or past `i` that holds no digit, or the end.
#[verifier::opaque]
pub open spec fn digit_run_end(s: Seq<char>, i: int) -> int {
    if exists|j: int| i <= j < s.len() && !is_digit(s[j]) {
        choose|j: int|
            i <= j < s.len() && !is_digit(s[j]) && (forall|k: int| i <= k < j ==> is_digit(s[k]))
    } else {
        s.len() as int
    }
}

/// First position at or past `i` that holds no whitespace, or the end.
#[verifier::opaque]
pub open spec fn gap_run_end(s: Seq<char>, i: int) -> int {
    if exists|j: int| i <= j < s.len() && !is_gap(s[j]) {
        choose|j: int|
            i <= j < s.len() && !is_gap(s[j]) && (forall|k: int| i <= k < j ==> is_gap(s[k]))
    } else {
        s.len() as int
    }
}

/// The reward pattern matches at `i`: a digit, whose run is followed, after
/// optional whitespace, by the tag `RTC`.
#[verifier::opaque]
pub open spec fn reward_match_at(s: Seq<char>, i: int) -> bool {
    &&& 0 <= i < s.len()
    &&& is_digit(s[i])
    &&& {
        let j = digit_run_end(s, i);
        let k = gap_run_end(s, j);
        &&& k + 3 <= s.len()
        &&& s[k] == 'R'
        &&& s[k + 1] == 'T'
        &&& s[k + 2] == 'C'
    }
}

/// Some reward is advertised.
pub open spec fn has_reward(s: Seq<char>) -> bool {
    exists|i: int| reward_match_at(s, i)
}

/// Where the first advertised reward starts.
pub open spec fn reward_start(s: Seq<char>) -> int {
    choose|i: int|
        reward_match_at(s, i) && (forall|k: int| 0 <= k < i ==> !reward_match_at(s, k))
}

/// The digits of the first advertised reward.
pub open spec fn reward_digits(s: Seq<char>) -> Seq<char> {
    s.subrange(reward_start(s), digit_run_end(s, reward_start(s)))
}

/// The value of the first advertised reward.
pub open spec fn reward_value(s: Seq<char>) -> nat {
    digits_value(reward_digits(s))
}

/// A longer digit run is worth at least as much.
proof fn lemma_digits_value_monotone(s: Seq<char>, a: int, b: int, c: int)
    requires
        0 <= a <= b <= c <= s.len(),
    ensures
        digits_value(s.subrange(a, c)) >= digits_value(s.subrange(a, b)),
    decreases c - b,
{
    if b < c {
        lemma_digits_value_monotone(s, a, b, c - 1);
        let shorter = s.subrange(a, c - 1);
        let longer = s.subrange(a, c);
        assert(longer.drop_last() =~= shorter);
        assert(digits_value(longer) == digits_value(shorter) * 10 + digit_val(longer.last()));
        assert(digits_value(shorter) * 10 >= digits_value(shorter)) by (nonlinear_arith);
    }
}

/// Is the character a decimal digit?
fn digit_char_exec(c: char) -> (r: bool)
    ensures
        r == is_digit(c),
{
    let u = c as u32;
    48 <= u && u <= 57
}

/// Is the character pattern whitespace?
fn gap_char_exec(c: char) -> (r: bool)
    ensures
        r == is_gap(c),
{
    c == ' ' || c == '\t' || c == '\n' || c == '\r' || c == '\u{0B}' || c == '\u{0C}'
}

/// End of the digit run from `i`, as a value.
fn digit_run_end_exec(c: &Vec<char>, i: usize) -> (j: usize)
    requires
        i <= c@.len(),
    ensures
        j == digit_run_end(c@, i as int),
        i <= j <= c@.len(),
        forall|k: int| i <= k < j ==> is_digit(c@[k]),
{
    let n = c.len();
    let mut j: usize = i;
    while j < n && digit_char_exec(c[j])
        invariant
            n == c@.len(),
            i <= j <= n,
            forall|k: int| i <= k < j ==> is_digit(c@[k]),
        decreases n - j,
    {
        j = j + 1;
    }
    proof {
        reveal(digit_run_end);
        let s = c@;
        if j < n {
            assert(!is_digit(s[j as int]));
            let w = digit_run_end(s, i as int);
            assert(i <= w < s.len() && !is_digit(s[w]) && (forall|k: int|
                i <= k < w ==> is_digit(s[k])));
            assert(w == j);
        } else {
            if exists|q: int| i <= q < s.len() && !is_digit(s[q]) {
                let q = choose|q: int| i <= q < s.len() && !is_digit(s[q]);
                assert(is_digit(s[q]));
            }
        }
    }
    j
}

/// End of the whitespace run from `i`, as a value.
fn gap_run_end_exec(c: &Vec<char>, i: usize) -> (j: usize)
    requires
        i <= c@.len(),
    ensures
        j == gap_run_end(c@, i as int),
        i <= j <= c@.len(),
        forall|k: int| i <= k < j ==> is_gap(c@[k]),
{
    let n = c.len();
    let mut j: usize = i;
    while j < n && gap_char_exec(c[j])
        invariant
            n == c@.len(),
            i <= j <= n,
            forall|k: int| i <= k < j ==> is_gap(c@[k]),
        decreases n - j,
    {
        j = j + 1;
    }
    proof {
        reveal(gap_run_end);
        let s = c@;
        if j < n {
            assert(!is_gap(s[j as int]));
            let w = gap_run_end(s, i as int);
            assert(i <= w < s.len() && !is_gap(s[w]) && (forall|k: int|
                i <= k < w ==> is_gap(s[k])));
            assert(w == j);
        } else {
            if exists|q: int| i <= q < s.len() && !is_gap(s[q]) {
                let q = choose|q: int| i <= q < s.len() && !is_gap(s[q]);
                assert(is_gap(s[q]));
            }
        }
    }
    j
}

/// Does the reward pattern match at `i`?
fn reward_at_exec(c: &Vec<char>, i: usize) -> (r: bool)
    requires
        i < c@.len(),
    ensures
        r == reward_match_at(c@, i as int),
{
    proof {
        reveal(reward_match_at);
    }
    if !digit_char_exec(c[i]) {
        return false;
    }
    let j = digit_run_end_exec(c, i);
    let k = gap_run_end_exec(c, j);
    let n = c.len();
    if k >= n || n - k < 3 {
        return false;
    }
    c[k] == 'R' && c[k + 1] == 'T' && c[k + 2] == 'C'
}

/// The value of the digits in `[i, j)`, unless it leaves `u64`.
fn parse_digit_run(c: &Vec<char>, i: usize, j: usize) -> (r: Option<u64>)
    requires
        i <= j <= c@.len(),
        forall|k: int| i <= k < j ==> is_digit(c@[k]),
    ensures
        digits_value(c@.subrange(i as int, j as int)) <= u64::MAX ==> r == Some(
            (digits_value(c@.subrange(i as int, j as int)) as u64),
        ),
        digits_value(c@.subrange(i as int, j as int)) > u64::MAX ==> r is None,
{
    let mut acc: u64 = 0;
    let mut p: usize = i;
    while p < j
        invariant
            i <= p <= j <= c@.len(),
            forall|k: int| i <= k < j ==> is_digit(c@[k]),
            acc == digits_value(c@.subrange(i as int, p as int)),
        decreases j - p,
    {
        let u = c[p] as u32;
        proof {
            assert(is_digit(c@[p as int]));
        }
        let d = (u - 48) as u64;
        proof {
            let pre = c@.subrange(i as int, p as int);
            let ext = c@.subrange(i as int, p as int + 1);
            assert(ext.drop_last() =~= pre);
            assert(ext.last() == c@[p as int]);
        }
        if acc > (u64::MAX - d) / 10 {
            proof {
                let ext = c@.subrange(i as int, p as int + 1);
                assert(digits_value(ext) == (acc as nat) * 10 + (d as nat));
                assert((acc as nat) * 10 + (d as nat) > u64::MAX) by (nonlinear_arith)
                    requires
                        acc > (u64::MAX - d) / 10,
                        d <= 9,
                ;
                lemma_digits_value_monotone(c@, i as int, p as int + 1, j as int);
            }
            return None;
        }
        proof {
            assert((acc as nat) * 10 + (d as nat) <= u64::MAX) by (nonlinear_arith)
                requires
                    acc <= (u64::MAX - d) / 10,
                    d <= 9,
            ;
        }
        acc = acc * 10 + d;
        p = p + 1;
    }
    proof {
        assert(c@.subrange(i as int, j as int) =~= c@.subrange(i as int, p as int));
    }
    Some(acc)
}

/// The first advertised reward of an issue body, if one is there and fits in
/// a machine word.
#[verifier::rlimit(100)]
pub fn extract_reward(body: &str) -> (r: Option<u64>)
    ensures
        !has_reward(body@) ==> r is None,
        has_reward(body@) && reward_value(body@) <= u64::MAX ==> r == Some(
            (reward_value(body@) as u64),
        ),
        has_reward(body@) && reward_value(body@) > u64::MAX ==> r is None,
{
    let c = crate::text::chars_of(body);
    let n = c.len();
    let mut i: usize = 0;
    while i < n
        invariant
            n == c@.len(),
            c@ == body@,
            i <= n,
            forall|k: int| 0 <= k < i ==> !reward_match_at(c@, k),
        decreases n - i,
    {
        if reward_at_exec(&c, i) {
            proof {
                assert(reward_start(c@) == i) by {
                    reveal(reward_match_at);
                    assert(reward_match_at(c@, i as int) && (forall|k: int|
                        0 <= k < i ==> !reward_match_at(c@, k)));
                    let w = reward_start(c@);
                    assert(reward_match_at(c@, w) && (forall|k: int|
                        0 <= k < w ==> !reward_match_at(c@, k)));
                    if w < i {
                        assert(!reward_match_at(c@, w));
                        assert(false);
                    }
                    if w > i {
                        assert(!reward_match_at(c@, i as int));
                        assert(false);
                    }
                }
            }
            let j = digit_run_end_exec(&c, i);
            return parse_digit_run(&c, i, j);
        }
        i = i + 1;
    }
    proof {
        reveal(reward_match_at);
        if has_reward(c@) {
            let w = choose|w: int| reward_match_at(c@, w);
            assert(!reward_match_at(c@, w));
        }
    }
    None
}

/// The difficulty verdict on a joined label string.
pub open spec fn difficulty_of(labels: Seq<char>) -> Seq<char> {
    if contains_sub(labels, "critical"@) {
        "Critical - Immediate action needed"@
    } else if contains_sub(labels, "high"@) {
        "High - Significant work required"@
    } else if contains_sub(labels, "medium"@) {
        "Medium - Moderate effort"@
    } else if contains_sub(labels, "low"@) {
        "Low - Quick fix"@
    } else {
        "Unknown - Manual review needed"@
    }
}

/// The labels joined with single spaces.
pub open spec fn joined(ls: Seq<Seq<char>>) -> Seq<char>
    decreases ls.len(),
{
    if ls.len() == 0 {
        Seq::empty()
    } else if ls.len() == 1 {
        ls[0]
    } else {
        joined(ls.drop_last()) + " "@ + ls.last()
    }
}

/// Join labels with single spaces.
pub fn join_labels(labels: &Vec<String>) -> (r: String)
    ensures
        r@ == joined(labels@.map_values(|l: String| l@)),
{
    let ghost views = labels@.map_values(|l: String| l@);
    let mut s = String::new();
    let n = labels.len();
    let mut i: usize = 0;
    while i < n
        invariant
            n == labels@.len(),
            views == labels@.map_values(|l: String| l@),
            i <= n,
            s@ == joined(views.subrange(0, i as int)),
        decreases n - i,
    {
        if i > 0 {
            s.append(" ");
        }
        s.append(labels[i].as_str());
        proof {
            let pre = views.subrange(0, i as int);
            let ext = views.subrange(0, i as int + 1);
            assert(ext.drop_last() =~= pre);
            assert(ext.last() == views[i as int]);
            if i == 0 {
                assert(s@ =~= joined(ext));
            }
        }
        i = i + 1;
    }
    proof {
        assert(views.subrange(0, n as int) =~= views);
    }
    s
}

/// Grade a bounty's difficulty from its labels; the body is kept for
/// interface parity and plays no part in the verdict.
pub fn calculate_difficulty(labels: &Vec<String>, body: &str) -> (r: String)
    ensures
        r@ == difficulty_of(joined(labels@.map_values(|l: String| l@))),
{
    let _ = body;
    let label_str = join_labels(labels);
    if contains_str(label_str.as_str(), "critical") {
        String::from_str("Critical - Immediate action needed")
    } else if contains_str(label_str.as_str(), "high") {
        String::from_str("High - Significant work required")
    } else if contains_str(label_str.as_str(), "medium") {
        String::from_str("Medium - Moderate effort")
    } else if contains_str(label_str.as_str(), "low") {
        String::from_str("Low - Quick fix")
    } else {
        String::from_str("Unknown - Manual review needed")
    }
}

} // verus!
