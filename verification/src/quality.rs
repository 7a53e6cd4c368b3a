//! Quality metrics: coverage ratios rendered as human-readable reports.

use vstd::prelude::*;
use crate::text::{contains_str, contains_sub, dec_str, decimal_string};

verus! {

/// Coverage of `part` over `whole` in tenths of a percent, rounded half up;
/// zero when `whole` is zero.
pub open spec fn coverage_tenths(part: nat, whole: nat) -> nat {
    if whole == 0 {
        0
    } else {
        (part * 2000 / whole + 1) / 2
    }
}

/// Rendering of a tenths-of-a-percent value with one decimal place.
pub open spec fn tenths_str(tenths: nat) -> Seq<char> {
    dec_str(tenths / 10) + "."@ + dec_str(tenths % 10)
}

/// The verdict on test coverage: `Good` from 20 percent, `Acceptable` from
/// 10 percent, `Needs improvement` below.
pub open spec fn coverage_status(part: nat, whole: nat) -> Seq<char> {
    if whole > 0 && part * 5 >= whole {
        "Good"@
    } else if whole > 0 && part * 10 >= whole {
        "Acceptable"@
    } else {
        "Needs improvement"@
    }
}

/// Quality validation over simple counts.
pub struct QualityChecker {}

impl QualityChecker {
    /// Report the ratio of tests to code lines with a verdict.
    pub fn validate_tests(test_count: usize, code_lines: usize) -> (r: String)
        ensures
            r@ == "Test coverage: "@ + tenths_str(coverage_tenths(test_count as nat, code_lines as nat))
                + "% - "@ + coverage_status(test_count as nat, code_lines as nat),
    {
        let tenths = tenths_of(test_count, code_lines);
        let mut s = String::from_str("Test coverage: ");
        let num = render_tenths(tenths);
        s.append(num.as_str());
        s.append("% - ");
        let t = test_count as u128;
        let c = code_lines as u128;
        if code_lines > 0 && t * 5 >= c {
            s.append("Good");
        } else if code_lines > 0 && t * 10 >= c {
            s.append("Acceptable");
        } else {
            s.append("Needs improvement");
        }
        s
    }

    /// Which quality remarks apply to a piece of code: the first flag says
    /// whether unfinished-work markers are present, the second whether the
    /// code avoids unwrap and expect calls.
    pub fn validate_code(code: &str) -> (r: (bool, bool))
        ensures
            r.0 == (contains_sub(code@, "TODO"@) || contains_sub(code@, "FIXME"@)),
            r.1 == (!contains_sub(code@, "unwrap()"@) && !contains_sub(code@, "expect()"@)),
    {
        let markers = contains_str(code, "TODO") || contains_str(code, "FIXME");
        let clean = !contains_str(code, "unwrap()") && !contains_str(code, "expect()");
        (markers, clean)
    }

    /// Report the ratio of documented items to functions.
    pub fn validate_docs(docs_count: usize, fn_count: usize) -> (r: String)
        ensures
            r@ == "Documentation coverage: "@ + tenths_str(
                coverage_tenths(docs_count as nat, fn_count as nat),
            ) + "%"@,
    {
        let tenths = tenths_of(docs_count, fn_count);
        let mut s = String::from_str("Documentation coverage: ");
        let num = render_tenths(tenths);
        s.append(num.as_str());
        s.append("%");
        s
    }
}

/// Coverage in tenths of a percent as an executable value.
fn tenths_of(part: usize, whole: usize) -> (r: u128)
    ensures
        r == coverage_tenths(part as nat, whole as nat),
{
    if whole == 0 {
        0
    } else {
        let p = part as u128;
        let w = whole as u128;
        proof {
            assert((p as int) * 2000 / (w as int) <= (p as int) * 2000) by (nonlinear_arith)
                requires
                    w >= 1,
                    p >= 0,
            ;
        }
        (p * 2000 / w + 1) / 2
    }
}

/// One-decimal rendering of a tenths value.
fn render_tenths(tenths: u128) -> (r: String)
    ensures
        r@ == tenths_str(tenths as nat),
{
    let mut s = decimal_string(tenths / 10);
    s.append(".");
    let frac = decimal_string(tenths % 10);
    s.append(frac.as_str());
    s
}

} // verus!
