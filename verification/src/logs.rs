//! Classification of file names that belong to log rotation and pruning.

use vstd::prelude::*;
use crate::text::{contains_str, contains_sub};

verus! {

/// A file name counts as a log file exactly when it holds `.log` or one of
/// the auxiliary log markers; plain `.txt` files never match.
pub open spec fn is_log_name(f: Seq<char>) -> bool {
    ||| contains_sub(f, ".log"@)
    ||| contains_sub(f, "_log"@)
    ||| contains_sub(f, "-log"@)
    ||| contains_sub(f, "/log/"@)
    ||| contains_sub(f, "app.log"@)
    ||| contains_sub(f, "error.log"@)
}

/// Does the file name denote a log file?
pub fn is_log_file(filename: &str) -> (r: bool)
    ensures
        r == is_log_name(filename@),
{
    if contains_str(filename, ".log") {
        return true;
    }
    let r = contains_str(filename, "_log") || contains_str(filename, "-log") || contains_str(
        filename,
        "/log/",
    ) || contains_str(filename, "app.log") || contains_str(filename, "error.log");
    r
}

} // verus!
