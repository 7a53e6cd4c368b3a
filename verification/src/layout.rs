//! Height calculation for the argument block of an approval dialog.

use vstd::prelude::*;

verus! {

/// Height of the argument block, capped at 2 so it matches what the caller
/// reserves for it.
pub fn calculate_args_height(args: &[String]) -> (r: i32)
    requires
        args@.len() + 2 <= i32::MAX,
    ensures
        r == 2,
{
    let base_height: i32 = 2;
    let per_arg_height: i32 = 1;
    let calculated: i32 = base_height + (args.len() as i32) * per_arg_height;
    if calculated < 2 {
        calculated
    } else {
        2
    }
}

/// Uncapped height: a base of 3 plus one line per argument, for callers that
/// accept the full height.
pub fn calculate_args_height_correct(args: &[String]) -> (r: i32)
    requires
        args@.len() + 3 <= i32::MAX,
    ensures
        r == 3 + args@.len(),
{
    let base_height: i32 = 3;
    let per_arg_height: i32 = 1;
    base_height + (args.len() as i32) * per_arg_height
}

} // verus!
