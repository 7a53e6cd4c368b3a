//! Markdown templates for bounty claims and submissions.

use vstd::prelude::*;
use crate::text::{dec_str, decimal_string};

verus! {

/// The claim template around an issue number and a wallet address.
pub open spec fn claim_template(issue: nat, wallet: Seq<char>) -> Seq<char> {
    "## Bounty Claim\n\n**Issue**: #"@ + dec_str(issue) + "\n**Wallet**: "@ + wallet
        + "\n\n### Claim Statement\nI hereby claim this bounty and commit to delivering the required work within the specified timeframe.\n\n### Approach\n- [ ] Understand the requirements\n- [ ] Implement the solution\n- [ ] Test thoroughly\n- [ ] Submit PR\n\n### Timeline\nTarget completion: 48-72 hours\n\n_\"I claim this bounty on my honor as a RustChain contributor.\"_\n"@
}

/// The submission template around a pull-request number, a wallet address
/// and a summary; the pull-request number appears again in the evidence
/// link.
pub open spec fn submission_template(pr: nat, wallet: Seq<char>, summary: Seq<char>) -> Seq<char> {
    "## Bounty Submission\n\n**PR**: #"@ + dec_str(pr) + "\n**Wallet**: "@ + wallet
        + "\n\n### Summary\n"@ + summary
        + "\n\n### Verification\n- [ ] Tests pass\n- [ ] Code review passed\n- [ ] Documentation updated\n\n### Evidence\n[Link to PR: https://github.com/Scottcjn/rustchain-bounties/pull/"@
        + dec_str(pr) + "]\n\n_\"I certify this work is complete and meets bounty requirements.\"_\n"@
}

/// Render the claim template.
pub fn generate_claim_template(issue_number: u32, wallet: &str) -> (r: String)
    ensures
        r@ == claim_template(issue_number as nat, wallet@),
{
    let mut s = String::from_str("## Bounty Claim\n\n**Issue**: #");
    let num = decimal_string(issue_number as u128);
    s.append(num.as_str());
    s.append("\n**Wallet**: ");
    s.append(wallet);
    s.append(
        "\n\n### Claim Statement\nI hereby claim this bounty and commit to delivering the required work within the specified timeframe.\n\n### Approach\n- [ ] Understand the requirements\n- [ ] Implement the solution\n- [ ] Test thoroughly\n- [ ] Submit PR\n\n### Timeline\nTarget completion: 48-72 hours\n\n_\"I claim this bounty on my honor as a RustChain contributor.\"_\n",
    );
    s
}

/// Render the submission template.
pub fn generate_submission_template(pr_number: u32, wallet: &str, summary: &str) -> (r: String)
    ensures
        r@ == submission_template(pr_number as nat, wallet@, summary@),
{
    let mut s = String::from_str("## Bounty Submission\n\n**PR**: #");
    let num = decimal_string(pr_number as u128);
    s.append(num.as_str());
    s.append("\n**Wallet**: ");
    s.append(wallet);
    s.append("\n\n### Summary\n");
    s.append(summary);
    s.append(
        "\n\n### Verification\n- [ ] Tests pass\n- [ ] Code review passed\n- [ ] Documentation updated\n\n### Evidence\n[Link to PR: https://github.com/Scottcjn/rustchain-bounties/pull/",
    );
    s.append(num.as_str());
    s.append("]\n\n_\"I certify this work is complete and meets bounty requirements.\"_\n");
    s
}

} // verus!
