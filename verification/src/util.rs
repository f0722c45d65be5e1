//! Small shared helpers: the wall clock, and the texts a few capabilities
//! answer with.

use vstd::prelude::*;
use crate::text::{all_ws, is_blank};

verus! {

/// Relies on std's `SystemTime::now` and `duration_since`: milliseconds
/// since the Unix epoch, or 0 under a clock set before it. The value
/// depends on the time of the call; nothing more is promised of it.
#[verifier::external_body]
pub fn now_millis() -> (r: u64) {
    std::time::SystemTime::now()
        .duration_since(std::time::UNIX_EPOCH)
        .map(|duration| duration.as_millis() as u64)
        .unwrap_or(0)
}

/// The uniform rejection for a capability the wrapped backend does not
/// offer.
pub fn acp_only_error(feature: &str) -> (r: String)
    ensures
        r@ == feature@ + " is not supported with the Copilot ACP backend."@,
{
    feature.to_owned().concat(" is not supported with the Copilot ACP backend.")
}

/// The fixed instructions put before the diff when asking for a commit
/// message.
pub open spec fn commit_prompt_preamble() -> Seq<char> {
    "Generate a concise git commit message for the following changes. Follow conventional commit format (e.g., feat:, fix:, refactor:, docs:, etc.). Keep the summary line under 72 characters. Only output the commit message, nothing else.\n\nChanges:\n"@
}

/// The prompt that asks for a commit message over the given diff.
pub fn build_commit_message_prompt(diff: &str) -> (r: String)
    ensures
        r@ == commit_prompt_preamble() + diff@,
{
    "Generate a concise git commit message for the following changes. Follow conventional commit format (e.g., feat:, fix:, refactor:, docs:, etc.). Keep the summary line under 72 characters. Only output the commit message, nothing else.\n\nChanges:\n".to_owned().concat(
        diff,
    )
}

/// The commit-message prompt for a workspace's diff: a diff with no
/// content at all is rejected; any other diff is wrapped, untrimmed, in
/// the fixed instructions.
pub fn commit_prompt_for_diff(diff: &str) -> (r: Result<String, String>)
    ensures
        all_ws(diff@) ==> (r matches Err(e) && e@ == "No changes to generate commit message for"@),
        !all_ws(diff@) ==> (r matches Ok(p) && p@ == commit_prompt_preamble() + diff@),
{
    if is_blank(diff) {
        Err("No changes to generate commit message for".to_owned())
    } else {
        Ok(build_commit_message_prompt(diff))
    }
}

} // verus!
