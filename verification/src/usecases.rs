use vstd::prelude::*;
use vstd::string::StringExecFns;

pub mod basic;
pub mod prompt;

use crate::openais::openai::CallError;

verus! {

/// A failure raised from within a use case; it wraps the capability's error
/// and adds no context of its own.
#[derive(Debug, PartialEq, Eq)]
pub enum UsecaseError {
    Call(CallError),
}

/// What a use-case operation built on a capability modeled by `succeeds` and
/// `response` promises: a question the model says succeeds returns `Ok`, a
/// successful result carries exactly the modeled response, and any failure
/// wraps a capability error.
pub open spec fn usecase_post(
    succeeds: bool,
    response: Seq<char>,
    r: Result<String, UsecaseError>,
) -> bool {
    &&& (succeeds ==> r is Ok)
    &&& (r matches Ok(resp) ==> succeeds && resp@ == response)
    &&& (r matches Err(e) ==> e is Call)
}

/// The fixed framing a response is displayed under.
pub open spec fn spec_display_line(response: Seq<char>) -> Seq<char> {
    "Agent: "@ + response
}

/// The line the harness prints for `response`: the response verbatim behind
/// the fixed framing prefix.
pub fn agent_display_line(response: &str) -> (r: String)
    ensures
        r@ == spec_display_line(response@),
{
    let prefix: String = "Agent: ".to_owned();
    prefix.concat(response)
}

} // verus!
