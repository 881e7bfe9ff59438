//! The run's configuration and the validation of the command template.

use vstd::prelude::*;
use crate::text::{blank, brace_pat, contains_seq, contains_str, is_blank};

verus! {

/// The configuration of one run: how many parallel workers to use, and the
/// command template with its placeholders. Both are fixed for the whole run.
#[derive(Debug)]
pub struct Arguments {
    /// Number of parallel workers to spawn.
    pub workers: usize,
    /// Command template; `{}` stands for each input line, `{out}` for a
    /// derived output name.
    pub template: String,
}

/// The error text for a blank template.
pub open spec fn msg_blank_template() -> Seq<char> {
    "template must be a non-empty string"@
}

/// The error text for a template without the `{}` placeholder.
pub open spec fn msg_missing_placeholder() -> Seq<char> {
    "template must contain {} parameter"@
}

/// Validate a command template: it is accepted exactly when it is not blank
/// and contains the `{}` placeholder, and is then returned unchanged.
pub fn non_empty_string(val: &str) -> (r: Result<String, String>)
    ensures
        r is Ok <==> !is_blank(val@) && contains_seq(val@, brace_pat()),
        r matches Ok(t) ==> t@ == val@,
        is_blank(val@) ==> (r matches Err(m) && m@ == msg_blank_template()),
        !is_blank(val@) && !contains_seq(val@, brace_pat()) ==> (r matches Err(m) && m@
            == msg_missing_placeholder()),
{
    proof { reveal_strlit("{}"); }
    assert("{}"@ =~= brace_pat());
    if blank(val) {
        Err("template must be a non-empty string".to_owned())
    } else if !contains_str(val, "{}") {
        Err("template must contain {} parameter".to_owned())
    } else {
        Ok(val.to_owned())
    }
}

} // verus!
