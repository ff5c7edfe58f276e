use vstd::prelude::*;

verus! {

/// What a finished external command printed, and its exit code.
pub struct CommandOutput {
    pub stdout: String,
    pub stderr: String,
    pub exit_code: i32,
}

/// The exit code to report: the process's own, or `-1` when it ended by a signal.
pub fn exit_code_or_default(code: Option<i32>) -> (r: i32)
    ensures
        r == match code {
            Some(c) => c,
            None => -1i32,
        },
{
    match code {
        Some(c) => c,
        None => -1,
    }
}

/// The text with leading and trailing white space removed.
pub uninterp spec fn trimmed(s: Seq<char>) -> Seq<char>;

/// Relies on str::trim: the result is the input without its leading and
/// trailing white space, so no longer than it.
#[verifier::external_body]
fn trim_text(s: &str) -> (r: &str)
    ensures
        r@ == trimmed(s@),
        r@.len() <= s@.len(),
{
    s.trim()
}

/// The error for a failed clone, from the tool's trimmed error output.
pub fn clone_failure_message(detail: &str) -> (r: String)
    ensures
        r@ == "Clone failed: "@ + detail@,
{
    String::from_str("Clone failed: ").concat(detail)
}

/// The outcome of cloning with an external tool: success when it exited with
/// success, otherwise its error output, trimmed, behind a fixed prefix.
pub fn clone_outcome(success: bool, stderr: &str) -> (r: Result<(), String>)
    ensures
        success ==> r is Ok,
        !success ==> r is Err && r->Err_0@ == "Clone failed: "@ + trimmed(stderr@),
{
    if success {
        Ok(())
    } else {
        Err(clone_failure_message(trim_text(stderr)))
    }
}

} // verus!
