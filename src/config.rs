use vstd::prelude::*;

verus! {

/// What the configuration file holds: the test command line, the command
/// lines to run before it (in order), and whether commit hooks are skipped.
#[derive(Debug, Clone, PartialEq)]
pub struct Config {
    pub test: String,
    pub before: Vec<String>,
    pub skip_verification: Option<bool>,
}

/// An absent `skip_verification` means hooks run.
pub open spec fn skips_hooks(skip_verification: Option<bool>) -> bool {
    skip_verification == Some(true)
}

/// Resolves the optional `skip_verification` flag to a plain answer.
pub fn hooks_skipped(skip_verification: Option<bool>) -> (r: bool)
    ensures
        r == skips_hooks(skip_verification),
{
    match skip_verification {
        Some(b) => b,
        None => false,
    }
}

} // verus!
