use vstd::prelude::*;
use crate::compose::{commit_fragment, commit_fragment_of};
use crate::config::skips_hooks;

verus! {

/// The part of the configuration that the commit step reads.
#[derive(Debug, PartialEq, Clone)]
pub struct CommitConfig {
    pub skip_verification: Option<bool>,
    /// Whether a successful commit is pushed.
    pub push: bool,
}

/// The commit fragment for the message that `msg` produces: no trailers,
/// `--no-verify` exactly when the configuration asks for it, and
/// `&& git push` exactly when it asks for a push.
pub fn commit_command<F: Fn() -> String>(msg: F, config: CommitConfig) -> (r: String)
    requires
        call_requires(msg, ()),
    ensures
        exists|m: String|
            call_ensures(msg, (), m) && r@ == commit_fragment(
                m@,
                Seq::empty(),
                skips_hooks(config.skip_verification),
                config.push,
            ),
{
    let message = msg();
    let none: Vec<String> = Vec::new();
    let r = commit_fragment_of(message.as_str(), &none, config.skip_verification, config.push);
    proof {
        assert(crate::compose::texts(none@) =~= Seq::empty());
    }
    r
}

} // verus!
