use vstd::prelude::*;

verus! {

/// The shell fragment that throws away every change, staged or not, and
/// returns the working tree to `HEAD`.
pub open spec fn revert_fragment() -> Seq<char> {
    "(git clean -fdq . && git reset --hard)"@
}

/// The revert fragment; it never depends on the configuration.
pub fn revert_command() -> (r: String)
    ensures
        r@ == revert_fragment(),
{
    String::from_str("(git clean -fdq . && git reset --hard)")
}

} // verus!
