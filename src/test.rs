use vstd::prelude::*;

verus! {

/// The test step of the pipeline is the configured command line itself.
pub fn test_command(test: String) -> (r: String)
    ensures
        r@ == test@,
{
    test
}

} // verus!
