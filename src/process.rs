use vstd::prelude::*;
use crate::compose::texts;

verus! {

/// A program and its argument vector, run directly with no shell in between.
#[derive(Debug, Clone, PartialEq)]
pub struct Invocation {
    pub program: String,
    pub args: Vec<String>,
    /// Whether the program writes straight to this process's standard
    /// output and error instead of having its output captured.
    pub inherit_output: bool,
}

/// What a finished program reported.
#[derive(Debug, Clone, PartialEq)]
pub struct RunOutput {
    pub success: bool,
    pub stdout: String,
}

/// What a runner has run, each invocation with its output, oldest first.
pub type History = Seq<(Invocation, RunOutput)>;

/// Runs programs. A program that cannot be launched at all is fatal to the
/// runner; a program that runs and fails is reported through `success`.
pub trait ProcessRunner {
    /// Every invocation run so far with what it reported, oldest first.
    spec fn history(&self) -> History;

    /// Runs one invocation and records it with its output.
    fn run(&mut self, invocation: &Invocation) -> (r: RunOutput)
        ensures
            final(self).history() == old(self).history().push((*invocation, r)),
    ;
}

/// `new` is `old` with exactly one more entry, which runs `program` with
/// exactly `args`, its output captured.
pub open spec fn ran(
    old: Seq<(Invocation, RunOutput)>,
    new: Seq<(Invocation, RunOutput)>,
    program: Seq<char>,
    args: Seq<Seq<char>>,
) -> bool {
    &&& new.len() == old.len() + 1
    &&& new == old.push(new.last())
    &&& runs(new.last().0, program, args)
}

/// The views of a sequence of string slices.
pub open spec fn str_texts(v: Seq<&str>) -> Seq<Seq<char>> {
    v.map_values(|s: &str| s@)
}

/// `invocation` runs `program` with exactly `args`, its output captured.
pub open spec fn runs(invocation: Invocation, program: Seq<char>, args: Seq<Seq<char>>) -> bool {
    &&& invocation.program@ == program
    &&& texts(invocation.args@) == args
    &&& !invocation.inherit_output
}

/// Owned copies of the given strings, in order.
pub fn owned(parts: &[&str]) -> (r: Vec<String>)
    ensures
        texts(r@) == str_texts(parts@),
{
    let mut r: Vec<String> = Vec::new();
    let mut i: usize = 0;
    while i < parts.len()
        invariant
            i <= parts@.len(),
            texts(r@) == str_texts(parts@.subrange(0, i as int)),
        decreases parts@.len() - i,
    {
        let ghost before = r@;
        r.push(String::from_str(parts[i]));
        proof {
            assert(str_texts(parts@.subrange(0, i as int + 1)) =~= str_texts(
                parts@.subrange(0, i as int),
            ).push(parts@[i as int]@));
            assert(texts(r@) =~= texts(before).push(parts@[i as int]@));
        }
        i = i + 1;
    }
    proof {
        assert(parts@.subrange(0, parts@.len() as int) =~= parts@);
    }
    r
}

} // verus!
