use vstd::prelude::*;
use crate::process::{ran, runs, Invocation, ProcessRunner, RunOutput};

verus! {

/// The message of every commit made with the static strategy.
pub open spec fn wip_text() -> Seq<char> {
    "WIP"@
}

/// The static strategy: the message is always `WIP`, whatever the diff.
pub fn wip(_diff: &str) -> (r: String)
    ensures
        r@ == wip_text(),
{
    String::from_str("WIP")
}

/// Produces a commit message from the staged diff. A strategy never fails:
/// whatever goes wrong ends in some message.
pub trait MessageStrategy {
    /// `msg` is a message that the strategy, as `self`, may write for `diff`,
    /// ending as `next`.
    spec fn wrote(&self, next: &Self, diff: Text, msg: Text) -> bool;

    fn message(&mut self, diff: &str) -> (r: String)
        ensures
            old(self).wrote(final(self), diff@, r@),
    ;
}

/// The characters of a text.
pub type Text = Seq<char>;

/// Which strategy writes the message: the static `WIP`, or a language model
/// run through `runner`.
pub enum MessageMode<P> {
    Static,
    Generated { runner: P },
}

/// The instructions given to the language model ahead of the diff.
pub const PROMPT: &'static str = "You are an intelligent assistant specialized in generating Git commit messages.\nYou will receive a code diff as input.\n\nYour commit messages must be:\n- Short and concise, preferably 3–10 words.\n- Direct and clear, starting with a verb (e.g., Refactor, Update, Remove, Add, Start, Integrate, Cleanup, Improve).\n- Focused on what changes in the code, not on unnecessary technical details.\n- Consistent with the style of existing commits.\n\nExamples of commit messages:\n- Inline config in main\n- Use program also for test and remove sh dependency\n- Refactor\n- Keep refactoring towards specific cmd\n- Start using specific cmd to run tcr\n- Remove --watch\n- Run TCR instead of returning the cmd\n- Refactor function to accept program and args; update test cases accordingly\n- Update AI model to use qwen2.5-coder:14b for better message generation\n- Integrate AI powered automatic message\n\nAvoid:\n- Long or overly descriptive sentences\n- Personal comments or extra information\n- Periods at the end of the message\n- Double quotes\n\nGenerate **a single concise commit message** based on the diff provided below.";

pub open spec fn prompt_for(diff: Seq<char>) -> Seq<char> {
    PROMPT@ + "\nGit diff:\n"@ + diff
}

/// The full prompt for a diff.
pub fn scribe_prompt(diff: &str) -> (r: String)
    ensures
        r@ == prompt_for(diff@),
{
    let mut r = String::from_str(PROMPT);
    r.append("\nGit diff:\n");
    r.append(diff);
    r
}

/// Asks the local model for a message: `ollama run qwen2.5-coder:3b <prompt>`.
pub fn scribe_invocation(diff: &str) -> (r: Invocation)
    ensures
        runs(r, "ollama"@, seq!["run"@, "qwen2.5-coder:3b"@, prompt_for(diff@)]),
{
    let mut args: Vec<String> = Vec::new();
    args.push(String::from_str("run"));
    args.push(String::from_str("qwen2.5-coder:3b"));
    args.push(scribe_prompt(diff));
    let r = Invocation { program: String::from_str("ollama"), args, inherit_output: false };
    proof {
        assert(crate::compose::texts(r.args@) =~= seq![
            "run"@,
            "qwen2.5-coder:3b"@,
            prompt_for(diff@),
        ]);
    }
    r
}

/// What `str::trim` leaves of a string.
pub uninterp spec fn trimmed(s: Seq<char>) -> Seq<char>;

/// Relies on `str::trim`: leading and trailing white space removed; the
/// result depends on the characters alone, and an empty string stays empty.
#[verifier::external_body]
fn trim(s: &str) -> (r: &str)
    ensures
        r@ == trimmed(s@),
        s@.len() == 0 ==> r@.len() == 0,
{
    s.trim()
}

/// A generated candidate, or `WIP` when it is empty.
pub fn message_or_wip(candidate: &str) -> (r: String)
    ensures
        r@ == if candidate@.len() == 0 {
            wip_text()
        } else {
            candidate@
        },
{
    if candidate.is_empty() {
        wip(candidate)
    } else {
        String::from_str(candidate)
    }
}

/// The message that the model's reply yields: its output without surrounding
/// white space, or `WIP` when the model failed or said nothing.
pub open spec fn reply_message(success: bool, stdout: Seq<char>) -> Seq<char> {
    if !success || trimmed(stdout).len() == 0 {
        wip_text()
    } else {
        trimmed(stdout)
    }
}

/// Turns the model's reply into a commit message.
pub fn generated_message(reply: &RunOutput) -> (r: String)
    ensures
        r@ == reply_message(reply.success, reply.stdout@),
{
    if reply.success {
        message_or_wip(trim(reply.stdout.as_str()))
    } else {
        wip(reply.stdout.as_str())
    }
}

/// `runner` ran the model once on the prompt for `diff`, and `message` is
/// what its reply yields.
pub open spec fn scribed(
    old: Seq<(Invocation, RunOutput)>,
    new: Seq<(Invocation, RunOutput)>,
    diff: Seq<char>,
    message: Seq<char>,
) -> bool {
    &&& ran(old, new, "ollama"@, seq!["run"@, "qwen2.5-coder:3b"@, prompt_for(diff)])
    &&& message == reply_message(new.last().1.success, new.last().1.stdout@)
}

/// Asks the language model behind `runner` for a message for `diff`; falls
/// back to `WIP` when the model fails or says nothing.
pub fn scribe<P: ProcessRunner>(runner: &mut P, diff: &str) -> (r: String)
    ensures
        scribed(old(runner).history(), final(runner).history(), diff@, r@),
{
    let reply = runner.run(&scribe_invocation(diff));
    generated_message(&reply)
}

impl<P: ProcessRunner> MessageStrategy for MessageMode<P> {
    /// The static mode writes `WIP` and stays as it is; the generated mode
    /// runs the model once on the prompt for the diff and writes what its
    /// reply yields.
    open spec fn wrote(&self, next: &Self, diff: Text, msg: Text) -> bool {
        match *self {
            MessageMode::Static => *next is Static && msg == wip_text(),
            MessageMode::Generated { runner } => match *next {
                MessageMode::Generated { runner: after } => scribed(
                    runner.history(),
                    after.history(),
                    diff,
                    msg,
                ),
                MessageMode::Static => false,
            },
        }
    }

    fn message(&mut self, diff: &str) -> (r: String) {
        match self {
            MessageMode::Static => wip(diff),
            MessageMode::Generated { runner } => scribe(runner, diff),
        }
    }
}

} // verus!
