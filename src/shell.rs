//! What the interactive prompt does with one line of input.
use vstd::prelude::*;
use vstd::string::*;

verus! {

/// The prompt's reaction to a line.
#[derive(Clone, Copy, Debug, PartialEq, Eq, Structural)]
pub enum Command {
    /// An empty line: prompt again.
    Skip,
    /// `q` or `exit`: leave the loop.
    Quit,
    /// Anything else: run detection on the line.
    Detect,
}

/// The command for an already trimmed line; the quit words are case-sensitive.
pub open spec fn command_spec(line: Seq<char>) -> Command {
    if line.len() == 0 {
        Command::Skip
    } else if line == "q"@ || line == "exit"@ {
        Command::Quit
    } else {
        Command::Detect
    }
}

fn same_text(a: &str, b: &str) -> (r: bool)
    ensures
        r == (a@ == b@),
{
    let n = a.unicode_len();
    if n != b.unicode_len() {
        return false;
    }
    let mut i: usize = 0;
    while i < n
        invariant
            i <= n,
            n == a@.len(),
            n == b@.len(),
            forall|j: int| 0 <= j < i ==> a@[j] == b@[j],
        decreases n - i,
    {
        if a.get_char(i) != b.get_char(i) {
            return false;
        }
        i += 1;
    }
    assert(a@ =~= b@);
    true
}

/// Decides what the prompt does with `line`, which the caller has trimmed.
pub fn command_of(line: &str) -> (r: Command)
    ensures
        r == command_spec(line@),
{
    if line.unicode_len() == 0 {
        Command::Skip
    } else if same_text(line, "q") || same_text(line, "exit") {
        Command::Quit
    } else {
        Command::Detect
    }
}

} // verus!
