use vstd::prelude::*;
use vstd::string::*;

verus! {

/// The failure of the shell to run a command, as the message that describes it.
#[derive(Debug, Clone, PartialEq, Eq)]
pub struct ShellError {
    pub message: String,
}

/// What running one command gave: its combined output, or the shell's failure.
pub type CommandOutcome = Result<String, ShellError>;

/// The text that introduces a shell failure in the output sent to the host.
pub open spec fn shell_error_prefix() -> Seq<char> {
    "Shell error: "@
}

/// The output text that stands for an outcome: the command's own output, or
/// for a failure the line `Shell error: <message>`.
pub open spec fn rendered(outcome: CommandOutcome) -> Seq<char> {
    match outcome {
        Ok(output) => output@,
        Err(err) => shell_error_prefix() + err.message@ + "\n"@,
    }
}

impl ShellError {
    pub fn new(message: String) -> (err: ShellError)
        ensures
            err.message@ == message@,
    {
        ShellError { message }
    }
}

/// Turns an outcome into the text sent back to the host. A failure of the
/// shell is no failure of the connection: it is reported as output.
pub fn render(outcome: CommandOutcome) -> (text: String)
    ensures
        text@ == rendered(outcome),
{
    match outcome {
        Ok(output) => output,
        Err(err) => {
            let line = String::from_str("Shell error: ");
            let line = line.concat(err.message.as_str());
            line.concat("\n")
        },
    }
}

} // verus!
