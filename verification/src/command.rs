//! Answers to the commands that the user interface sends: greetings, and
//! the report on a shell command that was run on its behalf.

use vstd::prelude::*;
use vstd::utf8::{decode_utf8, valid_utf8};
use crate::text::{decode_lossy, lossy_text};

verus! {

/// What running a command gave: whether it exited successfully, what it
/// wrote, and its exit code if it has one.
#[derive(Debug, PartialEq, Eq)]
pub struct CommandOutput {
    pub success: bool,
    pub stdout: Vec<u8>,
    pub stderr: Vec<u8>,
    pub exit_code: Option<i32>,
}

/// The report on a command for the user interface, with the output as text.
#[derive(Debug, PartialEq, Eq)]
pub struct CommandResult {
    pub success: bool,
    pub stdout: String,
    pub stderr: String,
    pub exit_code: Option<i32>,
}

/// A `CommandResult` with its texts as sequences of characters.
pub struct CommandResultView {
    pub success: bool,
    pub stdout: Seq<char>,
    pub stderr: Seq<char>,
    pub exit_code: Option<i32>,
}

impl View for CommandResult {
    type V = CommandResultView;

    open spec fn view(&self) -> CommandResultView {
        CommandResultView {
            success: self.success,
            stdout: self.stdout@,
            stderr: self.stderr@,
            exit_code: self.exit_code,
        }
    }
}

/// The report on `output`: status and exit code as they are, both streams
/// decoded lossily. A stream that is valid UTF-8 is shown as it was written.
pub open spec fn report_of(output: CommandOutput) -> CommandResultView {
    CommandResultView {
        success: output.success,
        stdout: lossy_text(output.stdout@),
        stderr: lossy_text(output.stderr@),
        exit_code: output.exit_code,
    }
}

/// The message for a command that could not be run for `reason`.
pub open spec fn failure_message(reason: Seq<char>) -> Seq<char> {
    "Failed to execute command: "@ + reason
}

/// Turns the outcome of running a command into the answer for the user
/// interface: a report on what the command gave, or a message that says
/// why it could not be run.
pub fn execute_command(outcome: Result<CommandOutput, String>) -> (answer: Result<
    CommandResult,
    String,
>)
    ensures
        match outcome {
            Ok(output) => {
                &&& answer is Ok
                &&& answer->Ok_0@ == report_of(output)
                &&& valid_utf8(output.stdout@) ==> answer->Ok_0.stdout@ == decode_utf8(output.stdout@)
                &&& valid_utf8(output.stderr@) ==> answer->Ok_0.stderr@ == decode_utf8(output.stderr@)
            },
            Err(reason) => answer is Err && answer->Err_0@ == failure_message(reason@),
        },
{
    match outcome {
        Ok(output) => Ok(
            CommandResult {
                success: output.success,
                stdout: decode_lossy(&output.stdout),
                stderr: decode_lossy(&output.stderr),
                exit_code: output.exit_code,
            },
        ),
        Err(reason) => {
            let mut message = String::from_str("Failed to execute command: ");
            message.append(reason.as_str());
            Err(message)
        },
    }
}

/// The greeting for `name`.
pub open spec fn greeting(name: Seq<char>) -> Seq<char> {
    "HelloScreen, "@ + name + "! You've been greeted from Rust!"@
}

/// The acknowledgement of the request `wish`.
pub open spec fn acknowledgement(wish: Seq<char>) -> Seq<char> {
    "Your wish is my command! You requested: "@ + wish
}

/// Greets `name`.
pub fn greet(name: &str) -> (text: String)
    ensures
        text@ == greeting(name@),
{
    let mut text = String::from_str("HelloScreen, ");
    text.append(name);
    text.append("! You've been greeted from Rust!");
    text
}

/// Acknowledges the request `wish`.
pub fn prompt(wish: &str) -> (text: String)
    ensures
        text@ == acknowledgement(wish@),
{
    let mut text = String::from_str("Your wish is my command! You requested: ");
    text.append(wish);
    text
}

} // verus!
