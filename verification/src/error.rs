//! What can go wrong, and how it is reported.

use crate::text::{decimal, decimal_text, errno_display, format_errno};
use vstd::prelude::*;

verus! {

/// `std::io::Error`, carried inside errors and never looked into.
#[verifier::external_type_specification]
#[verifier::external_body]
pub struct ExIoError(std::io::Error);

/// Errors that can occur during command execution.
#[derive(Debug)]
pub enum CommandError {
    /// The command could not be spawned.
    Spawn(std::io::Error),
    /// The command has no standard output to read.
    StdoutPipe,
    /// The command has no standard error to read.
    StderrPipe,
    /// The output of the command could not be read.
    Io(std::io::Error),
    /// The command could not be killed.
    Kill(std::io::Error),
    /// The exit of the command could not be awaited.
    Wait(std::io::Error),
    /// The timeouts contradict each other.
    InvalidTimeout(String),
}

impl CommandError {
    /// What the error says. The errors that lie behind it are not part of it.
    pub open spec fn message(self) -> Seq<char> {
        match self {
            CommandError::Spawn(_) => "Failed to spawn command"@,
            CommandError::StdoutPipe => "Failed to get command stdout"@,
            CommandError::StderrPipe => "Failed to get command stderr"@,
            CommandError::Io(_) => "I/O error reading command output"@,
            CommandError::Kill(_) => "Failed to kill command"@,
            CommandError::Wait(_) => "Failed to wait for command exit"@,
            CommandError::InvalidTimeout(text) => "Invalid timeout configuration: "@ + text@,
        }
    }

    pub fn message_text(&self) -> (text: String)
        ensures
            text@ == self.message(),
    {
        match self {
            CommandError::Spawn(_) => "Failed to spawn command".to_string(),
            CommandError::StdoutPipe => "Failed to get command stdout".to_string(),
            CommandError::StderrPipe => "Failed to get command stderr".to_string(),
            CommandError::Io(_) => "I/O error reading command output".to_string(),
            CommandError::Kill(_) => "Failed to kill command".to_string(),
            CommandError::Wait(_) => "Failed to wait for command exit".to_string(),
            CommandError::InvalidTimeout(fault) => {
                let mut text = "Invalid timeout configuration: ".to_string();
                text.append(fault.as_str());
                text
            },
        }
    }
}

/// What an error says depends on its kind alone; only of invalid timeouts it goes
/// on to say what is wrong with them.
pub proof fn law_what_an_error_says(e: std::io::Error, fault: String)
    ensures
        CommandError::Spawn(e).message() == "Failed to spawn command"@,
        CommandError::StdoutPipe.message() == "Failed to get command stdout"@,
        CommandError::StderrPipe.message() == "Failed to get command stderr"@,
        CommandError::Io(e).message() == "I/O error reading command output"@,
        CommandError::Kill(e).message() == "Failed to kill command"@,
        CommandError::Wait(e).message() == "Failed to wait for command exit"@,
        "Invalid timeout configuration: "@.is_prefix_of(
            CommandError::InvalidTimeout(fault).message(),
        ),
        CommandError::InvalidTimeout(fault).message().skip(
            "Invalid timeout configuration: "@.len() as int,
        ) == fault@,
{
    let head = "Invalid timeout configuration: "@;
    let message = CommandError::InvalidTimeout(fault).message();
    assert(message.take(head.len() as int) =~= head);
    assert(message.skip(head.len() as int) =~= fault@);
}

/// The I/O error of kind `Other` that carries `message`.
pub uninterp spec fn other_io_error(message: Seq<char>) -> std::io::Error;

/// `std::io::Error::new` with the kind `Other`: an error that carries the
/// message. It is determined by the message.
#[verifier::external_body]
fn new_other_io_error(message: String) -> (e: std::io::Error)
    ensures
        e == other_io_error(message@),
{
    std::io::Error::new(std::io::ErrorKind::Other, message)
}

/// The text that says that the minimum lies above the maximum, given both in
/// human terms.
pub open spec fn minimum_above_maximum(minimum: Seq<char>, maximum: Seq<char>) -> Seq<char> {
    "minimum_timeout ("@ + minimum + ") cannot be greater than maximum_timeout ("@ + maximum + ")"@
}

pub fn minimum_above_maximum_text(minimum: &str, maximum: &str) -> (text: String)
    ensures
        text@ == minimum_above_maximum(minimum@, maximum@),
{
    let mut text = "minimum_timeout (".to_string();
    text.append(minimum);
    text.append(") cannot be greater than maximum_timeout (");
    text.append(maximum);
    text.append(")");
    text
}

/// The text names the minimum, then the maximum, each in its own place, whatever
/// they are.
pub proof fn law_text_names_both_spans(minimum: Seq<char>, maximum: Seq<char>)
    ensures
        ({
            let text = minimum_above_maximum(minimum, maximum);
            let rest = text.skip(("minimum_timeout ("@.len() + minimum.len()) as int);
            &&& "minimum_timeout ("@.is_prefix_of(text)
            &&& minimum.is_prefix_of(text.skip("minimum_timeout ("@.len() as int))
            &&& ") cannot be greater than maximum_timeout ("@.is_prefix_of(rest)
            &&& rest.skip(") cannot be greater than maximum_timeout ("@.len() as int) == maximum
                + ")"@
        }),
{
    let text = minimum_above_maximum(minimum, maximum);
    let head = "minimum_timeout ("@;
    let middle = ") cannot be greater than maximum_timeout ("@;
    let rest = text.skip((head.len() + minimum.len()) as int);
    assert(text.take(head.len() as int) =~= head);
    assert(text.skip(head.len() as int).take(minimum.len() as int) =~= minimum);
    assert(rest.take(middle.len() as int) =~= middle);
    assert(rest.skip(middle.len() as int) =~= maximum + ")"@);
}

/// The text that says why the process group of `pid` could not be killed.
pub open spec fn kill_failure(pid: u32, reason: Seq<char>) -> Seq<char> {
    "Failed to kill process group for PID "@ + decimal(pid as nat) + ": "@ + reason
}

/// The text names the process in decimal, then gives the reason word for word.
pub proof fn law_text_names_the_process(pid: u32, reason: Seq<char>)
    ensures
        ({
            let text = kill_failure(pid, reason);
            let rest = text.skip("Failed to kill process group for PID "@.len() as int);
            &&& "Failed to kill process group for PID "@.is_prefix_of(text)
            &&& decimal(pid as nat).is_prefix_of(rest)
            &&& rest.skip(decimal(pid as nat).len() as int) == ": "@ + reason
        }),
{
    let text = kill_failure(pid, reason);
    let head = "Failed to kill process group for PID "@;
    let number = decimal(pid as nat);
    let rest = text.skip(head.len() as int);
    assert(text.take(head.len() as int) =~= head);
    assert(rest.take(number.len() as int) =~= number);
    assert(rest.skip(number.len() as int) =~= ": "@ + reason);
}

pub fn kill_failure_text(pid: u32, reason: &str) -> (text: String)
    ensures
        text@ == kill_failure(pid, reason@),
{
    let mut text = "Failed to kill process group for PID ".to_string();
    text.append(decimal_text(pid).as_str());
    text.append(": ");
    text.append(reason);
    text
}

/// The error of a process group of `pid` that could not be killed, with the
/// number of the operating system's reason.
pub fn kill_error(pid: u32, code: i32) -> (e: CommandError)
    ensures
        e == CommandError::Kill(other_io_error(kill_failure(pid, errno_display(code)))),
{
    let reason = format_errno(code);
    CommandError::Kill(new_other_io_error(kill_failure_text(pid, reason.as_str())))
}

} // verus!
