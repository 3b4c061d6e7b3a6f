//! Processes, as plain values.
//!
//! The library never starts a process. It says which command line to run and
//! reads what came of it.

use crate::text;
use vstd::prelude::*;
use vstd::utf8::*;

verus! {

/// A program and its arguments. Each argument is one element of the argument
/// vector: nothing splits it on the way to the program.
#[derive(Debug)]
pub struct CommandLine {
    pub program: String,
    pub args: Vec<String>,
}

/// The characters of a [`CommandLine`].
pub struct CommandView {
    pub program: Seq<char>,
    pub args: Seq<Seq<char>>,
}

impl View for CommandLine {
    type V = CommandView;

    open spec fn view(&self) -> CommandView {
        CommandView { program: self.program@, args: text::texts(self.args@) }
    }
}

/// What a finished process left behind.
#[derive(Debug)]
pub struct ProcessOutput {
    /// The process reported success.
    pub success: bool,
    /// Its exit code; `None` when a signal ended it.
    pub exit_code: Option<i32>,
    pub stdout: Vec<u8>,
    pub stderr: Vec<u8>,
}

/// The process ran and reported success.
pub open spec fn ran_well(end: Result<ProcessOutput, String>) -> bool {
    end matches Ok(output) && output.success
}

/// Whether the process ran and reported success. One that could not be run at
/// all counts as failed.
pub fn succeeded(end: &Result<ProcessOutput, String>) -> (r: bool)
    ensures
        r == ran_well(*end),
{
    match end {
        Ok(output) => output.success,
        Err(_) => false,
    }
}

/// The one value that a successful process printed: its output without the
/// white space around it. Nothing when the process failed, or printed nothing,
/// or printed something that is not UTF-8.
pub open spec fn printed(end: Result<ProcessOutput, String>) -> Option<Seq<char>> {
    match end {
        Ok(output) => {
            let value = text::trimmed(decode_utf8(output.stdout@));
            if output.success && valid_utf8(output.stdout@) && value.len() > 0 {
                Some(value)
            } else {
                None
            }
        },
        Err(_) => None,
    }
}

/// The characters of an optional text.
pub open spec fn optional(text: Option<String>) -> Option<Seq<char>> {
    match text {
        Some(t) => Some(t@),
        None => None,
    }
}

pub fn printed_value(end: Result<ProcessOutput, String>) -> (r: Option<String>)
    ensures
        optional(r) == printed(end),
{
    match end {
        Ok(output) => {
            if !output.success {
                return None;
            }
            match text::from_utf8(output.stdout) {
                Some(all) => {
                    let value = text::trim(&all);
                    if value.as_str().is_empty() {
                        None
                    } else {
                        Some(value)
                    }
                },
                None => None,
            }
        },
        Err(_) => None,
    }
}

/// A program's own complaint: its standard error without the white space around
/// it.
pub open spec fn complaint(stderr: Seq<u8>) -> Seq<char> {
    text::trimmed(text::utf8_lossy(stderr))
}

pub fn complaint_of(stderr: &Vec<u8>) -> (r: String)
    ensures
        r@ == complaint(stderr@),
{
    text::trim(&text::from_utf8_lossy(stderr.as_slice()))
}

// ---------------------------------------------------------------------------
// Laws
// ---------------------------------------------------------------------------

/// A process counts as successful exactly when it ran and reported success, and a
/// text that may be missing is modelled as it is.
pub proof fn law_success_is_what_the_process_reports(output: ProcessOutput, e: String, t: String)
    ensures
        ran_well(Ok(output)) == output.success,
        !ran_well(Err(e)),
        optional(Some(t)) == Some(t@),
        optional(None) == None::<Seq<char>>,
{
}

/// A command line is modelled argument for argument, in order, with none left out.
pub proof fn law_a_command_line_is_its_arguments(command: CommandLine)
    ensures
        command@.program == command.program@,
        command@.args.len() == command.args@.len(),
        forall|i: int| 0 <= i < command.args@.len() ==> #[trigger] command@.args[i]
            == command.args@[i]@,
{
}

/// The value that a successful process printed is all that it printed, without the
/// white space around it. A process that failed, or printed nothing but white space,
/// or no UTF-8, gave no value.
pub proof fn law_a_printed_value_is_all_that_was_printed(
    output: ProcessOutput,
    e: String,
    before: Seq<char>,
    value: Seq<char>,
    after: Seq<char>,
)
    requires
        text::is_blank(before),
        text::is_blank(after),
        value.len() > 0 ==> !text::is_white_space(value[0]) && !text::is_white_space(value.last()),
    ensures
        output.success && output.stdout@ == encode_utf8(before + value + after) ==> printed(
            Ok(output),
        ) == if value.len() > 0 {
            Some(value)
        } else {
            None
        },
        !output.success ==> printed(Ok(output)) is None,
        !valid_utf8(output.stdout@) ==> printed(Ok(output)) is None,
        printed(Err(e)) is None,
{
    let all = before + value + after;
    text::law_trimming_keeps_what_stands_between(before, value, after);
    encode_utf8_valid_utf8(all);
    encode_utf8_decode_utf8(all);
}

/// A complaint is all of standard error, without the white space around it.
pub proof fn law_a_complaint_is_all_of_standard_error(
    bytes: Seq<u8>,
    before: Seq<char>,
    words: Seq<char>,
    after: Seq<char>,
)
    requires
        text::is_blank(before),
        text::is_blank(after),
        words.len() > 0 ==> !text::is_white_space(words[0]) && !text::is_white_space(words.last()),
    ensures
        bytes == encode_utf8(before + words + after) ==> complaint(bytes) == words,
        !valid_utf8(bytes) ==> complaint(bytes) == text::trimmed(text::utf8_repaired(bytes)),
{
    text::law_trimming_keeps_what_stands_between(before, words, after);
    text::law_utf8_comes_back(before + words + after, bytes);
}

} // verus!
