//! What to answer once a run is over.

use vstd::prelude::*;
use vstd::string::*;
use vstd::utf8::{decode_utf8, encode_utf8, encode_utf8_decode_utf8, is_char_boundary, valid_utf8};
use crate::runnable::ExecutionOutcome;

verus! {

/// Texts shorter than this many bytes are shown whole.
pub const WHOLE_LIMIT: usize = 1990;

/// A longer text is cut after this many bytes.
pub const TRIMMED_LEN: usize = 1981;

/// Why no reply could be made of a completed run.
#[derive(Clone, Copy, Debug, PartialEq, Eq, Structural)]
pub enum ReplyError {
    /// A captured stream is not UTF-8 text.
    InvalidUtf8,
    /// The output is too long to show whole, and a character straddles
    /// the place where it would be cut.
    CutInsideCharacter,
}

pub open spec fn no_output_notice() -> Seq<char> {
    "Your program had no output to STDOUT or STDERR"@
}

pub open spec fn timeout_notice() -> Seq<char> {
    "Your program took too long to run."@
}

/// A text can be cut for display where it is short enough to need no cut,
/// or no character straddles the place of the cut.
pub open spec fn formattable(response: Seq<char>) -> bool {
    encode_utf8(response).len() >= WHOLE_LIMIT ==> is_char_boundary(
        encode_utf8(response),
        TRIMMED_LEN as int,
    )
}

/// The text as a code block: whole where it is short, else its first
/// bytes and a mark that it was trimmed.
pub open spec fn formatted(response: Seq<char>) -> Seq<char> {
    let bytes = encode_utf8(response);
    if bytes.len() < WHOLE_LIMIT {
        "```\n"@ + response + "\n```"@
    } else {
        "```"@ + decode_utf8(bytes.subrange(0, TRIMMED_LEN as int)) + "[TRIMMED]```"@
    }
}

/// The reply to a run that completed: the one stream that has output, as
/// a code block; a fixed notice where neither or both have.
pub open spec fn output_reply_text(stdout: Seq<char>, stderr: Seq<char>) -> Result<
    Seq<char>,
    ReplyError,
> {
    if stdout.len() > 0 && stderr.len() == 0 {
        if formattable(stdout) {
            Ok(formatted(stdout))
        } else {
            Err(ReplyError::CutInsideCharacter)
        }
    } else if stdout.len() == 0 && stderr.len() > 0 {
        if formattable(stderr) {
            Ok(formatted(stderr))
        } else {
            Err(ReplyError::CutInsideCharacter)
        }
    } else {
        Ok(no_output_notice())
    }
}

/// The reply to a run, whatever its outcome. A run that timed out or never
/// started gets the same fixed notice, and nothing of its output.
pub open spec fn reply_text(outcome: ExecutionOutcome) -> Result<Seq<char>, ReplyError> {
    match outcome {
        ExecutionOutcome::Completed { exit_status, stdout, stderr } => {
            if valid_utf8(stdout@) && valid_utf8(stderr@) {
                output_reply_text(decode_utf8(stdout@), decode_utf8(stderr@))
            } else {
                Err(ReplyError::InvalidUtf8)
            }
        },
        ExecutionOutcome::TimedOut => Ok(timeout_notice()),
        ExecutionOutcome::LaunchFailed { cause } => Ok(timeout_notice()),
    }
}

/// `reply` is the text, or the error, that `expected` asks for.
pub open spec fn is_reply(reply: Result<String, ReplyError>, expected: Result<Seq<char>, ReplyError>) -> bool {
    match (reply, expected) {
        (Ok(text), Ok(wanted)) => text@ == wanted,
        (Err(e), Err(wanted)) => e == wanted,
        _ => false,
    }
}

/// What a message shows for one run: who ran what, and what came of it.
pub open spec fn run_message_text(mention: Seq<char>, code: Seq<char>, reply: Seq<char>) -> Seq<char> {
    mention + "Ran"@ + code + "Output"@ + reply
}

/// `String::from_utf8`, with the error dropped. The contract claims that
/// the bytes are accepted exactly when they are well-formed UTF-8, and that
/// the text then holds the characters that they encode.
#[verifier::external_body]
fn utf8_text(bytes: Vec<u8>) -> (text: Option<String>)
    ensures
        text is Some <==> valid_utf8(bytes@),
        text matches Some(t) ==> t@ == decode_utf8(bytes@),
{
    String::from_utf8(bytes).ok()
}

/// Tells whether `format_output` accepts the text.
pub fn can_format(response: &str) -> (ok: bool)
    ensures
        ok == formattable(response@),
{
    response.as_bytes().len() < WHOLE_LIMIT || response.is_char_boundary(TRIMMED_LEN)
}

/// Renders captured output as a code block that fits in one message.
pub fn format_output(response: String) -> (text: String)
    requires
        formattable(response@),
    ensures
        text@ == formatted(response@),
{
    let whole = response.as_str();
    if whole.as_bytes().len() < WHOLE_LIMIT {
        let mut text = String::from_str("```\n");
        text.append(whole);
        text.append("\n```");
        text
    } else {
        let (head, _) = whole.split_at(TRIMMED_LEN);
        proof {
            encode_utf8_decode_utf8(head@);
        }
        let mut text = String::from_str("```");
        text.append(head);
        text.append("[TRIMMED]```");
        text
    }
}

fn checked_format(response: String) -> (reply: Result<String, ReplyError>)
    ensures
        is_reply(
            reply,
            if formattable(response@) {
                Ok(formatted(response@))
            } else {
                Err(ReplyError::CutInsideCharacter)
            },
        ),
{
    if can_format(response.as_str()) {
        Ok(format_output(response))
    } else {
        Err(ReplyError::CutInsideCharacter)
    }
}

/// Picks what to show of the two captured streams.
pub fn output_reply(stdout: String, stderr: String) -> (reply: Result<String, ReplyError>)
    ensures
        is_reply(reply, output_reply_text(stdout@, stderr@)),
{
    let has_stdout = !stdout.as_str().is_empty();
    let has_stderr = !stderr.as_str().is_empty();
    if has_stdout && !has_stderr {
        checked_format(stdout)
    } else if !has_stdout && has_stderr {
        checked_format(stderr)
    } else {
        Ok(String::from_str("Your program had no output to STDOUT or STDERR"))
    }
}

/// The reply to a run that did not complete. It carries no output.
pub fn failure_reply() -> (text: String)
    ensures
        text@ == timeout_notice(),
{
    String::from_str("Your program took too long to run.")
}

/// Makes the reply to a run out of its outcome.
pub fn reply_for(outcome: ExecutionOutcome) -> (reply: Result<String, ReplyError>)
    ensures
        is_reply(reply, reply_text(outcome)),
{
    match outcome {
        ExecutionOutcome::Completed { exit_status: _, stdout, stderr } => {
            match utf8_text(stdout) {
                Some(out) => match utf8_text(stderr) {
                    Some(err) => output_reply(out, err),
                    None => Err(ReplyError::InvalidUtf8),
                },
                None => Err(ReplyError::InvalidUtf8),
            }
        },
        ExecutionOutcome::TimedOut => Ok(failure_reply()),
        ExecutionOutcome::LaunchFailed { cause: _ } => Ok(failure_reply()),
    }
}

/// Puts together the message that answers a run.
pub fn run_message(mention: &str, code: &str, reply: &str) -> (text: String)
    ensures
        text@ == run_message_text(mention@, code@, reply@),
{
    let mut text = String::from_str(mention);
    text.append("Ran");
    text.append(code);
    text.append("Output");
    text.append(reply);
    text
}

} // verus!
