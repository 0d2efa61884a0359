//! What a finished command hands back: its streams, and the text chosen from them.

use vstd::prelude::*;
use vstd::utf8::{decode_utf8, valid_utf8};

verus! {

/// What is kept of a child process that ran to its end.
#[derive(Clone, Debug, PartialEq, Eq)]
pub struct ProcessOutput {
    /// Whether the process ended with a success status.
    pub success: bool,
    /// Everything the process wrote to its standard output.
    pub stdout: Vec<u8>,
    /// Everything the process wrote to its standard error.
    pub stderr: Vec<u8>,
}

/// The stream that answers the caller: standard output after a success,
/// standard error after a failure.
pub open spec fn selected_stream(output: ProcessOutput) -> Seq<u8> {
    if output.success {
        output.stdout@
    } else {
        output.stderr@
    }
}

/// The text that `String::from_utf8_lossy` makes of a byte string.
pub uninterp spec fn utf8_lossy(bytes: Seq<u8>) -> Seq<char>;

/// Turns bytes into text with `String::from_utf8_lossy`.
///
/// Trusted: the text depends on the bytes alone, and bytes that are valid
/// UTF-8 come out as the text they encode. What stands in for an invalid
/// part is left to the standard library.
#[verifier::external_body]
fn lossy_text(bytes: &[u8]) -> (text: String)
    ensures
        text@ == utf8_lossy(bytes@),
        valid_utf8(bytes@) ==> text@ == decode_utf8(bytes@),
{
    String::from_utf8_lossy(bytes).into_owned()
}

/// Picks the stream that answers the caller.
pub fn select_stream(output: &ProcessOutput) -> (stream: &[u8])
    ensures
        stream@ == selected_stream(*output),
{
    if output.success {
        output.stdout.as_slice()
    } else {
        output.stderr.as_slice()
    }
}

/// The text sent back for a finished command: its standard output if it
/// succeeded, its standard error if it did not.
pub fn output_text(output: &ProcessOutput) -> (text: String)
    ensures
        text@ == utf8_lossy(selected_stream(*output)),
        valid_utf8(selected_stream(*output)) ==> text@ == decode_utf8(selected_stream(*output)),
{
    lossy_text(select_stream(output))
}

} // verus!
