//! What running a hook script gave: its trimmed output, or why it failed.
use vstd::prelude::*;

verus! {

/// The text that bytes decode to as UTF-8, if they are valid UTF-8.
pub uninterp spec fn utf8_text(bytes: Seq<u8>) -> Option<Seq<char>>;

/// Text without its leading and trailing whitespace.
pub uninterp spec fn trimmed(text: Seq<char>) -> Seq<char>;

/// Relies on String::from_utf8: the decoded text, or nothing for bytes that
/// are not valid UTF-8.
#[verifier::external_body]
fn decode_utf8(bytes: Vec<u8>) -> (r: Option<String>)
    ensures
        match r {
            Some(text) => utf8_text(bytes@) == Some(text@),
            None => utf8_text(bytes@) is None,
        },
{
    String::from_utf8(bytes).ok()
}

/// Relies on str::trim: the text without leading and trailing whitespace.
#[verifier::external_body]
fn trim_text(text: &String) -> (r: String)
    ensures
        r@ == trimmed(text@),
{
    text.trim().to_string()
}

/// Why a hook script gave no output.
#[derive(Debug, PartialEq, Eq)]
pub enum ShellError {
    /// The script exited unsuccessfully; what it wrote to stderr.
    HookFailed { stderr: Vec<u8> },
    /// Its standard output is not valid UTF-8.
    InvalidOutput,
}

/// The result of a finished hook script: an unsuccessful exit is an error
/// carrying stderr; otherwise stdout, decoded as UTF-8 and trimmed.
pub fn shell_output(success: bool, stdout: Vec<u8>, stderr: Vec<u8>) -> (r: Result<
    String,
    ShellError,
>)
    ensures
        !success ==> (r matches Err(ShellError::HookFailed { stderr: e }) && e@ == stderr@),
        success && utf8_text(stdout@) is None ==> r matches Err(ShellError::InvalidOutput),
        success && utf8_text(stdout@) is Some ==> (r matches Ok(out) && out@ == trimmed(
            utf8_text(stdout@).unwrap(),
        )),
{
    if !success {
        return Err(ShellError::HookFailed { stderr });
    }
    match decode_utf8(stdout) {
        Some(text) => Ok(trim_text(&text)),
        None => Err(ShellError::InvalidOutput),
    }
}

} // verus!
