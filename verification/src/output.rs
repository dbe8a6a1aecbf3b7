//! What a command wrote.

use crate::text;
use vstd::prelude::*;
use vstd::utf8::{decode_utf8, valid_utf8};

verus! {

/// What `String::from_utf8_lossy` makes of some bytes.
pub uninterp spec fn lossy(bytes: Seq<u8>) -> Seq<char>;

/// `String::from_utf8_lossy`: the result depends on the bytes alone, and valid UTF-8 is decoded
/// as it stands.
#[verifier::external_body]
pub(crate) fn lossy_text(bytes: &[u8]) -> (r: String)
    ensures
        r@ == lossy(bytes@),
        valid_utf8(bytes@) ==> r@ == decode_utf8(bytes@),
{
    String::from_utf8_lossy(bytes).to_string()
}

/// What a command wrote to its two outputs, as one text.
pub fn combined_output(stdout: &[u8], stderr: &[u8]) -> (r: String)
    ensures
        r@ == lossy(stdout@) + lossy(stderr@),
{
    let out = lossy_text(stdout);
    let err = lossy_text(stderr);
    text::cat(out.as_str(), err.as_str())
}

/// What a command came to.
pub struct CommandOutput {
    pub success: bool,
    /// Its exit code, if it has one.
    pub code: Option<i32>,
    pub stdout: Vec<u8>,
    pub stderr: Vec<u8>,
}

/// An exit code, as it is shown.
pub open spec fn code_text(code: Option<i32>) -> Seq<char> {
    match code {
        Some(c) => "Some("@ + text::signed_decimal(c as int) + ")"@,
        None => "None"@,
    }
}

pub fn show_code(code: Option<i32>) -> (r: String)
    ensures
        r@ == code_text(code),
{
    match code {
        Some(c) => text::cat3("Some(", text::signed_number(c as i64).as_str(), ")"),
        None => "None".to_owned(),
    }
}

impl CommandOutput {
    /// All that the command wrote.
    pub open spec fn all_text(self) -> Seq<char> {
        lossy(self.stdout@) + lossy(self.stderr@)
    }

    pub fn text(&self) -> (r: String)
        ensures
            r@ == self.all_text(),
    {
        combined_output(self.stdout.as_slice(), self.stderr.as_slice())
    }
}

} // verus!
