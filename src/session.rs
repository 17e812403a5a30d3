//! Results of commands run on a guest over a remote shell.
use vstd::prelude::*;

verus! {

/// Text that `String::from_utf8_lossy` makes of some bytes.
pub uninterp spec fn utf8_lossy(b: Seq<u8>) -> Seq<char>;

/// Relies on `String::from_utf8_lossy`: the bytes decoded as UTF-8, each invalid sequence
/// replaced by U+FFFD; the text depends on the bytes alone.
#[verifier::external_body]
pub(crate) fn decode_lossy(b: &Vec<u8>) -> (r: String)
    ensures
        r@ == utf8_lossy(b@),
{
    String::from_utf8_lossy(b.as_slice()).into_owned()
}

/// Output and exit status of a command run on a guest.
#[derive(Clone, Debug)]
pub struct CommandResult {
    pub output: Vec<u8>,
    /// Exit code, when the command reported one.
    pub code: Option<u32>,
}

impl CommandResult {
    pub fn new(output: Vec<u8>, code: Option<u32>) -> (r: CommandResult)
        ensures
            r.output@ == output@,
            r.code == code,
    {
        CommandResult { output, code }
    }

    /// The output as text.
    pub fn output(&self) -> (r: String)
        ensures
            r@ == utf8_lossy(self.output@),
    {
        decode_lossy(&self.output)
    }

    /// Whether the command exited with code zero.
    pub fn success(&self) -> (r: bool)
        ensures
            r == (self.code == Some(0u32)),
    {
        match self.code {
            Some(c) => c == 0,
            None => false,
        }
    }
}

} // verus!
