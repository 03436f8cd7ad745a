//! The clipboard escape sequence: copying goes through the terminal by
//! printing an OSC 52 sequence that carries the selected message,
//! base64-encoded. Building the sequence is verified here; writing it
//! to the terminal is the caller's business.

use base64::Engine;
use vstd::prelude::*;
use vstd::string::StringExecFns;

verus! {

/// The standard-alphabet, padded base64 encoding of a text's UTF-8
/// bytes: what base64's `STANDARD` engine returns, a function of the
/// text alone.
pub uninterp spec fn base64_of(text: Seq<char>) -> Seq<char>;

/// Relies on base64's `Engine::encode` with the `STANDARD` engine: the
/// padded standard-alphabet encoding of the input's UTF-8 bytes; an
/// empty input encodes to the empty string.
#[verifier::external_body]
fn base64_encode(text: &str) -> (r: String)
    ensures
        r@ == base64_of(text@),
        text@.len() == 0 ==> r@.len() == 0,
{
    base64::engine::general_purpose::STANDARD.encode(text)
}

/// Builds the OSC 52 escape sequence that asks the terminal to place
/// `text` on the clipboard: the fixed prefix, the base64 encoding of
/// the text, and the terminating BEL.
pub fn osc52_sequence(text: &str) -> (s: String)
    ensures
        s@ == "\u{1b}]52;c;"@ + base64_of(text@) + "\u{7}"@,
{
    let encoded = base64_encode(text);
    let mut s = String::from_str("\u{1b}]52;c;");
    s.append(encoded.as_str());
    s.append("\u{7}");
    proof {
        assert(s@ =~= "\u{1b}]52;c;"@ + base64_of(text@) + "\u{7}"@);
    }
    s
}

} // verus!
