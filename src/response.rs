//! The bytes of a response: a status line, a blank line, then the body.
use vstd::prelude::*;
use vstd::string::*;
use vstd::utf8::encode_utf8;

verus! {

/// What separates the status line from the body.
pub const BLANK_LINE: &'static str = "\r\n\r\n";

/// The characters of the blank-line separator.
pub open spec fn blank_line() -> Seq<char> {
    seq!['\r', '\n', '\r', '\n']
}

/// A response as text: status line, separator, body, and nothing else.
pub open spec fn response_text(status: Seq<char>, body: Seq<char>) -> Seq<char> {
    status + blank_line() + body
}

/// A response as it goes on the wire, UTF-8 encoded.
pub open spec fn response_bytes(status: Seq<char>, body: Seq<char>) -> Seq<u8> {
    encode_utf8(response_text(status, body))
}

/// Builds the bytes of a response from its status line and its body.
pub fn frame_response(status: &str, body: &str) -> (r: Vec<u8>)
    ensures
        r@ == response_bytes(status@, body@),
{
    proof {
        reveal_strlit("\r\n\r\n");
    }
    let mut text = String::from_str(status);
    text.append(BLANK_LINE);
    text.append(body);
    assert(text@ == response_text(status@, body@));
    text.as_str().as_bytes_vec()
}

} // verus!
