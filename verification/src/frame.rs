//! Wire framing: every message is a 4-byte unsigned big-endian length field
//! followed by exactly that many bytes of UTF-8 payload.

use vstd::prelude::*;
use vstd::string::StrSliceExecFns;
use vstd::string::StringSliceAdditionalSpecFns;
use crate::errors::MyError;

verus! {

/// Fixed capacity of a connection's receive buffer, in bytes. A frame whose
/// declared length exceeds it is refused and the connection is closed.
pub const BUFLEN: usize = 1024;

/// The number that a four-byte big-endian length prefix denotes.
pub open spec fn spec_len_from_be(b: Seq<u8>) -> int
    recommends
        b.len() == 4,
{
    b[0] * 0x100_0000 + b[1] * 0x1_0000 + b[2] * 0x100 + b[3]
}

/// The four-byte big-endian length prefix that denotes `n`.
pub open spec fn spec_len_to_be(n: u32) -> Seq<u8> {
    seq![
        (n / 0x100_0000) as u8,
        ((n / 0x1_0000) % 0x100) as u8,
        ((n / 0x100) % 0x100) as u8,
        (n % 0x100) as u8,
    ]
}

/// Reads a length prefix from the four bytes it was sent as.
pub fn decode_len(b: &[u8]) -> (n: u32)
    requires
        b@.len() == 4,
    ensures
        n == spec_len_from_be(b@),
{
    (b[0] as u32) * 0x100_0000 + (b[1] as u32) * 0x1_0000 + (b[2] as u32) * 0x100 + (b[3] as u32)
}

/// Validates a declared frame length against the receive buffer's capacity:
/// a frame longer than [`BUFLEN`] cannot be received.
pub fn check_frame_len(n: u32) -> (r: Result<usize, MyError>)
    ensures
        n <= BUFLEN ==> (r matches Ok(m) && m == n),
        n > BUFLEN ==> (r matches Err(e) && e == MyError::MessageTooLong),
{
    if n as usize <= BUFLEN {
        Ok(n as usize)
    } else {
        Err(MyError::MessageTooLong)
    }
}

/// Relies on String::from_utf8: succeeds exactly on valid UTF-8, and then
/// returns the string those bytes encode.
#[verifier::external_body]
fn utf8_to_string(bytes: Vec<u8>) -> (r: Result<String, MyError>)
    ensures
        r matches Ok(s) ==> vstd::utf8::valid_utf8(bytes@) && s@ == vstd::utf8::decode_utf8(
            bytes@,
        ),
        r matches Err(e) ==> !vstd::utf8::valid_utf8(bytes@) && e == MyError::NonUtf8,
        (r is Ok) == vstd::utf8::valid_utf8(bytes@),
{
    match String::from_utf8(bytes) {
        Ok(s) => Ok(s),
        Err(_) => Err(MyError::NonUtf8),
    }
}

/// Decodes a received payload: valid UTF-8 yields the text it encodes, and
/// anything else is a decode failure on that message.
pub fn decode_payload(bytes: Vec<u8>) -> (r: Result<String, MyError>)
    ensures
        vstd::utf8::valid_utf8(bytes@) ==> (r matches Ok(s) && s@
            == vstd::utf8::decode_utf8(bytes@) && vstd::utf8::encode_utf8(s@) == bytes@),
        !vstd::utf8::valid_utf8(bytes@) ==> (r matches Err(e) && e == MyError::NonUtf8),
{
    let r = utf8_to_string(bytes);
    proof {
        if vstd::utf8::valid_utf8(bytes@) {
            vstd::utf8::decode_utf8_encode_utf8(bytes@);
        }
    }
    r
}

/// Frames a response payload: its UTF-8 length in four big-endian bytes,
/// then the payload's bytes. A payload whose byte length does not fit the
/// four-byte field cannot be framed.
pub fn encode_frame(payload: &str) -> (r: Result<Vec<u8>, MyError>)
    ensures
        payload.spec_bytes().len() <= u32::MAX ==> (r matches Ok(frame) && frame@
            == spec_len_to_be(payload.spec_bytes().len() as u32) + payload.spec_bytes()),
        payload.spec_bytes().len() > u32::MAX ==> (r matches Err(e) && e
            == MyError::MessageTooLong),
{
    let mut body = payload.as_bytes_vec();
    if body.len() > u32::MAX as usize {
        return Err(MyError::MessageTooLong);
    }
    let n = body.len() as u32;
    let mut frame: Vec<u8> = Vec::new();
    frame.push((n / 0x100_0000) as u8);
    frame.push(((n / 0x1_0000) % 0x100) as u8);
    frame.push(((n / 0x100) % 0x100) as u8);
    frame.push((n % 0x100) as u8);
    frame.append(&mut body);
    proof {
        assert(frame@ =~= spec_len_to_be(n) + payload.spec_bytes());
    }
    Ok(frame)
}

/// The length prefix round trip: the four bytes written for `n` decode back
/// to `n`.
pub proof fn lemma_len_prefix_round_trip(n: u32)
    ensures
        spec_len_from_be(spec_len_to_be(n)) == n,
{
    assert((n / 0x100_0000) * 0x100_0000 + ((n / 0x1_0000) % 0x100) * 0x1_0000 + ((n / 0x100)
        % 0x100) * 0x100 + (n % 0x100) == n) by (bit_vector);
}

} // verus!
