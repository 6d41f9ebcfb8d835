//! Decoding of diagnostic text from a terminated byte buffer.
//!
//! The native error-retrieval call fills a caller-owned buffer of fixed
//! capacity with a terminated byte string. On `Success` the bytes up to the
//! first terminator are the message and are decoded lossily (diagnostic text
//! is best effort: undecodable bytes must not abort the read); on any other
//! classified code the buffer's contents are meaningless and only the code
//! is surfaced.

use vstd::prelude::*;

use crate::codes::is_known_status;
use crate::codes::spec_classify;
use crate::codes::ReturnCode;

verus! {

/// Capacity, in bytes, of the buffer handed to the native error-retrieval
/// call.
pub const MAX_ERROR_MESSAGE_SIZE: usize = 3024;

/// The characters that a lossy text decoding yields for a byte sequence.
/// Valid sequences pass through; invalid ones become replacement characters.
pub uninterp spec fn lossy_utf8_of(bytes: Seq<u8>) -> Seq<char>;

/// Whether every byte is ASCII, and so decodes as itself.
pub open spec fn spec_all_ascii(bytes: Seq<u8>) -> bool {
    forall|i: int| 0 <= i < bytes.len() ==> bytes[i] < 128
}

/// ASCII bytes read as characters, one for one.
pub open spec fn spec_ascii_chars(bytes: Seq<u8>) -> Seq<char> {
    Seq::new(bytes.len(), |i: int| bytes[i] as char)
}

/// Relies on String::from_utf8_lossy: the result is a function of the bytes
/// alone; it is empty exactly for empty input, since every invalid sequence
/// is replaced rather than dropped; bytes that are all ASCII are valid and
/// pass through unchanged.
#[verifier::external_body]
pub(crate) fn lossy_decode(bytes: &Vec<u8>) -> (r: String)
    ensures
        r@ == lossy_utf8_of(bytes@),
        (bytes@.len() == 0) <==> (r@.len() == 0),
        spec_all_ascii(bytes@) ==> r@ == spec_ascii_chars(bytes@),
{
    String::from_utf8_lossy(bytes).into_owned()
}

/// Length of the message held in a terminated buffer: the count of bytes
/// before the first zero byte, or the whole length when none occurs.
pub open spec fn spec_message_len(bytes: Seq<u8>) -> int
    decreases bytes.len(),
{
    if bytes.len() == 0 {
        0
    } else if bytes[0] == 0 {
        0
    } else {
        1 + spec_message_len(bytes.skip(1))
    }
}

/// The message bytes held in a terminated buffer: everything before the
/// first zero byte.
pub open spec fn spec_message_of(bytes: Seq<u8>) -> Seq<u8> {
    bytes.take(spec_message_len(bytes))
}

/// A scan that found no zero byte among the first `n` and a zero byte (or
/// the end) at `n` has found the message length.
proof fn lemma_message_len_from_scan(bytes: Seq<u8>, n: int)
    requires
        0 <= n <= bytes.len(),
        forall|j: int| 0 <= j < n ==> bytes[j] != 0,
        n < bytes.len() ==> bytes[n] == 0,
    ensures
        spec_message_len(bytes) == n,
    decreases n,
{
    if n == 0 {
    } else {
        lemma_message_len_from_scan(bytes.skip(1), n - 1);
    }
}

/// Decision and decoding step of diagnostic retrieval: the native
/// error-message call against an error handle and a record index filled
/// `buf` and returned `status`. On `Success` the buffer's bytes up to the
/// first terminator are decoded lossily into an owned message; on any other
/// classified code (a record index beyond the retained diagnostics yields
/// `NoData`) the buffer is meaningless and the code comes back unchanged.
pub fn decode_error_message(status: i32, buf: &Vec<u8>) -> (r: Result<String, ReturnCode>)
    requires
        is_known_status(status as int),
    ensures
        spec_classify(status as int) == ReturnCode::Success ==> (r matches Ok(m) && m@
            == lossy_utf8_of(spec_message_of(buf@)) && (m@.len() == 0 <==> spec_message_len(buf@)
            == 0) && (spec_all_ascii(spec_message_of(buf@)) ==> m@ == spec_ascii_chars(
            spec_message_of(buf@),
        ))),
        spec_classify(status as int) != ReturnCode::Success ==> r == Err::<String, ReturnCode>(
            spec_classify(status as int),
        ),
{
    let code = ReturnCode::classify(status);
    match code {
        ReturnCode::Success => {
            let mut prefix: Vec<u8> = Vec::new();
            let mut i: usize = 0;
            while i < buf.len() && buf[i] != 0
                invariant
                    i <= buf@.len(),
                    prefix@ == buf@.take(i as int),
                    forall|j: int| 0 <= j < i ==> buf@[j] != 0,
                decreases buf@.len() - i,
            {
                prefix.push(buf[i]);
                assert(prefix@ == buf@.take(i + 1));
                i = i + 1;
            }
            proof {
                lemma_message_len_from_scan(buf@, i as int);
            }
            Ok(lossy_decode(&prefix))
        },
        _ => Err(code),
    }
}

} // verus!
