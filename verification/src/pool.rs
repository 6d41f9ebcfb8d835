//! Validation, encoding and outcome decoding for connection-pool creation.
//!
//! Pool creation is the one multi-argument, multi-buffer operation of the
//! layer. Its three text parameters (data source, username, password — empty
//! means "use default / no auth") travel to the native call as terminated
//! byte buffers with explicit lengths, and its connection-count bounds are
//! validated locally before any native work: native validation failures come
//! back only as an opaque code with no parameter identified, while a local
//! rejection names the fault by never leaving this layer. On a `Success`
//! status the native library supplies the pool's assigned name as bytes,
//! which are decoded lossily into an owned string.

use vstd::prelude::*;

use crate::codes::is_known_status;
use crate::codes::spec_classify;
use crate::codes::spec_mode_code;
use crate::codes::Mode;
use crate::codes::ReturnCode;
use crate::message::lossy_utf8_of;
use crate::message::spec_all_ascii;
use crate::message::spec_ascii_chars;

verus! {

/// Whether connection-count bounds allow a pool to be created: growth by a
/// zero increment is impossible, and the minimum may not exceed the maximum.
pub open spec fn spec_bounds_ok(conn_min: u32, conn_max: u32, conn_incr: u32) -> bool {
    conn_incr >= 1 && conn_min <= conn_max
}

/// Whether a text parameter can be carried in a terminated native buffer:
/// no byte of it may be the terminator itself.
pub open spec fn spec_no_nul(bytes: Seq<u8>) -> bool {
    forall|i: int| 0 <= i < bytes.len() ==> bytes[i] != 0
}

/// Everything the native pool-create call is handed, encoded and validated:
/// each text parameter as a terminated buffer beside its explicit length
/// (which excludes the terminator), the validated connection-count bounds,
/// and the native mode flag.
#[derive(Debug)]
pub struct PoolRequest {
    pub data_source: Vec<u8>,
    pub data_source_len: u32,
    pub username: Vec<u8>,
    pub username_len: u32,
    pub password: Vec<u8>,
    pub password_len: u32,
    pub conn_min: u32,
    pub conn_max: u32,
    pub conn_incr: u32,
    pub mode: u32,
}

/// Whether one encoded text parameter is well formed: terminated exactly
/// once, at its end, with the explicit length counting the bytes before the
/// terminator.
pub open spec fn spec_param_wf(buf: Seq<u8>, len: u32) -> bool {
    &&& buf.len() >= 1
    &&& buf.last() == 0
    &&& spec_no_nul(buf.drop_last())
    &&& len as int == buf.len() - 1
}

impl PoolRequest {
    /// Whether the whole request is well formed: every buffer terminated
    /// and measured, bounds valid, and the mode flag one of the two the
    /// native library defines.
    pub open spec fn wf(self) -> bool {
        &&& spec_param_wf(self.data_source@, self.data_source_len)
        &&& spec_param_wf(self.username@, self.username_len)
        &&& spec_param_wf(self.password@, self.password_len)
        &&& spec_bounds_ok(self.conn_min, self.conn_max, self.conn_incr)
        &&& (self.mode == 0 || self.mode == 1)
    }
}

/// The terminated buffer for a text parameter: the bytes themselves with
/// the terminator appended.
fn terminate(bytes: &Vec<u8>) -> (r: Vec<u8>)
    ensures
        r@ == bytes@ + seq![0u8],
{
    let mut out: Vec<u8> = Vec::new();
    let mut i: usize = 0;
    while i < bytes.len()
        invariant
            i <= bytes@.len(),
            out@ == bytes@.take(i as int),
        decreases bytes@.len() - i,
    {
        out.push(bytes[i]);
        assert(out@ == bytes@.take(i + 1));
        i = i + 1;
    }
    assert(bytes@.take(bytes@.len() as int) == bytes@);
    out.push(0);
    out
}

/// Validation and encoding step of pool creation, before any native work.
/// Bounds that make pool growth impossible (`conn_incr == 0`) or are
/// inconsistent (`conn_min > conn_max`) are rejected locally as `Error`;
/// otherwise the request holds exactly the given parameters, each text one
/// terminated and beside its explicit length.
pub fn prepare_pool_request(
    data_source: &Vec<u8>,
    conn_min: u32,
    conn_max: u32,
    conn_incr: u32,
    username: &Vec<u8>,
    password: &Vec<u8>,
    mode: Mode,
) -> (r: Result<PoolRequest, ReturnCode>)
    requires
        spec_no_nul(data_source@),
        spec_no_nul(username@),
        spec_no_nul(password@),
        data_source@.len() <= u32::MAX - 1,
        username@.len() <= u32::MAX - 1,
        password@.len() <= u32::MAX - 1,
    ensures
        spec_bounds_ok(conn_min, conn_max, conn_incr) ==> (r matches Ok(q) && q.wf()
            && q.data_source@ == data_source@ + seq![0u8] && q.data_source_len == data_source@.len()
            && q.username@ == username@ + seq![0u8] && q.username_len == username@.len()
            && q.password@ == password@ + seq![0u8] && q.password_len == password@.len()
            && q.conn_min == conn_min && q.conn_max == conn_max && q.conn_incr == conn_incr
            && q.mode == spec_mode_code(mode)),
        !spec_bounds_ok(conn_min, conn_max, conn_incr) ==> r == Err::<PoolRequest, ReturnCode>(
            ReturnCode::Error,
        ),
{
    if conn_incr == 0 || conn_min > conn_max {
        Err(ReturnCode::Error)
    } else {
        let q = PoolRequest {
            data_source: terminate(data_source),
            data_source_len: data_source.len() as u32,
            username: terminate(username),
            username_len: username.len() as u32,
            password: terminate(password),
            password_len: password.len() as u32,
            conn_min,
            conn_max,
            conn_incr,
            mode: mode.to_native(),
        };
        assert(q.data_source@.drop_last() == data_source@);
        assert(q.username@.drop_last() == username@);
        assert(q.password@.drop_last() == password@);
        Ok(q)
    }
}

/// Decision and decoding step after the native pool-create call: `status`
/// is the call's status and `name` the pool-name bytes the native library
/// supplied, already copied out of its buffer (releasing that buffer is the
/// caller's step, whatever the status). On `Success` the name is decoded
/// lossily into an owned string; on any other classified code only that
/// code comes back, to be paired with the error reporter by the caller.
pub fn pool_create_outcome(status: i32, name: &Vec<u8>) -> (r: Result<String, ReturnCode>)
    requires
        is_known_status(status as int),
    ensures
        spec_classify(status as int) == ReturnCode::Success ==> (r matches Ok(s) && s@
            == lossy_utf8_of(name@) && (s@.len() == 0 <==> name@.len() == 0) && (spec_all_ascii(
            name@,
        ) ==> s@ == spec_ascii_chars(name@))),
        spec_classify(status as int) != ReturnCode::Success ==> r == Err::<String, ReturnCode>(
            spec_classify(status as int),
        ),
{
    let code = ReturnCode::classify(status);
    match code {
        ReturnCode::Success => Ok(crate::message::lossy_decode(name)),
        _ => Err(code),
    }
}

} // verus!
