//! Owned handle values and the decisions taken after native lifecycle calls.
//!
//! A native handle is an opaque, address-sized token. The foreign calls that
//! create and free handles stand outside this library; it receives each
//! call's raw results (the status integer and the token written by the
//! native library) as plain values and decides what they mean: on `Success`
//! the token is wrapped as an owned handle, on any other classified code the
//! code is surfaced and the token must not be retained or freed. Release is
//! the asymmetric case: a failure during release has no recovery path, so
//! the decision yields at most a code to log.
//!
//! Ownership discipline: a child handle is allocated against a parent (the
//! environment) and must be released before it; this layer structures the
//! constructors so a child is only made against a live parent, and leaves
//! the release order itself to the owning scopes, as the native library
//! does.

use vstd::prelude::*;

use crate::codes::is_known_status;
use crate::codes::spec_classify;
use crate::codes::Mode;
use crate::codes::ReturnCode;

verus! {

/// Decision after the native generic-allocate call, which wrote `token` and
/// returned `status`: on `Success` the token is the caller's to own; on any
/// other classified code only that code comes back and the token is dead.
pub fn handle_alloc_outcome(status: i32, token: usize) -> (r: Result<usize, ReturnCode>)
    requires
        is_known_status(status as int),
    ensures
        spec_classify(status as int) == ReturnCode::Success ==> r == Ok::<usize, ReturnCode>(
            token,
        ),
        spec_classify(status as int) != ReturnCode::Success ==> r == Err::<usize, ReturnCode>(
            spec_classify(status as int),
        ),
{
    let code = ReturnCode::classify(status);
    match code {
        ReturnCode::Success => Ok(token),
        _ => Err(code),
    }
}

/// Decision after the native generic-free call that returned `status`.
/// Release has no error-recovery path: a non-`Success` code is handed back
/// only so the caller can log it before discarding it.
pub fn handle_free_outcome(status: i32) -> (r: Option<ReturnCode>)
    requires
        is_known_status(status as int),
    ensures
        spec_classify(status as int) == ReturnCode::Success ==> r is None,
        spec_classify(status as int) != ReturnCode::Success ==> r == Some(
            spec_classify(status as int),
        ),
{
    let code = ReturnCode::classify(status);
    match code {
        ReturnCode::Success => None,
        _ => Some(code),
    }
}

/// The root environment handle. Every other handle is allocated against an
/// environment and must be released before it.
#[derive(Debug)]
pub struct Env {
    raw: usize,
    threaded: bool,
}

impl Env {
    /// The opaque native token this handle carries.
    pub closed spec fn spec_raw(self) -> usize {
        self.raw
    }

    /// Whether the environment was created with the native library's
    /// thread-safety machinery engaged. Concurrent use of handles descended
    /// from this environment is sound only when this holds.
    pub closed spec fn spec_threaded(self) -> bool {
        self.threaded
    }

    /// Decision step of environment creation: the native environment-create
    /// call was made with the code of `mode` and wrote `token` while
    /// returning `status`. On `Success` the token becomes the owned root
    /// handle, which records whether thread-safety was selected.
    pub fn new(mode: Mode, status: i32, token: usize) -> (r: Result<Env, ReturnCode>)
        requires
            is_known_status(status as int),
        ensures
            spec_classify(status as int) == ReturnCode::Success ==> (r matches Ok(e) && e.spec_raw()
                == token && e.spec_threaded() == (mode == Mode::Threaded)),
            spec_classify(status as int) != ReturnCode::Success ==> r == Err::<Env, ReturnCode>(
                spec_classify(status as int),
            ),
    {
        let code = ReturnCode::classify(status);
        match code {
            ReturnCode::Success => Ok(Env { raw: token, threaded: mode == Mode::Threaded }),
            _ => Err(code),
        }
    }

    /// The native token, as the foreign calls need it.
    pub fn raw(&self) -> (r: usize)
        ensures
            r == self.spec_raw(),
    {
        self.raw
    }

    /// Whether thread-safety was selected at creation.
    pub fn is_threaded(&self) -> (r: bool)
        ensures
            r == self.spec_threaded(),
    {
        self.threaded
    }
}

/// An error handle, the diagnostic channel for calls made under its
/// environment.
#[derive(Debug)]
pub struct Error {
    raw: usize,
}

impl Error {
    /// The opaque native token this handle carries.
    pub closed spec fn spec_raw(self) -> usize {
        self.raw
    }

    /// Decision step of allocating an error handle: the native
    /// generic-allocate call was made with `env` as parent and the error
    /// kind code, wrote `token`, and returned `status`.
    pub fn new(env: &Env, status: i32, token: usize) -> (r: Result<Error, ReturnCode>)
        requires
            is_known_status(status as int),
        ensures
            spec_classify(status as int) == ReturnCode::Success ==> (r matches Ok(e) && e.spec_raw()
                == token),
            spec_classify(status as int) != ReturnCode::Success ==> r == Err::<Error, ReturnCode>(
                spec_classify(status as int),
            ),
    {
        match handle_alloc_outcome(status, token) {
            Ok(t) => Ok(Error { raw: t }),
            Err(code) => Err(code),
        }
    }

    /// The native token, as the foreign calls need it.
    pub fn raw(&self) -> (r: usize)
        ensures
            r == self.spec_raw(),
    {
        self.raw
    }
}

/// A connection-pool handle: the slot the native pool-create call fills.
#[derive(Debug)]
pub struct CPool {
    raw: usize,
}

impl CPool {
    /// The opaque native token this handle carries.
    pub closed spec fn spec_raw(self) -> usize {
        self.raw
    }

    /// Decision step of allocating a connection-pool handle: the native
    /// generic-allocate call was made with `env` as parent and the pool
    /// kind code, wrote `token`, and returned `status`.
    pub fn new(env: &Env, status: i32, token: usize) -> (r: Result<CPool, ReturnCode>)
        requires
            is_known_status(status as int),
        ensures
            spec_classify(status as int) == ReturnCode::Success ==> (r matches Ok(p) && p.spec_raw()
                == token),
            spec_classify(status as int) != ReturnCode::Success ==> r == Err::<CPool, ReturnCode>(
                spec_classify(status as int),
            ),
    {
        match handle_alloc_outcome(status, token) {
            Ok(t) => Ok(CPool { raw: t }),
            Err(code) => Err(code),
        }
    }

    /// The native token, as the foreign calls need it.
    pub fn raw(&self) -> (r: usize)
        ensures
            r == self.spec_raw(),
    {
        self.raw
    }
}

} // verus!
