//! Classification of native status integers and the registry of handle kinds.
//!
//! The native library identifies every handle category by a small unsigned
//! code and reports every call's outcome as a signed status integer. Both
//! mappings are closed: an integer outside the known set means this layer is
//! out of step with the native library's ABI, which is a fatal condition, not
//! a recoverable error. The total `try_` forms return `None` in that case so
//! the caller can abort loudly; the partial forms demand a known integer.

use vstd::prelude::*;

verus! {

/// Flag selecting whether the native library engages its internal
/// thread-safety machinery. `Threaded` must be chosen whenever handles
/// descended from one environment may be used from more than one execution
/// context at a time.
#[derive(Debug, Clone, Copy, PartialEq, Eq, Structural)]
pub enum Mode {
    Default,
    Threaded,
}

/// The native flag value that selects a mode.
pub open spec fn spec_mode_code(mode: Mode) -> u32 {
    match mode {
        Mode::Default => 0,
        Mode::Threaded => 1,
    }
}

impl Mode {
    /// The native flag value that selects this mode.
    pub fn to_native(self) -> (r: u32)
        ensures
            r == spec_mode_code(self),
    {
        match self {
            Mode::Default => 0,
            Mode::Threaded => 1,
        }
    }
}

/// Outcome of a native call, classified from its status integer.
#[derive(Debug, Clone, Copy, PartialEq, Eq, Structural)]
pub enum ReturnCode {
    Success,
    SuccessWithInfo,
    Error,
    NoData,
    InvalidHandle,
}

/// The five status integers the native library is known to return.
pub open spec fn is_known_status(code: int) -> bool {
    code == 0 || code == 1 || code == -1 || code == 100 || code == -2
}

/// The documented tag for each known status integer.
pub open spec fn spec_classify(code: int) -> ReturnCode
    recommends
        is_known_status(code),
{
    if code == 0 {
        ReturnCode::Success
    } else if code == 1 {
        ReturnCode::SuccessWithInfo
    } else if code == -1 {
        ReturnCode::Error
    } else if code == 100 {
        ReturnCode::NoData
    } else {
        ReturnCode::InvalidHandle
    }
}

impl ReturnCode {
    /// Classify a known native status integer into its documented tag.
    pub fn classify(code: i32) -> (r: ReturnCode)
        requires
            is_known_status(code as int),
        ensures
            r == spec_classify(code as int),
    {
        if code == 0 {
            ReturnCode::Success
        } else if code == 1 {
            ReturnCode::SuccessWithInfo
        } else if code == -1 {
            ReturnCode::Error
        } else if code == 100 {
            ReturnCode::NoData
        } else {
            ReturnCode::InvalidHandle
        }
    }

    /// Total classification. `None` marks a status integer this layer does
    /// not know: an ABI mismatch that the caller must treat as fatal rather
    /// than coerce into one of the five tags.
    pub fn try_classify(code: i32) -> (r: Option<ReturnCode>)
        ensures
            is_known_status(code as int) ==> r == Some(spec_classify(code as int)),
            !is_known_status(code as int) ==> r is None,
    {
        if code == 0 || code == 1 || code == -1 || code == 100 || code == -2 {
            Some(ReturnCode::classify(code))
        } else {
            None
        }
    }

    /// Whether this outcome counts as a success for control flow.
    /// `SuccessWithInfo` is a success, but is surfaced to callers rather
    /// than collapsed into `Success`.
    pub fn is_success(self) -> (r: bool)
        ensures
            r == (self == ReturnCode::Success || self == ReturnCode::SuccessWithInfo),
    {
        match self {
            ReturnCode::Success => true,
            ReturnCode::SuccessWithInfo => true,
            _ => false,
        }
    }
}

/// Category of a native handle. The native library identifies each category
/// by a small unsigned code; the mapping is total and bijective over these
/// fourteen kinds.
#[derive(Debug, Clone, Copy, PartialEq, Eq, Structural)]
pub enum HandleType {
    Env,
    Error,
    SvcCtx,
    Stmt,
    Bind,
    Define,
    Describe,
    Server,
    Session,
    AuthInfo,
    CPool,
    SPool,
    Trans,
    ComplexObject,
}

/// The native code that identifies a handle kind.
pub open spec fn spec_kind_code(kind: HandleType) -> u32 {
    match kind {
        HandleType::Env => 1,
        HandleType::Error => 2,
        HandleType::SvcCtx => 3,
        HandleType::Stmt => 4,
        HandleType::Bind => 5,
        HandleType::Define => 6,
        HandleType::Describe => 7,
        HandleType::Server => 8,
        HandleType::Session => 9,
        HandleType::AuthInfo => 10,
        HandleType::CPool => 11,
        HandleType::SPool => 12,
        HandleType::Trans => 13,
        HandleType::ComplexObject => 14,
    }
}

/// The native kind codes this layer knows.
pub open spec fn is_known_kind_code(code: int) -> bool {
    1 <= code <= 14
}

/// The handle kind identified by each known native code.
pub open spec fn spec_kind_of(code: int) -> HandleType
    recommends
        is_known_kind_code(code),
{
    if code == 1 {
        HandleType::Env
    } else if code == 2 {
        HandleType::Error
    } else if code == 3 {
        HandleType::SvcCtx
    } else if code == 4 {
        HandleType::Stmt
    } else if code == 5 {
        HandleType::Bind
    } else if code == 6 {
        HandleType::Define
    } else if code == 7 {
        HandleType::Describe
    } else if code == 8 {
        HandleType::Server
    } else if code == 9 {
        HandleType::Session
    } else if code == 10 {
        HandleType::AuthInfo
    } else if code == 11 {
        HandleType::CPool
    } else if code == 12 {
        HandleType::SPool
    } else if code == 13 {
        HandleType::Trans
    } else {
        HandleType::ComplexObject
    }
}

impl HandleType {
    /// The native code that identifies this handle kind.
    pub fn to_native(self) -> (r: u32)
        ensures
            r == spec_kind_code(self),
    {
        match self {
            HandleType::Env => 1,
            HandleType::Error => 2,
            HandleType::SvcCtx => 3,
            HandleType::Stmt => 4,
            HandleType::Bind => 5,
            HandleType::Define => 6,
            HandleType::Describe => 7,
            HandleType::Server => 8,
            HandleType::Session => 9,
            HandleType::AuthInfo => 10,
            HandleType::CPool => 11,
            HandleType::SPool => 12,
            HandleType::Trans => 13,
            HandleType::ComplexObject => 14,
        }
    }

    /// The handle kind identified by a known native code.
    pub fn from_native(code: u32) -> (r: HandleType)
        requires
            is_known_kind_code(code as int),
        ensures
            r == spec_kind_of(code as int),
    {
        if code == 1 {
            HandleType::Env
        } else if code == 2 {
            HandleType::Error
        } else if code == 3 {
            HandleType::SvcCtx
        } else if code == 4 {
            HandleType::Stmt
        } else if code == 5 {
            HandleType::Bind
        } else if code == 6 {
            HandleType::Define
        } else if code == 7 {
            HandleType::Describe
        } else if code == 8 {
            HandleType::Server
        } else if code == 9 {
            HandleType::Session
        } else if code == 10 {
            HandleType::AuthInfo
        } else if code == 11 {
            HandleType::CPool
        } else if code == 12 {
            HandleType::SPool
        } else if code == 13 {
            HandleType::Trans
        } else {
            HandleType::ComplexObject
        }
    }

    /// Total form of `from_native`. `None` marks a kind code this layer does
    /// not know: an ABI mismatch that the caller must treat as fatal.
    pub fn try_from_native(code: u32) -> (r: Option<HandleType>)
        ensures
            is_known_kind_code(code as int) ==> r == Some(spec_kind_of(code as int)),
            !is_known_kind_code(code as int) ==> r is None,
    {
        if 1 <= code && code <= 14 {
            Some(HandleType::from_native(code))
        } else {
            None
        }
    }
}

/// Law: the kind mapping is round-trip stable. For every handle kind,
/// mapping its native code back to a kind and out to a code again yields the
/// same code; indeed the native code identifies the kind exactly.
pub proof fn lemma_kind_round_trip(kind: HandleType)
    ensures
        spec_kind_code(spec_kind_of(spec_kind_code(kind) as int)) == spec_kind_code(kind),
        spec_kind_of(spec_kind_code(kind) as int) == kind,
{
}

/// Law: the kind mapping is onto the known codes. Every known native kind
/// code is the code of the kind it identifies, so the mapping between the
/// fourteen kinds and the known codes is a bijection.
pub proof fn lemma_kind_code_onto(code: int)
    requires
        is_known_kind_code(code),
    ensures
        spec_kind_code(spec_kind_of(code)) == code,
{
}

} // verus!
