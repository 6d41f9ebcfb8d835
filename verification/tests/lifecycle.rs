use oci_handles::codes::HandleType;
use oci_handles::codes::Mode;
use oci_handles::codes::ReturnCode;
use oci_handles::handles::handle_alloc_outcome;
use oci_handles::handles::handle_free_outcome;
use oci_handles::handles::CPool;
use oci_handles::handles::Env;
use oci_handles::handles::Error;

const SUCCESS: i32 = 0;
const SUCCESS_WITH_INFO: i32 = 1;
const ERROR: i32 = -1;
const NO_DATA: i32 = 100;
const INVALID_HANDLE: i32 = -2;

#[test]
fn can_create_env() {
    let env = Env::new(Mode::Threaded, SUCCESS, 0x1000).unwrap();
    assert_eq!(env.raw(), 0x1000);
}

#[test]
fn can_drop_cpool() {
    let env = Env::new(Mode::Threaded, SUCCESS, 0x1000).unwrap();
    let error = Error::new(&env, SUCCESS, 0x2000).unwrap();
    let cpool = CPool::new(&env, SUCCESS, 0x3000).unwrap();
    drop(cpool);
    drop(error);
}

#[test]
fn classify_known_codes() {
    assert_eq!(ReturnCode::classify(SUCCESS), ReturnCode::Success);
    assert_eq!(ReturnCode::classify(SUCCESS_WITH_INFO), ReturnCode::SuccessWithInfo);
    assert_eq!(ReturnCode::classify(ERROR), ReturnCode::Error);
    assert_eq!(ReturnCode::classify(NO_DATA), ReturnCode::NoData);
    assert_eq!(ReturnCode::classify(INVALID_HANDLE), ReturnCode::InvalidHandle);
}

#[test]
fn classify_unknown_code_is_fatal() {
    // An unmapped status integer is an ABI mismatch: no tag may come back.
    assert_eq!(ReturnCode::try_classify(2), None);
    assert_eq!(ReturnCode::try_classify(-3), None);
    assert_eq!(ReturnCode::try_classify(99), None);
    assert_eq!(ReturnCode::try_classify(i32::MIN), None);
    assert_eq!(ReturnCode::try_classify(i32::MAX), None);
    assert_eq!(ReturnCode::try_classify(NO_DATA), Some(ReturnCode::NoData));
}

#[test]
fn success_with_info_is_success_but_surfaced() {
    assert!(ReturnCode::Success.is_success());
    assert!(ReturnCode::SuccessWithInfo.is_success());
    assert!(!ReturnCode::Error.is_success());
    assert!(!ReturnCode::NoData.is_success());
    assert!(!ReturnCode::InvalidHandle.is_success());
    // A constructor does not collapse SuccessWithInfo into Success.
    let r = Env::new(Mode::Default, SUCCESS_WITH_INFO, 0x1000);
    assert_eq!(r.unwrap_err(), ReturnCode::SuccessWithInfo);
}

#[test]
fn kind_codes_round_trip() {
    let kinds = [
        HandleType::Env,
        HandleType::Error,
        HandleType::SvcCtx,
        HandleType::Stmt,
        HandleType::Bind,
        HandleType::Define,
        HandleType::Describe,
        HandleType::Server,
        HandleType::Session,
        HandleType::AuthInfo,
        HandleType::CPool,
        HandleType::SPool,
        HandleType::Trans,
        HandleType::ComplexObject,
    ];
    for kind in kinds {
        let code = kind.to_native();
        assert!((1..=14).contains(&code));
        let back = HandleType::from_native(code);
        assert_eq!(back, kind);
        assert_eq!(back.to_native(), code);
    }
    assert_eq!(HandleType::Env.to_native(), 1);
    assert_eq!(HandleType::Error.to_native(), 2);
    assert_eq!(HandleType::CPool.to_native(), 11);
    assert_eq!(HandleType::ComplexObject.to_native(), 14);
}

#[test]
fn unknown_kind_code_is_fatal() {
    assert_eq!(HandleType::try_from_native(0), None);
    assert_eq!(HandleType::try_from_native(15), None);
    assert_eq!(HandleType::try_from_native(u32::MAX), None);
    assert_eq!(HandleType::try_from_native(11), Some(HandleType::CPool));
}

#[test]
fn mode_codes() {
    assert_eq!(Mode::Default.to_native(), 0);
    assert_eq!(Mode::Threaded.to_native(), 1);
}

#[test]
fn env_create_then_release() {
    // A threaded environment whose creation and release both report Success.
    let env = Env::new(Mode::Threaded, SUCCESS, 0x1000).unwrap();
    assert!(env.is_threaded());
    assert_eq!(handle_free_outcome(SUCCESS), None);
    // Safe to repeat afresh.
    let env2 = Env::new(Mode::Threaded, SUCCESS, 0x1000).unwrap();
    assert!(env2.is_threaded());
    assert_eq!(handle_free_outcome(SUCCESS), None);
}

#[test]
fn env_creation_failure_surfaces_code() {
    let r = Env::new(Mode::Default, ERROR, 0);
    assert_eq!(r.unwrap_err(), ReturnCode::Error);
    let r2 = Env::new(Mode::Default, INVALID_HANDLE, 0);
    assert_eq!(r2.unwrap_err(), ReturnCode::InvalidHandle);
}

#[test]
fn children_outlive_released_sibling() {
    // Error and CPool handles both allocate against a live environment;
    // releasing the pool handle leaves the other two untouched.
    let env = Env::new(Mode::Threaded, SUCCESS, 0x1000).unwrap();
    let error = Error::new(&env, SUCCESS, 0x2000).unwrap();
    let cpool = CPool::new(&env, SUCCESS, 0x3000).unwrap();
    assert_eq!(cpool.raw(), 0x3000);
    drop(cpool);
    assert_eq!(handle_free_outcome(SUCCESS), None);
    assert_eq!(env.raw(), 0x1000);
    assert_eq!(error.raw(), 0x2000);
}

#[test]
fn alloc_failure_returns_code_not_token() {
    assert_eq!(handle_alloc_outcome(ERROR, 0xdead), Err(ReturnCode::Error));
    assert_eq!(handle_alloc_outcome(INVALID_HANDLE, 0xdead), Err(ReturnCode::InvalidHandle));
    assert_eq!(handle_alloc_outcome(SUCCESS, 0x4000), Ok(0x4000));
    let r = Error::new(&Env::new(Mode::Default, SUCCESS, 1).unwrap(), ERROR, 0);
    assert_eq!(r.unwrap_err(), ReturnCode::Error);
    let r2 = CPool::new(&Env::new(Mode::Default, SUCCESS, 1).unwrap(), NO_DATA, 0);
    assert_eq!(r2.unwrap_err(), ReturnCode::NoData);
}

#[test]
fn release_failure_is_only_diagnostic() {
    assert_eq!(handle_free_outcome(ERROR), Some(ReturnCode::Error));
    assert_eq!(handle_free_outcome(INVALID_HANDLE), Some(ReturnCode::InvalidHandle));
    assert_eq!(handle_free_outcome(SUCCESS), None);
}
