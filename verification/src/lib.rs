//! Safety layer around a handle-based native database client library.
//!
//! The native library hands out opaque resource handles (environment, error,
//! connection pool, ...) and reports every outcome as a signed integer status.
//! This crate holds the verified part of the layer: the bidirectional mapping
//! between symbolic handle kinds and native kind codes, the classification of
//! native status integers into a closed set of return codes, the decisions
//! taken after each native call (wrap the token or surface the code), the
//! decoding of diagnostic and pool-name buffers, and the validation and
//! encoding of connection-pool parameters. The foreign calls themselves stand
//! outside the library, which receives their raw results as plain values.

pub mod codes;
pub mod handles;
pub mod message;
pub mod pool;

pub use codes::HandleType;
pub use codes::Mode;
pub use codes::ReturnCode;
pub use handles::CPool;
pub use handles::Env;
pub use handles::Error;
