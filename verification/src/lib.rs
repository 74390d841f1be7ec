//! Verified core of a cloud-files sync provider: the decisions and data
//! conversions around the Windows Cloud Filter API, and the loops of a QUIC
//! transport. The calls into the system stay with the program that uses it.

/// Windows error codes.
pub mod win_error;
/// Wide C strings.
pub mod wide;
/// Decimal text.
pub mod text;
/// Identity blobs and name identities.
pub mod identity;
/// What a callback learns about its request.
pub mod callbacks;
/// Operations that answer callbacks.
pub mod operations;
/// Creating placeholders.
pub mod placeholders;
/// Answering fetch-data callbacks.
pub mod fetch;
/// Registering the sync root.
pub mod sync_root;
/// Buffers sized by the call that fills them.
pub mod dynamic_buf;
/// The QUIC connection's errors and loops.
pub mod quic;
/// The earlier QUIC connection's loops.
pub mod quic_old;
/// Lifetimes for borrowed values.
pub mod util;
