//! A client session over a handle-based host HTTP interface: request
//! descriptors, error classification, and the streaming read protocol.

pub mod decode;
pub mod error;
pub mod options;
pub mod session;

pub use error::HttpErrorKind;
pub use options::{FetchOptions, HttpOptions};
pub use session::{BlocklessHttp, CallLog, HttpHost};
