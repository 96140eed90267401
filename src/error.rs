use vstd::prelude::*;

verus! {

/// The code that the host returns for "nothing yet, call again".
pub const RETRY_SENTINEL: u32 = 0xffff_ffff;

/// The closed set of failures that a host call (or a local text decode) can report.
#[derive(Debug, Clone, Copy, PartialEq, Eq, Structural)]
pub enum HttpErrorKind {
    InvalidDriver,
    InvalidHandle,
    MemoryAccessError,
    BufferTooSmall,
    HeaderNotFound,
    Utf8Error,
    DestinationNotAllowed,
    InvalidMethod,
    InvalidEncoding,
    InvalidUrl,
    RequestError,
    RuntimeError,
    TooManySessions,
    PermissionDeny,
}

/// The error kind that a non-zero host code stands for; codes outside the
/// table fall back to `RuntimeError`.
pub open spec fn kind_of_code(code: u32) -> HttpErrorKind {
    if code == 1 {
        HttpErrorKind::InvalidHandle
    } else if code == 2 {
        HttpErrorKind::MemoryAccessError
    } else if code == 3 {
        HttpErrorKind::BufferTooSmall
    } else if code == 4 {
        HttpErrorKind::HeaderNotFound
    } else if code == 5 {
        HttpErrorKind::Utf8Error
    } else if code == 6 {
        HttpErrorKind::DestinationNotAllowed
    } else if code == 7 {
        HttpErrorKind::InvalidMethod
    } else if code == 8 {
        HttpErrorKind::InvalidEncoding
    } else if code == 9 {
        HttpErrorKind::InvalidUrl
    } else if code == 10 {
        HttpErrorKind::RequestError
    } else if code == 11 {
        HttpErrorKind::RuntimeError
    } else if code == 12 {
        HttpErrorKind::TooManySessions
    } else if code == 13 {
        HttpErrorKind::PermissionDeny
    } else {
        HttpErrorKind::RuntimeError
    }
}

/// The human-readable message of each kind.
pub open spec fn message_of(kind: HttpErrorKind) -> Seq<char> {
    match kind {
        HttpErrorKind::InvalidDriver => "Invalid Driver"@,
        HttpErrorKind::InvalidHandle => "Invalid Error"@,
        HttpErrorKind::MemoryAccessError => "Memory Access Error"@,
        HttpErrorKind::BufferTooSmall => "Buffer too small"@,
        HttpErrorKind::HeaderNotFound => "Header not found"@,
        HttpErrorKind::Utf8Error => "Utf8 error"@,
        HttpErrorKind::DestinationNotAllowed => "Destination not allowed"@,
        HttpErrorKind::InvalidMethod => "Invalid method"@,
        HttpErrorKind::InvalidEncoding => "Invalid encoding"@,
        HttpErrorKind::InvalidUrl => "Invalid url"@,
        HttpErrorKind::RequestError => "Request url"@,
        HttpErrorKind::RuntimeError => "Runtime error"@,
        HttpErrorKind::TooManySessions => "Too many sessions"@,
        HttpErrorKind::PermissionDeny => "Permission deny."@,
    }
}

impl HttpErrorKind {
    /// The message shown to a user for this kind.
    pub fn message(&self) -> (r: String)
        ensures
            r@ == message_of(*self),
    {
        let s: &str = match *self {
            HttpErrorKind::InvalidDriver => "Invalid Driver",
            HttpErrorKind::InvalidHandle => "Invalid Error",
            HttpErrorKind::MemoryAccessError => "Memory Access Error",
            HttpErrorKind::BufferTooSmall => "Buffer too small",
            HttpErrorKind::HeaderNotFound => "Header not found",
            HttpErrorKind::Utf8Error => "Utf8 error",
            HttpErrorKind::DestinationNotAllowed => "Destination not allowed",
            HttpErrorKind::InvalidMethod => "Invalid method",
            HttpErrorKind::InvalidEncoding => "Invalid encoding",
            HttpErrorKind::InvalidUrl => "Invalid url",
            HttpErrorKind::RequestError => "Request url",
            HttpErrorKind::RuntimeError => "Runtime error",
            HttpErrorKind::TooManySessions => "Too many sessions",
            HttpErrorKind::PermissionDeny => "Permission deny.",
        };
        s.to_owned()
    }

    /// Classifies a host code. Total: every code maps to some kind.
    pub fn from_code(code: u32) -> (r: HttpErrorKind)
        ensures
            r == kind_of_code(code),
    {
        match code {
            1 => HttpErrorKind::InvalidHandle,
            2 => HttpErrorKind::MemoryAccessError,
            3 => HttpErrorKind::BufferTooSmall,
            4 => HttpErrorKind::HeaderNotFound,
            5 => HttpErrorKind::Utf8Error,
            6 => HttpErrorKind::DestinationNotAllowed,
            7 => HttpErrorKind::InvalidMethod,
            8 => HttpErrorKind::InvalidEncoding,
            9 => HttpErrorKind::InvalidUrl,
            10 => HttpErrorKind::RequestError,
            11 => HttpErrorKind::RuntimeError,
            12 => HttpErrorKind::TooManySessions,
            13 => HttpErrorKind::PermissionDeny,
            _ => HttpErrorKind::RuntimeError,
        }
    }
}

impl From<u32> for HttpErrorKind {
    fn from(code: u32) -> (r: HttpErrorKind)
        ensures
            r == kind_of_code(code),
    {
        HttpErrorKind::from_code(code)
    }
}

impl vstd::std_specs::convert::FromSpecImpl<u32> for HttpErrorKind {
    open spec fn obeys_from_spec() -> bool {
        true
    }

    open spec fn from_spec(code: u32) -> HttpErrorKind {
        kind_of_code(code)
    }
}

/// Every code outside the host's table, the retry sentinel included, is
/// classified as a runtime error.
pub proof fn lemma_unknown_code_is_runtime_error(code: u32)
    requires
        code > 13,
    ensures
        kind_of_code(code) == HttpErrorKind::RuntimeError,
{
}

} // verus!
