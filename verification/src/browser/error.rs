//! Browser-specific error type.

use vstd::prelude::*;

verus! {

/// Errors from browser automation operations.
#[derive(Debug)]
pub enum BrowserError {
    LaunchFailed(String),
    NavigationFailed { url: String, reason: String },
    ElementNotFound { selector: String },
    ScreenshotFailed(String),
    JavaScriptError(String),
    Timeout(TimeoutLength, String),
    InvalidUrl { url: String, reason: String },
    SessionClosed,
}

/// How long an operation waited before it timed out: whole seconds and the
/// nanoseconds past them, as a `std::time::Duration` holds them.
#[derive(Debug, Clone, Copy)]
pub struct TimeoutLength {
    secs: u64,
    nanos: u32,
}

impl TimeoutLength {
    #[verifier::type_invariant]
    closed spec fn inv(self) -> bool {
        self.nanos < 1_000_000_000
    }

    pub closed spec fn spec_secs(self) -> u64 {
        self.secs
    }

    pub closed spec fn spec_nanos(self) -> u32 {
        self.nanos
    }

    /// `secs` seconds and `nanos` nanoseconds, whole seconds of `nanos`
    /// carried into the seconds, as `Duration::new` does.
    pub fn new(secs: u64, nanos: u32) -> (r: Self)
        requires
            secs + nanos / 1_000_000_000 <= u64::MAX,
        ensures
            r.spec_secs() == secs + nanos / 1_000_000_000,
            r.spec_nanos() == nanos % 1_000_000_000,
    {
        TimeoutLength { secs: secs + (nanos / 1_000_000_000) as u64, nanos: nanos % 1_000_000_000 }
    }

    /// Whole seconds.
    pub fn from_secs(secs: u64) -> (r: Self)
        ensures
            r.spec_secs() == secs,
            r.spec_nanos() == 0,
    {
        TimeoutLength { secs, nanos: 0 }
    }

    /// The whole seconds.
    pub fn as_secs(&self) -> (r: u64)
        ensures
            r == self.spec_secs(),
    {
        self.secs
    }

    /// The nanoseconds past the whole seconds.
    pub fn subsec_nanos(&self) -> (r: u32)
        ensures
            r == self.spec_nanos(),
            r < 1_000_000_000,
    {
        proof {
            use_type_invariant(self);
        }
        self.nanos
    }
}

/// The `Debug` text of `std::time::Duration::new(secs, nanos)`.
pub uninterp spec fn duration_debug(secs: u64, nanos: u32) -> Seq<char>;

/// Formats `std::time::Duration::new(secs, nanos)` with `{:?}`; claims the
/// text is `duration_debug(secs, nanos)`. With `nanos` under a second
/// `Duration::new` does not carry, so it cannot panic.
#[verifier::external_body]
fn duration_debug_text(secs: u64, nanos: u32) -> (r: String)
    requires
        nanos < 1_000_000_000,
    ensures
        r@ == duration_debug(secs, nanos),
{
    format!("{:?}", std::time::Duration::new(secs, nanos))
}

impl BrowserError {
    /// The human-readable message of each variant.
    pub open spec fn spec_message(&self) -> Seq<char> {
        match self {
            BrowserError::LaunchFailed(s) => "Failed to launch browser: "@ + s@,
            BrowserError::NavigationFailed { url, reason } =>
                "Navigation to "@ + url@ + " failed: "@ + reason@,
            BrowserError::ElementNotFound { selector } => "Element not found: "@ + selector@,
            BrowserError::ScreenshotFailed(s) => "Screenshot failed: "@ + s@,
            BrowserError::JavaScriptError(s) => "JavaScript error: "@ + s@,
            BrowserError::Timeout(d, s) => "Operation timed out after "@ + duration_debug(
                d.spec_secs(),
                d.spec_nanos(),
            ) + ": "@ + s@,
            BrowserError::InvalidUrl { url, reason } => "Invalid URL: "@ + url@ + ": "@ + reason@,
            BrowserError::SessionClosed => "Browser session is closed"@,
        }
    }

    /// The error's message text.
    pub fn message(&self) -> (r: String)
        ensures
            r@ == self.spec_message(),
    {
        match self {
            BrowserError::LaunchFailed(s) => String::from_str("Failed to launch browser: ").concat(
                s.as_str(),
            ),
            BrowserError::NavigationFailed { url, reason } => String::from_str(
                "Navigation to ",
            ).concat(url.as_str()).concat(" failed: ").concat(reason.as_str()),
            BrowserError::ElementNotFound { selector } => String::from_str(
                "Element not found: ",
            ).concat(selector.as_str()),
            BrowserError::ScreenshotFailed(s) => String::from_str("Screenshot failed: ").concat(
                s.as_str(),
            ),
            BrowserError::JavaScriptError(s) => String::from_str("JavaScript error: ").concat(
                s.as_str(),
            ),
            BrowserError::Timeout(d, s) => {
                let dt = duration_debug_text(d.as_secs(), d.subsec_nanos());
                String::from_str("Operation timed out after ").concat(dt.as_str()).concat(
                    ": ",
                ).concat(s.as_str())
            },
            BrowserError::InvalidUrl { url, reason } => String::from_str("Invalid URL: ").concat(
                url.as_str(),
            ).concat(": ").concat(reason.as_str()),
            BrowserError::SessionClosed => String::from_str("Browser session is closed"),
        }
    }
}

} // verus!
