//! The browser tools: the metadata each reports (name, approval, sanitization,
//! rate limit, timeout), what the content tool returns and how it reads its
//! `format` parameter, and the screenshot tool's payload. Each tool holds its
//! session; driving the browser is the caller's part.

use vstd::prelude::*;
use vstd::string::StringSliceAdditionalSpecFns;
use vstd::utf8::{decode_utf8, encode_utf8, is_char_boundary, valid_utf8};

use crate::encoding::{base64_standard, encode_base64};
use crate::text::{opt_str_view, str_eq};
use crate::tools::{ApprovalRequirement, ToolDomain, ToolRateLimitConfig};

verus! {

/// Page content longer than this many bytes is truncated.
pub const CONTENT_MAX_LEN: usize = 100000;

/// The largest character boundary of `bytes` at or below `end`.
pub open spec fn truncation_point(bytes: Seq<u8>, end: nat) -> nat
    decreases end,
{
    if end == 0 || is_char_boundary(bytes, end as int) {
        end
    } else {
        truncation_point(bytes, (end - 1) as nat)
    }
}

/// What the content tool returns for a page: the content itself, or, when it
/// is longer than `CONTENT_MAX_LEN` bytes, its longest prefix of whole
/// characters within that many bytes followed by a truncation notice.
pub open spec fn truncated_content(content: &str) -> Seq<char> {
    if content.len() > CONTENT_MAX_LEN {
        decode_utf8(
            content.spec_bytes().subrange(
                0,
                truncation_point(content.spec_bytes(), CONTENT_MAX_LEN as nat) as int,
            ),
        ) + "...\n[truncated at 100000 bytes]"@
    } else {
        content@
    }
}

/// Truncate page content so a huge page does not overwhelm the context,
/// never splitting a multi-byte UTF-8 character.
pub fn truncate_content(content: &str) -> (r: String)
    ensures
        r@ == truncated_content(content),
{
    broadcast use vstd::utf8::encode_utf8_valid_utf8, vstd::utf8::encode_utf8_decode_utf8;

    let max_len: usize = CONTENT_MAX_LEN;
    if content.len() > max_len {
        let mut end: usize = max_len;
        while !content.is_char_boundary(end) && end > 0
            invariant
                end <= max_len,
                truncation_point(content.spec_bytes(), end as nat) == truncation_point(
                    content.spec_bytes(),
                    max_len as nat,
                ),
            decreases end,
        {
            end = end - 1;
        }
        assert(is_char_boundary(content.spec_bytes(), end as int));
        let (head, _) = content.split_at(end);
        assert(head@ == decode_utf8(head.spec_bytes()));
        String::from_str(head).concat("...\n[truncated at 100000 bytes]")
    } else {
        String::from_str(content)
    }
}

/// The content tool returns plain text unless asked for `"html"`.
pub fn content_as_text(format: Option<&str>) -> (r: bool)
    ensures
        r == (opt_str_view(format) != Some("html"@)),
{
    match format {
        Some(f) => !str_eq(f, "html"),
        None => true,
    }
}

/// The screenshot tool's result: base64 PNG data, its format and size.
#[derive(Debug, Clone)]
pub struct ScreenshotPayload {
    pub image_base64: String,
    pub format: String,
    pub size_bytes: usize,
}

/// The screenshot tool's result for the PNG bytes of a screenshot.
pub fn screenshot_payload(png_data: &[u8]) -> (r: ScreenshotPayload)
    ensures
        r.image_base64@ == base64_standard(png_data@),
        r.format@ == "png"@,
        r.size_bytes == png_data@.len(),
{
    ScreenshotPayload {
        image_base64: encode_base64(png_data),
        format: String::from_str("png"),
        size_bytes: png_data.len(),
    }
}


/// The truncation point is a character boundary within the limit, and no
/// later boundary is within it: the kept prefix is the longest whole-character
/// prefix of at most `end` bytes.
pub proof fn lemma_truncation_point(bytes: Seq<u8>, end: nat)
    requires
        valid_utf8(bytes),
    ensures
        truncation_point(bytes, end) <= end,
        is_char_boundary(bytes, truncation_point(bytes, end) as int),
        forall|e: int|
            truncation_point(bytes, end) < e <= end ==> !is_char_boundary(bytes, e),
    decreases end,
{
    if end == 0 || is_char_boundary(bytes, end as int) {
    } else {
        lemma_truncation_point(bytes, (end - 1) as nat);
    }
}

/// Truncated content keeps a prefix whose UTF-8 encoding is exactly the
/// content's first `truncation_point` bytes, so it never exceeds the limit.
pub proof fn lemma_truncated_prefix_bytes(content: &str)
    requires
        content.len() > CONTENT_MAX_LEN,
    ensures
        ({
            let bytes = content.spec_bytes();
            let tp: nat = truncation_point(bytes, CONTENT_MAX_LEN as nat);
            &&& tp <= CONTENT_MAX_LEN
            &&& encode_utf8(decode_utf8(bytes.subrange(0, tp as int))) == bytes.subrange(0, tp as int)
        }),
{
    broadcast use vstd::utf8::encode_utf8_valid_utf8, vstd::utf8::decode_utf8_encode_utf8, vstd::utf8::valid_utf8_split;

    let bytes = content.spec_bytes();
    lemma_truncation_point(bytes, CONTENT_MAX_LEN as nat);
    let tp: nat = truncation_point(bytes, CONTENT_MAX_LEN as nat);
    assert(valid_utf8(bytes.subrange(0, tp as int)));
}

/// Navigate the browser to a URL.
pub struct BrowserNavigateTool<S> {
    session: S,
}

impl<S> BrowserNavigateTool<S> {
    pub closed spec fn spec_session(&self) -> S {
        self.session
    }

    pub fn new(session: S) -> (r: Self)
        ensures
            r.spec_session() == session,
    {
        BrowserNavigateTool { session }
    }

    /// The session the tool drives.
    pub fn session(&self) -> (r: &S)
        ensures
            *r == self.spec_session(),
    {
        &self.session
    }

    /// Tool name.
    pub fn name(&self) -> (r: &'static str)
        ensures
            r@ == "browser_navigate"@,
    {
        "browser_navigate"
    }

    /// Tool description.
    pub fn description(&self) -> (r: &'static str)
        ensures
            r@ == "Navigate the browser to a URL. Returns the final URL and page title."@,
    {
        "Navigate the browser to a URL. Returns the final URL and page title."
    }

    /// Calls need approval unless they are auto-approved.
    pub fn requires_approval(&self, _params: &serde_json::Value) -> (r: ApprovalRequirement)
        ensures
            r == ApprovalRequirement::UnlessAutoApproved,
    {
        ApprovalRequirement::UnlessAutoApproved
    }

    /// Its output is page data, which is sanitized before use.
    pub fn requires_sanitization(&self) -> (r: bool)
        ensures
            r == true,
    {
        true
    }

    /// The tool runs in the orchestrator.
    pub fn domain(&self) -> (r: ToolDomain)
        ensures
            r == ToolDomain::Orchestrator,
    {
        ToolDomain::Orchestrator
    }

    /// At most 20 calls a minute and 200 an hour.
    pub fn rate_limit_config(&self) -> (r: Option<ToolRateLimitConfig>)
        ensures
            r == Some(ToolRateLimitConfig { requests_per_minute: 20, requests_per_hour: 200 }),
    {
        Some(ToolRateLimitConfig::new(20, 200))
    }

    /// Calls time out after this many seconds.
    pub fn execution_timeout_secs(&self) -> (r: u64)
        ensures
            r == 60,
    {
        60
    }
}

/// Take a screenshot of the current page or a specific element.
pub struct BrowserScreenshotTool<S> {
    session: S,
}

impl<S> BrowserScreenshotTool<S> {
    pub closed spec fn spec_session(&self) -> S {
        self.session
    }

    pub fn new(session: S) -> (r: Self)
        ensures
            r.spec_session() == session,
    {
        BrowserScreenshotTool { session }
    }

    /// The session the tool drives.
    pub fn session(&self) -> (r: &S)
        ensures
            *r == self.spec_session(),
    {
        &self.session
    }

    /// Tool name.
    pub fn name(&self) -> (r: &'static str)
        ensures
            r@ == "browser_screenshot"@,
    {
        "browser_screenshot"
    }

    /// Tool description.
    pub fn description(&self) -> (r: &'static str)
        ensures
            r@ == "Take a PNG screenshot of the current browser page, or a specific element by CSS selector."@,
    {
        "Take a PNG screenshot of the current browser page, or a specific element by CSS selector."
    }

    /// Calls never need approval.
    pub fn requires_approval(&self, _params: &serde_json::Value) -> (r: ApprovalRequirement)
        ensures
            r == ApprovalRequirement::Never,
    {
        ApprovalRequirement::Never
    }

    /// Its output is image data, not text to sanitize.
    pub fn requires_sanitization(&self) -> (r: bool)
        ensures
            r == false,
    {
        false
    }

    /// The tool runs in the orchestrator.
    pub fn domain(&self) -> (r: ToolDomain)
        ensures
            r == ToolDomain::Orchestrator,
    {
        ToolDomain::Orchestrator
    }

    /// Calls time out after this many seconds.
    pub fn execution_timeout_secs(&self) -> (r: u64)
        ensures
            r == 30,
    {
        30
    }
}

/// Click an element by CSS selector.
pub struct BrowserClickTool<S> {
    session: S,
}

impl<S> BrowserClickTool<S> {
    pub closed spec fn spec_session(&self) -> S {
        self.session
    }

    pub fn new(session: S) -> (r: Self)
        ensures
            r.spec_session() == session,
    {
        BrowserClickTool { session }
    }

    /// The session the tool drives.
    pub fn session(&self) -> (r: &S)
        ensures
            *r == self.spec_session(),
    {
        &self.session
    }

    /// Tool name.
    pub fn name(&self) -> (r: &'static str)
        ensures
            r@ == "browser_click"@,
    {
        "browser_click"
    }

    /// Tool description.
    pub fn description(&self) -> (r: &'static str)
        ensures
            r@ == "Click an element on the current browser page by CSS selector."@,
    {
        "Click an element on the current browser page by CSS selector."
    }

    /// Calls need approval unless they are auto-approved.
    pub fn requires_approval(&self, _params: &serde_json::Value) -> (r: ApprovalRequirement)
        ensures
            r == ApprovalRequirement::UnlessAutoApproved,
    {
        ApprovalRequirement::UnlessAutoApproved
    }

    /// The tool runs in the orchestrator.
    pub fn domain(&self) -> (r: ToolDomain)
        ensures
            r == ToolDomain::Orchestrator,
    {
        ToolDomain::Orchestrator
    }

    /// At most 30 calls a minute and 300 an hour.
    pub fn rate_limit_config(&self) -> (r: Option<ToolRateLimitConfig>)
        ensures
            r == Some(ToolRateLimitConfig { requests_per_minute: 30, requests_per_hour: 300 }),
    {
        Some(ToolRateLimitConfig::new(30, 300))
    }
}

/// Type text into an element by CSS selector.
pub struct BrowserTypeTool<S> {
    session: S,
}

impl<S> BrowserTypeTool<S> {
    pub closed spec fn spec_session(&self) -> S {
        self.session
    }

    pub fn new(session: S) -> (r: Self)
        ensures
            r.spec_session() == session,
    {
        BrowserTypeTool { session }
    }

    /// The session the tool drives.
    pub fn session(&self) -> (r: &S)
        ensures
            *r == self.spec_session(),
    {
        &self.session
    }

    /// Tool name.
    pub fn name(&self) -> (r: &'static str)
        ensures
            r@ == "browser_type"@,
    {
        "browser_type"
    }

    /// Tool description.
    pub fn description(&self) -> (r: &'static str)
        ensures
            r@ == "Type text into an input element on the current browser page by CSS selector."@,
    {
        "Type text into an input element on the current browser page by CSS selector."
    }

    /// Calls need approval unless they are auto-approved.
    pub fn requires_approval(&self, _params: &serde_json::Value) -> (r: ApprovalRequirement)
        ensures
            r == ApprovalRequirement::UnlessAutoApproved,
    {
        ApprovalRequirement::UnlessAutoApproved
    }

    /// Parameters whose values are redacted from logs.
    pub fn sensitive_params(&self) -> (r: Vec<&'static str>)
        ensures
            r@.len() == 1,
            r@[0]@ == "text"@,
    {
        let mut v: Vec<&'static str> = Vec::new();
        v.push("text");
        v
    }

    /// The tool runs in the orchestrator.
    pub fn domain(&self) -> (r: ToolDomain)
        ensures
            r == ToolDomain::Orchestrator,
    {
        ToolDomain::Orchestrator
    }

    /// At most 30 calls a minute and 300 an hour.
    pub fn rate_limit_config(&self) -> (r: Option<ToolRateLimitConfig>)
        ensures
            r == Some(ToolRateLimitConfig { requests_per_minute: 30, requests_per_hour: 300 }),
    {
        Some(ToolRateLimitConfig::new(30, 300))
    }
}

/// Extract text and attributes from elements by CSS selector.
pub struct BrowserExtractTool<S> {
    session: S,
}

impl<S> BrowserExtractTool<S> {
    pub closed spec fn spec_session(&self) -> S {
        self.session
    }

    pub fn new(session: S) -> (r: Self)
        ensures
            r.spec_session() == session,
    {
        BrowserExtractTool { session }
    }

    /// The session the tool drives.
    pub fn session(&self) -> (r: &S)
        ensures
            *r == self.spec_session(),
    {
        &self.session
    }

    /// Tool name.
    pub fn name(&self) -> (r: &'static str)
        ensures
            r@ == "browser_extract"@,
    {
        "browser_extract"
    }

    /// Tool description.
    pub fn description(&self) -> (r: &'static str)
        ensures
            r@ == "Extract text content (and optionally an attribute value) from elements matching a CSS selector on the current page."@,
    {
        "Extract text content (and optionally an attribute value) from elements matching a CSS selector on the current page."
    }

    /// Its output is page data, which is sanitized before use.
    pub fn requires_sanitization(&self) -> (r: bool)
        ensures
            r == true,
    {
        true
    }

    /// The tool runs in the orchestrator.
    pub fn domain(&self) -> (r: ToolDomain)
        ensures
            r == ToolDomain::Orchestrator,
    {
        ToolDomain::Orchestrator
    }
}

/// Evaluate arbitrary JavaScript on the current page.
pub struct BrowserEvalTool<S> {
    session: S,
}

impl<S> BrowserEvalTool<S> {
    pub closed spec fn spec_session(&self) -> S {
        self.session
    }

    pub fn new(session: S) -> (r: Self)
        ensures
            r.spec_session() == session,
    {
        BrowserEvalTool { session }
    }

    /// The session the tool drives.
    pub fn session(&self) -> (r: &S)
        ensures
            *r == self.spec_session(),
    {
        &self.session
    }

    /// Tool name.
    pub fn name(&self) -> (r: &'static str)
        ensures
            r@ == "browser_eval"@,
    {
        "browser_eval"
    }

    /// Tool description.
    pub fn description(&self) -> (r: &'static str)
        ensures
            r@ == "Evaluate a JavaScript expression on the current browser page and return the result."@,
    {
        "Evaluate a JavaScript expression on the current browser page and return the result."
    }

    /// Every call needs approval, auto-approval or not.
    pub fn requires_approval(&self, _params: &serde_json::Value) -> (r: ApprovalRequirement)
        ensures
            r == ApprovalRequirement::Always,
    {
        ApprovalRequirement::Always
    }

    /// Its output is page data, which is sanitized before use.
    pub fn requires_sanitization(&self) -> (r: bool)
        ensures
            r == true,
    {
        true
    }

    /// The tool runs in the orchestrator.
    pub fn domain(&self) -> (r: ToolDomain)
        ensures
            r == ToolDomain::Orchestrator,
    {
        ToolDomain::Orchestrator
    }

    /// Calls time out after this many seconds.
    pub fn execution_timeout_secs(&self) -> (r: u64)
        ensures
            r == 30,
    {
        30
    }
}

/// Get the full page content as HTML or plain text.
pub struct BrowserContentTool<S> {
    session: S,
}

impl<S> BrowserContentTool<S> {
    pub closed spec fn spec_session(&self) -> S {
        self.session
    }

    pub fn new(session: S) -> (r: Self)
        ensures
            r.spec_session() == session,
    {
        BrowserContentTool { session }
    }

    /// The session the tool drives.
    pub fn session(&self) -> (r: &S)
        ensures
            *r == self.spec_session(),
    {
        &self.session
    }

    /// Tool name.
    pub fn name(&self) -> (r: &'static str)
        ensures
            r@ == "browser_content"@,
    {
        "browser_content"
    }

    /// Tool description.
    pub fn description(&self) -> (r: &'static str)
        ensures
            r@ == "Get the full content of the current browser page as HTML or plain text."@,
    {
        "Get the full content of the current browser page as HTML or plain text."
    }

    /// Its output is page data, which is sanitized before use.
    pub fn requires_sanitization(&self) -> (r: bool)
        ensures
            r == true,
    {
        true
    }

    /// The tool runs in the orchestrator.
    pub fn domain(&self) -> (r: ToolDomain)
        ensures
            r == ToolDomain::Orchestrator,
    {
        ToolDomain::Orchestrator
    }

    /// Calls time out after this many seconds.
    pub fn execution_timeout_secs(&self) -> (r: u64)
        ensures
            r == 30,
    {
        30
    }
}

} // verus!
