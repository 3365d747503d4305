//! Browser automation: error type, URL policy, and the pure parts of the
//! session and tool logic.

pub mod error;
pub mod url_policy;
pub mod session;
pub mod tools;

pub use self::error::{BrowserError, TimeoutLength};
pub use self::url_policy::{validate_browser_url, check_url_parts, UrlParts};
pub use self::session::{launch_plan, navigation_outcome, ExtractedElement, LaunchPlan};
pub use self::tools::{
    content_as_text, screenshot_payload, truncate_content, BrowserClickTool, BrowserContentTool,
    BrowserEvalTool, BrowserExtractTool, BrowserNavigateTool, BrowserScreenshotTool,
    BrowserTypeTool, ScreenshotPayload,
};
