//! The pure parts of the browser session: how Chrome is launched, what a
//! navigation reports, and what an extracted element holds.

use vstd::prelude::*;

use crate::config::browser::BrowserSessionConfig;
use crate::text::opt_view;

verus! {

/// An extracted element's text and optional attribute value.
#[derive(Debug, Clone)]
pub struct ExtractedElement {
    pub text: String,
    pub attribute: Option<String>,
}

impl ExtractedElement {
    /// The element as extraction reports it: its inner text, or empty text
    /// when none could be read, and the attribute value when one was read.
    pub fn from_parts(inner_text: Option<String>, attribute: Option<String>) -> (r: Self)
        ensures
            r.text@ == match inner_text {
                Some(t) => t@,
                None => Seq::<char>::empty(),
            },
            r.attribute == attribute,
    {
        let text = match inner_text {
            Some(t) => t,
            None => String::new(),
        };
        ExtractedElement { text, attribute }
    }
}

/// What a navigation reports: the page's URL after navigating (the requested
/// URL when the page reports none) and its title (empty when it has none).
pub fn navigation_outcome(requested: &str, final_url: Option<String>, title: Option<String>) -> (r: (String, String))
    ensures
        r.0@ == match final_url {
            Some(u) => u@,
            None => requested@,
        },
        r.1@ == match title {
            Some(t) => t@,
            None => Seq::<char>::empty(),
        },
{
    let url = match final_url {
        Some(u) => u,
        None => String::from_str(requested),
    };
    let title = match title {
        Some(t) => t,
        None => String::new(),
    };
    (url, title)
}

/// How Chrome is launched for a session.
#[derive(Debug, Clone)]
pub struct LaunchPlan {
    /// Show the browser window (the browser is headless otherwise).
    pub with_head: bool,
    pub viewport_width: u32,
    pub viewport_height: u32,
    /// Extra command-line arguments, in order.
    pub args: Vec<String>,
    /// Chrome binary to run instead of the auto-detected one.
    pub chrome_executable: Option<String>,
}

/// The command-line arguments every session is launched with.
pub open spec fn launch_args() -> Seq<Seq<char>> {
    seq![
        "--no-sandbox"@,
        "--disable-gpu"@,
        "--disable-dev-shm-usage"@,
        "--disable-extensions"@,
    ]
}

/// The launch settings for a session configuration.
pub fn launch_plan(config: &BrowserSessionConfig) -> (r: LaunchPlan)
    ensures
        r.with_head == !config.headless,
        r.viewport_width == config.viewport_width,
        r.viewport_height == config.viewport_height,
        r.args@.map_values(|a: String| a@) == launch_args(),
        opt_view(r.chrome_executable) == opt_view(config.chrome_path),
{
    let mut args: Vec<String> = Vec::new();
    args.push(String::from_str("--no-sandbox"));
    args.push(String::from_str("--disable-gpu"));
    args.push(String::from_str("--disable-dev-shm-usage"));
    args.push(String::from_str("--disable-extensions"));
    proof {
        assert(args@.map_values(|a: String| a@) =~= launch_args());
    }
    let chrome_executable = match &config.chrome_path {
        Some(p) => Some(p.clone()),
        None => None,
    };
    LaunchPlan {
        with_head: !config.headless,
        viewport_width: config.viewport_width,
        viewport_height: config.viewport_height,
        args,
        chrome_executable,
    }
}

} // verus!
