//! Browser automation configuration.

use vstd::prelude::*;

verus! {

/// Configuration for a browser session.
#[derive(Debug, Clone)]
pub struct BrowserSessionConfig {
    /// Path to Chrome/Chromium binary (auto-detected if not set).
    pub chrome_path: Option<String>,
    /// Run in headless mode (default: true).
    pub headless: bool,
    /// Viewport width in pixels.
    pub viewport_width: u32,
    /// Viewport height in pixels.
    pub viewport_height: u32,
    /// Navigation timeout in seconds.
    pub navigation_timeout_secs: u64,
}

impl Default for BrowserSessionConfig {
    fn default() -> (r: Self)
        ensures
            r.chrome_path is None,
            r.headless,
            r.viewport_width == 1280,
            r.viewport_height == 720,
            r.navigation_timeout_secs == 30,
    {
        BrowserSessionConfig {
            chrome_path: None,
            headless: true,
            viewport_width: 1280,
            viewport_height: 720,
            navigation_timeout_secs: 30,
        }
    }
}

/// Browser automation configuration.
#[derive(Debug, Clone)]
pub struct BrowserConfig {
    /// Whether browser automation is enabled.
    pub enabled: bool,
    /// Session config passed to the browser session.
    pub session: BrowserSessionConfig,
}

impl Default for BrowserConfig {
    fn default() -> (r: Self)
        ensures
            !r.enabled,
            r.session.chrome_path is None,
            r.session.headless,
            r.session.viewport_width == 1280,
            r.session.viewport_height == 720,
            r.session.navigation_timeout_secs == 30,
    {
        BrowserConfig { enabled: false, session: BrowserSessionConfig::default() }
    }
}

/// The values the environment sets, already parsed; `None` where a variable
/// is unset (`BROWSER_ENABLED`, `BROWSER_CHROME_PATH`, `BROWSER_HEADLESS`,
/// `BROWSER_VIEWPORT_WIDTH`, `BROWSER_VIEWPORT_HEIGHT`,
/// `BROWSER_NAVIGATION_TIMEOUT`).
#[derive(Debug, Clone, Default)]
pub struct BrowserEnvironment {
    pub enabled: Option<bool>,
    pub chrome_path: Option<String>,
    pub headless: Option<bool>,
    pub viewport_width: Option<u32>,
    pub viewport_height: Option<u32>,
    pub navigation_timeout_secs: Option<u64>,
}

pub open spec fn or_default<T>(o: Option<T>, d: T) -> T {
    match o {
        Some(v) => v,
        None => d,
    }
}

impl BrowserConfig {
    /// Resolve the configuration: each environment value overrides its
    /// default; `enabled` falls back to the settings file's flag.
    pub fn resolve(settings_enabled: bool, env: BrowserEnvironment) -> (r: Self)
        ensures
            r.enabled == or_default(env.enabled, settings_enabled),
            r.session.chrome_path == env.chrome_path,
            r.session.headless == or_default(env.headless, true),
            r.session.viewport_width == or_default(env.viewport_width, 1280u32),
            r.session.viewport_height == or_default(env.viewport_height, 720u32),
            r.session.navigation_timeout_secs == or_default(env.navigation_timeout_secs, 30u64),
    {
        let enabled = match env.enabled {
            Some(v) => v,
            None => settings_enabled,
        };
        let headless = match env.headless {
            Some(v) => v,
            None => true,
        };
        let viewport_width = match env.viewport_width {
            Some(v) => v,
            None => 1280,
        };
        let viewport_height = match env.viewport_height {
            Some(v) => v,
            None => 720,
        };
        let navigation_timeout_secs = match env.navigation_timeout_secs {
            Some(v) => v,
            None => 30,
        };
        BrowserConfig {
            enabled,
            session: BrowserSessionConfig {
                chrome_path: env.chrome_path,
                headless,
                viewport_width,
                viewport_height,
                navigation_timeout_secs,
            },
        }
    }
}

} // verus!
