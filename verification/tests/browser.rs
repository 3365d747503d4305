use ironclaw::browser::{
    content_as_text, launch_plan, navigation_outcome, screenshot_payload, truncate_content,
    check_url_parts, validate_browser_url, BrowserClickTool, BrowserContentTool, BrowserError, BrowserEvalTool,
    BrowserExtractTool, BrowserNavigateTool, BrowserScreenshotTool, BrowserTypeTool,
    ExtractedElement, TimeoutLength, UrlParts,
};
use ironclaw::config::{BrowserConfig, BrowserEnvironment, BrowserSessionConfig};
use ironclaw::tools::{ApprovalRequirement, ToolDomain};

#[test]
fn browser_default_config_is_disabled() {
    let config = BrowserConfig::default();
    assert!(!config.enabled);
    assert!(config.session.headless);
    assert_eq!(config.session.viewport_width, 1280);
    assert_eq!(config.session.viewport_height, 720);
    assert_eq!(config.session.navigation_timeout_secs, 30);
    assert!(config.session.chrome_path.is_none());
}

#[test]
fn browser_resolve_defaults_without_env_vars() {
    // Default settings: no browser section, so not enabled; no variables set.
    let config = BrowserConfig::resolve(false, BrowserEnvironment::default());
    assert!(!config.enabled);
    assert!(config.session.headless);
    assert_eq!(config.session.viewport_width, 1280);
}

#[test]
fn session_config_default() {
    let config = BrowserSessionConfig::default();
    assert!(config.headless);
    assert!(config.chrome_path.is_none());
    assert_eq!(config.viewport_width, 1280);
    assert_eq!(config.viewport_height, 720);
    assert_eq!(config.navigation_timeout_secs, 30);
}

#[test]
fn browser_resolve_applies_environment() {
    let env = BrowserEnvironment {
        enabled: Some(true),
        chrome_path: Some("/usr/bin/chromium".to_string()),
        headless: Some(false),
        viewport_width: Some(800),
        viewport_height: Some(600),
        navigation_timeout_secs: Some(5),
    };
    let config = BrowserConfig::resolve(false, env);
    assert!(config.enabled);
    assert_eq!(config.session.chrome_path.as_deref(), Some("/usr/bin/chromium"));
    assert!(!config.session.headless);
    assert_eq!(config.session.viewport_width, 800);
    assert_eq!(config.session.viewport_height, 600);
    assert_eq!(config.session.navigation_timeout_secs, 5);
    // The settings flag is used when the variable is unset.
    assert!(BrowserConfig::resolve(true, BrowserEnvironment::default()).enabled);
}

#[test]
fn validate_browser_url_accepts_https() {
    assert!(validate_browser_url("https://example.com").is_ok());
}

#[test]
fn validate_browser_url_accepts_http() {
    assert!(validate_browser_url("http://example.com").is_ok());
}

#[test]
fn validate_browser_url_rejects_file_scheme() {
    let err = validate_browser_url("file:///etc/passwd").unwrap_err();
    assert!(err.message().contains("scheme 'file' is not allowed"));
}

#[test]
fn validate_browser_url_rejects_javascript_scheme() {
    let err = validate_browser_url("javascript:alert(1)").unwrap_err();
    assert!(err.message().contains("javascript"), "got: {}", err.message());
}

#[test]
fn validate_browser_url_rejects_data_scheme() {
    let err = validate_browser_url("data:text/html,<h1>hi</h1>").unwrap_err();
    assert!(err.message().contains("scheme 'data' is not allowed"));
}

#[test]
fn validate_browser_url_rejects_localhost() {
    assert!(validate_browser_url("https://localhost/admin").is_err());
    assert!(validate_browser_url("https://localhost:8080").is_err());
    assert!(validate_browser_url("http://sub.localhost/").is_err());
}

#[test]
fn validate_browser_url_rejects_loopback_ip() {
    assert!(validate_browser_url("http://127.0.0.1/").is_err());
    assert!(validate_browser_url("http://0.0.0.0/").is_err());
}

#[test]
fn validate_browser_url_rejects_metadata_endpoint() {
    assert!(validate_browser_url("http://169.254.169.254/latest/meta-data/").is_err());
    assert!(
        validate_browser_url("http://metadata.google.internal/computeMetadata/v1/").is_err()
    );
}

#[test]
fn validate_browser_url_rejects_invalid_url() {
    assert!(validate_browser_url("not a url").is_err());
}

#[test]
fn validate_browser_url_rejects_private_ranges() {
    for url in [
        "http://10.0.0.1/",
        "http://10.255.255.255/",
        "http://192.168.1.1/",
        "http://172.16.0.1/",
        "http://172.31.255.255/",
    ] {
        let err = validate_browser_url(url).unwrap_err();
        assert!(err.message().ends_with("private network addresses are not allowed"), "{url}");
    }
    for url in ["http://127.0.0.2/", "http://127.255.0.1:8080/x", "http://0x7f.1/"] {
        let err = validate_browser_url(url).unwrap_err();
        assert!(err.message().ends_with("localhost/loopback addresses are not allowed"), "{url}");
    }
    for url in [
        "http://11.0.0.1/",
        "http://172.15.0.1/",
        "http://172.32.0.1/",
        "http://192.169.0.1/",
        "http://10.example.com/",
        "https://8.8.8.8/",
    ] {
        assert!(validate_browser_url(url).is_ok(), "{url}");
    }
}

#[test]
fn validate_browser_url_reasons() {
    let err = validate_browser_url("https://LocalHost/").unwrap_err();
    assert_eq!(
        err.message(),
        "Invalid URL: https://LocalHost/: localhost/loopback addresses are not allowed"
    );
    let err = validate_browser_url("http://[::1]/").unwrap_err();
    assert!(err.message().ends_with("localhost/loopback addresses are not allowed"));
    let err = validate_browser_url("http://Metadata.Google.Internal/").unwrap_err();
    assert!(err.message().ends_with("cloud metadata endpoints are not allowed"));
    let err = validate_browser_url("ftp://example.com/").unwrap_err();
    assert_eq!(
        err.message(),
        "Invalid URL: ftp://example.com/: scheme 'ftp' is not allowed; use http or https"
    );
    // A host that merely contains "localhost" is allowed.
    assert!(validate_browser_url("https://localhost.example.com/").is_ok());
    assert!(validate_browser_url("https://notlocalhost/").is_ok());
    match validate_browser_url("not a url") {
        Err(BrowserError::InvalidUrl { url, reason }) => {
            assert_eq!(url, "not a url");
            assert_eq!(reason, "relative URL without a base");
        }
        _ => panic!("expected InvalidUrl"),
    }
    let err = validate_browser_url("http://[::1/").unwrap_err();
    assert_eq!(err.message(), "Invalid URL: http://[::1/: invalid IPv6 address");
}

#[test]
fn browser_error_messages() {
    assert_eq!(
        BrowserError::LaunchFailed("no chrome".into()).message(),
        "Failed to launch browser: no chrome"
    );
    assert_eq!(
        BrowserError::NavigationFailed { url: "https://a.b".into(), reason: "dns".into() }
            .message(),
        "Navigation to https://a.b failed: dns"
    );
    assert_eq!(
        BrowserError::ElementNotFound { selector: "#x".into() }.message(),
        "Element not found: #x"
    );
    assert_eq!(BrowserError::ScreenshotFailed("e".into()).message(), "Screenshot failed: e");
    assert_eq!(BrowserError::JavaScriptError("e".into()).message(), "JavaScript error: e");
    assert_eq!(
        BrowserError::Timeout(TimeoutLength::from_secs(3), "goto".into()).message(),
        "Operation timed out after 3s: goto"
    );
    assert_eq!(
        BrowserError::Timeout(TimeoutLength::new(2, 1_500_000_000), "load".into()).message(),
        "Operation timed out after 3.5s: load"
    );
    assert_eq!(
        BrowserError::Timeout(TimeoutLength::new(0, 250_000_000), "wait".into()).message(),
        "Operation timed out after 250ms: wait"
    );
    let length = TimeoutLength::new(1, 2_000_000_001);
    assert_eq!((length.as_secs(), length.subsec_nanos()), (3, 1));
    assert_eq!(BrowserError::SessionClosed.message(), "Browser session is closed");
}

#[test]
fn content_tool_format_selection() {
    assert!(content_as_text(None));
    assert!(content_as_text(Some("text")));
    assert!(content_as_text(Some("markdown")));
    assert!(!content_as_text(Some("html")));
}

#[test]
fn content_truncation_short_page_unchanged() {
    assert_eq!(truncate_content("hello"), "hello");
    let exact = "a".repeat(100_000);
    assert_eq!(truncate_content(&exact), exact);
}

#[test]
fn content_truncation_long_page() {
    let long = "a".repeat(100_005);
    let out = truncate_content(&long);
    assert_eq!(out, format!("{}...\n[truncated at 100000 bytes]", "a".repeat(100_000)));
}

#[test]
fn content_truncation_respects_char_boundaries() {
    // 99_999 ASCII bytes, then a 3-byte character straddling the limit.
    let mut page = "a".repeat(99_999);
    page.push('€');
    page.push_str("tail");
    let out = truncate_content(&page);
    assert_eq!(out, format!("{}...\n[truncated at 100000 bytes]", "a".repeat(99_999)));
}

#[test]
fn screenshot_payload_encodes_png() {
    let payload = screenshot_payload(&[0x89, 0x50, 0x4E, 0x47]);
    assert_eq!(payload.image_base64, "iVBORw==");
    assert_eq!(payload.format, "png");
    assert_eq!(payload.size_bytes, 4);
}

#[test]
fn navigation_outcome_fallbacks() {
    let (url, title) = navigation_outcome("https://a.test", None, None);
    assert_eq!(url, "https://a.test");
    assert_eq!(title, "");
    let (url, title) =
        navigation_outcome("https://a.test", Some("https://a.test/home".into()), Some("Home".into()));
    assert_eq!(url, "https://a.test/home");
    assert_eq!(title, "Home");
}

#[test]
fn extracted_element_defaults_text() {
    let e = ExtractedElement::from_parts(None, Some("/x".into()));
    assert_eq!(e.text, "");
    assert_eq!(e.attribute.as_deref(), Some("/x"));
    let e = ExtractedElement::from_parts(Some("Hi".into()), None);
    assert_eq!(e.text, "Hi");
    assert!(e.attribute.is_none());
}

#[test]
fn launch_plan_follows_config() {
    let plan = launch_plan(&BrowserSessionConfig::default());
    assert!(!plan.with_head);
    assert_eq!(plan.viewport_width, 1280);
    assert_eq!(plan.viewport_height, 720);
    assert_eq!(
        plan.args,
        vec!["--no-sandbox", "--disable-gpu", "--disable-dev-shm-usage", "--disable-extensions"]
    );
    assert!(plan.chrome_executable.is_none());
    let config = BrowserSessionConfig {
        chrome_path: Some("/opt/chrome".into()),
        headless: false,
        ..BrowserSessionConfig::default()
    };
    let plan = launch_plan(&config);
    assert!(plan.with_head);
    assert_eq!(plan.chrome_executable.as_deref(), Some("/opt/chrome"));
}

// The tools hold a session; their metadata does not depend on it, so the
// session here is the default session configuration.
fn dummy_session() -> BrowserSessionConfig {
    BrowserSessionConfig::default()
}

fn empty_params() -> serde_json::Value {
    serde_json::Value::Object(serde_json::Map::new())
}

#[test]
fn browser_navigate_metadata() {
    let tool = BrowserNavigateTool::new(dummy_session());
    assert_eq!(tool.name(), "browser_navigate");
    assert_eq!(tool.requires_approval(&empty_params()), ApprovalRequirement::UnlessAutoApproved);
    assert!(tool.requires_sanitization());
    assert_eq!(tool.domain(), ToolDomain::Orchestrator);
    assert!(tool.rate_limit_config().is_some());
}

#[test]
fn browser_screenshot_metadata() {
    let tool = BrowserScreenshotTool::new(dummy_session());
    assert_eq!(tool.name(), "browser_screenshot");
    assert_eq!(tool.requires_approval(&empty_params()), ApprovalRequirement::Never);
    assert!(!tool.requires_sanitization());
}

#[test]
fn browser_type_has_sensitive_params() {
    let tool = BrowserTypeTool::new(dummy_session());
    assert_eq!(tool.sensitive_params(), &["text"]);
}

#[test]
fn browser_eval_requires_always_approval() {
    let tool = BrowserEvalTool::new(dummy_session());
    assert_eq!(tool.requires_approval(&empty_params()), ApprovalRequirement::Always);
}

#[test]
fn browser_extract_requires_sanitization() {
    let tool = BrowserExtractTool::new(dummy_session());
    assert!(tool.requires_sanitization());
}

#[test]
fn browser_content_requires_sanitization() {
    let tool = BrowserContentTool::new(dummy_session());
    assert!(tool.requires_sanitization());
}

#[test]
fn browser_tool_limits_and_timeouts() {
    let navigate = BrowserNavigateTool::new(dummy_session());
    let limit = navigate.rate_limit_config().unwrap();
    assert_eq!((limit.requests_per_minute, limit.requests_per_hour), (20, 200));
    assert_eq!(navigate.execution_timeout_secs(), 60);
    assert_eq!(
        navigate.description(),
        "Navigate the browser to a URL. Returns the final URL and page title."
    );
    let click = BrowserClickTool::new(dummy_session());
    assert_eq!(click.name(), "browser_click");
    assert_eq!(click.requires_approval(&empty_params()), ApprovalRequirement::UnlessAutoApproved);
    let limit = click.rate_limit_config().unwrap();
    assert_eq!((limit.requests_per_minute, limit.requests_per_hour), (30, 300));
    let typing = BrowserTypeTool::new(dummy_session());
    assert_eq!(typing.name(), "browser_type");
    let limit = typing.rate_limit_config().unwrap();
    assert_eq!((limit.requests_per_minute, limit.requests_per_hour), (30, 300));
    assert_eq!(BrowserScreenshotTool::new(dummy_session()).execution_timeout_secs(), 30);
    assert_eq!(BrowserEvalTool::new(dummy_session()).execution_timeout_secs(), 30);
    assert_eq!(BrowserContentTool::new(dummy_session()).execution_timeout_secs(), 30);
    assert_eq!(BrowserExtractTool::new(dummy_session()).name(), "browser_extract");
    assert_eq!(BrowserEvalTool::new(dummy_session()).name(), "browser_eval");
    assert_eq!(BrowserContentTool::new(dummy_session()).name(), "browser_content");
    assert_eq!(BrowserContentTool::new(dummy_session()).domain(), ToolDomain::Orchestrator);
    let session = BrowserSessionConfig { headless: false, ..BrowserSessionConfig::default() };
    assert!(!BrowserNavigateTool::new(session).session().headless);
}

#[test]
fn validate_browser_url_ipv6_hosts() {
    for url in [
        "http://[::1]/",
        "http://[0:0:0:0:0:0:0:1]/",
        "http://[::]/",
        "http://[::ffff:127.0.0.1]/",
        "http://[::ffff:7f00:1]/",
        "http://[::ffff:0.0.0.0]/",
    ] {
        let err = validate_browser_url(url).unwrap_err();
        assert!(err.message().ends_with("localhost/loopback addresses are not allowed"), "{url}");
    }
    let err = validate_browser_url("http://[::ffff:169.254.169.254]/").unwrap_err();
    assert!(err.message().ends_with("cloud metadata endpoints are not allowed"));
    for url in [
        "http://[fd00::1]/",
        "http://[FC00::1]/",
        "http://[fdff:ffff::]/",
        "http://[::ffff:10.1.2.3]/",
        "http://[::ffff:172.16.0.1]/",
        "http://[::ffff:192.168.0.1]/",
    ] {
        let err = validate_browser_url(url).unwrap_err();
        assert!(err.message().ends_with("private network addresses are not allowed"), "{url}");
    }
    for url in [
        "http://[2001:db8::1]/",
        "http://[fc::1]/",
        "http://[fe00::1]/",
        "http://[::2]/",
        "http://[::ffff:8.8.8.8]/",
        "http://[::ffff:172.32.0.1]/",
        "https://[2606:4700:4700::1111]:8443/",
    ] {
        assert!(validate_browser_url(url).is_ok(), "{url}");
    }
}

#[test]
fn check_url_parts_reads_ipv6_text() {
    let parts = |host: &str| UrlParts { scheme: "http".to_string(), host: Some(host.to_string()) };
    let reason = |host: &str| match check_url_parts("u", &parts(host)) {
        Err(BrowserError::InvalidUrl { reason, .. }) => Some(reason),
        Err(other) => panic!("unexpected {other:?}"),
        Ok(()) => None,
    };
    assert_eq!(
        reason("[0:0:0:0:0:ffff:7f00:1]").as_deref(),
        Some("localhost/loopback addresses are not allowed")
    );
    assert_eq!(
        reason("[::FFFF:A9FE:A9FE]").as_deref(),
        Some("cloud metadata endpoints are not allowed")
    );
    assert_eq!(
        reason("[fc00:0:0:0:0:0:0:0]").as_deref(),
        Some("private network addresses are not allowed")
    );
    assert_eq!(
        reason("[1:2:3:4:5:6:7::]").as_deref(),
        None
    );
    // Text that is not an IPv6 address is not judged as one.
    for host in ["[1:::2]", "[:1::2]", "[1:2:3:4:5:6:7:8:9]", "[12345::]", "[::1", "::1", "[]"] {
        assert_eq!(reason(host), None, "{host}");
    }
}
