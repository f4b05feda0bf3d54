use webopts::opts::{EnvInfo, Options, RawMatches, ResolveError};

fn raw_with_target(target: Option<&str>) -> RawMatches {
    RawMatches {
        target: target.map(|t| t.to_string()),
        base_url: None,
        cookie_file: None,
        encoding: None,
        output: None,
        timeout: None,
        user_agent: None,
        domains: Vec::new(),
        no_audio: false,
        blacklist_domains: false,
        no_css: false,
        ignore_errors: false,
        no_frames: false,
        no_fonts: false,
        no_images: false,
        isolate: false,
        no_js: false,
        insecure: false,
        no_metadata: false,
        silent: false,
        unwrap_noscript: false,
        no_video: false,
    }
}

fn interactive_env() -> EnvInfo {
    EnvInfo { no_color_var_set: false, term: None, stderr_is_tty: true }
}

const FIXED_USER_AGENT: &str =
    "Mozilla/5.0 (X11; Ubuntu; Linux x86_64; rv:73.0) Gecko/20100101 Firefox/73.0";

#[test]
fn only_target_resolves_to_defaults() {
    let r = Options::resolve(raw_with_target(Some("https://example.com")), &interactive_env());
    let o = r.ok().unwrap();
    assert_eq!(o.target, "https://example.com");
    assert_eq!(o.output, "document.html");
    assert_eq!(o.timeout, 120);
    assert_eq!(o.user_agent, Some(FIXED_USER_AGENT.to_string()));
    assert!(o.domains.is_none());
    assert_eq!(o.base_url, Some("http://localhost/".to_string()));
    assert_eq!(o.cookie_file, Some("cookies.txt".to_string()));
    assert_eq!(o.encoding, Some("UTF-8".to_string()));
    assert_eq!(o.cookies.len(), 0);
    assert!(!o.no_audio);
    assert!(!o.blacklist_domains);
    assert!(!o.no_css);
    assert!(!o.ignore_errors);
    assert!(!o.no_frames);
    assert!(!o.no_fonts);
    assert!(!o.no_images);
    assert!(!o.isolate);
    assert!(!o.no_js);
    assert!(!o.insecure);
    assert!(!o.no_metadata);
    assert!(!o.silent);
    assert!(!o.unwrap_noscript);
    assert!(!o.no_video);
}

#[test]
fn missing_target_fails() {
    let r = Options::resolve(raw_with_target(None), &interactive_env());
    assert_eq!(r.err().unwrap(), ResolveError::MissingRequiredArgument);
}

#[test]
fn empty_target_fails() {
    let r = Options::resolve(raw_with_target(Some("")), &interactive_env());
    assert_eq!(r.err().unwrap(), ResolveError::MissingRequiredArgument);
}

#[test]
fn missing_target_wins_over_bad_timeout() {
    let mut raw = raw_with_target(None);
    raw.timeout = Some("abc".to_string());
    let r = Options::resolve(raw, &interactive_env());
    assert_eq!(r.err().unwrap(), ResolveError::MissingRequiredArgument);
}

#[test]
fn non_numeric_timeout_fails() {
    let mut raw = raw_with_target(Some("https://example.com"));
    raw.timeout = Some("abc".to_string());
    let r = Options::resolve(raw, &interactive_env());
    assert_eq!(r.err().unwrap(), ResolveError::MalformedNumericOption);
}

#[test]
fn numeric_timeout_is_kept() {
    let mut raw = raw_with_target(Some("https://example.com"));
    raw.timeout = Some("15".to_string());
    let o = Options::resolve(raw, &interactive_env()).ok().unwrap();
    assert_eq!(o.timeout, 15);
}

#[test]
fn timeout_at_limit_is_kept() {
    let mut raw = raw_with_target(Some("https://example.com"));
    raw.timeout = Some("18446744073709551615".to_string());
    let o = Options::resolve(raw, &interactive_env()).ok().unwrap();
    assert_eq!(o.timeout, u64::MAX);
}

#[test]
fn timeout_over_limit_fails() {
    let mut raw = raw_with_target(Some("https://example.com"));
    raw.timeout = Some("18446744073709551616".to_string());
    let r = Options::resolve(raw, &interactive_env());
    assert_eq!(r.err().unwrap(), ResolveError::MalformedNumericOption);
}

#[test]
fn domains_keep_order_and_duplicates() {
    let mut raw = raw_with_target(Some("https://example.com"));
    raw.domains = vec![
        "news.example.com".to_string(),
        "cdn.example.com".to_string(),
        "news.example.com".to_string(),
    ];
    let o = Options::resolve(raw, &interactive_env()).ok().unwrap();
    assert_eq!(
        o.domains,
        Some(vec![
            "news.example.com".to_string(),
            "cdn.example.com".to_string(),
            "news.example.com".to_string(),
        ])
    );
}

#[test]
fn no_domains_resolve_to_absent() {
    let o = Options::resolve(raw_with_target(Some("https://example.com")), &interactive_env())
        .ok()
        .unwrap();
    assert!(o.domains.is_none());
}

#[test]
fn no_color_var_suppresses_color() {
    let env = EnvInfo { no_color_var_set: true, term: None, stderr_is_tty: true };
    let o = Options::resolve(raw_with_target(Some("https://example.com")), &env).ok().unwrap();
    assert!(o.no_color);
}

#[test]
fn dumb_terminal_suppresses_color() {
    let env = EnvInfo { no_color_var_set: false, term: Some("dumb".to_string()), stderr_is_tty: true };
    let o = Options::resolve(raw_with_target(Some("https://example.com")), &env).ok().unwrap();
    assert!(o.no_color);
}

#[test]
fn non_interactive_stderr_suppresses_color() {
    let env = EnvInfo { no_color_var_set: false, term: None, stderr_is_tty: false };
    let o = Options::resolve(raw_with_target(Some("https://example.com")), &env).ok().unwrap();
    assert!(o.no_color);
}

#[test]
fn interactive_plain_terminal_keeps_color() {
    let env = EnvInfo { no_color_var_set: false, term: Some("xterm-256color".to_string()), stderr_is_tty: true };
    let o = Options::resolve(raw_with_target(Some("https://example.com")), &env).ok().unwrap();
    assert!(!o.no_color);
}

#[test]
fn supplied_values_are_stored_as_present() {
    let mut raw = raw_with_target(Some("page.html"));
    raw.base_url = Some("https://example.com/dir/".to_string());
    raw.cookie_file = Some("jar.txt".to_string());
    raw.encoding = Some("ISO-8859-1".to_string());
    raw.output = Some("saved.html".to_string());
    raw.user_agent = Some("test-agent/1.0".to_string());
    let o = Options::resolve(raw, &interactive_env()).ok().unwrap();
    assert_eq!(o.base_url, Some("https://example.com/dir/".to_string()));
    assert_eq!(o.cookie_file, Some("jar.txt".to_string()));
    assert_eq!(o.encoding, Some("ISO-8859-1".to_string()));
    assert_eq!(o.output, "saved.html");
    assert_eq!(o.user_agent, Some("test-agent/1.0".to_string()));
}

#[test]
fn every_flag_copies_one_to_one() {
    let mut raw = raw_with_target(Some("https://example.com"));
    raw.no_audio = true;
    raw.blacklist_domains = true;
    raw.no_css = true;
    raw.ignore_errors = true;
    raw.no_frames = true;
    raw.no_fonts = true;
    raw.no_images = true;
    raw.isolate = true;
    raw.no_js = true;
    raw.insecure = true;
    raw.no_metadata = true;
    raw.silent = true;
    raw.unwrap_noscript = true;
    raw.no_video = true;
    let o = Options::resolve(raw, &interactive_env()).ok().unwrap();
    assert!(o.no_audio);
    assert!(o.blacklist_domains);
    assert!(o.no_css);
    assert!(o.ignore_errors);
    assert!(o.no_frames);
    assert!(o.no_fonts);
    assert!(o.no_images);
    assert!(o.isolate);
    assert!(o.no_js);
    assert!(o.insecure);
    assert!(o.no_metadata);
    assert!(o.silent);
    assert!(o.unwrap_noscript);
    assert!(o.no_video);
}

#[test]
fn end_to_end_audio_css_example() {
    let mut raw = raw_with_target(Some("https://example.com"));
    raw.no_audio = true;
    raw.no_css = true;
    let o = Options::resolve(raw, &interactive_env()).ok().unwrap();
    assert_eq!(o.target, "https://example.com");
    assert!(o.no_audio);
    assert!(o.no_css);
    assert_eq!(o.output, "document.html");
    assert_eq!(o.timeout, 120);
    assert_eq!(o.user_agent, Some(FIXED_USER_AGENT.to_string()));
    assert_eq!(o.base_url, Some("http://localhost/".to_string()));
    assert_eq!(o.cookie_file, Some("cookies.txt".to_string()));
    assert_eq!(o.encoding, Some("UTF-8".to_string()));
    assert!(o.domains.is_none());
    assert!(!o.blacklist_domains);
    assert!(!o.ignore_errors);
    assert!(!o.no_frames);
    assert!(!o.no_fonts);
    assert!(!o.no_images);
    assert!(!o.isolate);
    assert!(!o.no_js);
    assert!(!o.insecure);
    assert!(!o.no_metadata);
    assert!(!o.silent);
    assert!(!o.unwrap_noscript);
    assert!(!o.no_video);
    assert!(!o.no_color);
}
