use qbit_killswitch::config::{
    config_path_parts, default_ip_check_urls, load_result, resolve_password, validation_errors, Config,
    LoadOutcome, KEYCHAIN_SERVICE,
};

fn s(x: &str) -> String {
    x.to_string()
}

#[test]
fn defaults_match_the_documented_schema() {
    let c = Config::default();
    assert_eq!(c.qbit_url, "http://127.0.0.1:8080");
    assert_eq!(c.qbit_user, "admin");
    assert_eq!(c.qbit_pass, "");
    assert!(c.use_keychain);
    assert_eq!(c.legacy_ip_check_url, None);
    assert_eq!(
        c.ip_check_urls,
        vec![s("https://ifconfig.me/ip"), s("https://api.ipify.org"), s("https://checkip.amazonaws.com")]
    );
    assert_eq!(c.poll_secs, 10);
    assert_eq!(c.fail_threshold, 2);
    assert!(!c.launch_at_startup);
    assert!(c.minimize_to_tray);
    assert_eq!(default_ip_check_urls().len(), 3);
    assert_eq!(KEYCHAIN_SERVICE, "qbit-killswitch");
}

#[test]
fn normalize_clamps_poll_and_threshold() {
    let mut c = Config::default();
    c.poll_secs = 1;
    c.fail_threshold = 0;
    c.normalize();
    assert_eq!(c.poll_secs, 5);
    assert_eq!(c.fail_threshold, 1);

    let mut c = Config::default();
    c.poll_secs = 60;
    c.fail_threshold = 7;
    c.normalize();
    assert_eq!(c.poll_secs, 60);
    assert_eq!(c.fail_threshold, 7);
}

#[test]
fn normalize_promotes_legacy_url_into_empty_list() {
    let mut c = Config::default();
    c.ip_check_urls = vec![];
    c.legacy_ip_check_url = Some(s("https://old.example/ip"));
    c.normalize();
    assert_eq!(c.ip_check_urls, vec![s("https://old.example/ip")]);
    assert_eq!(c.legacy_ip_check_url, None);
}

#[test]
fn normalize_prepends_new_legacy_url() {
    let mut c = Config::default();
    c.ip_check_urls = vec![s("https://a.example"), s("https://b.example")];
    c.legacy_ip_check_url = Some(s("https://old.example/ip"));
    c.normalize();
    assert_eq!(
        c.ip_check_urls,
        vec![s("https://old.example/ip"), s("https://a.example"), s("https://b.example")]
    );
}

#[test]
fn normalize_keeps_list_when_legacy_url_present_already() {
    let mut c = Config::default();
    c.ip_check_urls = vec![s("https://a.example"), s("https://b.example")];
    c.legacy_ip_check_url = Some(s("https://b.example"));
    c.normalize();
    assert_eq!(c.ip_check_urls, vec![s("https://a.example"), s("https://b.example")]);
    assert_eq!(c.legacy_ip_check_url, None);
}

#[test]
fn normalize_ignores_empty_legacy_url_and_restores_defaults() {
    let mut c = Config::default();
    c.ip_check_urls = vec![];
    c.legacy_ip_check_url = Some(s(""));
    c.normalize();
    assert_eq!(c.ip_check_urls, default_ip_check_urls());
    assert_eq!(c.legacy_ip_check_url, None);
}

#[test]
fn normalize_twice_is_normalize_once() {
    let mut c = Config::default();
    c.poll_secs = 0;
    c.ip_check_urls = vec![];
    c.legacy_ip_check_url = Some(s("https://x.example"));
    c.normalize();
    let once = c.clone();
    c.normalize();
    assert_eq!(c.poll_secs, once.poll_secs);
    assert_eq!(c.fail_threshold, once.fail_threshold);
    assert_eq!(c.ip_check_urls, once.ip_check_urls);
    assert_eq!(c.legacy_ip_check_url, once.legacy_ip_check_url);
}

#[test]
fn validate_accepts_defaults() {
    assert!(Config::default().validate().is_empty());
}

#[test]
fn validate_reports_each_problem_in_order() {
    let mut c = Config::default();
    c.qbit_url = s("not a url");
    c.poll_secs = 3;
    c.fail_threshold = 0;
    c.ip_check_urls = vec![s("https://ok.example"), s("nope")];
    let errors = c.validate();
    assert_eq!(
        errors,
        vec![
            ("qbit_url", s("'not a url' is not a valid URL")),
            ("poll_secs", s("Poll interval must be at least 5 seconds")),
            ("fail_threshold", s("Fail threshold must be at least 1")),
            ("ip_check_urls", s("URL #2 is invalid: nope")),
        ]
    );
}

#[test]
fn validate_requires_an_ip_check_url() {
    let mut c = Config::default();
    c.ip_check_urls = vec![];
    assert_eq!(c.validate(), vec![("ip_check_urls", s("At least one IP check URL is required"))]);
}

#[test]
fn validate_counts_urls_from_one() {
    let mut c = Config::default();
    c.ip_check_urls = vec![s("bad1"); 11];
    let errors = c.validate();
    assert_eq!(errors.len(), 11);
    assert_eq!(errors[0].1, "URL #1 is invalid: bad1");
    assert_eq!(errors[10].1, "URL #11 is invalid: bad1");
}

#[test]
fn normalized_config_only_fails_on_urls() {
    let mut c = Config::default();
    c.poll_secs = 0;
    c.fail_threshold = 0;
    c.ip_check_urls = vec![];
    c.normalize();
    assert!(c.validate().is_empty());
}

#[test]
fn resolve_password_prefers_keychain() {
    let mut c = Config::default();
    c.qbit_pass = s("plain");
    assert_eq!(resolve_password(&c, Some(s("secret"))), (s("secret"), false));
}

#[test]
fn resolve_password_falls_back_with_warning() {
    let mut c = Config::default();
    c.qbit_pass = s("plain");
    assert_eq!(resolve_password(&c, None), (s("plain"), true));
    c.qbit_pass = s("");
    assert_eq!(resolve_password(&c, None), (s(""), true));
}

#[test]
fn resolve_password_without_keychain_uses_plaintext() {
    let mut c = Config::default();
    c.use_keychain = false;
    c.qbit_pass = s("plain");
    assert_eq!(resolve_password(&c, Some(s("ignored"))), (s("plain"), false));
}

#[test]
fn config_path_per_platform() {
    assert_eq!(
        config_path_parts("windows", &Some(s("C:\\Users\\me\\AppData")), &None, &None),
        vec![s("C:\\Users\\me\\AppData"), s("qbit-killswitch"), s("config.toml")]
    );
    assert_eq!(config_path_parts("windows", &None, &None, &None)[0], ".");
    assert_eq!(
        config_path_parts("macos", &None, &Some(s("/Users/me")), &None),
        vec![s("/Users/me"), s("Library"), s("Application Support"), s("qbit-killswitch"), s("config.toml")]
    );
    assert_eq!(
        config_path_parts("linux", &None, &Some(s("/home/me")), &None),
        vec![s("/home/me/.config"), s("qbit-killswitch"), s("config.toml")]
    );
    assert_eq!(
        config_path_parts("linux", &None, &Some(s("/home/me")), &Some(s("/xdg"))),
        vec![s("/xdg"), s("qbit-killswitch"), s("config.toml")]
    );
    assert_eq!(config_path_parts("freebsd", &None, &None, &None)[0], "./.config");
}

#[test]
fn load_falls_back_to_defaults_with_a_message() {
    let (c, w, write) = load_result(LoadOutcome::Missing);
    assert_eq!(c.poll_secs, 10);
    assert_eq!(w, None);
    assert!(write);

    let (c, w, write) = load_result(LoadOutcome::ReadFailed(s("permission denied")));
    assert_eq!(c.qbit_user, "admin");
    assert_eq!(w, Some(s("Could not read config: permission denied")));
    assert!(!write);

    let (_, w, write) = load_result(LoadOutcome::ParseFailed(s("bad key")));
    assert_eq!(w, Some(s("Config parse error: bad key")));
    assert!(!write);
}

#[test]
fn load_normalizes_the_file() {
    let mut file = Config::default();
    file.poll_secs = 2;
    file.legacy_ip_check_url = Some(s("https://legacy.example"));
    let (c, w, write) = load_result(LoadOutcome::Parsed(file));
    assert_eq!(w, None);
    assert!(!write);
    assert_eq!(c.poll_secs, 5);
    assert_eq!(c.ip_check_urls[0], "https://legacy.example");
    assert_eq!(c.ip_check_urls.len(), 4);
}

#[test]
fn validation_errors_follow_the_parse_results() {
    let mut c = Config::default();
    c.ip_check_urls = vec![s("a"), s("b"), s("c")];
    assert!(validation_errors(&c, true, &vec![true, true, true]).is_empty());
    assert_eq!(
        validation_errors(&c, false, &vec![true, false, true]),
        vec![
            ("qbit_url", s("'http://127.0.0.1:8080' is not a valid URL")),
            ("ip_check_urls", s("URL #2 is invalid: b")),
        ]
    );
}

#[test]
fn legacy_only_file_loads_as_one_url() {
    let mut file = Config::default();
    file.ip_check_urls = vec![];
    file.legacy_ip_check_url = Some(s("https://x.example/ip"));
    let (c, w, write) = load_result(LoadOutcome::Parsed(file));
    assert_eq!(w, None);
    assert!(!write);
    assert_eq!(c.ip_check_urls, vec![s("https://x.example/ip")]);
    assert_eq!(c.legacy_ip_check_url, None);
}
