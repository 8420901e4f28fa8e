use vstd::prelude::*;

use crate::text::{spec_decimal, decimal};

verus! {

/// Keychain service name under which the qBittorrent password is stored.
pub const KEYCHAIN_SERVICE: &'static str = "qbit-killswitch";

/// What a `Config` says, as mathematical values.
pub struct ConfigView {
    pub qbit_url: Seq<char>,
    pub qbit_user: Seq<char>,
    pub qbit_pass: Seq<char>,
    pub use_keychain: bool,
    pub legacy_ip_check_url: Option<Seq<char>>,
    pub ip_check_urls: Seq<Seq<char>>,
    pub poll_secs: u64,
    pub fail_threshold: u32,
    pub launch_at_startup: bool,
    pub minimize_to_tray: bool,
}

/// Persistent settings of the killswitch.
#[derive(Debug, Clone)]
pub struct Config {
    pub qbit_url: String,
    pub qbit_user: String,
    /// Plaintext password. Blank when `use_keychain = true` and the keychain works.
    pub qbit_pass: String,
    pub use_keychain: bool,
    /// Single-URL field of older config files. Read if present; never written.
    pub legacy_ip_check_url: Option<String>,
    pub ip_check_urls: Vec<String>,
    pub poll_secs: u64,
    pub fail_threshold: u32,
    pub launch_at_startup: bool,
    pub minimize_to_tray: bool,
}

pub open spec fn opt_string_view(o: Option<String>) -> Option<Seq<char>> {
    match o {
        Some(s) => Some(s@),
        None => None,
    }
}

impl View for Config {
    type V = ConfigView;

    open spec fn view(&self) -> ConfigView {
        ConfigView {
            qbit_url: self.qbit_url@,
            qbit_user: self.qbit_user@,
            qbit_pass: self.qbit_pass@,
            use_keychain: self.use_keychain,
            legacy_ip_check_url: opt_string_view(self.legacy_ip_check_url),
            ip_check_urls: self.ip_check_urls.deep_view(),
            poll_secs: self.poll_secs,
            fail_threshold: self.fail_threshold,
            launch_at_startup: self.launch_at_startup,
            minimize_to_tray: self.minimize_to_tray,
        }
    }
}

// ── Defaults ──────────────────────────────────────────────────────────────────

pub open spec fn spec_default_ip_check_urls() -> Seq<Seq<char>> {
    seq!["https://ifconfig.me/ip"@, "https://api.ipify.org"@, "https://checkip.amazonaws.com"@]
}

pub open spec fn spec_default_config() -> ConfigView {
    ConfigView {
        qbit_url: "http://127.0.0.1:8080"@,
        qbit_user: "admin"@,
        qbit_pass: Seq::empty(),
        use_keychain: true,
        legacy_ip_check_url: None,
        ip_check_urls: spec_default_ip_check_urls(),
        poll_secs: 10,
        fail_threshold: 2,
        launch_at_startup: false,
        minimize_to_tray: true,
    }
}

pub fn default_true() -> (r: bool)
    ensures
        r,
{
    true
}

pub fn default_poll_secs() -> (r: u64)
    ensures
        r == 10,
{
    10
}

pub fn default_fail_threshold() -> (r: u32)
    ensures
        r == 2,
{
    2
}

pub fn default_qbit_url() -> (r: String)
    ensures
        r@ == "http://127.0.0.1:8080"@,
{
    String::from_str("http://127.0.0.1:8080")
}

pub fn default_admin() -> (r: String)
    ensures
        r@ == "admin"@,
{
    String::from_str("admin")
}

/// The IP echo services used when the configuration names none.
pub fn default_ip_check_urls() -> (r: Vec<String>)
    ensures
        r.deep_view() == spec_default_ip_check_urls(),
{
    let mut v: Vec<String> = Vec::new();
    v.push(String::from_str("https://ifconfig.me/ip"));
    v.push(String::from_str("https://api.ipify.org"));
    v.push(String::from_str("https://checkip.amazonaws.com"));
    assert(v.deep_view() =~= spec_default_ip_check_urls());
    v
}

impl Default for Config {
    fn default() -> (r: Self)
        ensures
            r@ == spec_default_config(),
    {
        Config {
            qbit_url: default_qbit_url(),
            qbit_user: default_admin(),
            qbit_pass: String::new(),
            use_keychain: true,
            legacy_ip_check_url: None,
            ip_check_urls: default_ip_check_urls(),
            poll_secs: 10,
            fail_threshold: 2,
            launch_at_startup: false,
            minimize_to_tray: true,
        }
    }
}

/// A copy of the strings, in order.
pub fn clone_strings(v: &Vec<String>) -> (r: Vec<String>)
    ensures
        r.deep_view() == v.deep_view(),
{
    let mut out: Vec<String> = Vec::new();
    let mut i: usize = 0;
    while i < v.len()
        invariant
            i <= v.len(),
            out@.len() == i,
            forall|k: int| 0 <= k < i ==> #[trigger] out@[k]@ == v@[k]@,
        decreases v.len() - i,
    {
        let item: String = v[i].clone();
        out.push(item);
        i = i + 1;
    }
    assert(out.deep_view() =~= v.deep_view());
    out
}

/// Whether two lists of strings are equal, element by element.
pub fn same_strings(a: &Vec<String>, b: &Vec<String>) -> (r: bool)
    ensures
        r == (a.deep_view() == b.deep_view()),
{
    if a.len() != b.len() {
        assert(a.deep_view().len() != b.deep_view().len());
        return false;
    }
    let mut i: usize = 0;
    while i < a.len()
        invariant
            i <= a.len() == b.len(),
            forall|k: int| 0 <= k < i ==> a.deep_view()[k] == b.deep_view()[k],
        decreases a.len() - i,
    {
        if a[i] != b[i] {
            assert(a.deep_view()[i as int] != b.deep_view()[i as int]);
            return false;
        }
        i = i + 1;
    }
    assert(a.deep_view() =~= b.deep_view());
    true
}

impl Config {
    /// A copy of the configuration.
    pub fn cloned(&self) -> (r: Config)
        ensures
            r@ == self@,
    {
        Config {
            qbit_url: self.qbit_url.clone(),
            qbit_user: self.qbit_user.clone(),
            qbit_pass: self.qbit_pass.clone(),
            use_keychain: self.use_keychain,
            legacy_ip_check_url: match &self.legacy_ip_check_url {
                Some(u) => Some(u.clone()),
                None => None,
            },
            ip_check_urls: clone_strings(&self.ip_check_urls),
            poll_secs: self.poll_secs,
            fail_threshold: self.fail_threshold,
            launch_at_startup: self.launch_at_startup,
            minimize_to_tray: self.minimize_to_tray,
        }
    }
}

// ── Normalisation ─────────────────────────────────────────────────────────────

/// The URL list after promoting a legacy single URL.
pub open spec fn promote_legacy(legacy: Option<Seq<char>>, urls: Seq<Seq<char>>) -> Seq<Seq<char>> {
    match legacy {
        Some(url) => if url.len() == 0 {
            urls
        } else if urls.len() == 0 {
            seq![url]
        } else if !urls.contains(url) {
            seq![url] + urls
        } else {
            urls
        },
        None => urls,
    }
}

/// The configuration with its constraints applied and its legacy field migrated.
pub open spec fn spec_normalize(c: ConfigView) -> ConfigView {
    let urls = promote_legacy(c.legacy_ip_check_url, c.ip_check_urls);
    ConfigView {
        poll_secs: if c.poll_secs < 5 { 5 } else { c.poll_secs },
        fail_threshold: if c.fail_threshold < 1 { 1 } else { c.fail_threshold },
        legacy_ip_check_url: None,
        ip_check_urls: if urls.len() == 0 { spec_default_ip_check_urls() } else { urls },
        ..c
    }
}

/// Whether `s` occurs in `v`.
pub fn contains_string(v: &Vec<String>, s: &String) -> (r: bool)
    ensures
        r == v.deep_view().contains(s@),
{
    let mut i: usize = 0;
    while i < v.len()
        invariant
            i <= v.len(),
            forall|k: int| 0 <= k < i ==> v.deep_view()[k] != s@,
        decreases v.len() - i,
    {
        if v[i] == *s {
            assert(v.deep_view()[i as int] == s@);
            return true;
        }
        i = i + 1;
    }
    false
}

impl Config {
    /// Applies the constraints (`poll_secs >= 5`, `fail_threshold >= 1`, at least one
    /// IP check URL) and promotes a legacy `ip_check_url` into `ip_check_urls`.
    pub fn normalize(&mut self)
        ensures
            final(self)@ == spec_normalize(old(self)@),
    {
        if self.poll_secs < 5 {
            self.poll_secs = 5;
        }
        if self.fail_threshold < 1 {
            self.fail_threshold = 1;
        }
        let legacy = self.legacy_ip_check_url.take();
        match legacy {
            Some(url) => {
                if !url.as_str().is_empty() {
                    if self.ip_check_urls.len() == 0 {
                        self.ip_check_urls.push(url);
                    } else if !contains_string(&self.ip_check_urls, &url) {
                        self.ip_check_urls.insert(0, url);
                    }
                }
            }
            None => {}
        }
        assert(self.ip_check_urls.deep_view() =~= promote_legacy(
            old(self)@.legacy_ip_check_url,
            old(self)@.ip_check_urls,
        ));
        if self.ip_check_urls.len() == 0 {
            self.ip_check_urls = default_ip_check_urls();
        }
    }
}


// ── Validation ────────────────────────────────────────────────────────────────

#[verifier::external_type_specification]
#[verifier::external_body]
pub struct ExUrl(url::Url);

#[verifier::external_type_specification]
#[verifier::external_body]
pub struct ExUrlParseError(url::ParseError);

/// Whether `url::Url::parse` accepts the text as an absolute URL.
pub uninterp spec fn spec_url_parses(text: Seq<char>) -> bool;

/// `url::Url::parse`. Trusted: it succeeds exactly when the named property holds
/// of the text, which depends on the text alone. Nothing is stated of the URL or
/// of the error.
#[verifier::external_body]
fn parse_url(text: &str) -> (r: Result<url::Url, url::ParseError>)
    ensures
        r is Ok <==> spec_url_parses(text@),
{
    url::Url::parse(text)
}

/// Whether the text parses as a URL.
fn url_parses(text: &str) -> (r: bool)
    ensures
        r == spec_url_parses(text@),
{
    parse_url(text).is_ok()
}

/// One validation finding: the field it concerns and the message shown for it.
pub type FieldError = (&'static str, String);

pub open spec fn field_error_view(e: FieldError) -> (Seq<char>, Seq<char>) {
    (e.0@, e.1@)
}

pub open spec fn field_errors_view(v: Seq<FieldError>) -> Seq<(Seq<char>, Seq<char>)> {
    v.map_values(|e: FieldError| field_error_view(e))
}

/// The finding for the IP check URL at position `i` (counted from 1 in the message).
pub open spec fn bad_url_error(i: int, url: Seq<char>) -> (Seq<char>, Seq<char>) {
    ("ip_check_urls"@, "URL #"@ + spec_decimal((i + 1) as nat) + " is invalid: "@ + url)
}

/// The findings for the first `n` IP check URLs, in order, given whether each parses.
pub open spec fn url_list_errors(urls: Seq<Seq<char>>, oks: Seq<bool>, n: int) -> Seq<(Seq<char>, Seq<char>)>
    decreases n,
{
    if n <= 0 {
        Seq::empty()
    } else if oks[n - 1] {
        url_list_errors(urls, oks, n - 1)
    } else {
        url_list_errors(urls, oks, n - 1).push(bad_url_error(n - 1, urls[n - 1]))
    }
}

/// Everything validation reports about a configuration, in order, given whether
/// `qbit_url` parses as a URL and whether each IP check URL does.
pub open spec fn spec_findings(c: ConfigView, qbit_url_ok: bool, urls_ok: Seq<bool>) -> Seq<(Seq<char>, Seq<char>)> {
    let e1: Seq<(Seq<char>, Seq<char>)> = if qbit_url_ok {
        Seq::empty()
    } else {
        seq![("qbit_url"@, "'"@ + c.qbit_url + "' is not a valid URL"@)]
    };
    let e2 = if c.poll_secs < 5 {
        e1.push(("poll_secs"@, "Poll interval must be at least 5 seconds"@))
    } else {
        e1
    };
    let e3 = if c.fail_threshold < 1 {
        e2.push(("fail_threshold"@, "Fail threshold must be at least 1"@))
    } else {
        e2
    };
    let e4 = if c.ip_check_urls.len() == 0 {
        e3.push(("ip_check_urls"@, "At least one IP check URL is required"@))
    } else {
        e3
    };
    e4 + url_list_errors(c.ip_check_urls, urls_ok, c.ip_check_urls.len() as int)
}

/// Whether each URL parses.
pub open spec fn url_parse_flags(urls: Seq<Seq<char>>) -> Seq<bool> {
    urls.map_values(|u: Seq<char>| spec_url_parses(u))
}

/// Everything `validate` reports about a configuration, in the order it reports it.
pub open spec fn spec_validate(c: ConfigView) -> Seq<(Seq<char>, Seq<char>)> {
    spec_findings(c, spec_url_parses(c.qbit_url), url_parse_flags(c.ip_check_urls))
}

/// The configuration is acceptable: every URL parses and every constraint holds.
pub open spec fn spec_valid(c: ConfigView) -> bool {
    &&& spec_url_parses(c.qbit_url)
    &&& c.poll_secs >= 5
    &&& c.fail_threshold >= 1
    &&& c.ip_check_urls.len() > 0
    &&& forall|i: int| 0 <= i < c.ip_check_urls.len() ==> spec_url_parses(#[trigger] c.ip_check_urls[i])
}

proof fn lemma_url_list_errors_empty(urls: Seq<Seq<char>>, oks: Seq<bool>, n: int)
    requires
        0 <= n <= urls.len(),
        n <= oks.len(),
    ensures
        url_list_errors(urls, oks, n).len() == 0 <==> forall|i: int| 0 <= i < n ==> #[trigger] oks[i],
    decreases n,
{
    if n > 0 {
        lemma_url_list_errors_empty(urls, oks, n - 1);
        if !oks[n - 1] {
            assert(!(forall|i: int| 0 <= i < n ==> #[trigger] oks[i]));
        }
    }
}

proof fn lemma_findings_empty(c: ConfigView, qbit_url_ok: bool, urls_ok: Seq<bool>)
    requires
        urls_ok.len() == c.ip_check_urls.len(),
    ensures
        spec_findings(c, qbit_url_ok, urls_ok).len() == 0 <==> {
            &&& qbit_url_ok
            &&& c.poll_secs >= 5
            &&& c.fail_threshold >= 1
            &&& c.ip_check_urls.len() > 0
            &&& forall|i: int| 0 <= i < urls_ok.len() ==> #[trigger] urls_ok[i]
        },
{
    lemma_url_list_errors_empty(c.ip_check_urls, urls_ok, c.ip_check_urls.len() as int);
}

/// Lists (field name, message) for every problem found, given whether `qbit_url`
/// parses (`qbit_url_ok`) and whether each IP check URL does (`urls_ok`, in order).
pub fn validation_errors(config: &Config, qbit_url_ok: bool, urls_ok: &Vec<bool>) -> (r: Vec<FieldError>)
    requires
        urls_ok.len() == config.ip_check_urls.len(),
    ensures
        field_errors_view(r@) == spec_findings(config@, qbit_url_ok, urls_ok@),
{
    let mut errors: Vec<FieldError> = Vec::new();
    if !qbit_url_ok {
        let mut msg = String::from_str("'");
        msg.append(config.qbit_url.as_str());
        msg.append("' is not a valid URL");
        errors.push(("qbit_url", msg));
    }
    if config.poll_secs < 5 {
        errors.push(("poll_secs", String::from_str("Poll interval must be at least 5 seconds")));
    }
    if config.fail_threshold < 1 {
        errors.push(("fail_threshold", String::from_str("Fail threshold must be at least 1")));
    }
    if config.ip_check_urls.len() == 0 {
        errors.push(("ip_check_urls", String::from_str("At least one IP check URL is required")));
    }
    let ghost base = field_errors_view(errors@);
    assert(base =~= {
        let c = config@;
        let e1: Seq<(Seq<char>, Seq<char>)> = if qbit_url_ok {
            Seq::empty()
        } else {
            seq![("qbit_url"@, "'"@ + c.qbit_url + "' is not a valid URL"@)]
        };
        let e2 = if c.poll_secs < 5 {
            e1.push(("poll_secs"@, "Poll interval must be at least 5 seconds"@))
        } else {
            e1
        };
        let e3 = if c.fail_threshold < 1 {
            e2.push(("fail_threshold"@, "Fail threshold must be at least 1"@))
        } else {
            e2
        };
        if c.ip_check_urls.len() == 0 {
            e3.push(("ip_check_urls"@, "At least one IP check URL is required"@))
        } else {
            e3
        }
    });
    let ghost urls = config.ip_check_urls.deep_view();
    let mut i: usize = 0;
    while i < config.ip_check_urls.len()
        invariant
            i <= config.ip_check_urls.len() == urls_ok.len(),
            urls == config.ip_check_urls.deep_view(),
            field_errors_view(errors@) =~= base + url_list_errors(urls, urls_ok@, i as int),
        decreases config.ip_check_urls.len() - i,
    {
        if !urls_ok[i] {
            let u = &config.ip_check_urls[i];
            let mut msg = String::from_str("URL #");
            let num = decimal((i as u64) + 1);
            msg.append(num.as_str());
            msg.append(" is invalid: ");
            msg.append(u.as_str());
            let ghost before = errors@;
            errors.push(("ip_check_urls", msg));
            assert(field_errors_view(errors@) =~= field_errors_view(before).push(
                bad_url_error(i as int, urls[i as int]),
            ));
        }
        i = i + 1;
    }
    errors
}

impl Config {
    /// Lists (field name, message) for every problem found; empty means valid.
    pub fn validate(&self) -> (r: Vec<FieldError>)
        ensures
            field_errors_view(r@) == spec_validate(self@),
            r@.len() == 0 <==> spec_valid(self@),
    {
        let qbit_url_ok = url_parses(self.qbit_url.as_str());
        let ghost urls = self.ip_check_urls.deep_view();
        let mut oks: Vec<bool> = Vec::new();
        let mut i: usize = 0;
        while i < self.ip_check_urls.len()
            invariant
                i <= self.ip_check_urls.len(),
                urls == self.ip_check_urls.deep_view(),
                oks@ =~= url_parse_flags(urls).take(i as int),
            decreases self.ip_check_urls.len() - i,
        {
            assert(urls[i as int] == self.ip_check_urls@[i as int]@);
            oks.push(url_parses(self.ip_check_urls[i].as_str()));
            i = i + 1;
        }
        assert(oks@ =~= url_parse_flags(urls));
        let errors = validation_errors(self, qbit_url_ok, &oks);
        proof {
            lemma_findings_empty(self@, qbit_url_ok, oks@);
            assert(field_errors_view(errors@).len() == errors@.len());
            assert forall|k: int| 0 <= k < urls.len() implies #[trigger] oks@[k] == spec_url_parses(urls[k]) by {
                assert(url_parse_flags(urls)[k] == spec_url_parses(urls[k]));
            }
            if errors@.len() == 0 {
                assert forall|k: int| 0 <= k < urls.len() implies spec_url_parses(#[trigger] urls[k]) by {
                    assert(oks@[k]);
                }
            }
            if spec_valid(self@) {
                assert forall|k: int| 0 <= k < oks@.len() implies #[trigger] oks@[k] by {
                    assert(spec_url_parses(urls[k]));
                }
            }
        }
        errors
    }
}

// ── Password resolution ──────────────────────────────────────────────────────

/// The password the monitor uses and whether the keychain warning shows: with the
/// keychain on, its answer when it gave one; otherwise the plaintext password, with
/// the warning when the keychain was wanted but could not be read.
pub open spec fn spec_resolve_password(c: ConfigView, keychain: Option<Seq<char>>) -> (Seq<char>, bool) {
    if c.use_keychain {
        match keychain {
            Some(p) => (p, false),
            None => (c.qbit_pass, true),
        }
    } else {
        (c.qbit_pass, false)
    }
}

/// Resolves the runtime password. `keychain` is what the OS keychain answered for
/// `config.qbit_user` (`None` when the read failed); the caller looks it up only when
/// `config.use_keychain` holds, and it is ignored otherwise. The flag is true when
/// the keychain was wanted but failed, so the plaintext password stands in for it.
pub fn resolve_password(config: &Config, keychain: Option<String>) -> (r: (String, bool))
    ensures
        (r.0@, r.1) == spec_resolve_password(config@, opt_string_view(keychain)),
{
    if config.use_keychain {
        match keychain {
            Some(pass) => (pass, false),
            None => (config.qbit_pass.clone(), true),
        }
    } else {
        (config.qbit_pass.clone(), false)
    }
}

// ── Location and loading ──────────────────────────────────────────────────────

/// The components of the configuration file's path, from the platform and the
/// environment variables `APPDATA`, `HOME` and `XDG_CONFIG_HOME` (`None` when unset).
pub open spec fn spec_config_path_parts(
    os: Seq<char>,
    appdata: Option<Seq<char>>,
    home: Option<Seq<char>>,
    xdg_config_home: Option<Seq<char>>,
) -> Seq<Seq<char>> {
    let home_or_dot = match home {
        Some(h) => h,
        None => "."@,
    };
    if os == "windows"@ {
        let base = match appdata {
            Some(a) => a,
            None => "."@,
        };
        seq![base, "qbit-killswitch"@, "config.toml"@]
    } else if os == "macos"@ {
        seq![home_or_dot, "Library"@, "Application Support"@, "qbit-killswitch"@, "config.toml"@]
    } else {
        let base = match xdg_config_home {
            Some(x) => x,
            None => home_or_dot + "/.config"@,
        };
        seq![base, "qbit-killswitch"@, "config.toml"@]
    }
}

fn string_or_dot(s: &Option<String>) -> (r: String)
    ensures
        r@ == (match opt_string_view(*s) {
            Some(t) => t,
            None => "."@,
        }),
{
    match s {
        Some(t) => t.clone(),
        None => String::from_str("."),
    }
}

/// Where the configuration file lives, as path components to join: under
/// `APPDATA` on Windows, `~/Library/Application Support` on macOS, and
/// `$XDG_CONFIG_HOME` (or `~/.config`) elsewhere; `.` stands in for an unset variable.
pub fn config_path_parts(
    os: &str,
    appdata: &Option<String>,
    home: &Option<String>,
    xdg_config_home: &Option<String>,
) -> (r: Vec<String>)
    ensures
        r.deep_view() == spec_config_path_parts(
            os@,
            opt_string_view(*appdata),
            opt_string_view(*home),
            opt_string_view(*xdg_config_home),
        ),
{
    let os_s = String::from_str(os);
    let mut parts: Vec<String> = Vec::new();
    if os_s == String::from_str("windows") {
        parts.push(string_or_dot(appdata));
        parts.push(String::from_str("qbit-killswitch"));
        parts.push(String::from_str("config.toml"));
    } else if os_s == String::from_str("macos") {
        parts.push(string_or_dot(home));
        parts.push(String::from_str("Library"));
        parts.push(String::from_str("Application Support"));
        parts.push(String::from_str("qbit-killswitch"));
        parts.push(String::from_str("config.toml"));
    } else {
        let base = match xdg_config_home {
            Some(x) => x.clone(),
            None => {
                let mut h = string_or_dot(home);
                h.append("/.config");
                h
            },
        };
        parts.push(base);
        parts.push(String::from_str("qbit-killswitch"));
        parts.push(String::from_str("config.toml"));
    }
    assert(parts.deep_view() =~= spec_config_path_parts(
        os@,
        opt_string_view(*appdata),
        opt_string_view(*home),
        opt_string_view(*xdg_config_home),
    ));
    parts
}

/// What reading the configuration file gave.
#[derive(Debug)]
pub enum LoadOutcome {
    /// There is no file.
    Missing,
    /// The file could not be read; the error's text.
    ReadFailed(String),
    /// The file is not a valid configuration; the error's text.
    ParseFailed(String),
    /// The configuration the file holds.
    Parsed(Config),
}

pub enum LoadView {
    Missing,
    ReadFailed(Seq<char>),
    ParseFailed(Seq<char>),
    Parsed(ConfigView),
}

impl View for LoadOutcome {
    type V = LoadView;

    open spec fn view(&self) -> LoadView {
        match self {
            LoadOutcome::Missing => LoadView::Missing,
            LoadOutcome::ReadFailed(e) => LoadView::ReadFailed(e@),
            LoadOutcome::ParseFailed(e) => LoadView::ParseFailed(e@),
            LoadOutcome::Parsed(c) => LoadView::Parsed(c@),
        }
    }
}

/// The configuration to start with, the warning to show once, and whether to write
/// the configuration out: the file's configuration normalised; the defaults, to be
/// written, when there is no file; or the defaults with what went wrong.
pub open spec fn spec_load(o: LoadView) -> (ConfigView, Option<Seq<char>>, bool) {
    match o {
        LoadView::Missing => (spec_default_config(), None, true),
        LoadView::ReadFailed(e) => (spec_default_config(), Some("Could not read config: "@ + e), false),
        LoadView::ParseFailed(e) => (spec_default_config(), Some("Config parse error: "@ + e), false),
        LoadView::Parsed(c) => (spec_normalize(c), None, false),
    }
}

/// Turns the outcome of reading the configuration file into the configuration to
/// use, an optional warning, and whether to write the defaults out (when there was
/// no file); any failure falls back to the defaults.
pub fn load_result(outcome: LoadOutcome) -> (r: (Config, Option<String>, bool))
    ensures
        (r.0@, opt_string_view(r.1), r.2) == spec_load(outcome@),
{
    match outcome {
        LoadOutcome::Missing => (Config::default(), None, true),
        LoadOutcome::ReadFailed(e) => {
            let mut m = String::from_str("Could not read config: ");
            m.append(e.as_str());
            (Config::default(), Some(m), false)
        },
        LoadOutcome::ParseFailed(e) => {
            let mut m = String::from_str("Config parse error: ");
            m.append(e.as_str());
            (Config::default(), Some(m), false)
        },
        LoadOutcome::Parsed(c) => {
            let mut c = c;
            c.normalize();
            (c, None, false)
        },
    }
}

// ── Laws ──────────────────────────────────────────────────────────────────────

/// Normalising twice is normalising once.
pub proof fn lemma_normalize_idempotent(c: ConfigView)
    ensures
        spec_normalize(spec_normalize(c)) == spec_normalize(c),
{
    assert(spec_normalize(spec_normalize(c)).ip_check_urls == spec_normalize(c).ip_check_urls);
}

/// A normalised configuration meets every numeric constraint, names at least one
/// IP check URL and has no legacy field; it is valid exactly when its URLs parse.
pub proof fn lemma_normalized_constraints(c: ConfigView)
    ensures
        spec_normalize(c).poll_secs >= 5,
        spec_normalize(c).fail_threshold >= 1,
        spec_normalize(c).ip_check_urls.len() > 0,
        spec_normalize(c).legacy_ip_check_url is None,
        spec_valid(spec_normalize(c)) <==> (spec_url_parses(c.qbit_url) && forall|i: int|
            0 <= i < spec_normalize(c).ip_check_urls.len() ==> spec_url_parses(
                #[trigger] spec_normalize(c).ip_check_urls[i],
            )),
{
}

/// A non-empty legacy URL ends up in the list: first when it was not there yet,
/// and as the only entry when the file listed no URLs.
pub proof fn lemma_legacy_url_promoted(c: ConfigView, url: Seq<char>)
    requires
        c.legacy_ip_check_url == Some(url),
        url.len() > 0,
    ensures
        spec_normalize(c).ip_check_urls.contains(url),
        !c.ip_check_urls.contains(url) ==> spec_normalize(c).ip_check_urls[0] == url,
        c.ip_check_urls.len() == 0 ==> spec_normalize(c).ip_check_urls == seq![url],
{
    let urls = spec_normalize(c).ip_check_urls;
    if c.ip_check_urls.len() == 0 {
        assert(urls[0] == url);
    } else if !c.ip_check_urls.contains(url) {
        assert(urls[0] == url);
    }
}

/// Values already within the constraints are kept.
pub proof fn lemma_normalize_keeps_valid_values(c: ConfigView)
    requires
        c.poll_secs >= 5,
        c.fail_threshold >= 1,
        c.ip_check_urls.len() > 0,
        c.legacy_ip_check_url is None,
    ensures
        spec_normalize(c) == c,
{
}

} // verus!
