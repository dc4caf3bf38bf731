//! Persisted settings: the layered option record, its fixed baseline, and
//! the validated key/value accessors used by the `config` verb.

use vstd::prelude::*;
use crate::outside::{lower_of, lowercase};
use crate::text::{chars_of, decimal, digit_char, render_decimal, same_text};

verus! {

/// A chart repository known to the package manager.
pub struct Repository {
    pub name: String,
    pub url: String,
}

impl View for Repository {
    type V = (Seq<char>, Seq<char>);

    open spec fn view(&self) -> (Seq<char>, Seq<char>) {
        (self.name@, self.url@)
    }
}

/// The persisted settings; every field may be unset.
pub struct Config {
    pub default_environment: Option<String>,
    pub default_concurrency: Option<u8>,
    pub default_timeout: Option<u32>,
    pub auto_update_repos: Option<bool>,
    pub preferred_context: Option<String>,
    pub log_level: Option<String>,
    pub repositories: Option<Vec<Repository>>,
}

/// The settings as mathematical values.
pub struct ConfigView {
    pub environment: Option<Seq<char>>,
    pub concurrency: Option<u8>,
    pub timeout: Option<u32>,
    pub auto_update: Option<bool>,
    pub context: Option<Seq<char>>,
    pub log_level: Option<Seq<char>>,
    pub repositories: Option<Seq<(Seq<char>, Seq<char>)>>,
}

pub open spec fn text_opt(o: Option<String>) -> Option<Seq<char>> {
    match o {
        Some(s) => Some(s@),
        None => None,
    }
}

pub open spec fn repos_view(v: Seq<Repository>) -> Seq<(Seq<char>, Seq<char>)> {
    v.map_values(|r: Repository| r@)
}

impl View for Config {
    type V = ConfigView;

    open spec fn view(&self) -> ConfigView {
        ConfigView {
            environment: text_opt(self.default_environment),
            concurrency: self.default_concurrency,
            timeout: self.default_timeout,
            auto_update: self.auto_update_repos,
            context: text_opt(self.preferred_context),
            log_level: text_opt(self.log_level),
            repositories: match self.repositories {
                Some(v) => Some(repos_view(v@)),
                None => None,
            },
        }
    }
}

/// Settings with every field unset.
pub open spec fn unset_view() -> ConfigView {
    ConfigView {
        environment: None,
        concurrency: None,
        timeout: None,
        auto_update: None,
        context: None,
        log_level: None,
        repositories: None,
    }
}

/// The two chart repositories that are always primed.
pub open spec fn seed_repositories_view() -> Seq<(Seq<char>, Seq<char>)> {
    seq![
        ("bitnami"@, "https://charts.bitnami.com/bitnami"@),
        ("stable"@, "https://charts.helm.sh/stable"@),
    ]
}

/// The fixed baseline settings.
pub open spec fn baseline_view() -> ConfigView {
    ConfigView {
        environment: Some("development"@),
        concurrency: Some(2),
        timeout: Some(300),
        auto_update: Some(true),
        context: None,
        log_level: Some("info"@),
        repositories: Some(seed_repositories_view()),
    }
}

/// The seed repositories, bitnami first.
pub fn seed_repositories() -> (r: Vec<Repository>)
    ensures
        repos_view(r@) == seed_repositories_view(),
{
    let mut r: Vec<Repository> = Vec::new();
    r.push(
        Repository {
            name: "bitnami".to_owned(),
            url: "https://charts.bitnami.com/bitnami".to_owned(),
        },
    );
    r.push(Repository { name: "stable".to_owned(), url: "https://charts.helm.sh/stable".to_owned() });
    assert(repos_view(r@) =~= seed_repositories_view());
    r
}

impl Default for Config {
    /// Settings with every field unset.
    fn default() -> (r: Config)
        ensures
            r@ == unset_view(),
            settings_well_formed(r@),
    {
        Config {
            default_environment: None,
            default_concurrency: None,
            default_timeout: None,
            auto_update_repos: None,
            preferred_context: None,
            log_level: None,
            repositories: None,
        }
    }
}

impl Config {
    /// The fixed baseline: environment "development", concurrency 2,
    /// timeout 300, repository updates on, log level "info", and the seed
    /// repositories.
    pub fn default_config() -> (r: Config)
        ensures
            r@ == baseline_view(),
            settings_well_formed(r@),
    {
        Config {
            default_environment: Some("development".to_owned()),
            default_concurrency: Some(2),
            default_timeout: Some(300),
            auto_update_repos: Some(true),
            preferred_context: None,
            log_level: Some("info".to_owned()),
            repositories: Some(seed_repositories()),
        }
    }
}


/// The six scalar settings keys.
#[derive(PartialEq, Eq, Structural, Clone, Copy, Debug)]
pub enum SettingKey {
    DefaultEnvironment,
    DefaultConcurrency,
    DefaultTimeout,
    AutoUpdateRepos,
    PreferredContext,
    LogLevel,
}

/// The key's name as written in the settings document.
pub open spec fn key_name(k: SettingKey) -> Seq<char> {
    match k {
        SettingKey::DefaultEnvironment => "default_environment"@,
        SettingKey::DefaultConcurrency => "default_concurrency"@,
        SettingKey::DefaultTimeout => "default_timeout"@,
        SettingKey::AutoUpdateRepos => "auto_update_repos"@,
        SettingKey::PreferredContext => "preferred_context"@,
        SettingKey::LogLevel => "log_level"@,
    }
}

/// The key that `name` spells, if any.
pub open spec fn key_of(name: Seq<char>) -> Option<SettingKey> {
    if name == "default_environment"@ {
        Some(SettingKey::DefaultEnvironment)
    } else if name == "default_concurrency"@ {
        Some(SettingKey::DefaultConcurrency)
    } else if name == "default_timeout"@ {
        Some(SettingKey::DefaultTimeout)
    } else if name == "auto_update_repos"@ {
        Some(SettingKey::AutoUpdateRepos)
    } else if name == "preferred_context"@ {
        Some(SettingKey::PreferredContext)
    } else if name == "log_level"@ {
        Some(SettingKey::LogLevel)
    } else {
        None
    }
}

/// A coerced value for one scalar key.
pub enum SettingValue {
    Text(Seq<char>),
    Count(u8),
    Seconds(u32),
    Flag(bool),
}

pub open spec fn is_digit(c: char) -> bool {
    '0' <= c && c <= '9'
}

pub open spec fn digit_value(c: char) -> nat {
    (c as u32 - '0' as u32) as nat
}

/// The value of a string of decimal digits.
pub open spec fn digits_value(s: Seq<char>) -> nat
    decreases s.len(),
{
    if s.len() == 0 {
        0
    } else {
        digits_value(s.drop_last()) * 10 + digit_value(s.last())
    }
}

/// The digits of an unsigned number: the text after an optional leading '+'.
pub open spec fn unsigned_digits(s: Seq<char>) -> Seq<char> {
    if s.len() > 0 && s[0] == '+' {
        s.drop_first()
    } else {
        s
    }
}

/// The number that `s` spells as an optional '+' followed by one or more
/// decimal digits, with no other character.
pub open spec fn unsigned_value(s: Seq<char>) -> Option<nat> {
    let d = unsigned_digits(s);
    if d.len() > 0 && (forall|i: int| 0 <= i < d.len() ==> is_digit(#[trigger] d[i])) {
        Some(digits_value(d))
    } else {
        None
    }
}

/// The log levels, in lowercase.
pub open spec fn is_level_name(s: Seq<char>) -> bool {
    s == "debug"@ || s == "info"@ || s == "warn"@ || s == "error"@
}

/// `raw` checked and coerced for `k`; `None` when it is outside the key's
/// domain.
pub open spec fn coerce(k: SettingKey, raw: Seq<char>) -> Option<SettingValue> {
    match k {
        SettingKey::DefaultEnvironment => Some(SettingValue::Text(raw)),
        SettingKey::PreferredContext => Some(SettingValue::Text(raw)),
        SettingKey::DefaultConcurrency => match unsigned_value(raw) {
            Some(n) => if n <= u8::MAX {
                Some(SettingValue::Count(n as u8))
            } else {
                None
            },
            None => None,
        },
        SettingKey::DefaultTimeout => match unsigned_value(raw) {
            Some(n) => if n <= u32::MAX {
                Some(SettingValue::Seconds(n as u32))
            } else {
                None
            },
            None => None,
        },
        SettingKey::AutoUpdateRepos => if raw == "true"@ {
            Some(SettingValue::Flag(true))
        } else if raw == "false"@ {
            Some(SettingValue::Flag(false))
        } else {
            None
        },
        SettingKey::LogLevel => if is_level_name(lower_of(raw)) {
            Some(SettingValue::Text(lower_of(raw)))
        } else {
            None
        },
    }
}

/// The settings with `k` set to `v`.
pub open spec fn apply(c: ConfigView, k: SettingKey, v: SettingValue) -> ConfigView {
    match (k, v) {
        (SettingKey::DefaultEnvironment, SettingValue::Text(t)) => ConfigView {
            environment: Some(t),
            ..c
        },
        (SettingKey::PreferredContext, SettingValue::Text(t)) => ConfigView { context: Some(t), ..c },
        (SettingKey::LogLevel, SettingValue::Text(t)) => ConfigView { log_level: Some(t), ..c },
        (SettingKey::DefaultConcurrency, SettingValue::Count(n)) => ConfigView {
            concurrency: Some(n),
            ..c
        },
        (SettingKey::DefaultTimeout, SettingValue::Seconds(n)) => ConfigView {
            timeout: Some(n),
            ..c
        },
        (SettingKey::AutoUpdateRepos, SettingValue::Flag(b)) => ConfigView {
            auto_update: Some(b),
            ..c
        },
        _ => c,
    }
}

/// The value stored under `k`, if set.
pub open spec fn value_of(c: ConfigView, k: SettingKey) -> Option<SettingValue> {
    match k {
        SettingKey::DefaultEnvironment => match c.environment {
            Some(t) => Some(SettingValue::Text(t)),
            None => None,
        },
        SettingKey::PreferredContext => match c.context {
            Some(t) => Some(SettingValue::Text(t)),
            None => None,
        },
        SettingKey::LogLevel => match c.log_level {
            Some(t) => Some(SettingValue::Text(t)),
            None => None,
        },
        SettingKey::DefaultConcurrency => match c.concurrency {
            Some(n) => Some(SettingValue::Count(n)),
            None => None,
        },
        SettingKey::DefaultTimeout => match c.timeout {
            Some(n) => Some(SettingValue::Seconds(n)),
            None => None,
        },
        SettingKey::AutoUpdateRepos => match c.auto_update {
            Some(b) => Some(SettingValue::Flag(b)),
            None => None,
        },
    }
}

/// How a value is shown.
pub open spec fn rendered(v: SettingValue) -> Seq<char> {
    match v {
        SettingValue::Text(t) => t,
        SettingValue::Count(n) => decimal(n as nat),
        SettingValue::Seconds(n) => decimal(n as nat),
        SettingValue::Flag(b) => if b {
            "true"@
        } else {
            "false"@
        },
    }
}

/// What `get` shows for `k`: the value, or "not set".
pub open spec fn shown(c: ConfigView, k: SettingKey) -> Seq<char> {
    match value_of(c, k) {
        Some(v) => rendered(v),
        None => "not set"@,
    }
}

/// A rejected settings access.
pub enum ConfigError {
    /// The key is none of the six scalar keys.
    UnknownKey(String),
    /// The value is outside the key's domain.
    InvalidValue(SettingKey),
}

pub open spec fn unknown_key_message(key: Seq<char>) -> Seq<char> {
    "Unknown configuration key: "@ + key
        + ". Available keys: default_environment, default_concurrency, default_timeout, auto_update_repos, preferred_context, log_level"@
}

/// The message shown for a value outside `k`'s domain.
pub open spec fn invalid_value_message(k: SettingKey) -> Seq<char> {
    match k {
        SettingKey::DefaultConcurrency => "Invalid concurrency value (must be 1-255)"@,
        SettingKey::DefaultTimeout => "Invalid timeout value (must be a positive number)"@,
        SettingKey::AutoUpdateRepos => "Invalid boolean value (use 'true' or 'false')"@,
        SettingKey::LogLevel => "Invalid log level (use: debug, info, warn, error)"@,
        _ => "Invalid value"@,
    }
}

impl ConfigError {
    /// The human-readable message, naming the accepted keys or domain.
    pub fn message(&self) -> (r: String)
        ensures
            r@ == match self {
                ConfigError::UnknownKey(k) => unknown_key_message(k@),
                ConfigError::InvalidValue(k) => invalid_value_message(*k),
            },
    {
        match self {
            ConfigError::UnknownKey(k) => {
                let head = "Unknown configuration key: ".to_owned();
                let with_key = head.concat(k.as_str());
                with_key.concat(
                    ". Available keys: default_environment, default_concurrency, default_timeout, auto_update_repos, preferred_context, log_level",
                )
            },
            ConfigError::InvalidValue(k) => match k {
                SettingKey::DefaultConcurrency => "Invalid concurrency value (must be 1-255)".to_owned(),
                SettingKey::DefaultTimeout => "Invalid timeout value (must be a positive number)".to_owned(),
                SettingKey::AutoUpdateRepos => "Invalid boolean value (use 'true' or 'false')".to_owned(),
                SettingKey::LogLevel => "Invalid log level (use: debug, info, warn, error)".to_owned(),
                _ => "Invalid value".to_owned(),
            },
        }
    }
}

impl SettingKey {
    /// The key that `name` spells, if any.
    pub fn from_name(name: &str) -> (r: Option<SettingKey>)
        ensures
            r == key_of(name@),
    {
        if same_text(name, "default_environment") {
            Some(SettingKey::DefaultEnvironment)
        } else if same_text(name, "default_concurrency") {
            Some(SettingKey::DefaultConcurrency)
        } else if same_text(name, "default_timeout") {
            Some(SettingKey::DefaultTimeout)
        } else if same_text(name, "auto_update_repos") {
            Some(SettingKey::AutoUpdateRepos)
        } else if same_text(name, "preferred_context") {
            Some(SettingKey::PreferredContext)
        } else if same_text(name, "log_level") {
            Some(SettingKey::LogLevel)
        } else {
            None
        }
    }
}


/// `min(v, 2^32)`: a running value that remembers only whether it still fits
/// in 32 bits.
pub open spec fn capped(v: nat) -> nat {
    if v < 0x1_0000_0000 {
        v
    } else {
        0x1_0000_0000
    }
}

/// The 32-bit number that `s` spells, as `unsigned_value` reads it; `None`
/// when `s` spells no number or one that does not fit.
pub fn parse_unsigned(s: &str) -> (r: Option<u32>)
    ensures
        r == (match unsigned_value(s@) {
            Some(n) => if n <= u32::MAX {
                Some(n as u32)
            } else {
                None
            },
            None => None,
        }),
{
    let cs = chars_of(s);
    let mut start: usize = 0;
    if cs.len() > 0 && cs[0] == '+' {
        start = 1;
    }
    let ghost d = unsigned_digits(s@);
    assert(d =~= cs@.subrange(start as int, cs@.len() as int));
    if start >= cs.len() {
        return None;
    }
    let mut acc: u64 = 0;
    let mut j: usize = start;
    while j < cs.len()
        invariant
            cs@ == s@,
            d == unsigned_digits(s@),
            d == cs@.subrange(start as int, cs@.len() as int),
            start <= j <= cs@.len(),
            acc as nat == capped(digits_value(cs@.subrange(start as int, j as int))),
            forall|i: int| start <= i < j ==> is_digit(#[trigger] cs@[i]),
        decreases cs@.len() - j,
    {
        let c = cs[j];
        if !('0' <= c && c <= '9') {
            assert(!is_digit(d[j - start]));
            return None;
        }
        let dv: u64 = (c as u32 - '0' as u32) as u64;
        let ghost prev = cs@.subrange(start as int, j as int);
        let ghost next = cs@.subrange(start as int, j + 1);
        assert(next.drop_last() =~= prev);
        assert(digits_value(next) == digits_value(prev) * 10 + dv);
        acc = acc * 10 + dv;
        if acc > 0x1_0000_0000 {
            acc = 0x1_0000_0000;
        }
        j = j + 1;
    }
    assert(cs@.subrange(start as int, cs@.len() as int) == d);
    assert forall|i: int| 0 <= i < d.len() implies is_digit(#[trigger] d[i]) by {
        assert(d[i] == cs@[start + i]);
    }
    if acc > 0xffff_ffff {
        None
    } else {
        Some(acc as u32)
    }
}

/// `true` or `false` as spelled exactly so.
pub fn parse_flag(s: &str) -> (r: Option<bool>)
    ensures
        r == (if s@ == "true"@ {
            Some(true)
        } else if s@ == "false"@ {
            Some(false)
        } else {
            None
        }),
{
    if same_text(s, "true") {
        Some(true)
    } else if same_text(s, "false") {
        Some(false)
    } else {
        None
    }
}

/// Whether an already lowercased text names a log level.
pub fn is_log_level(folded: &str) -> (r: bool)
    ensures
        r == is_level_name(folded@),
{
    same_text(folded, "debug") || same_text(folded, "info") || same_text(folded, "warn")
        || same_text(folded, "error")
}


/// The settings invariant: a log level, when set, is one of the four levels.
/// The numeric bounds are those of the field types.
pub open spec fn settings_well_formed(c: ConfigView) -> bool {
    match c.log_level {
        Some(l) => is_level_name(l),
        None => true,
    }
}

/// What `set` does, as values: the new settings, or `None` when the key or
/// the value is rejected.
pub open spec fn set_outcome(c: ConfigView, key: Seq<char>, raw: Seq<char>) -> Option<ConfigView> {
    match key_of(key) {
        Some(k) => match coerce(k, raw) {
            Some(v) => Some(apply(c, k, v)),
            None => None,
        },
        None => None,
    }
}

impl Config {
    /// Validates `value` for `key`, coerces it, and stores it. An unknown key
    /// or an out-of-domain value leaves the settings untouched.
    pub fn set_value(&mut self, key: &str, value: &str) -> (r: Result<(), ConfigError>)
        ensures
            match key_of(key@) {
                None => {
                    &&& r matches Err(ConfigError::UnknownKey(k)) && k@ == key@
                    &&& *final(self) == *old(self)
                },
                Some(k) => match coerce(k, value@) {
                    None => {
                        &&& r == Err::<(), ConfigError>(ConfigError::InvalidValue(k))
                        &&& *final(self) == *old(self)
                    },
                    Some(v) => {
                        &&& r is Ok
                        &&& final(self)@ == apply(old(self)@, k, v)
                    },
                },
            },
            settings_well_formed(old(self)@) ==> settings_well_formed(final(self)@),
    {
        let k = match SettingKey::from_name(key) {
            Some(k) => k,
            None => {
                return Err(ConfigError::UnknownKey(key.to_owned()));
            },
        };
        match k {
            SettingKey::DefaultEnvironment => {
                self.default_environment = Some(value.to_owned());
            },
            SettingKey::PreferredContext => {
                self.preferred_context = Some(value.to_owned());
            },
            SettingKey::DefaultConcurrency => {
                match parse_unsigned(value) {
                    Some(n) => {
                        if n > 255 {
                            return Err(ConfigError::InvalidValue(k));
                        }
                        self.default_concurrency = Some(n as u8);
                    },
                    None => {
                        return Err(ConfigError::InvalidValue(k));
                    },
                }
            },
            SettingKey::DefaultTimeout => {
                match parse_unsigned(value) {
                    Some(n) => {
                        self.default_timeout = Some(n);
                    },
                    None => {
                        return Err(ConfigError::InvalidValue(k));
                    },
                }
            },
            SettingKey::AutoUpdateRepos => {
                match parse_flag(value) {
                    Some(b) => {
                        self.auto_update_repos = Some(b);
                    },
                    None => {
                        return Err(ConfigError::InvalidValue(k));
                    },
                }
            },
            SettingKey::LogLevel => {
                let folded = lowercase(value);
                if !is_log_level(folded.as_str()) {
                    return Err(ConfigError::InvalidValue(k));
                }
                self.log_level = Some(folded);
            },
        }
        Ok(())
    }

    /// The value stored under `key` as text, or "not set".
    pub fn get_value(&self, key: &str) -> (r: Result<String, ConfigError>)
        ensures
            match key_of(key@) {
                None => r matches Err(ConfigError::UnknownKey(k)) && k@ == key@,
                Some(k) => r matches Ok(s) && s@ == shown(self@, k),
            },
    {
        let k = match SettingKey::from_name(key) {
            Some(k) => k,
            None => {
                return Err(ConfigError::UnknownKey(key.to_owned()));
            },
        };
        let unset = "not set";
        let shown_text = match k {
            SettingKey::DefaultEnvironment => match &self.default_environment {
                Some(t) => t.clone(),
                None => unset.to_owned(),
            },
            SettingKey::PreferredContext => match &self.preferred_context {
                Some(t) => t.clone(),
                None => unset.to_owned(),
            },
            SettingKey::LogLevel => match &self.log_level {
                Some(t) => t.clone(),
                None => unset.to_owned(),
            },
            SettingKey::DefaultConcurrency => match self.default_concurrency {
                Some(n) => render_decimal(n as u64),
                None => unset.to_owned(),
            },
            SettingKey::DefaultTimeout => match self.default_timeout {
                Some(n) => render_decimal(n as u64),
                None => unset.to_owned(),
            },
            SettingKey::AutoUpdateRepos => match self.auto_update_repos {
                Some(b) => if b {
                    "true".to_owned()
                } else {
                    "false".to_owned()
                },
                None => unset.to_owned(),
            },
        };
        Ok(shown_text)
    }
}


proof fn lemma_digit_char(d: nat)
    requires
        d < 10,
    ensures
        is_digit(digit_char(d)),
        digit_value(digit_char(d)) == d,
        digit_char(d) != '+',
{
}

/// A decimal rendering reads back as the number it renders.
proof fn lemma_decimal_reads_back(n: nat)
    ensures
        decimal(n).len() > 0,
        decimal(n)[0] != '+',
        forall|i: int| 0 <= i < decimal(n).len() ==> is_digit(#[trigger] decimal(n)[i]),
        digits_value(decimal(n)) == n,
        unsigned_value(decimal(n)) == Some(n),
    decreases n,
{
    let s = decimal(n);
    if n < 10 {
        lemma_digit_char(n);
        assert(s.drop_last() =~= Seq::<char>::empty());
        assert(digits_value(s.drop_last()) == 0);
        assert(digits_value(s) == digits_value(s.drop_last()) * 10 + digit_value(s.last()));
    } else {
        lemma_decimal_reads_back(n / 10);
        lemma_digit_char(n % 10);
        let p = decimal(n / 10);
        assert(s == p.push(digit_char(n % 10)));
        assert(s.drop_last() =~= p);
        assert(digits_value(s) == digits_value(p) * 10 + digit_value(s.last()));
        assert(n == (n / 10) * 10 + n % 10);
        assert(s[0] == p[0]);
        assert forall|i: int| 0 <= i < s.len() implies is_digit(#[trigger] s[i]) by {
            if i < p.len() {
                assert(s[i] == p[i]);
            }
        }
    }
    assert(unsigned_digits(s) == s);
}

/// Setting a scalar key to an accepted value and then getting it shows the
/// normalized value: the text itself for the environment and the context,
/// its lowercase form for the log level, and for numbers and flags a text
/// that, set again, stores exactly the same value.
pub proof fn lemma_set_then_get(c: ConfigView, k: SettingKey, raw: Seq<char>)
    requires
        coerce(k, raw) is Some,
    ensures
        value_of(apply(c, k, coerce(k, raw)->0), k) == coerce(k, raw),
        shown(apply(c, k, coerce(k, raw)->0), k) == rendered(coerce(k, raw)->0),
        (k == SettingKey::DefaultEnvironment || k == SettingKey::PreferredContext) ==> shown(
            apply(c, k, coerce(k, raw)->0),
            k,
        ) == raw,
        k == SettingKey::LogLevel ==> shown(apply(c, k, coerce(k, raw)->0), k) == lower_of(raw),
        (k == SettingKey::DefaultConcurrency || k == SettingKey::DefaultTimeout || k
            == SettingKey::AutoUpdateRepos) ==> coerce(k, shown(apply(c, k, coerce(k, raw)->0), k))
            == coerce(k, raw),
{
    let v = coerce(k, raw)->0;
    match v {
        SettingValue::Count(n) => {
            lemma_decimal_reads_back(n as nat);
        },
        SettingValue::Seconds(n) => {
            lemma_decimal_reads_back(n as nat);
        },
        _ => {},
    }
}

/// An accepted `set` changes only the key that was set.
pub proof fn lemma_set_touches_one_key(c: ConfigView, key: Seq<char>, raw: Seq<char>, other: SettingKey)
    requires
        set_outcome(c, key, raw) is Some,
        key_of(key) != Some(other),
    ensures
        value_of(set_outcome(c, key, raw)->0, other) == value_of(c, other),
        (set_outcome(c, key, raw)->0).repositories == c.repositories,
{
}


/// The concurrency level that the command line assumes when none is given.
pub const CLI_CONCURRENCY: u8 = 1;

/// The wait timeout, in seconds, that the command line assumes when none is
/// given.
pub const CLI_TIMEOUT: u32 = 300;

/// A command-line value over a stored one: the command line wins when given.
pub open spec fn layered(cli: Option<Seq<char>>, stored: Option<Seq<char>>) -> Option<Seq<char>> {
    match cli {
        Some(v) => Some(v),
        None => stored,
    }
}

/// A number whose command-line flag has a default: a value equal to that
/// default counts as not given, and yields to the stored value, if any.
pub open spec fn layered_number(cli: int, flag_default: int, stored: Option<int>) -> int {
    if cli == flag_default {
        match stored {
            Some(v) => v,
            None => flag_default,
        }
    } else {
        cli
    }
}

impl Config {
    /// The environment: the command-line value, else the stored default.
    pub fn resolve_environment(&self, cli: Option<String>) -> (r: Option<String>)
        ensures
            text_opt(r) == layered(text_opt(cli), self@.environment),
    {
        match cli {
            Some(e) => Some(e),
            None => self.default_environment.clone(),
        }
    }

    /// The cluster context: the command-line value, else the preferred one.
    pub fn resolve_context(&self, cli: Option<String>) -> (r: Option<String>)
        ensures
            text_opt(r) == layered(text_opt(cli), self@.context),
    {
        match cli {
            Some(c) => Some(c),
            None => self.preferred_context.clone(),
        }
    }

    /// The concurrency level to pass on.
    pub fn resolve_concurrency(&self, cli: u8) -> (r: u8)
        ensures
            r as int == layered_number(
                cli as int,
                CLI_CONCURRENCY as int,
                match self.default_concurrency {
                    Some(v) => Some(v as int),
                    None => None,
                },
            ),
    {
        if cli == CLI_CONCURRENCY {
            match self.default_concurrency {
                Some(v) => v,
                None => CLI_CONCURRENCY,
            }
        } else {
            cli
        }
    }

    /// The wait timeout, in seconds, to pass on.
    pub fn resolve_timeout(&self, cli: u32) -> (r: u32)
        ensures
            r as int == layered_number(
                cli as int,
                CLI_TIMEOUT as int,
                match self.default_timeout {
                    Some(v) => Some(v as int),
                    None => None,
                },
            ),
    {
        if cli == CLI_TIMEOUT {
            match self.default_timeout {
                Some(v) => v,
                None => CLI_TIMEOUT,
            }
        } else {
            cli
        }
    }
}

} // verus!
