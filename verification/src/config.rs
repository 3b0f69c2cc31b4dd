//! The service configuration: check targets, Telegram and ClickHouse
//! settings, and the steps that complete a parsed configuration.

use vstd::prelude::*;
use vstd::string::*;

use crate::text::{
    decimal, lemma_decimal_reads_back, push_signed_decimal, push_str, reads_as_number, signed_decimal,
};

verus! {

/// The check interval of a target whose configuration gives none.
pub const DEFAULT_TARGET_INTERVAL_SECONDS: u32 = 60;

/// The request budget of a target whose configuration gives none.
pub const DEFAULT_TARGET_RETRY: u32 = 3;

/// One endpoint to probe.
pub struct Target {
    /// A name for the endpoint, used in reports and alerts.
    pub name: String,
    /// The URL that is requested.
    pub url: String,
    /// The timeout of a single request, in milliseconds.
    pub timeout_ms: u64,
    /// Seconds between two checks; zero disables the check loop.
    pub interval_seconds: u32,
    /// How many requests a single check may make before it gives up.
    pub retry: u32,
}

/// Telegram alert settings.  The bot token comes from the environment, not
/// from the configuration file.
pub struct Telegram {
    pub chat_id: i64,
    pub bot_token: String,
}

/// ClickHouse connection settings.
pub struct Clickhouse {
    pub url: String,
    pub user: String,
    pub password: String,
}

/// The whole configuration.
pub struct Config {
    pub interval_seconds: u64,
    pub telegram: Telegram,
    pub targets: Vec<Target>,
    pub clickhouse: Clickhouse,
}

/// Why loading the configuration failed.
pub enum ConfigError {
    /// The file could not be read; `path` is how the path was displayed.
    NotFound { path: String },
    /// The file is not a valid configuration; `detail` is the parser's report.
    Invalid { detail: String },
    /// The bot token is not set in the environment.
    MissingToken,
}

/// The text of a configuration error.
pub open spec fn config_error_message(e: ConfigError) -> Seq<char> {
    match e {
        ConfigError::NotFound { path } => "Config file not found at path: "@ + path@,
        ConfigError::Invalid { detail } => "Failed to parse config file: "@ + detail@,
        ConfigError::MissingToken => "TELEGRAM_BOT_TOKEN env var is not set"@,
    }
}

impl ConfigError {
    /// The text reported for this error.
    pub fn message(&self) -> (r: String)
        ensures
            r@ == config_error_message(*self),
    {
        match self {
            ConfigError::NotFound { path } => {
                let mut s = String::from_str("Config file not found at path: ");
                push_str(&mut s, path.as_str());
                s
            },
            ConfigError::Invalid { detail } => {
                let mut s = String::from_str("Failed to parse config file: ");
                push_str(&mut s, detail.as_str());
                s
            },
            ConfigError::MissingToken => String::from_str("TELEGRAM_BOT_TOKEN env var is not set"),
        }
    }

    /// Whether the error is reported as "not found" (a missing file or a
    /// missing token) rather than as invalid data.
    pub fn is_not_found(&self) -> (r: bool)
        ensures
            r == !(*self is Invalid),
    {
        !matches!(self, ConfigError::Invalid { .. })
    }
}

/// The debug rendering of Telegram settings, with the token hidden.
pub open spec fn telegram_debug(t: Telegram) -> Seq<char> {
    "Telegram { chat_id: "@ + signed_decimal(t.chat_id as int) + ", bot_token: \"<obfuscated>\" }"@
}

impl Telegram {
    /// Renders the settings for logs as `Telegram { chat_id: .., bot_token:
    /// "<obfuscated>" }`: the token itself never appears.
    pub fn debug_string(&self) -> (r: String)
        ensures
            r@ == telegram_debug(*self),
    {
        let mut s = String::from_str("Telegram { chat_id: ");
        push_signed_decimal(&mut s, self.chat_id);
        push_str(&mut s, ", bot_token: \"<obfuscated>\" }");
        s
    }
}

/// The debug rendering of Telegram settings does not depend on the token:
/// two settings with the same chat differ in nothing that is logged.
pub proof fn lemma_debug_hides_token(a: Telegram, b: Telegram)
    requires
        a.chat_id == b.chat_id,
    ensures
        telegram_debug(a) == telegram_debug(b),
{
}

/// A target as plain values.
pub struct TargetView {
    pub name: Seq<char>,
    pub url: Seq<char>,
    pub timeout_ms: u64,
    pub interval_seconds: u32,
    pub retry: u32,
}

impl View for Target {
    type V = TargetView;

    open spec fn view(&self) -> TargetView {
        TargetView {
            name: self.name@,
            url: self.url@,
            timeout_ms: self.timeout_ms,
            interval_seconds: self.interval_seconds,
            retry: self.retry,
        }
    }
}

/// A configuration as plain values.
pub struct ConfigView {
    pub interval_seconds: u64,
    pub chat_id: i64,
    pub bot_token: Seq<char>,
    pub targets: Seq<TargetView>,
    pub clickhouse_url: Seq<char>,
    pub clickhouse_user: Seq<char>,
    pub clickhouse_password: Seq<char>,
}

impl View for Config {
    type V = ConfigView;

    open spec fn view(&self) -> ConfigView {
        ConfigView {
            interval_seconds: self.interval_seconds,
            chat_id: self.telegram.chat_id,
            bot_token: self.telegram.bot_token@,
            targets: self.targets@.map_values(|t: Target| t@),
            clickhouse_url: self.clickhouse.url@,
            clickhouse_user: self.clickhouse.user@,
            clickhouse_password: self.clickhouse.password@,
        }
    }
}

/// A token read from the environment, as plain values.
pub open spec fn token_view(token: Option<String>) -> Option<Seq<char>> {
    match token {
        Some(t) => Some(t@),
        None => None,
    }
}

/// What completing configuration `c` with `token` gives: without a token
/// the error `MissingToken`, otherwise the configuration with that token and
/// nothing else changed.
pub open spec fn token_applied(c: Config, token: Option<String>, r: Result<Config, ConfigError>) -> bool {
    match token {
        None => r matches Err(ConfigError::MissingToken),
        Some(t) => r matches Ok(d) && d@ == (ConfigView { bot_token: t@, ..c@ })
            && d.telegram.chat_id == c.telegram.chat_id
            && d.interval_seconds == c.interval_seconds
            && d.targets@ == c.targets@
            && d.clickhouse == c.clickhouse,
    }
}

/// The absolute value of an integer.
pub open spec fn magnitude(n: int) -> int {
    if n < 0 {
        -n
    } else {
        n
    }
}

/// The debug rendering shows the chat id as an optional `-` followed by
/// digits that read back as its magnitude, and the token only as
/// `<obfuscated>`.
pub proof fn lemma_debug_shows_chat(t: Telegram)
    ensures
        t.chat_id < 0 ==> exists|d: Seq<char>|
            #[trigger] reads_as_number(d, magnitude(t.chat_id as int)) && telegram_debug(t)
                == "Telegram { chat_id: -"@ + d + ", bot_token: \"<obfuscated>\" }"@,
        t.chat_id >= 0 ==> exists|d: Seq<char>|
            #[trigger] reads_as_number(d, t.chat_id as int) && telegram_debug(t)
                == "Telegram { chat_id: "@ + d + ", bot_token: \"<obfuscated>\" }"@,
{
    if t.chat_id < 0 {
        lemma_decimal_reads_back((-(t.chat_id as int)) as nat);
        let d = decimal((-(t.chat_id as int)) as nat);
        assert(reads_as_number(d, -(t.chat_id as int)));
        assert(magnitude(t.chat_id as int) == -(t.chat_id as int));
        assert(reads_as_number(d, magnitude(t.chat_id as int)));
        reveal_strlit("Telegram { chat_id: -");
        reveal_strlit("Telegram { chat_id: ");
        assert("Telegram { chat_id: -"@ =~= "Telegram { chat_id: "@ + seq!['-']);
        assert(telegram_debug(t) =~= "Telegram { chat_id: -"@ + d
            + ", bot_token: \"<obfuscated>\" }"@);
    } else {
        lemma_decimal_reads_back(t.chat_id as nat);
        let d = decimal(t.chat_id as nat);
        assert(reads_as_number(d, t.chat_id as int));
        assert(telegram_debug(t) =~= "Telegram { chat_id: "@ + d
            + ", bot_token: \"<obfuscated>\" }"@);
    }
}

impl Config {
    /// Completes a configuration read from the file with the bot token read
    /// from the environment: without a token it fails with `MissingToken`,
    /// otherwise the token replaces `telegram.bot_token` and nothing else
    /// changes.
    pub fn with_bot_token(self, token: Option<String>) -> (r: Result<Config, ConfigError>)
        ensures
            token_applied(self, token, r),
            token is None ==> r matches Err(ConfigError::MissingToken),
            token matches Some(t) ==> r matches Ok(c) && c.telegram.bot_token@ == t@,
    {
        match token {
            None => Err(ConfigError::MissingToken),
            Some(t) => {
                let mut c = self;
                c.telegram.bot_token = t;
                proof {
                    assert(c.targets@.map_values(|t: Target| t@) =~= self.targets@.map_values(
                        |t: Target| t@,
                    ));
                }
                Ok(c)
            },
        }
    }
}

/// Completing a configuration depends on nothing but the configuration and
/// the token: equal configurations completed with equal tokens give equal
/// outcomes.
pub proof fn lemma_token_applied_deterministic(
    c1: Config,
    t1: Option<String>,
    r1: Result<Config, ConfigError>,
    c2: Config,
    t2: Option<String>,
    r2: Result<Config, ConfigError>,
)
    requires
        token_applied(c1, t1, r1),
        token_applied(c2, t2, r2),
        c1@ == c2@,
        token_view(t1) == token_view(t2),
    ensures
        r1 is Ok <==> r2 is Ok,
        r1 is Err ==> (r1 matches Err(ConfigError::MissingToken) && r2 matches Err(
            ConfigError::MissingToken,
        )),
        r1 is Ok && r2 is Ok ==> r1->Ok_0@ == r2->Ok_0@,
{
}

} // verus!
