use vstd::prelude::*;

verus! {

/// Connection settings for the two remote collaborators: the music
/// catalog (base URL and account) and the chat gateway (its token). The
/// surrounding program reads them from its environment and builds the
/// live clients; the record itself only keeps them together.
pub struct Client {
    pub ss_url: String,
    pub ss_user: String,
    pub ss_password: String,
    pub discord_token: String,
}

impl Client {
    pub fn new(ss_url: String, ss_user: String, ss_password: String, discord_token: String) -> (r:
        Client)
        ensures
            r.ss_url == ss_url,
            r.ss_user == ss_user,
            r.ss_password == ss_password,
            r.discord_token == discord_token,
    {
        Client { ss_url, ss_user, ss_password, discord_token }
    }
}

/// How much the program logs.
#[derive(Clone, Copy, Debug, PartialEq, Eq, Structural)]
pub enum LogLevel {
    Off,
    Error,
    Warn,
    Info,
    Debug,
    Trace,
}

impl Default for LogLevel {
    /// Warnings and errors only, unless asked otherwise.
    fn default() -> (r: LogLevel)
        ensures
            r is Warn,
    {
        LogLevel::Warn
    }
}

impl LogLevel {
    /// The level's lower-case name, as the surrounding program spells it
    /// in its settings.
    pub fn name(&self) -> (r: &'static str)
        ensures
            r@ == self.name_spec(),
    {
        match self {
            LogLevel::Off => "off",
            LogLevel::Error => "error",
            LogLevel::Warn => "warn",
            LogLevel::Info => "info",
            LogLevel::Debug => "debug",
            LogLevel::Trace => "trace",
        }
    }

    pub open spec fn name_spec(&self) -> Seq<char> {
        match self {
            LogLevel::Off => "off"@,
            LogLevel::Error => "error"@,
            LogLevel::Warn => "warn"@,
            LogLevel::Info => "info"@,
            LogLevel::Debug => "debug"@,
            LogLevel::Trace => "trace"@,
        }
    }
}

/// The same settings in the newer shape the program's flag parser fills:
/// catalog URL and account, gateway token, and the log level to run at.
pub struct Config {
    pub subsonic_url: String,
    pub subsonic_user: String,
    pub subsonic_password: String,
    pub discord_token: String,
    pub log_level: LogLevel,
}

impl Config {
    pub fn new(
        subsonic_url: String,
        subsonic_user: String,
        subsonic_password: String,
        discord_token: String,
        log_level: LogLevel,
    ) -> (r: Config)
        ensures
            r.subsonic_url == subsonic_url,
            r.subsonic_user == subsonic_user,
            r.subsonic_password == subsonic_password,
            r.discord_token == discord_token,
            r.log_level == log_level,
    {
        Config { subsonic_url, subsonic_user, subsonic_password, discord_token, log_level }
    }
}

} // verus!
