//! Service settings: the defaults, and how values found in configuration
//! sources are turned into the settings the service runs with.

use vstd::prelude::*;
use vstd::string::StringExecFns;

verus! {

/// Port the service listens on when no source names one.
pub const DEFAULT_PORT: u16 = 8080;

/// Deadline for handling one request, in milliseconds, when no source names one.
pub const DEFAULT_API_TIMEOUT: u64 = 3000;

/// Timeout of one connection attempt, in milliseconds, when no source names one.
pub const DEFAULT_TCPING_TIMEOUT: u64 = 1000;

/// Requests admitted per minute when no source names a limit.
pub const DEFAULT_RATE_LIMIT: u32 = 60;

/// The settings the service runs with. Built once at start-up and only read afterwards.
#[derive(Clone, Copy, Debug, PartialEq, Eq, Structural)]
pub struct ApiConfig {
    /// Port to listen on.
    pub port: u16,
    /// Deadline for handling one request, in milliseconds.
    pub api_timeout: u64,
    /// Timeout of one connection attempt, in milliseconds.
    pub tcping_timeout: u64,
    /// Requests admitted per minute.
    pub rate_limit: u32,
}

/// What the configuration sources hold for each setting, after merging:
/// `None` where no source names the setting.
#[derive(Clone, Copy, Debug, PartialEq, Eq, Structural)]
pub struct ConfigValues {
    pub port: Option<u64>,
    pub api_timeout: Option<u64>,
    pub tcping_timeout: Option<u64>,
    pub rate_limit: Option<u64>,
}

/// The settings in force when no source names any.
pub open spec fn default_config() -> ApiConfig {
    ApiConfig {
        port: DEFAULT_PORT,
        api_timeout: DEFAULT_API_TIMEOUT,
        tcping_timeout: DEFAULT_TCPING_TIMEOUT,
        rate_limit: DEFAULT_RATE_LIMIT,
    }
}

/// The port found is absent or fits the port's 16 bits.
pub open spec fn port_fits(found: ConfigValues) -> bool {
    found.port matches Some(p) ==> p <= u16::MAX
}

/// The rate limit found is absent or fits the limit's 32 bits.
pub open spec fn rate_limit_fits(found: ConfigValues) -> bool {
    found.rate_limit matches Some(r) ==> r <= u32::MAX
}

/// Each setting is the value found, or its default where none was found. A
/// rate limit of zero would admit nothing, ever: it counts as none found.
pub open spec fn resolved(found: ConfigValues) -> ApiConfig
    recommends
        port_fits(found),
        rate_limit_fits(found),
{
    ApiConfig {
        port: match found.port {
            Some(p) => p as u16,
            None => DEFAULT_PORT,
        },
        api_timeout: match found.api_timeout {
            Some(t) => t,
            None => DEFAULT_API_TIMEOUT,
        },
        tcping_timeout: match found.tcping_timeout {
            Some(t) => t,
            None => DEFAULT_TCPING_TIMEOUT,
        },
        rate_limit: match found.rate_limit {
            Some(r) => if r == 0 {
                DEFAULT_RATE_LIMIT
            } else {
                r as u32
            },
            None => DEFAULT_RATE_LIMIT,
        },
    }
}

/// What precedes the reason where the sources could not be read or merged.
pub open spec fn load_error_prefix() -> Seq<char> {
    "Failed to load configuration: "@
}

/// What precedes the reason where a value found is not of its setting's type.
pub open spec fn deserialize_error_prefix() -> Seq<char> {
    "Failed to deserialize configuration: "@
}

/// Message for a port that does not fit 16 bits.
pub open spec fn port_error() -> Seq<char> {
    deserialize_error_prefix() + "port is not an unsigned 16 bit integer"@
}

/// Message for a rate limit that does not fit 32 bits.
pub open spec fn rate_limit_error() -> Seq<char> {
    deserialize_error_prefix() + "rate_limit is not an unsigned 32 bit integer"@
}

/// The error for sources that could not be read or merged, with the reason.
pub fn load_error(reason: &str) -> (message: String)
    ensures
        message@ == load_error_prefix() + reason@,
{
    String::from_str("Failed to load configuration: ").concat(reason)
}

/// The error for a value that is not of its setting's type, with the reason.
pub fn deserialize_error(reason: &str) -> (message: String)
    ensures
        message@ == deserialize_error_prefix() + reason@,
{
    String::from_str("Failed to deserialize configuration: ").concat(reason)
}

impl Default for ApiConfig {
    fn default() -> (config: ApiConfig)
        ensures
            config == default_config(),
    {
        ApiConfig {
            port: DEFAULT_PORT,
            api_timeout: DEFAULT_API_TIMEOUT,
            tcping_timeout: DEFAULT_TCPING_TIMEOUT,
            rate_limit: DEFAULT_RATE_LIMIT,
        }
    }
}

/// Builds the settings from what the sources hold: a value found overrides
/// the default, but for a rate limit of zero, which gives way to it. A port
/// that does not fit 16 bits is reported first, then a rate limit that does
/// not fit 32 bits; every other input gives settings, and these admit at
/// least one request per minute.
pub fn load_config(found: &ConfigValues) -> (loaded: Result<ApiConfig, String>)
    ensures
        loaded is Ok <==> port_fits(*found) && rate_limit_fits(*found),
        loaded matches Ok(config) ==> config == resolved(*found) && config.rate_limit >= 1,
        loaded matches Err(message) ==> message@ == if !port_fits(*found) {
            port_error()
        } else {
            rate_limit_error()
        },
{
    let port: u16 = match found.port {
        Some(p) => {
            if p > 65535 {
                return Err(deserialize_error("port is not an unsigned 16 bit integer"));
            }
            p as u16
        },
        None => DEFAULT_PORT,
    };
    let rate_limit: u32 = match found.rate_limit {
        Some(r) => {
            if r > 4294967295 {
                return Err(deserialize_error("rate_limit is not an unsigned 32 bit integer"));
            }
            if r == 0 {
                DEFAULT_RATE_LIMIT
            } else {
                r as u32
            }
        },
        None => DEFAULT_RATE_LIMIT,
    };
    let api_timeout: u64 = match found.api_timeout {
        Some(t) => t,
        None => DEFAULT_API_TIMEOUT,
    };
    let tcping_timeout: u64 = match found.tcping_timeout {
        Some(t) => t,
        None => DEFAULT_TCPING_TIMEOUT,
    };
    Ok(ApiConfig { port, api_timeout, tcping_timeout, rate_limit })
}

/// A file to read settings from, named without its extension. A required
/// file that is missing fails the loading; an optional one is skipped.
#[derive(Debug)]
pub struct ConfigSource {
    pub name: String,
    pub required: bool,
}

/// A `ConfigSource` as a value of specifications.
pub struct ConfigSourceView {
    pub name: Seq<char>,
    pub required: bool,
}

impl View for ConfigSource {
    type V = ConfigSourceView;

    open spec fn view(&self) -> ConfigSourceView {
        ConfigSourceView { name: self.name@, required: self.required }
    }
}

/// First file looked for where no usable path is given: in the working
/// directory.
pub open spec fn local_source() -> Seq<char> {
    "config"@
}

/// Second file looked for where no usable path is given: the system-wide one.
pub open spec fn system_source() -> Seq<char> {
    "/etc/netstatus-api/config"@
}

/// The files to read, in the order in which they are read, so that a later
/// one overrides an earlier one. A path that is given and exists is the only
/// file, and is required. Otherwise the local and the system-wide file are
/// read, each if it is there.
pub open spec fn sources_for(config_path: Seq<char>, path_exists: bool) -> Seq<ConfigSourceView> {
    if config_path.len() > 0 && path_exists {
        seq![ConfigSourceView { name: config_path, required: true }]
    } else {
        seq![
            ConfigSourceView { name: local_source(), required: false },
            ConfigSourceView { name: system_source(), required: false },
        ]
    }
}

/// The sources as values of specifications.
pub open spec fn source_views(sources: Seq<ConfigSource>) -> Seq<ConfigSourceView> {
    sources.map_values(|source: ConfigSource| source@)
}

/// Chooses the files to read settings from, given the path asked for and
/// whether a file is there.
pub fn config_sources(config_path: &str, path_exists: bool) -> (sources: Vec<ConfigSource>)
    ensures
        source_views(sources@) == sources_for(config_path@, path_exists),
{
    let mut sources: Vec<ConfigSource> = Vec::new();
    if !config_path.is_empty() && path_exists {
        sources.push(ConfigSource { name: String::from_str(config_path), required: true });
    } else {
        sources.push(ConfigSource { name: String::from_str("config"), required: false });
        sources.push(
            ConfigSource { name: String::from_str("/etc/netstatus-api/config"), required: false },
        );
    }
    assert(source_views(sources@) =~= sources_for(config_path@, path_exists));
    sources
}

/// The command-line flag that names the configuration file.
pub open spec fn config_flag() -> Seq<char> {
    "--config"@
}

/// The path used where the command line names none.
pub open spec fn default_config_path() -> Seq<char> {
    "default_config.toml"@
}

/// `at` is the place of the first argument that is the configuration flag.
pub open spec fn is_first_flag(args: Seq<String>, at: int) -> bool {
    &&& 0 <= at < args.len()
    &&& args[at]@ == config_flag()
    &&& forall|before: int| 0 <= before < at ==> (#[trigger] args[before])@ != config_flag()
}

/// The configuration path that a command line asks for: the argument after
/// the first configuration flag, and the default path where there is no flag
/// or nothing after the first one.
pub open spec fn config_path_for(args: Seq<String>, path: Seq<char>) -> bool {
    if exists|at: int| is_first_flag(args, at) {
        let at = choose|at: int| is_first_flag(args, at);
        if at + 1 < args.len() {
            path == args[at + 1]@
        } else {
            path == default_config_path()
        }
    } else {
        path == default_config_path()
    }
}

/// Finds the configuration path in the command line.
pub fn config_path(args: &Vec<String>) -> (path: String)
    ensures
        config_path_for(args@, path@),
{
    let flag = String::from_str("--config");
    let mut at: usize = 0;
    while at < args.len()
        invariant
            at <= args.len(),
            flag@ == config_flag(),
            forall|before: int| 0 <= before < at ==> (#[trigger] args@[before])@ != config_flag(),
        decreases args.len() - at,
    {
        if args[at] == flag {
            assert(is_first_flag(args@, at as int));
            assert forall|other: int| is_first_flag(args@, other) implies other == at by {
                if other < at {
                    assert(args@[other]@ != config_flag());
                } else if other > at {
                    assert(args@[at as int]@ == config_flag());
                }
            }
            if at + 1 < args.len() {
                return args[at + 1].clone();
            }
            return String::from_str("default_config.toml");
        }
        at = at + 1;
    }
    assert forall|other: int| !is_first_flag(args@, other) by {
        if 0 <= other < args.len() {
            assert(args@[other]@ != config_flag());
        }
    }
    String::from_str("default_config.toml")
}

} // verus!
