//! The configuration of the command line: the raw values read from the
//! config file and the environment, how they are merged, and how they are
//! validated into a configuration.

use crate::errors::CanvasError;
use crate::hosts::{host_spec, token_spec, CanvasHost, CanvasHostParseError, CanvasToken, CanvasTokenParseError};
use crate::ids::CourseId;
use crate::parse::{parse_course_id, parse_host, parse_token};
use crate::text::{dec, positive_id_spec, to_owned_string, trim_str, u64_to_string, trim};
use vstd::prelude::*;

verus! {

/// Where and as whom to reach Canvas.
#[derive(Debug, Clone)]
pub struct AuthConfig {
    pub host: CanvasHost,
    pub token: CanvasToken,
}

/// Values used where a command does not name them.
#[derive(Debug, Clone, Copy, Default)]
pub struct DefaultsConfig {
    pub course_id: Option<CourseId>,
}

/// A validated configuration.
#[derive(Debug, Clone)]
pub struct CanvasConfig {
    pub auth: AuthConfig,
    pub defaults: DefaultsConfig,
}

/// The `[auth]` values of a config source, unvalidated.
#[derive(Debug, Clone, Default, PartialEq, Eq)]
pub struct FileAuthConfig {
    pub host: Option<String>,
    pub token: Option<String>,
}

/// The `[defaults]` values of a config source, unvalidated.
#[derive(Debug, Clone, Copy, Default, PartialEq, Eq)]
pub struct FileDefaultsConfig {
    pub course_id: Option<u64>,
}

/// The values of one config source (the file or the environment),
/// unvalidated.
#[derive(Debug, Clone, Default, PartialEq, Eq)]
pub struct FileConfig {
    pub auth: Option<FileAuthConfig>,
    pub defaults: Option<FileDefaultsConfig>,
}

/// `a` where present, else `b` (`Option::or`).
pub open spec fn or_else<T>(a: Option<T>, b: Option<T>) -> Option<T> {
    match a {
        Some(x) => Some(x),
        None => b,
    }
}

/// The host a source gives, if any.
pub open spec fn host_of(c: FileConfig) -> Option<String> {
    match c.auth {
        Some(a) => a.host,
        None => None,
    }
}

/// The token a source gives, if any.
pub open spec fn token_of(c: FileConfig) -> Option<String> {
    match c.auth {
        Some(a) => a.token,
        None => None,
    }
}

/// The default course id a source gives, if any.
pub open spec fn course_of(c: FileConfig) -> Option<u64> {
    match c.defaults {
        Some(d) => d.course_id,
        None => None,
    }
}

/// The `[auth]` section of two sources merged: each value from `env` where
/// it gives one, else from `file`.
pub fn merge_auth(file: Option<FileAuthConfig>, env: Option<FileAuthConfig>) -> (r: Option<
    FileAuthConfig,
>)
    ensures
        r is Some <==> (file is Some || env is Some),
        r matches Some(a) ==> a.host == or_else(
            if env is Some { env->0.host } else { None },
            if file is Some { file->0.host } else { None },
        ) && a.token == or_else(
            if env is Some { env->0.token } else { None },
            if file is Some { file->0.token } else { None },
        ),
{
    match (file, env) {
        (None, None) => None,
        (Some(file), None) => Some(file),
        (None, Some(env)) => Some(env),
        (Some(file), Some(env)) => Some(
            FileAuthConfig {
                host: match env.host {
                    Some(h) => Some(h),
                    None => file.host,
                },
                token: match env.token {
                    Some(t) => Some(t),
                    None => file.token,
                },
            },
        ),
    }
}

/// The `[defaults]` section of two sources merged: each value from `env`
/// where it gives one, else from `file`.
pub fn merge_defaults(file: Option<FileDefaultsConfig>, env: Option<FileDefaultsConfig>) -> (r:
    Option<FileDefaultsConfig>)
    ensures
        r is Some <==> (file is Some || env is Some),
        r matches Some(d) ==> d.course_id == or_else(
            if env is Some { env->0.course_id } else { None },
            if file is Some { file->0.course_id } else { None },
        ),
{
    match (file, env) {
        (None, None) => None,
        (Some(file), None) => Some(file),
        (None, Some(env)) => Some(env),
        (Some(file), Some(env)) => Some(
            FileDefaultsConfig {
                course_id: match env.course_id {
                    Some(c) => Some(c),
                    None => file.course_id,
                },
            },
        ),
    }
}

/// The config file (if there is one) and the environment merged: every value
/// the environment gives overrides the file's.
pub fn merge_file_configs(file: Option<FileConfig>, env: FileConfig) -> (r: FileConfig)
    ensures
        host_of(r) == or_else(host_of(env), if file is Some { host_of(file->0) } else { None }),
        token_of(r) == or_else(token_of(env), if file is Some { token_of(file->0) } else { None }),
        course_of(r) == or_else(
            course_of(env),
            if file is Some { course_of(file->0) } else { None },
        ),
{
    let file = match file {
        Some(f) => f,
        None => FileConfig { auth: None, defaults: None },
    };
    FileConfig {
        auth: merge_auth(file.auth, env.auth),
        defaults: merge_defaults(file.defaults, env.defaults),
    }
}

/// The environment wins: where it gives a host, a token or a default course,
/// the merged configuration has exactly that value; where it gives none, the
/// file's value (if any) is kept.
pub proof fn lemma_environment_overrides_file(file: Option<FileConfig>, env: FileConfig, r: FileConfig)
    requires
        host_of(r) == or_else(host_of(env), if file is Some { host_of(file->0) } else { None }),
        token_of(r) == or_else(token_of(env), if file is Some { token_of(file->0) } else { None }),
        course_of(r) == or_else(
            course_of(env),
            if file is Some { course_of(file->0) } else { None },
        ),
    ensures
        host_of(env) is Some ==> host_of(r) == host_of(env),
        token_of(env) is Some ==> token_of(r) == token_of(env),
        course_of(env) is Some ==> course_of(r) == course_of(env),
        host_of(env) is None && file is Some ==> host_of(r) == host_of(file->0),
        token_of(env) is None && file is Some ==> token_of(r) == token_of(file->0),
        course_of(env) is None && file is Some ==> course_of(r) == course_of(file->0),
        file is None ==> host_of(r) == host_of(env) && token_of(r) == token_of(env) && course_of(r)
            == course_of(env),
{
}

/// A value read from the environment: trimmed, and dropped where blank.
pub open spec fn env_value(raw: Option<String>) -> Option<Seq<char>> {
    match raw {
        Some(v) => if trim(v@).len() > 0 { Some(trim(v@)) } else { None },
        None => None,
    }
}

fn clean_env_value(raw: Option<String>) -> (r: Option<String>)
    ensures
        match r {
            Some(v) => env_value(raw) == Some(v@),
            None => env_value(raw) is None,
        },
{
    match raw {
        Some(v) => {
            let t = trim_str(v.as_str());
            if t.unicode_len() == 0 {
                None
            } else {
                Some(to_owned_string(t))
            }
        },
        None => None,
    }
}

impl FileConfig {
    /// The source of the environment's `CANVAS_HOST` and `CANVAS_TOKEN`
    /// values: each trimmed and dropped where blank; an `[auth]` section only
    /// where one remains; no defaults.
    pub fn from_env_values(host: Option<String>, token: Option<String>) -> (r: Self)
        ensures
            r.defaults is None,
            r.auth is Some <==> (env_value(host) is Some || env_value(token) is Some),
            match host_of(r) {
                Some(h) => env_value(host) == Some(h@),
                None => env_value(host) is None,
            },
            match token_of(r) {
                Some(t) => env_value(token) == Some(t@),
                None => env_value(token) is None,
            },
    {
        let host = clean_env_value(host);
        let token = clean_env_value(token);
        let auth = if host.is_some() || token.is_some() {
            Some(FileAuthConfig { host, token })
        } else {
            None
        };
        FileConfig { auth, defaults: None }
    }
}

/// Why a merged source does not make a configuration, in the order checked.
#[derive(Debug, Clone, Copy, PartialEq, Eq, Structural)]
pub enum ConfigProblem {
    MissingHost,
    MissingToken,
    BadHost,
    BadToken,
    BadCourse,
}

/// The first problem of a merged source, if any.
pub open spec fn config_problem(raw: FileConfig) -> Option<ConfigProblem> {
    match (host_of(raw), token_of(raw)) {
        (None, _) => Some(ConfigProblem::MissingHost),
        (Some(_), None) => Some(ConfigProblem::MissingToken),
        (Some(h), Some(t)) => if host_spec(h@) is Err {
            Some(ConfigProblem::BadHost)
        } else if token_spec(t@) is Err {
            Some(ConfigProblem::BadToken)
        } else if course_of(raw) matches Some(c) && c == 0 {
            Some(ConfigProblem::BadCourse)
        } else {
            None
        },
    }
}

/// Whether `e` is the error the command line reports for `problem` of `raw`.
pub open spec fn reports(raw: FileConfig, problem: ConfigProblem, e: CanvasError) -> bool {
    match problem {
        ConfigProblem::MissingHost => e matches CanvasError::MissingConfig(s) && s@
            == "host (CANVAS_HOST or auth.host)"@,
        ConfigProblem::MissingToken => e matches CanvasError::MissingConfig(s) && s@
            == "token (CANVAS_TOKEN or auth.token)"@,
        ConfigProblem::BadHost => e matches CanvasError::InvalidHost(s) && s@ == host_of(raw)->0@,
        ConfigProblem::BadToken => e == CanvasError::InvalidToken,
        ConfigProblem::BadCourse => e matches CanvasError::InvalidCourseId(s) && s@ == "0"@,
    }
}

impl CanvasConfig {
    /// Validates a merged source: host and token must be present and valid,
    /// and a default course id must be positive.
    pub fn from_file_config(raw: FileConfig) -> (r: Result<Self, CanvasError>)
        ensures
            match r {
                Ok(c) => config_problem(raw) is None && host_spec(host_of(raw)->0@) == Ok::<
                    Seq<char>,
                    CanvasHostParseError,
                >(c.auth.host@) && token_spec(token_of(raw)->0@) == Ok::<
                    Seq<char>,
                    CanvasTokenParseError,
                >(c.auth.token@) && match c.defaults.course_id {
                    Some(id) => course_of(raw) == Some(id@),
                    None => course_of(raw) is None,
                },
                Err(e) => config_problem(raw) matches Some(p) && reports(raw, p, e),
            },
    {
        let auth = match raw.auth {
            Some(a) => a,
            None => FileAuthConfig { host: None, token: None },
        };
        let host_raw = match auth.host {
            Some(h) => h,
            None => {
                return Err(
                    CanvasError::MissingConfig(to_owned_string("host (CANVAS_HOST or auth.host)")),
                );
            },
        };
        let token_raw = match auth.token {
            Some(t) => t,
            None => {
                return Err(
                    CanvasError::MissingConfig(
                        to_owned_string("token (CANVAS_TOKEN or auth.token)"),
                    ),
                );
            },
        };
        let host = parse_host(host_raw.as_str())?;
        let token = parse_token(token_raw.as_str())?;
        let course_id = match raw.defaults {
            Some(defaults) => match defaults.course_id {
                Some(value) => {
                    let text = u64_to_string(value);
                    proof {
                        crate::text::lemma_id_text_roundtrip(value);
                        if value == 0 {
                            reveal_strlit("0");
                            assert(dec(0) =~= "0"@);
                        }
                    }
                    Some(parse_course_id(text.as_str())?)
                },
                None => None,
            },
            None => None,
        };
        Ok(CanvasConfig { auth: AuthConfig { host, token }, defaults: DefaultsConfig { course_id } })
    }
}

/// Whether `c` is the configuration that the merged source `raw` gives.
pub open spec fn config_from(raw: FileConfig, c: CanvasConfig) -> bool {
    &&& config_problem(raw) is None
    &&& host_spec(host_of(raw)->0@) == Ok::<Seq<char>, CanvasHostParseError>(c.auth.host@)
    &&& token_spec(token_of(raw)->0@) == Ok::<Seq<char>, CanvasTokenParseError>(c.auth.token@)
    &&& match c.defaults.course_id {
        Some(id) => course_of(raw) == Some(id@),
        None => course_of(raw) is None,
    }
}

impl vstd::std_specs::convert::TryFromSpecImpl<FileConfig> for CanvasConfig {
    /// Configurations are known here by their texts and values, not as
    /// values, so `try_from` is not claimed to equal [`Self::try_from_spec`];
    /// its own `ensures` states its result.
    open spec fn obeys_try_from_spec() -> bool {
        false
    }

    /// A configuration with the source's host, token and default course, or
    /// the error for the source's first problem.
    open spec fn try_from_spec(raw: FileConfig) -> Result<Self, CanvasError> {
        match config_problem(raw) {
            None => Ok(choose|c: CanvasConfig| config_from(raw, c)),
            Some(p) => Err(choose|e: CanvasError| reports(raw, p, e)),
        }
    }
}

impl TryFrom<FileConfig> for CanvasConfig {
    type Error = CanvasError;

    /// Validates a merged source, as [`CanvasConfig::from_file_config`] does.
    fn try_from(raw: FileConfig) -> (r: Result<Self, Self::Error>)
        ensures
            match r {
                Ok(c) => config_problem(raw) is None && host_spec(host_of(raw)->0@) == Ok::<
                    Seq<char>,
                    CanvasHostParseError,
                >(c.auth.host@) && token_spec(token_of(raw)->0@) == Ok::<
                    Seq<char>,
                    CanvasTokenParseError,
                >(c.auth.token@) && match c.defaults.course_id {
                    Some(id) => course_of(raw) == Some(id@),
                    None => course_of(raw) is None,
                },
                Err(e) => config_problem(raw) matches Some(p) && reports(raw, p, e),
            },
    {
        Self::from_file_config(raw)
    }
}

} // verus!
