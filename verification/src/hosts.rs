//! The Canvas host and access token of a configuration, and the URL of an
//! external tool configuration. URLs are read by the `url` crate.

use crate::text::{is_whitespace, is_ws, parse_clean_text, push_str, str_eq, trim, trim_str};
use url::Url;
use vstd::prelude::*;

verus! {

/// What the `url` crate reads from a URL: its serialization, its scheme, and
/// whether it has a host.
pub uninterp spec fn url_reading(text: Seq<char>) -> Option<(Seq<char>, Seq<char>, bool)>;

/// Reads a URL with `url::Url::parse`. It returns `None` where parsing fails;
/// otherwise `as_str()`, `scheme()`, and whether `host_str()` is present. The
/// contract names the result and states no more of it: the URL standard's
/// grammar is not stated.
#[verifier::external_body]
fn read_url(text: &str) -> (r: Option<(String, String, bool)>)
    ensures
        match r {
            Some((serial, scheme, has_host)) => url_reading(text@) == Some(
                (serial@, scheme@, has_host),
            ),
            None => url_reading(text@) is None,
        },
{
    match Url::parse(text) {
        Ok(u) => Some((u.as_str().to_string(), u.scheme().to_string(), u.host_str().is_some())),
        Err(_) => None,
    }
}

/// Whether a scheme is one a Canvas URL may use.
pub open spec fn is_web_scheme(scheme: Seq<char>) -> bool {
    scheme == "http"@ || scheme == "https"@
}

fn web_scheme(scheme: &str) -> (r: bool)
    ensures
        r == is_web_scheme(scheme@),
{
    str_eq(scheme, "http") || str_eq(scheme, "https")
}

/// `s` without its trailing `/` characters (`trim_end_matches('/')`).
pub open spec fn strip_slashes(s: Seq<char>) -> Seq<char>
    decreases s.len(),
{
    if s.len() > 0 && s.last() == '/' {
        strip_slashes(s.drop_last())
    } else {
        s
    }
}

fn strip_slashes_str(s: &str) -> (r: &str)
    ensures
        r@ == strip_slashes(s@),
{
    let n = s.unicode_len();
    let mut j: usize = n;
    assert(s@.subrange(0, n as int) =~= s@);
    while j > 0 && s.get_char(j - 1) == '/'
        invariant
            n == s@.len(),
            j <= n,
            strip_slashes(s@) == strip_slashes(s@.subrange(0, j as int)),
        decreases j,
    {
        assert(s@.subrange(0, j as int).drop_last() =~= s@.subrange(0, j - 1));
        j = j - 1;
    }
    s.substring_char(0, j)
}

proof fn lemma_strip_slashes_ends(s: Seq<char>)
    ensures
        strip_slashes(s).len() == 0 || strip_slashes(s).last() != '/',
    decreases s.len(),
{
    if s.len() > 0 && s.last() == '/' {
        lemma_strip_slashes_ends(s.drop_last());
    }
}

/// A host that parses never ends with `/`, so that joining it to a path puts
/// exactly one `/` between them.
pub proof fn lemma_host_without_trailing_slash(raw: Seq<char>)
    ensures
        host_spec(raw) matches Ok(h) ==> h.len() == 0 || h.last() != '/',
{
    lemma_strip_slashes_ends(trim(raw));
}

/// The base URL of a Canvas instance, without trailing slashes.
#[derive(Debug, Clone, PartialEq, Eq, Hash)]
pub struct CanvasHost(String);

/// Why text is not a Canvas host.
#[derive(Debug, Clone, Copy, PartialEq, Eq, Structural)]
pub enum CanvasHostParseError {
    Empty,
    InvalidUrl,
    InvalidScheme,
    MissingHost,
}

impl CanvasHostParseError {
    /// The error's message.
    pub fn message(&self) -> (r: &'static str)
        ensures
            r@ == match self {
                CanvasHostParseError::Empty => "host must not be empty"@,
                CanvasHostParseError::InvalidUrl => "host must be a valid URL"@,
                CanvasHostParseError::InvalidScheme => "host must use http or https"@,
                CanvasHostParseError::MissingHost => "host must include a domain"@,
            },
    {
        match self {
            CanvasHostParseError::Empty => "host must not be empty",
            CanvasHostParseError::InvalidUrl => "host must be a valid URL",
            CanvasHostParseError::InvalidScheme => "host must use http or https",
            CanvasHostParseError::MissingHost => "host must include a domain",
        }
    }
}

/// What a host field yields: the trimmed input without trailing slashes, once
/// it is a non-empty `http` or `https` URL with a host.
pub open spec fn host_spec(raw: Seq<char>) -> Result<Seq<char>, CanvasHostParseError> {
    let t = trim(raw);
    if t.len() == 0 {
        Err(CanvasHostParseError::Empty)
    } else {
        host_of_reading(t, url_reading(t))
    }
}

/// What a host field yields from its trimmed text `t` and the URL reading of
/// `t`: the text without trailing slashes, once it is an `http` or `https`
/// URL with a host.
pub open spec fn host_of_reading(
    t: Seq<char>,
    reading: Option<(Seq<char>, Seq<char>, bool)>,
) -> Result<Seq<char>, CanvasHostParseError> {
    match reading {
        None => Err(CanvasHostParseError::InvalidUrl),
        Some((_, scheme, has_host)) => if !is_web_scheme(scheme) {
            Err(CanvasHostParseError::InvalidScheme)
        } else if !has_host {
            Err(CanvasHostParseError::MissingHost)
        } else {
            Ok(strip_slashes(t))
        },
    }
}

/// The model of a URL reading.
pub open spec fn reading_view(reading: Option<(String, String, bool)>) -> Option<
    (Seq<char>, Seq<char>, bool),
> {
    match reading {
        Some((serial, scheme, has_host)) => Some((serial@, scheme@, has_host)),
        None => None,
    }
}

impl View for CanvasHost {
    type V = Seq<char>;

    closed spec fn view(&self) -> Seq<char> {
        self.0@
    }
}

impl CanvasHost {
    /// The host URL.
    pub fn as_str(&self) -> (r: &str)
        ensures
            r@ == self@,
    {
        self.0.as_str()
    }

    /// Parses a Canvas host URL.
    pub fn parse(raw: &str) -> (r: Result<Self, CanvasHostParseError>)
        ensures
            match r {
                Ok(h) => host_spec(raw@) == Ok::<Seq<char>, CanvasHostParseError>(h@),
                Err(e) => host_spec(raw@) == Err::<Seq<char>, CanvasHostParseError>(e),
            },
    {
        let trimmed = trim_str(raw);
        if trimmed.unicode_len() == 0 {
            return Err(CanvasHostParseError::Empty);
        }
        let reading = read_url(trimmed);
        Self::from_url_reading(trimmed, reading)
    }

    /// The host that the text `text`, read as the URL `reading` (its
    /// serialization, scheme and whether it has a host), stands for.
    pub fn from_url_reading(text: &str, reading: Option<(String, String, bool)>) -> (r: Result<
        Self,
        CanvasHostParseError,
    >)
        ensures
            match r {
                Ok(h) => host_of_reading(text@, reading_view(reading)) == Ok::<
                    Seq<char>,
                    CanvasHostParseError,
                >(h@),
                Err(e) => host_of_reading(text@, reading_view(reading)) == Err::<
                    Seq<char>,
                    CanvasHostParseError,
                >(e),
            },
    {
        match reading {
            None => Err(CanvasHostParseError::InvalidUrl),
            Some((_, scheme, has_host)) => {
                if !web_scheme(scheme.as_str()) {
                    return Err(CanvasHostParseError::InvalidScheme);
                }
                if !has_host {
                    return Err(CanvasHostParseError::MissingHost);
                }
                let normalized = strip_slashes_str(text);
                let mut out = String::new();
                push_str(&mut out, normalized);
                assert(out@ =~= normalized@);
                Ok(CanvasHost(out))
            },
        }
    }
}

impl core::str::FromStr for CanvasHost {
    type Err = CanvasHostParseError;

    fn from_str(raw: &str) -> (r: Result<Self, Self::Err>)
        ensures
            match r {
                Ok(h) => host_spec(raw@) == Ok::<Seq<char>, CanvasHostParseError>(h@),
                Err(e) => host_spec(raw@) == Err::<Seq<char>, CanvasHostParseError>(e),
            },
    {
        Self::parse(raw)
    }
}

/// A Canvas access token: non-empty text without whitespace.
#[derive(Debug, Clone, PartialEq, Eq, Hash)]
pub struct CanvasToken(String);

/// Why text is not an access token.
#[derive(Debug, Clone, Copy, PartialEq, Eq, Structural)]
pub enum CanvasTokenParseError {
    Empty,
    ContainsWhitespace,
}

impl CanvasTokenParseError {
    /// The error's message.
    pub fn message(&self) -> (r: &'static str)
        ensures
            r@ == match self {
                CanvasTokenParseError::Empty => "token must not be empty"@,
                CanvasTokenParseError::ContainsWhitespace => "token must not contain whitespace"@,
            },
    {
        match self {
            CanvasTokenParseError::Empty => "token must not be empty",
            CanvasTokenParseError::ContainsWhitespace => "token must not contain whitespace",
        }
    }
}

/// Whether `s` holds a whitespace character.
pub open spec fn has_ws(s: Seq<char>) -> bool {
    exists|i: int| 0 <= i < s.len() && is_ws(#[trigger] s[i])
}

fn has_whitespace(s: &str) -> (r: bool)
    ensures
        r == has_ws(s@),
{
    let n = s.unicode_len();
    let mut i: usize = 0;
    while i < n
        invariant
            n == s@.len(),
            i <= n,
            forall|k: int| 0 <= k < i ==> !is_ws(#[trigger] s@[k]),
        decreases n - i,
    {
        if is_whitespace(s.get_char(i)) {
            return true;
        }
        i = i + 1;
    }
    false
}

/// What a token field yields: the trimmed input, which must be non-empty and
/// free of whitespace.
pub open spec fn token_spec(raw: Seq<char>) -> Result<Seq<char>, CanvasTokenParseError> {
    let t = trim(raw);
    if t.len() == 0 {
        Err(CanvasTokenParseError::Empty)
    } else if has_ws(t) {
        Err(CanvasTokenParseError::ContainsWhitespace)
    } else {
        Ok(t)
    }
}

impl View for CanvasToken {
    type V = Seq<char>;

    closed spec fn view(&self) -> Seq<char> {
        self.0@
    }
}

impl CanvasToken {
    /// The token.
    pub fn as_str(&self) -> (r: &str)
        ensures
            r@ == self@,
    {
        self.0.as_str()
    }

    /// Parses an access token.
    pub fn parse(raw: &str) -> (r: Result<Self, CanvasTokenParseError>)
        ensures
            match r {
                Ok(t) => token_spec(raw@) == Ok::<Seq<char>, CanvasTokenParseError>(t@),
                Err(e) => token_spec(raw@) == Err::<Seq<char>, CanvasTokenParseError>(e),
            },
    {
        let trimmed = trim_str(raw);
        if trimmed.unicode_len() == 0 {
            return Err(CanvasTokenParseError::Empty);
        }
        if has_whitespace(trimmed) {
            return Err(CanvasTokenParseError::ContainsWhitespace);
        }
        match parse_clean_text(trimmed) {
            Some(t) => {
                proof {
                    crate::text::lemma_trim_idempotent(raw@);
                }
                Ok(CanvasToken(t))
            },
            None => {
                proof {
                    crate::text::lemma_trim_idempotent(raw@);
                }
                Err(CanvasTokenParseError::Empty)
            },
        }
    }
}

impl core::str::FromStr for CanvasToken {
    type Err = CanvasTokenParseError;

    fn from_str(raw: &str) -> (r: Result<Self, Self::Err>)
        ensures
            match r {
                Ok(t) => token_spec(raw@) == Ok::<Seq<char>, CanvasTokenParseError>(t@),
                Err(e) => token_spec(raw@) == Err::<Seq<char>, CanvasTokenParseError>(e),
            },
    {
        Self::parse(raw)
    }
}

/// The URL of an external tool's configuration: an `http` or `https` URL.
#[derive(Debug, Clone, PartialEq, Eq, Hash)]
pub struct ExternalToolConfigUrl(String);

/// Why text is not a tool configuration URL.
#[derive(Debug, Clone, Copy, PartialEq, Eq, Structural)]
pub enum ExternalToolConfigUrlParseError {
    Empty,
    InvalidUrl,
    InvalidScheme,
}

impl ExternalToolConfigUrlParseError {
    /// The error's message.
    pub fn message(&self) -> (r: &'static str)
        ensures
            r@ == match self {
                ExternalToolConfigUrlParseError::Empty => "external tool config url cannot be empty"@,
                ExternalToolConfigUrlParseError::InvalidUrl => "external tool config url must be a valid url"@,
                ExternalToolConfigUrlParseError::InvalidScheme => "external tool config url must use http or https"@,
            },
    {
        match self {
            ExternalToolConfigUrlParseError::Empty => "external tool config url cannot be empty",
            ExternalToolConfigUrlParseError::InvalidUrl => "external tool config url must be a valid url",
            ExternalToolConfigUrlParseError::InvalidScheme => "external tool config url must use http or https",
        }
    }
}

/// What a tool configuration URL field yields: the serialization of the
/// trimmed input read as a URL, once it uses `http` or `https`.
pub open spec fn tool_url_spec(raw: Seq<char>) -> Result<Seq<char>, ExternalToolConfigUrlParseError> {
    let t = trim(raw);
    if t.len() == 0 {
        Err(ExternalToolConfigUrlParseError::Empty)
    } else {
        tool_url_of_reading(url_reading(t))
    }
}

/// What a tool configuration URL field yields from the URL reading of its
/// trimmed text: the serialization, once it uses `http` or `https`.
pub open spec fn tool_url_of_reading(reading: Option<(Seq<char>, Seq<char>, bool)>) -> Result<
    Seq<char>,
    ExternalToolConfigUrlParseError,
> {
    match reading {
        None => Err(ExternalToolConfigUrlParseError::InvalidUrl),
        Some((serial, scheme, _)) => if is_web_scheme(scheme) {
            Ok(serial)
        } else {
            Err(ExternalToolConfigUrlParseError::InvalidScheme)
        },
    }
}

impl View for ExternalToolConfigUrl {
    type V = Seq<char>;

    closed spec fn view(&self) -> Seq<char> {
        self.0@
    }
}

impl ExternalToolConfigUrl {
    /// The URL as the `url` crate serializes it.
    pub fn as_str(&self) -> (r: &str)
        ensures
            r@ == self@,
    {
        self.0.as_str()
    }

    /// Parses a tool configuration URL.
    pub fn parse(raw: &str) -> (r: Result<Self, ExternalToolConfigUrlParseError>)
        ensures
            match r {
                Ok(u) => tool_url_spec(raw@) == Ok::<Seq<char>, ExternalToolConfigUrlParseError>(u@),
                Err(e) => tool_url_spec(raw@) == Err::<Seq<char>, ExternalToolConfigUrlParseError>(e),
            },
    {
        let trimmed = trim_str(raw);
        if trimmed.unicode_len() == 0 {
            return Err(ExternalToolConfigUrlParseError::Empty);
        }
        let reading = read_url(trimmed);
        Self::from_url_reading(reading)
    }

    /// The tool configuration URL that a URL reading (serialization, scheme
    /// and whether it has a host) stands for.
    pub fn from_url_reading(reading: Option<(String, String, bool)>) -> (r: Result<
        Self,
        ExternalToolConfigUrlParseError,
    >)
        ensures
            match r {
                Ok(u) => tool_url_of_reading(reading_view(reading)) == Ok::<
                    Seq<char>,
                    ExternalToolConfigUrlParseError,
                >(u@),
                Err(e) => tool_url_of_reading(reading_view(reading)) == Err::<
                    Seq<char>,
                    ExternalToolConfigUrlParseError,
                >(e),
            },
    {
        match reading {
            None => Err(ExternalToolConfigUrlParseError::InvalidUrl),
            Some((serial, scheme, _)) => {
                if web_scheme(scheme.as_str()) {
                    Ok(ExternalToolConfigUrl(serial))
                } else {
                    Err(ExternalToolConfigUrlParseError::InvalidScheme)
                }
            },
        }
    }
}

impl core::str::FromStr for ExternalToolConfigUrl {
    type Err = ExternalToolConfigUrlParseError;

    fn from_str(raw: &str) -> (r: Result<Self, Self::Err>)
        ensures
            match r {
                Ok(u) => tool_url_spec(raw@) == Ok::<Seq<char>, ExternalToolConfigUrlParseError>(u@),
                Err(e) => tool_url_spec(raw@) == Err::<Seq<char>, ExternalToolConfigUrlParseError>(e),
            },
    {
        Self::parse(raw)
    }
}

} // verus!
