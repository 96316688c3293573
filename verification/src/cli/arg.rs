//! Command-line arguments shared by the subcommands: logging and channels.

use vstd::prelude::*;
use crate::text::owned;

verus! {

/// Which log format to use.
#[derive(Debug, Clone, Copy, PartialEq, Eq, Structural)]
pub enum Logger {
    Compact,
    Full,
    Pretty,
    Json,
}

impl Default for Logger {
    fn default() -> (r: Self)
        ensures
            r == Logger::Compact,
    {
        Logger::Compact
    }
}

pub open spec fn logger_name(l: Logger) -> Seq<char> {
    match l {
        Logger::Compact => "compact"@,
        Logger::Full => "full"@,
        Logger::Pretty => "pretty"@,
        Logger::Json => "json"@,
    }
}

impl Logger {
    /// The name of the format, as given on the command line.
    pub fn name(&self) -> (r: &'static str)
        ensures
            r@ == logger_name(*self),
    {
        match self {
            Logger::Compact => "compact",
            Logger::Full => "full",
            Logger::Pretty => "pretty",
            Logger::Json => "json",
        }
    }
}

/// How much to log, and how.
#[derive(Debug)]
pub struct Instrumentation {
    /// `-v` for debug logs, `-vv` for trace logs.
    pub verbose: u8,
    pub logger: Logger,
    /// Tracing directives.
    pub log_directives: Vec<String>,
}

pub open spec fn log_level_text(verbose: u8) -> Seq<char> {
    if verbose == 0 {
        "info"@
    } else if verbose == 1 {
        "debug"@
    } else {
        "trace"@
    }
}

impl Instrumentation {
    /// The log level: `info`, `debug` with one `-v`, `trace` with more.
    pub fn log_level(&self) -> (r: String)
        ensures
            r@ == log_level_text(self.verbose),
    {
        if self.verbose == 0 {
            owned("info")
        } else if self.verbose == 1 {
            owned("debug")
        } else {
            owned("trace")
        }
    }

    /// The filter directive for this crate's logs at the chosen level.
    pub fn default_directive(&self, crate_name: &str) -> (r: String)
        ensures
            r@ == crate_name@ + "="@ + log_level_text(self.verbose),
    {
        let mut s = owned(crate_name);
        s.append("=");
        let level = self.log_level();
        s.append(level.as_str());
        s
    }
}

/// A channel for `nix-channel`: its name and URL.
#[derive(Debug)]
pub struct ChannelValue {
    pub name: String,
    pub url: String,
}

/// Why a channel argument is refused.
#[derive(Debug, Clone, Copy, PartialEq, Eq, Structural)]
pub enum ChannelValueError {
    /// There is no `=` between a name and a URL.
    NotNameEqualsUrl,
}

impl ChannelValueError {
    pub fn message(&self) -> (r: String)
        ensures
            r@ == "Should be formatted `name=url`"@,
    {
        owned("Should be formatted `name=url`")
    }
}

/// What `url::Url::parse` followed by serialising the URL gives for a
/// text: the normalised URL, or nothing when the text is not a URL.
pub uninterp spec fn parsed_url(s: Seq<char>) -> Option<Seq<char>>;

/// Calls `url::Url::parse` and renders the URL; the result is named by
/// `parsed_url`.
#[verifier::external_body]
fn parse_url(s: &str) -> (r: Option<String>)
    ensures
        match r {
            Some(u) => parsed_url(s@) == Some(u@),
            None => parsed_url(s@) is None,
        },
{
    match url::Url::parse(s) {
        Ok(u) => Some(u.to_string()),
        Err(_) => None,
    }
}

/// The position of the first `c` in `s`.
pub open spec fn first_index(s: Seq<char>, c: char, i: int) -> bool {
    0 <= i < s.len() && s[i] == c && forall|j: int| 0 <= j < i ==> s[j] != c
}

fn find_first(s: &str, c: char) -> (r: Option<usize>)
    ensures
        match r {
            Some(i) => first_index(s@, c, i as int),
            None => forall|j: int| 0 <= j < s@.len() ==> s@[j] != c,
        },
{
    let n = s.unicode_len();
    let mut i: usize = 0;
    while i < n
        invariant
            i <= n,
            n == s@.len(),
            forall|j: int| 0 <= j < i ==> s@[j] != c,
        decreases n - i,
    {
        if s.get_char(i) == c {
            return Some(i);
        }
        i = i + 1;
    }
    None
}

/// The name and URL texts of a channel argument: the parts before and after
/// its first `=`.
pub open spec fn channel_parts(s: Seq<char>) -> Option<(Seq<char>, Seq<char>)> {
    if exists|i: int| first_index(s, '=', i) {
        let i = choose|i: int| first_index(s, '=', i);
        Some((s.subrange(0, i), s.subrange(i + 1, s.len() as int)))
    } else {
        None
    }
}

proof fn lemma_first_index_unique(s: Seq<char>, c: char, i: int, k: int)
    requires
        first_index(s, c, i),
        first_index(s, c, k),
    ensures
        i == k,
{
    if i < k {
        assert(s[i] != c);
    } else if k < i {
        assert(s[k] != c);
    }
}

/// Reads `name=url`, with the URL parsed; the URL part must be a URL.
pub fn parse_channel_value(buf: &str) -> (r: Result<ChannelValue, ChannelValueError>)
    requires
        channel_parts(buf@) matches Some((_, u)) ==> parsed_url(u) is Some,
    ensures
        match channel_parts(buf@) {
            None => r == Err::<ChannelValue, ChannelValueError>(ChannelValueError::NotNameEqualsUrl),
            Some((n, u)) => r matches Ok(v) && v.name@ == n && parsed_url(u) == Some(v.url@),
        },
{
    match find_first(buf, '=') {
        None => Err(ChannelValueError::NotNameEqualsUrl),
        Some(i) => {
            let n = buf.unicode_len();
            let name = owned(buf.substring_char(0, i));
            let url_text = buf.substring_char(i + 1, n);
            proof {
                let k = choose|k: int| first_index(buf@, '=', k);
                lemma_first_index_unique(buf@, '=', i as int, k);
            }
            match parse_url(url_text) {
                Some(url) => Ok(ChannelValue { name, url }),
                None => Err(ChannelValueError::NotNameEqualsUrl),
            }
        },
    }
}

/// Reads `name=url` like `parse_channel_value`, and answers `None` where
/// the URL part is not a URL (which the command line does not accept).
pub fn try_parse_channel_value(buf: &str) -> (r: Option<Result<ChannelValue, ChannelValueError>>)
    ensures
        match channel_parts(buf@) {
            None => r == Some(Err::<ChannelValue, ChannelValueError>(ChannelValueError::NotNameEqualsUrl)),
            Some((n, u)) => match parsed_url(u) {
                None => r is None,
                Some(p) => r matches Some(Ok(v)) && v.name@ == n && v.url@ == p,
            },
        },
{
    match find_first(buf, '=') {
        None => Some(Err(ChannelValueError::NotNameEqualsUrl)),
        Some(i) => {
            let n = buf.unicode_len();
            let url_text = buf.substring_char(i + 1, n);
            proof {
                let k = choose|k: int| first_index(buf@, '=', k);
                lemma_first_index_unique(buf@, '=', i as int, k);
            }
            match parse_url(url_text) {
                None => None,
                Some(_) => Some(ChannelValueParser.parse_ref(buf)),
            }
        },
    }
}

/// Builds the parser of channel arguments.
pub struct ChannelValueParser;

impl ChannelValueParser {
    /// Reads one channel argument.
    pub fn parse_ref(&self, value: &str) -> (r: Result<ChannelValue, ChannelValueError>)
        requires
            channel_parts(value@) matches Some((_, u)) ==> parsed_url(u) is Some,
        ensures
            match channel_parts(value@) {
                None => r == Err::<ChannelValue, ChannelValueError>(ChannelValueError::NotNameEqualsUrl),
                Some((n, u)) => r matches Ok(v) && v.name@ == n && parsed_url(u) == Some(v.url@),
            },
    {
        parse_channel_value(value)
    }
}

} // verus!
