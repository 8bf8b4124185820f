//! Settings read from environment variables: what a variable is worth once
//! it was looked up.
//!
//! The environment itself is read by the caller, who hands in what it found
//! under the name of the variable.
use crate::text::{chars_of, is_digit};
use reqwest::Url;
use vstd::prelude::*;
use vstd::string::*;

verus! {

#[verifier::external_type_specification]
#[verifier::external_body]
pub struct ExUrl(reqwest::Url);

/// An environment variable with the value to fall back on, if there is one.
pub struct Env {
    name: String,
    default: Option<String>,
}

/// A setting that cannot be had.
#[derive(Debug)]
pub enum ConfigError {
    /// The variable with this name is not set, and has no default.
    EnvVarNotFoundError(String),
    /// The value of the variable with this name is no URL.
    UrlParseError(String),
    /// The value is no duration; the words are those of the duration reader.
    DurationParseError(String),
}

/// A setting that cannot be had, as a mathematical value.
pub enum ConfigErrorModel {
    EnvVarNotFoundError(Seq<char>),
    UrlParseError(Seq<char>),
    DurationParseError,
}

impl View for ConfigError {
    type V = ConfigErrorModel;

    open spec fn view(&self) -> ConfigErrorModel {
        match self {
            ConfigError::EnvVarNotFoundError(name) => ConfigErrorModel::EnvVarNotFoundError(name@),
            ConfigError::UrlParseError(name) => ConfigErrorModel::UrlParseError(name@),
            ConfigError::DurationParseError(_) => ConfigErrorModel::DurationParseError,
        }
    }
}

impl ConfigError {
    /// The error in words.
    pub open spec fn message_text(&self) -> Seq<char> {
        match self {
            ConfigError::EnvVarNotFoundError(name) => "Environment variable not found: "@ + name@,
            ConfigError::UrlParseError(name)
                => "Failed to parse URL for environment variable: "@ + name@,
            ConfigError::DurationParseError(words)
                => "Failed to parse duration for environment variable: "@ + words@,
        }
    }

    /// The error in words.
    pub fn message(&self) -> (text: String)
        ensures
            text@ == self.message_text(),
    {
        let (lead, rest) = match self {
            ConfigError::EnvVarNotFoundError(name) => ("Environment variable not found: ", name),
            ConfigError::UrlParseError(name) => (
                "Failed to parse URL for environment variable: ",
                name,
            ),
            ConfigError::DurationParseError(words) => (
                "Failed to parse duration for environment variable: ",
                words,
            ),
        };
        let mut text = String::from_str(lead);
        text.append(rest.as_str());
        text
    }
}

/// An environment variable, as mathematical values.
pub struct EnvModel {
    pub name: Seq<char>,
    pub default: Option<Seq<char>>,
}

impl View for Env {
    type V = EnvModel;

    closed spec fn view(&self) -> EnvModel {
        EnvModel {
            name: self.name@,
            default: match self.default {
                Some(default) => Some(default@),
                None => None,
            },
        }
    }
}

/// Whether `c` is white space: one of the characters with the Unicode
/// property `White_Space`.
pub open spec fn white_space(c: char) -> bool {
    let code = c as u32;
    ||| 0x09 <= code <= 0x0D
    ||| code == 0x20
    ||| code == 0x85
    ||| code == 0xA0
    ||| code == 0x1680
    ||| 0x2000 <= code <= 0x200A
    ||| code == 0x2028
    ||| code == 0x2029
    ||| code == 0x202F
    ||| code == 0x205F
    ||| code == 0x3000
}

/// How many digits stand in `text`.
pub open spec fn digit_count(text: Seq<char>) -> nat
    decreases text.len(),
{
    if text.len() == 0 {
        0
    } else {
        digit_count(text.drop_last()) + if is_digit(text.last()) {
            1nat
        } else {
            0nat
        }
    }
}

/// The most digits that the text of a duration may hold. With so few, no
/// number in it, in whatever unit, comes near the end of the 64-bit range.
pub const MAX_DURATION_DIGITS: usize = 11;

/// The whole seconds of the duration that `humantime::parse_duration` reads
/// from `text`; `None` where it reports an error.
pub uninterp spec fn duration_seconds(text: Seq<char>) -> Option<u64>;

/// The URL that `url` holds, as the text that `Url::as_str` gives for it.
pub uninterp spec fn url_text(url: reqwest::Url) -> Seq<char>;

/// The text of the URL that `Url::parse` reads from `text`; `None` where it
/// reports an error.
pub uninterp spec fn parsed_url(text: Seq<char>) -> Option<Seq<char>>;

/// `Url::parse`: the URL read from `text`, or none where the text is no
/// URL. Whether and what is read depends on the text alone.
#[verifier::external_body]
fn parse_url(text: &str) -> (r: Option<Url>)
    ensures
        match r {
            Some(url) => parsed_url(text@) == Some(url_text(url)),
            None => parsed_url(text@) is None,
        },
{
    Url::parse(text).ok()
}

/// `humantime::parse_duration`, and of the duration that it reads the whole
/// seconds; or the words of the error that it reports. Whether and what is
/// read depends on the text alone. The reader adds up the numbers of the
/// text in 64 bits and does not return where the sum runs over; a text of
/// at most eleven digits stays far below that.
#[verifier::external_body]
fn parse_duration_seconds(text: &str) -> (r: Result<u64, String>)
    requires
        digit_count(text@) <= MAX_DURATION_DIGITS,
    ensures
        match r {
            Ok(seconds) => duration_seconds(text@) == Some(seconds),
            Err(_) => duration_seconds(text@) is None,
        },
{
    humantime::parse_duration(text).map(|duration| duration.as_secs()).map_err(
        |error| error.to_string(),
    )
}

/// Nothing but white space stands in `text`.
pub open spec fn blank(text: Seq<char>) -> bool {
    forall|i: int| 0 <= i < text.len() ==> white_space(#[trigger] text[i])
}

impl EnvModel {
    /// What the variable is worth, given what the environment holds under
    /// its name. A value that is set counts unless it is blank, and a blank
    /// one is an error even where there is a default; the default stands in
    /// for a variable that is not set.
    pub open spec fn value(self, found: Option<Seq<char>>) -> Result<Seq<char>, ConfigErrorModel> {
        match found {
            Some(value) => if blank(value) {
                Err(ConfigErrorModel::EnvVarNotFoundError(self.name))
            } else {
                Ok(value)
            },
            None => match self.default {
                Some(default) => Ok(default),
                None => Err(ConfigErrorModel::EnvVarNotFoundError(self.name)),
            },
        }
    }

    /// What the variable is worth as a URL: the text of the URL, and for a
    /// value that is no URL the error with the name of the variable.
    pub open spec fn url(self, found: Option<Seq<char>>) -> Result<Seq<char>, ConfigErrorModel> {
        match self.value(found) {
            Err(error) => Err(error),
            Ok(value) => match parsed_url(value) {
                Some(url) => Ok(url),
                None => Err(ConfigErrorModel::UrlParseError(self.name)),
            },
        }
    }

    /// What the variable is worth as a duration, in whole seconds. A value
    /// with more than eleven digits is no duration.
    pub open spec fn seconds(self, found: Option<Seq<char>>) -> Result<u64, ConfigErrorModel> {
        match self.value(found) {
            Err(error) => Err(error),
            Ok(value) => if digit_count(value) > MAX_DURATION_DIGITS {
                Err(ConfigErrorModel::DurationParseError)
            } else {
                match duration_seconds(value) {
                    Some(seconds) => Ok(seconds),
                    None => Err(ConfigErrorModel::DurationParseError),
                }
            },
        }
    }
}

/// Whether `c` is white space.
pub fn is_white_space(c: char) -> (r: bool)
    ensures
        r == white_space(c),
{
    let code: u32 = c as u32;
    (0x09 <= code && code <= 0x0D) || code == 0x20 || code == 0x85 || code == 0xA0 || code
        == 0x1680 || (0x2000 <= code && code <= 0x200A) || code == 0x2028 || code == 0x2029
        || code == 0x202F || code == 0x205F || code == 0x3000
}

/// Whether nothing but white space stands in `text`.
fn is_blank(text: &str) -> (r: bool)
    ensures
        r == blank(text@),
{
    let chars = chars_of(text);
    let mut i: usize = 0;
    while i < chars.len()
        invariant
            i <= chars.len(),
            chars@ == text@,
            forall|k: int| 0 <= k < i ==> white_space(#[trigger] chars@[k]),
        decreases chars.len() - i,
    {
        if !is_white_space(chars[i]) {
            return false;
        }
        i += 1;
    }
    true
}

/// Whether more than `limit` digits stand in `text`.
fn has_more_digits(text: &str, limit: usize) -> (r: bool)
    ensures
        r == (digit_count(text@) > limit),
{
    let chars = chars_of(text);
    let mut count: usize = 0;
    let mut i: usize = 0;
    proof {
        assert(chars@.take(0) =~= Seq::empty());
    }
    while i < chars.len()
        invariant
            i <= chars.len(),
            chars@ == text@,
            count == digit_count(chars@.take(i as int)),
            count <= i,
            count <= limit,
        decreases chars.len() - i,
    {
        let c = chars[i];
        let digit = c == '0' || c == '1' || c == '2' || c == '3' || c == '4' || c == '5' || c
            == '6' || c == '7' || c == '8' || c == '9';
        proof {
            let next = chars@.take(i + 1);
            assert(next.drop_last() =~= chars@.take(i as int));
            assert(next.last() == c);
        }
        if digit {
            if count == limit {
                proof {
                    lemma_digit_count_grows(chars@, i + 1);
                }
                return true;
            }
            count += 1;
        }
        i += 1;
    }
    proof {
        assert(chars@.take(i as int) =~= chars@);
    }
    false
}

/// A text holds at least as many digits as each of its beginnings.
proof fn lemma_digit_count_grows(text: Seq<char>, k: int)
    requires
        0 <= k <= text.len(),
    ensures
        digit_count(text.take(k)) <= digit_count(text),
    decreases text.len() - k,
{
    if k == text.len() {
        assert(text.take(k) =~= text);
    } else {
        lemma_digit_count_grows(text, k + 1);
        assert(text.take(k + 1).drop_last() =~= text.take(k));
    }
}

impl Env {
    /// The variable with this name, without a default.
    pub fn var(name: &str) -> (env: Env)
        ensures
            env@ == (EnvModel { name: name@, default: None }),
    {
        Env { name: name.to_owned(), default: None }
    }

    /// The same variable, with `default` to fall back on.
    pub fn or(self, default: &str) -> (env: Env)
        ensures
            env@ == (EnvModel { name: self@.name, default: Some(default@) }),
    {
        Env { name: self.name, default: Some(default.to_owned()) }
    }

    /// The name of the variable.
    pub fn name(&self) -> (name: &str)
        ensures
            name@ == self@.name,
    {
        self.name.as_str()
    }

    /// What the variable is worth as a text, where the environment holds
    /// `found` under its name.
    pub fn as_string(&self, found: Option<String>) -> (r: Result<String, ConfigError>)
        ensures
            match r {
                Ok(value) => self@.value(found_text(found)) == Ok::<Seq<char>, ConfigErrorModel>(
                    value@,
                ),
                Err(error) => self@.value(found_text(found)) == Err::<Seq<char>, ConfigErrorModel>(
                    error@,
                ),
            },
    {
        match found {
            Some(value) => {
                if is_blank(value.as_str()) {
                    Err(ConfigError::EnvVarNotFoundError(self.name.clone()))
                } else {
                    Ok(value)
                }
            },
            None => match &self.default {
                Some(default) => Ok(default.clone()),
                None => Err(ConfigError::EnvVarNotFoundError(self.name.clone())),
            },
        }
    }

    /// What the variable is worth as a URL, where the environment holds
    /// `found` under its name.
    pub fn as_url(&self, found: Option<String>) -> (r: Result<Url, ConfigError>)
        ensures
            match r {
                Ok(url) => self@.url(found_text(found)) == Ok::<Seq<char>, ConfigErrorModel>(
                    url_text(url),
                ),
                Err(error) => self@.url(found_text(found)) == Err::<Seq<char>, ConfigErrorModel>(
                    error@,
                ),
            },
    {
        match self.as_string(found) {
            Err(error) => Err(error),
            Ok(value) => match parse_url(value.as_str()) {
                Some(url) => Ok(url),
                None => Err(ConfigError::UrlParseError(self.name.clone())),
            },
        }
    }

    /// What the variable is worth as a duration, in whole seconds, where the
    /// environment holds `found` under its name. A value with more than
    /// eleven digits is refused before it is read.
    pub fn as_duration(&self, found: Option<String>) -> (r: Result<u64, ConfigError>)
        ensures
            match r {
                Ok(seconds) => self@.seconds(found_text(found)) == Ok::<u64, ConfigErrorModel>(
                    seconds,
                ),
                Err(error) => self@.seconds(found_text(found)) == Err::<u64, ConfigErrorModel>(
                    error@,
                ),
            },
    {
        match self.as_string(found) {
            Err(error) => Err(error),
            Ok(value) => {
                if has_more_digits(value.as_str(), MAX_DURATION_DIGITS) {
                    return Err(
                        ConfigError::DurationParseError(String::from_str("number is too large")),
                    );
                }
                match parse_duration_seconds(value.as_str()) {
                    Ok(seconds) => Ok(seconds),
                    Err(words) => Err(ConfigError::DurationParseError(words)),
                }
            },
        }
    }
}

/// What the environment holds, as a mathematical value.
pub open spec fn found_text(found: Option<String>) -> Option<Seq<char>> {
    match found {
        Some(value) => Some(value@),
        None => None,
    }
}

} // verus!
