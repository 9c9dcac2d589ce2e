use crate::config::Config;
use vstd::prelude::*;
use vstd::string::*;

verus! {

/// A configuration entry that can be read or changed by name.
#[derive(PartialEq, Eq, Structural, Clone, Copy, Debug)]
pub enum ConfigKey {
    ApiBase,
    Token,
    Model,
    MaxTokens,
    Temperature,
}

/// A new value for one configuration entry. A temperature is given as its
/// IEEE 754 single-precision bit pattern.
pub enum Setting {
    ApiBase(String),
    Token(String),
    Model(String),
    MaxTokens(Option<u32>),
    Temperature(Option<u32>),
}

/// Why a setting's text was refused.
#[derive(PartialEq, Eq, Structural, Clone, Copy, Debug)]
pub enum SettingError {
    InvalidMaxTokens,
}

/// The entry a name refers to, if any.
pub open spec fn key_named(name: Seq<char>) -> Option<ConfigKey> {
    if name == "api_base"@ {
        Some(ConfigKey::ApiBase)
    } else if name == "token"@ {
        Some(ConfigKey::Token)
    } else if name == "model"@ {
        Some(ConfigKey::Model)
    } else if name == "max_tokens"@ {
        Some(ConfigKey::MaxTokens)
    } else if name == "temperature"@ {
        Some(ConfigKey::Temperature)
    } else {
        None
    }
}

fn same_text(a: &str, b: &str) -> (r: bool)
    ensures
        r == (a@ == b@),
{
    String::from_str(a) == String::from_str(b)
}

impl ConfigKey {
    pub fn from_name(name: &str) -> (r: Option<ConfigKey>)
        ensures
            r == key_named(name@),
    {
        if same_text(name, "api_base") {
            Some(ConfigKey::ApiBase)
        } else if same_text(name, "token") {
            Some(ConfigKey::Token)
        } else if same_text(name, "model") {
            Some(ConfigKey::Model)
        } else if same_text(name, "max_tokens") {
            Some(ConfigKey::MaxTokens)
        } else if same_text(name, "temperature") {
            Some(ConfigKey::Temperature)
        } else {
            None
        }
    }
}

/// What `str::to_lowercase` makes of a text.
pub uninterp spec fn lower_of(s: Seq<char>) -> Seq<char>;

/// Relies on str::to_lowercase: the result depends on the characters alone.
#[verifier::external_body]
fn lowercase(s: &str) -> (r: String)
    ensures
        r@ == lower_of(s@),
{
    s.to_lowercase()
}

/// Whether a setting's text asks to unset an optional entry: it reads
/// `none` in any letter case.
pub open spec fn is_unset_text(value: Seq<char>) -> bool {
    lower_of(value) == "none"@
}

/// Whether text already in lower case is the word `none`.
pub fn is_none_text(lowered: &str) -> (r: bool)
    ensures
        r == (lowered@ == "none"@),
{
    same_text(lowered, "none")
}

pub fn is_unset_word(value: &str) -> (r: bool)
    ensures
        r == is_unset_text(value@),
{
    let lower = lowercase(value);
    is_none_text(lower.as_str())
}

pub open spec fn is_digit(c: char) -> bool {
    '0' <= c <= '9'
}

pub open spec fn all_digits(s: Seq<char>) -> bool {
    forall|i: int| 0 <= i < s.len() ==> is_digit(#[trigger] s[i])
}

/// The number that a string of decimal digits denotes.
pub open spec fn digits_value(s: Seq<char>) -> int
    decreases s.len(),
{
    if s.len() == 0 {
        0
    } else {
        digits_value(s.drop_last()) * 10 + (s.last() as int - '0' as int)
    }
}

/// A number's text without its optional leading `+`.
pub open spec fn unsigned_digits(s: Seq<char>) -> Seq<char> {
    if s.len() > 0 && s[0] == '+' {
        s.drop_first()
    } else {
        s
    }
}

/// The unsigned 32-bit integer a text denotes: an optional `+`, then one or
/// more decimal digits whose value fits.
pub open spec fn u32_text(s: Seq<char>) -> Option<u32> {
    let d = unsigned_digits(s);
    if d.len() > 0 && all_digits(d) && digits_value(d) <= u32::MAX {
        Some(digits_value(d) as u32)
    } else {
        None
    }
}

proof fn lemma_digits_value_prefix(s: Seq<char>, i: int)
    requires
        all_digits(s),
        0 <= i <= s.len(),
    ensures
        0 <= digits_value(s.subrange(0, i)) <= digits_value(s),
    decreases s.len(),
{
    if s.len() > 0 {
        let t = s.drop_last();
        assert(all_digits(t)) by {
            assert forall|k: int| 0 <= k < t.len() implies is_digit(#[trigger] t[k]) by {
                assert(is_digit(s[k]));
            }
        }
        assert(is_digit(s[s.len() - 1]));
        lemma_digits_value_prefix(t, t.len() as int);
        assert(t.subrange(0, t.len() as int) =~= t);
        if i == s.len() {
            assert(s.subrange(0, i) =~= s);
        } else {
            lemma_digits_value_prefix(t, i);
            assert(t.subrange(0, i) =~= s.subrange(0, i));
        }
    } else {
        assert(s.subrange(0, i) =~= s);
    }
}

/// Reads an unsigned 32-bit integer written in decimal.
pub fn parse_u32(s: &str) -> (r: Option<u32>)
    ensures
        r == u32_text(s@),
{
    let n = s.unicode_len();
    let start: usize = if n > 0 && s.get_char(0) == '+' {
        1
    } else {
        0
    };
    let ghost d = unsigned_digits(s@);
    assert(d =~= s@.subrange(start as int, n as int));
    if start == n {
        return None;
    }
    let mut value: u64 = 0;
    let mut i: usize = start;
    while i < n
        invariant
            start <= i <= n,
            n == s@.len(),
            d == unsigned_digits(s@),
            d =~= s@.subrange(start as int, n as int),
            all_digits(d.subrange(0, i - start)),
            value == digits_value(d.subrange(0, i - start)),
            value <= u32::MAX,
        decreases n - i,
    {
        let c = s.get_char(i);
        if !('0' <= c && c <= '9') {
            assert(d[i - start] == c);
            assert(!is_digit(d[i - start]));
            assert(!all_digits(d));
            return None;
        }
        let ghost prev = d.subrange(0, i - start);
        let ghost next = d.subrange(0, i + 1 - start);
        assert(next.drop_last() =~= prev);
        assert(next.last() == c);
        value = value * 10 + (c as u64 - '0' as u64);
        assert(all_digits(next)) by {
            assert forall|k: int| 0 <= k < next.len() implies is_digit(#[trigger] next[k]) by {
                if k < prev.len() {
                    assert(next[k] == prev[k]);
                }
            }
        }
        if value > u32::MAX as u64 {
            proof {
                if all_digits(d) {
                    lemma_digits_value_prefix(d, i + 1 - start);
                }
            }
            return None;
        }
        i = i + 1;
    }
    assert(d.subrange(0, n - start) =~= d);
    Some(value as u32)
}

/// The `max_tokens` a setting's text asks for: unset for `none` in any case,
/// else a decimal number.
pub open spec fn max_tokens_text(value: Seq<char>) -> Result<Option<u32>, SettingError> {
    max_tokens_lowered(lower_of(value), value)
}

/// The `max_tokens` a setting's text asks for, given the text and its
/// lower-case form: unset when the lower-case form is `none`, else the
/// decimal number the text holds.
pub open spec fn max_tokens_lowered(lowered: Seq<char>, value: Seq<char>) -> Result<
    Option<u32>,
    SettingError,
> {
    if lowered == "none"@ {
        Ok(None)
    } else {
        match u32_text(value) {
            Some(n) => Ok(Some(n)),
            None => Err(SettingError::InvalidMaxTokens),
        }
    }
}

/// Reads a `max_tokens` setting from its text and the text's lower-case form.
pub fn max_tokens_value(lowered: &str, value: &str) -> (r: Result<Option<u32>, SettingError>)
    ensures
        r == max_tokens_lowered(lowered@, value@),
{
    if is_none_text(lowered) {
        Ok(None)
    } else {
        match parse_u32(value) {
            Some(n) => Ok(Some(n)),
            None => Err(SettingError::InvalidMaxTokens),
        }
    }
}

pub fn parse_max_tokens(value: &str) -> (r: Result<Option<u32>, SettingError>)
    ensures
        r == max_tokens_text(value@),
{
    let lower = lowercase(value);
    max_tokens_value(lower.as_str(), value)
}

/// The configuration after one entry takes a new value.
pub open spec fn config_with(c: Config, s: Setting) -> Config {
    match s {
        Setting::ApiBase(v) => Config { api_base: v, ..c },
        Setting::Token(v) => Config { token: v, ..c },
        Setting::Model(v) => Config { model: v, ..c },
        Setting::MaxTokens(v) => Config { max_tokens: v, ..c },
        Setting::Temperature(v) => Config { temperature: v, ..c },
    }
}

impl Config {
    /// Gives one entry a new value and leaves the others, history included,
    /// as they were.
    pub fn apply(&mut self, setting: Setting)
        ensures
            *final(self) == config_with(*old(self), setting),
    {
        match setting {
            Setting::ApiBase(v) => self.api_base = v,
            Setting::Token(v) => self.token = v,
            Setting::Model(v) => self.model = v,
            Setting::MaxTokens(v) => self.max_tokens = v,
            Setting::Temperature(v) => self.temperature = v,
        }
    }
}

} // verus!
