use std::collections::VecDeque;
use vstd::prelude::*;
use vstd::string::*;

verus! {

/// One past exchange: what was asked and what came back.
pub struct HistoryItem {
    pub question: String,
    pub answer: String,
}

impl Clone for HistoryItem {
    fn clone(&self) -> (r: HistoryItem)
        ensures
            r.question@ == self.question@,
            r.answer@ == self.answer@,
    {
        HistoryItem { question: self.question.clone(), answer: self.answer.clone() }
    }
}

/// User settings and the rolling conversation history.
///
/// `temperature` holds the IEEE 754 single-precision bit pattern of the
/// sampling temperature, so that the value is carried exactly without
/// arithmetic on it.
#[derive(Clone)]
pub struct Config {
    pub api_base: String,
    pub token: String,
    pub model: String,
    pub max_tokens: Option<u32>,
    pub temperature: Option<u32>,
    pub max_history: usize,
    pub history: VecDeque<HistoryItem>,
}

/// Number of past exchanges kept when a configuration does not say otherwise.
pub fn default_max_history() -> (r: usize)
    ensures
        r == 10,
{
    10
}

/// The history after recording `item` with capacity `max`: the oldest entry
/// leaves first when the history is already full.
pub open spec fn history_after_add(h: Seq<HistoryItem>, max: nat, item: HistoryItem) -> Seq<
    HistoryItem,
> {
    let kept = if h.len() >= max && h.len() > 0 {
        h.drop_first()
    } else {
        h
    };
    kept.push(item)
}

/// A history within its capacity stays within it when an exchange is
/// recorded: the new exchange comes last, and what precedes it is the most
/// recent part of the old history, in its old order.
pub proof fn lemma_history_stays_bounded(h: Seq<HistoryItem>, max: nat, item: HistoryItem)
    requires
        0 < max,
        h.len() <= max,
    ensures
        history_after_add(h, max, item).len() <= max,
        history_after_add(h, max, item).last() == item,
        history_after_add(h, max, item).drop_last() =~= h.subrange(
            h.len() - (history_after_add(h, max, item).len() - 1),
            h.len() as int,
        ),
{
}

impl Default for Config {
    fn default() -> (r: Config)
        ensures
            r.api_base@ == "https://api.siliconflow.cn/v1/chat/completions"@,
            r.token@ == "sk-default-token"@,
            r.model@ == "deepseek-ai/DeepSeek-V3"@,
            r.max_tokens is None,
            r.temperature is None,
            r.max_history == 10,
            r.history@ == Seq::<HistoryItem>::empty(),
    {
        Config {
            api_base: String::from_str("https://api.siliconflow.cn/v1/chat/completions"),
            token: String::from_str("sk-default-token"),
            model: String::from_str("deepseek-ai/DeepSeek-V3"),
            max_tokens: None,
            temperature: None,
            max_history: default_max_history(),
            history: VecDeque::new(),
        }
    }
}

impl Config {
    /// Records an exchange, evicting the oldest one when the history holds
    /// `max_history` entries or more. Persisting the result is the caller's
    /// business.
    pub fn add_history(&mut self, question: String, answer: String)
        ensures
            final(self).history@ == history_after_add(
                old(self).history@,
                old(self).max_history as nat,
                HistoryItem { question, answer },
            ),
            *final(self) == (Config { history: final(self).history, ..*old(self) }),
    {
        if self.history.len() >= self.max_history {
            self.history.pop_front();
        }
        self.history.push_back(HistoryItem { question, answer });
    }

    /// Forgets every recorded exchange.
    pub fn clear_history(&mut self)
        ensures
            final(self).history@ == Seq::<HistoryItem>::empty(),
            *final(self) == (Config { history: final(self).history, ..*old(self) }),
    {
        self.history.clear();
    }

    pub fn get_history(&self) -> (r: &VecDeque<HistoryItem>)
        ensures
            r@ == self.history@,
    {
        &self.history
    }
}

/// The configuration file's path inside `dir`: `config.toml` joined to it
/// with a `/` unless `dir` is empty or already ends with one.
pub open spec fn config_path_in(dir: Seq<char>) -> Seq<char> {
    if dir.len() == 0 {
        "config.toml"@
    } else if dir.last() == '/' {
        dir + "config.toml"@
    } else {
        dir + "/"@ + "config.toml"@
    }
}

/// Where the configuration file of a project rooted at `dir` lives.
pub fn get_config_path(dir: &str) -> (r: String)
    ensures
        r@ == config_path_in(dir@),
{
    let n = dir.unicode_len();
    if n == 0 {
        return String::from_str("config.toml");
    }
    let mut path = String::from_str(dir);
    if dir.get_char(n - 1) != '/' {
        path.append("/");
    }
    path.append("config.toml");
    path
}

/// Whether `s` ends with an empty line, that is with two line feeds.
pub open spec fn ends_with_blank_line(s: Seq<char>) -> bool {
    s.len() >= 2 && s[s.len() - 1] == '\n' && s[s.len() - 2] == '\n'
}

/// For each recorded exchange, whether a listing prints an empty line before
/// it: always before the first, and before a later one unless the previous
/// answer already ended with an empty line.
pub fn blank_line_flags(history: &VecDeque<HistoryItem>) -> (r: Vec<bool>)
    ensures
        r@.len() == history@.len(),
        forall|i: int| 0 <= i < r@.len() ==> #[trigger] r@[i] == (i == 0 || !ends_with_blank_line(
            history@[i - 1].answer@,
        )),
{
    let mut flags: Vec<bool> = Vec::new();
    let mut i: usize = 0;
    while i < history.len()
        invariant
            i <= history@.len(),
            flags@.len() == i,
            forall|j: int| 0 <= j < i ==> #[trigger] flags@[j] == (j == 0 || !ends_with_blank_line(
                history@[j - 1].answer@,
            )),
        decreases history@.len() - i,
    {
        if i == 0 {
            flags.push(true);
        } else {
            let answer = history[i - 1].answer.as_str();
            let n = answer.unicode_len();
            let blank = n >= 2 && answer.get_char(n - 1) == '\n' && answer.get_char(n - 2) == '\n';
            flags.push(!blank);
        }
        i = i + 1;
    }
    flags
}

} // verus!
