use chat::config::{blank_line_flags, default_max_history, get_config_path, Config, HistoryItem};
use std::collections::VecDeque;

fn item(q: &str, a: &str) -> HistoryItem {
    HistoryItem { question: q.to_string(), answer: a.to_string() }
}

fn questions(c: &Config) -> Vec<String> {
    c.get_history().iter().map(|h| h.question.clone()).collect()
}

#[test]
fn default_config_values() {
    let c = Config::default();
    assert_eq!(c.api_base, "https://api.siliconflow.cn/v1/chat/completions");
    assert_eq!(c.token, "sk-default-token");
    assert_eq!(c.model, "deepseek-ai/DeepSeek-V3");
    assert_eq!(c.max_tokens, None);
    assert_eq!(c.temperature, None);
    assert_eq!(c.max_history, 10);
    assert!(c.history.is_empty());
    assert_eq!(default_max_history(), 10);
}

#[test]
fn add_history_appends_in_order() {
    let mut c = Config::default();
    c.add_history("q1".to_string(), "a1".to_string());
    c.add_history("q2".to_string(), "a2".to_string());
    assert_eq!(questions(&c), vec!["q1", "q2"]);
    assert_eq!(c.get_history()[1].answer, "a2");
}

#[test]
fn add_history_evicts_oldest_when_full() {
    let mut c = Config::default();
    c.max_history = 3;
    for k in 1..=5 {
        c.add_history(format!("q{}", k), format!("a{}", k));
    }
    assert_eq!(questions(&c), vec!["q3", "q4", "q5"]);
}

#[test]
fn add_history_with_zero_capacity_keeps_latest() {
    let mut c = Config::default();
    c.max_history = 0;
    c.add_history("q1".to_string(), "a1".to_string());
    assert_eq!(questions(&c), vec!["q1"]);
    c.add_history("q2".to_string(), "a2".to_string());
    assert_eq!(questions(&c), vec!["q2"]);
}

#[test]
fn add_history_over_capacity_drops_only_one() {
    let mut c = Config::default();
    c.max_history = 2;
    c.history = VecDeque::from(vec![item("a", "1"), item("b", "2"), item("c", "3")]);
    c.add_history("d".to_string(), "4".to_string());
    assert_eq!(questions(&c), vec!["b", "c", "d"]);
}

#[test]
fn clear_history_empties_and_keeps_settings() {
    let mut c = Config::default();
    c.max_tokens = Some(5);
    c.add_history("q".to_string(), "a".to_string());
    c.clear_history();
    assert!(c.get_history().is_empty());
    assert_eq!(c.max_tokens, Some(5));
    assert_eq!(c.max_history, 10);
}

#[test]
fn config_path_joins_file_name() {
    assert_eq!(get_config_path("/home/u/chat"), "/home/u/chat/config.toml");
    assert_eq!(get_config_path("/home/u/chat/"), "/home/u/chat/config.toml");
    assert_eq!(get_config_path(""), "config.toml");
}

#[test]
fn blank_line_flags_follow_previous_answer() {
    let h = VecDeque::from(vec![item("q1", "a1\n\n"), item("q2", "a2\n"), item("q3", "a3"), item("q4", "x")]);
    assert_eq!(blank_line_flags(&h), vec![true, false, true, true]);
    assert_eq!(blank_line_flags(&VecDeque::new()), Vec::<bool>::new());
}

#[test]
fn blank_line_flags_single_newline_is_not_blank() {
    let h = VecDeque::from(vec![item("q1", "\n"), item("q2", "")]);
    assert_eq!(blank_line_flags(&h), vec![true, true]);
}
