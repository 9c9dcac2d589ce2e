use chat::bridge::{decode_chunk, Bridge, ChatError, ChatResponse, Choice, Message};

fn msg(role: &str, content: &str) -> Message {
    Message { role: role.to_string(), content: content.to_string() }
}

fn bridge() -> Bridge {
    Bridge::new("http://host/v1".to_string(), "tok".to_string(), "m".to_string())
}

#[test]
fn new_bridge_has_no_sampling_parameters() {
    let b = bridge();
    assert_eq!(b.api_base, "http://host/v1");
    assert_eq!(b.token, "tok");
    assert_eq!(b.model, "m");
    assert_eq!(b.max_tokens, None);
    assert_eq!(b.temperature, None);
    assert_eq!(b.top_p, None);
    assert_eq!(b.top_k, None);
    assert_eq!(b.frequency_penalty, None);
}

#[test]
fn builders_set_parameters() {
    let b = bridge()
        .with_max_tokens(100)
        .with_temperature(0.7f32.to_bits())
        .with_top_p(0.9f32.to_bits())
        .with_top_k(40)
        .with_frequency_penalty(0.25f32.to_bits());
    assert_eq!(b.max_tokens, Some(100));
    assert_eq!(b.temperature.map(f32::from_bits), Some(0.7));
    assert_eq!(b.top_p.map(f32::from_bits), Some(0.9));
    assert_eq!(b.top_k, Some(40));
    assert_eq!(b.frequency_penalty.map(f32::from_bits), Some(0.25));
    assert_eq!(b.model, "m");
}

#[test]
fn authorization_is_bearer_token() {
    assert_eq!(bridge().authorization(), "Bearer tok");
}

#[test]
fn user_request_single_message() {
    let b = bridge().with_top_k(3);
    let r = b.user_request("hello", true);
    assert_eq!(r.model, "m");
    assert_eq!(r.messages.len(), 1);
    assert_eq!(r.messages[0].role, "user");
    assert_eq!(r.messages[0].content, "hello");
    assert!(r.stream);
    assert_eq!(r.n, Some(1));
    assert_eq!(r.top_k, Some(3));
    assert_eq!(r.max_tokens, None);
    assert!(!b.user_request("hi", false).stream);
}

#[test]
fn history_request_copies_messages() {
    let b = bridge().with_max_tokens(8);
    let msgs = vec![msg("user", "q"), msg("assistant", "a"), msg("user", "q2")];
    let r = b.history_request(&msgs);
    assert!(!r.stream);
    assert_eq!(r.n, Some(1));
    assert_eq!(r.max_tokens, Some(8));
    let got: Vec<(String, String)> = r.messages.iter().map(|m| (m.role.clone(), m.content.clone())).collect();
    let want: Vec<(String, String)> = msgs.iter().map(|m| (m.role.clone(), m.content.clone())).collect();
    assert_eq!(got, want);
    assert!(b.history_request(&[]).messages.is_empty());
}

#[test]
fn first_content_takes_first_choice() {
    let resp = ChatResponse {
        choices: vec![Choice { message: msg("assistant", "one") }, Choice { message: msg("assistant", "two") }],
    };
    assert_eq!(resp.first_content(), Ok("one".to_string()));
}

#[test]
fn first_content_without_choices() {
    let resp = ChatResponse { choices: vec![] };
    assert_eq!(resp.first_content(), Err(ChatError::NoChoices));
}

#[test]
fn decode_chunk_utf8() {
    assert_eq!(decode_chunk(b"data: hi".to_vec()), Ok("data: hi".to_string()));
    assert_eq!(decode_chunk("你好".as_bytes().to_vec()), Ok("你好".to_string()));
    assert_eq!(decode_chunk(Vec::new()), Ok(String::new()));
}

#[test]
fn decode_chunk_rejects_invalid_utf8() {
    assert_eq!(decode_chunk(vec![0xff, 0x41]), Err(ChatError::InvalidUtf8));
    assert_eq!(decode_chunk(vec![0xe4, 0xbd]), Err(ChatError::InvalidUtf8));
}

#[test]
fn first_content_single_choice() {
    let resp = ChatResponse { choices: vec![Choice { message: msg("assistant", "") }] };
    assert_eq!(resp.first_content(), Ok(String::new()));
}
