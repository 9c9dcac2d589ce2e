use vstd::prelude::*;
use vstd::string::*;
use vstd::utf8::*;

verus! {

/// A service that answers one message at a time.
pub trait LLMProvider {
    fn send_message(&self, message: &str) -> Result<String, String>;
}

/// One turn of a conversation: who speaks (`user` or `assistant`) and what
/// is said.
pub struct Message {
    pub role: String,
    pub content: String,
}

impl Clone for Message {
    fn clone(&self) -> (r: Message)
        ensures
            r.role@ == self.role@,
            r.content@ == self.content@,
    {
        Message { role: self.role.clone(), content: self.content.clone() }
    }
}

/// Whether two message lists say the same thing, turn by turn.
pub open spec fn same_messages(a: Seq<Message>, b: Seq<Message>) -> bool {
    &&& a.len() == b.len()
    &&& forall|i: int|
        0 <= i < a.len() ==> (#[trigger] a[i]).role@ == b[i].role@ && a[i].content@
            == b[i].content@
}

/// The body of a chat-completion request. The sampling parameters
/// `temperature`, `top_p` and `frequency_penalty` are IEEE 754
/// single-precision bit patterns.
pub struct ChatRequest {
    pub model: String,
    pub messages: Vec<Message>,
    pub stream: bool,
    pub max_tokens: Option<u32>,
    pub temperature: Option<u32>,
    pub top_p: Option<u32>,
    pub top_k: Option<u32>,
    pub frequency_penalty: Option<u32>,
    pub n: Option<u32>,
}

/// A completed chat reply: the candidate answers the service produced.
pub struct ChatResponse {
    pub choices: Vec<Choice>,
}

pub struct Choice {
    pub message: Message,
}

/// Why a reply could not be read.
#[derive(PartialEq, Eq, Structural, Clone, Copy, Debug)]
pub enum ChatError {
    NoChoices,
    InvalidUtf8,
}

impl ChatResponse {
    /// The text of the first candidate answer.
    pub fn first_content(&self) -> (r: Result<String, ChatError>)
        ensures
            self.choices@.len() == 0 <==> r == Err::<String, ChatError>(ChatError::NoChoices),
            self.choices@.len() > 0 <==> r is Ok,
            r matches Ok(c) ==> c@ == self.choices@[0].message.content@,
    {
        if self.choices.len() == 0 {
            Err(ChatError::NoChoices)
        } else {
            Ok(self.choices[0].message.content.clone())
        }
    }
}

/// Relies on String::from_utf8: it succeeds exactly on well-formed UTF-8 and
/// then holds the characters the bytes encode.
#[verifier::external_body]
fn string_from_utf8(bytes: Vec<u8>) -> (r: Option<String>)
    ensures
        r is Some <==> valid_utf8(bytes@),
        r matches Some(s) ==> s@ == decode_utf8(bytes@),
{
    String::from_utf8(bytes).ok()
}

/// Reads one chunk of a streamed reply as text.
pub fn decode_chunk(bytes: Vec<u8>) -> (r: Result<String, ChatError>)
    ensures
        r is Ok <==> valid_utf8(bytes@),
        r matches Ok(s) ==> s@ == decode_utf8(bytes@),
        r matches Err(e) ==> e == ChatError::InvalidUtf8,
{
    match string_from_utf8(bytes) {
        Some(s) => Ok(s),
        None => Err(ChatError::InvalidUtf8),
    }
}

/// What a chat-completion endpoint is asked: where, with which credentials,
/// which model, and the optional sampling parameters (floating-point ones as
/// IEEE 754 single-precision bit patterns).
pub struct Bridge {
    pub api_base: String,
    pub token: String,
    pub model: String,
    pub max_tokens: Option<u32>,
    pub temperature: Option<u32>,
    pub top_p: Option<u32>,
    pub top_k: Option<u32>,
    pub frequency_penalty: Option<u32>,
}

/// The request a bridge makes for the given messages.
pub open spec fn request_of(b: Bridge, messages: Seq<Message>, stream: bool, r: ChatRequest) -> bool {
    &&& r.model@ == b.model@
    &&& same_messages(r.messages@, messages)
    &&& r.stream == stream
    &&& r.max_tokens == b.max_tokens
    &&& r.temperature == b.temperature
    &&& r.top_p == b.top_p
    &&& r.top_k == b.top_k
    &&& r.frequency_penalty == b.frequency_penalty
    &&& r.n == Some(1u32)
}

impl Bridge {
    pub fn new(api_base: String, token: String, model: String) -> (r: Bridge)
        ensures
            r == (Bridge {
                api_base,
                token,
                model,
                max_tokens: None,
                temperature: None,
                top_p: None,
                top_k: None,
                frequency_penalty: None,
            }),
    {
        Bridge {
            api_base,
            token,
            model,
            max_tokens: None,
            temperature: None,
            top_p: None,
            top_k: None,
            frequency_penalty: None,
        }
    }

    pub fn with_max_tokens(self, max_tokens: u32) -> (r: Bridge)
        ensures
            r == (Bridge { max_tokens: Some(max_tokens), ..self }),
    {
        Bridge { max_tokens: Some(max_tokens), ..self }
    }

    /// `temperature` is an IEEE 754 single-precision bit pattern.
    pub fn with_temperature(self, temperature: u32) -> (r: Bridge)
        ensures
            r == (Bridge { temperature: Some(temperature), ..self }),
    {
        Bridge { temperature: Some(temperature), ..self }
    }

    /// `top_p` is an IEEE 754 single-precision bit pattern.
    pub fn with_top_p(self, top_p: u32) -> (r: Bridge)
        ensures
            r == (Bridge { top_p: Some(top_p), ..self }),
    {
        Bridge { top_p: Some(top_p), ..self }
    }

    pub fn with_top_k(self, top_k: u32) -> (r: Bridge)
        ensures
            r == (Bridge { top_k: Some(top_k), ..self }),
    {
        Bridge { top_k: Some(top_k), ..self }
    }

    /// `frequency_penalty` is an IEEE 754 single-precision bit pattern.
    pub fn with_frequency_penalty(self, frequency_penalty: u32) -> (r: Bridge)
        ensures
            r == (Bridge { frequency_penalty: Some(frequency_penalty), ..self }),
    {
        Bridge { frequency_penalty: Some(frequency_penalty), ..self }
    }

    /// The value of the `Authorization` header: the token as a bearer
    /// credential.
    pub fn authorization(&self) -> (r: String)
        ensures
            r@ == "Bearer "@ + self.token@,
    {
        let mut header = String::from_str("Bearer ");
        header.append(self.token.as_str());
        header
    }

    /// The request body for a whole conversation.
    pub fn request(&self, messages: Vec<Message>, stream: bool) -> (r: ChatRequest)
        ensures
            request_of(*self, messages@, stream, r),
            r.messages@ == messages@,
    {
        ChatRequest {
            model: self.model.clone(),
            messages,
            stream,
            max_tokens: self.max_tokens,
            temperature: self.temperature,
            top_p: self.top_p,
            top_k: self.top_k,
            frequency_penalty: self.frequency_penalty,
            n: Some(1),
        }
    }

    /// The request body for a single user message, streamed or not.
    pub fn user_request(&self, message: &str, stream: bool) -> (r: ChatRequest)
        ensures
            r.messages@.len() == 1,
            r.messages@[0].role@ == "user"@,
            r.messages@[0].content@ == message@,
            request_of(*self, r.messages@, stream, r),
    {
        let mut messages: Vec<Message> = Vec::new();
        messages.push(Message { role: String::from_str("user"), content: String::from_str(message) });
        self.request(messages, stream)
    }

    /// The request body, not streamed, for a conversation so far.
    pub fn history_request(&self, messages: &[Message]) -> (r: ChatRequest)
        ensures
            request_of(*self, messages@, false, r),
    {
        let mut copy: Vec<Message> = Vec::new();
        let mut i: usize = 0;
        while i < messages.len()
            invariant
                i <= messages@.len(),
                same_messages(copy@, messages@.subrange(0, i as int)),
            decreases messages@.len() - i,
        {
            copy.push(messages[i].clone());
            i = i + 1;
        }
        assert(messages@.subrange(0, messages@.len() as int) =~= messages@);
        self.request(copy, false)
    }
}

} // verus!
