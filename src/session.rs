use crate::bridge::{request_of, Bridge, ChatRequest, Message};
use crate::config::{history_after_add, Config, HistoryItem};
use vstd::prelude::*;
use vstd::string::*;

verus! {

/// Reserved for prompt templates; holds nothing yet.
pub struct PromptManager {}

/// Whether `m` is a turn by `role` that says `content`.
pub open spec fn is_turn(m: Message, role: Seq<char>, content: Seq<char>) -> bool {
    m.role@ == role && m.content@ == content
}

/// Whether `msgs` replays `history` as alternating user and assistant turns
/// and then asks `message`.
pub open spec fn conversation_for(
    msgs: Seq<Message>,
    history: Seq<HistoryItem>,
    message: Seq<char>,
) -> bool {
    &&& msgs.len() == 2 * history.len() + 1
    &&& forall|i: int|
        0 <= i < history.len() ==> is_turn(
            #[trigger] msgs[2 * i],
            "user"@,
            history[i].question@,
        ) && is_turn(msgs[2 * i + 1], "assistant"@, history[i].answer@)
    &&& is_turn(msgs[2 * history.len() as int], "user"@, message)
}

/// Whether `b` is the bridge a configuration calls for: its endpoint,
/// token and model, with no sampling parameters set.
pub open spec fn bridge_for(b: Bridge, c: Config) -> bool {
    &&& b.api_base@ == c.api_base@
    &&& b.token@ == c.token@
    &&& b.model@ == c.model@
    &&& b.max_tokens is None
    &&& b.temperature is None
    &&& b.top_p is None
    &&& b.top_k is None
    &&& b.frequency_penalty is None
}

fn bridge_from(config: &Config) -> (r: Bridge)
    ensures
        bridge_for(r, *config),
{
    Bridge::new(config.api_base.clone(), config.token.clone(), config.model.clone())
}

/// A chat session: the settings with their history, and the bridge they
/// configure.
pub struct Core {
    pub bridge: Bridge,
    pub config: Config,
}

impl Core {
    pub fn new(config: Config) -> (r: Core)
        ensures
            r.config == config,
            bridge_for(r.bridge, config),
    {
        let bridge = bridge_from(&config);
        Core { bridge, config }
    }

    /// The conversation to send for `message`: every recorded exchange as a
    /// user turn and an assistant turn, oldest first, then `message`.
    pub fn history_messages(&self, message: &str) -> (r: Vec<Message>)
        requires
            2 * self.config.history@.len() + 1 <= usize::MAX,
        ensures
            conversation_for(r@, self.config.history@, message@),
    {
        let history = self.config.get_history();
        let mut msgs: Vec<Message> = Vec::new();
        let mut i: usize = 0;
        while i < history.len()
            invariant
                i <= history@.len(),
                history@ == self.config.history@,
                2 * history@.len() + 1 <= usize::MAX,
                msgs@.len() == 2 * i,
                forall|j: int|
                    0 <= j < i ==> is_turn(
                        #[trigger] msgs@[2 * j],
                        "user"@,
                        history@[j].question@,
                    ) && is_turn(msgs@[2 * j + 1], "assistant"@, history@[j].answer@),
            decreases history@.len() - i,
        {
            let item = &history[i];
            msgs.push(Message { role: String::from_str("user"), content: item.question.clone() });
            msgs.push(
                Message { role: String::from_str("assistant"), content: item.answer.clone() },
            );
            i = i + 1;
        }
        let ghost before = msgs@;
        msgs.push(Message { role: String::from_str("user"), content: String::from_str(message) });
        assert forall|j: int| 0 <= j < history@.len() implies is_turn(
            #[trigger] msgs@[2 * j],
            "user"@,
            history@[j].question@,
        ) && is_turn(msgs@[2 * j + 1], "assistant"@, history@[j].answer@) by {
            assert(msgs@[2 * j] == before[2 * j]);
            assert(msgs@[2 * j + 1] == before[2 * j + 1]);
        }
        msgs
    }

    /// The request that asks `message` in the context of the recorded
    /// history.
    pub fn chat_request(&self, message: &str) -> (r: ChatRequest)
        requires
            2 * self.config.history@.len() + 1 <= usize::MAX,
        ensures
            conversation_for(r.messages@, self.config.history@, message@),
            request_of(self.bridge, r.messages@, false, r),
    {
        let msgs = self.history_messages(message);
        self.bridge.request(msgs, false)
    }

    /// Records a finished exchange in the history.
    pub fn record_chat(&mut self, question: String, answer: String)
        ensures
            final(self).config.history@ == history_after_add(
                old(self).config.history@,
                old(self).config.max_history as nat,
                HistoryItem { question, answer },
            ),
            final(self).config == (Config {
                history: final(self).config.history,
                ..old(self).config
            }),
            final(self).bridge == old(self).bridge,
    {
        self.config.add_history(question, answer);
    }

    pub fn clear_history(&mut self)
        ensures
            final(self).config.history@ == Seq::<HistoryItem>::empty(),
            final(self).config == (Config {
                history: final(self).config.history,
                ..old(self).config
            }),
            final(self).bridge == old(self).bridge,
    {
        self.config.clear_history();
    }

    pub fn get_config(&self) -> (r: &Config)
        ensures
            *r == self.config,
    {
        &self.config
    }

    /// Replaces the settings and rebuilds the bridge from them.
    pub fn update_config(&mut self, new_config: Config)
        ensures
            final(self).config == new_config,
            bridge_for(final(self).bridge, new_config),
    {
        self.bridge = bridge_from(&new_config);
        self.config = new_config;
    }
}

} // verus!
