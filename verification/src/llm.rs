//! Messages requests (Anthropic-compatible) and the text of their replies.

use vstd::prelude::*;

verus! {

broadcast use vstd::string::group_string_axioms;

/// Who speaks a message.
#[derive(Debug, Clone, Copy, PartialEq, Eq, Structural)]
pub enum MessageRole {
    User,
    Assistant,
    System,
}

/// One message of a conversation.
#[derive(Debug, Clone)]
pub struct LlmMessage {
    pub role: MessageRole,
    pub content: String,
}

impl LlmMessage {
    /// A user message.
    pub fn user(content: String) -> (r: Self)
        ensures
            r.role == MessageRole::User,
            r.content == content,
    {
        LlmMessage { role: MessageRole::User, content }
    }
}

/// A messages request.
#[derive(Debug, Clone)]
pub struct LlmMessageRequest {
    pub model: String,
    pub max_tokens: u32,
    pub messages: Vec<LlmMessage>,
}

impl LlmMessageRequest {
    /// A request for up to 1024 tokens from `model` whose conversation is
    /// the single user message `prompt`.
    pub fn new(model: String, prompt: String) -> (r: Self)
        ensures
            r.model == model,
            r.max_tokens == 1024,
            r.messages@.len() == 1,
            r.messages@[0].role == MessageRole::User,
            r.messages@[0].content == prompt,
    {
        LlmMessageRequest { model, max_tokens: 1024, messages: vec![LlmMessage::user(prompt)] }
    }
}

/// One part of a reply's content.
#[derive(Debug)]
pub enum MessageContent {
    Text { text: String },
    Thinking { thinking: String },
    Other(serde_json::Value),
}

/// A reply to a messages request.
#[derive(Debug)]
pub struct LlmMessageResponse {
    pub id: String,
    pub role: String,
    pub model: String,
    pub content: Vec<MessageContent>,
    pub stop_reason: Option<String>,
    pub usage: Option<serde_json::Value>,
}

/// The text parts of `parts`, joined in order with nothing between them.
pub open spec fn joined_text(parts: Seq<MessageContent>) -> Seq<char>
    decreases parts.len(),
{
    if parts.len() == 0 {
        Seq::empty()
    } else {
        joined_text(parts.drop_last()) + match parts.last() {
            MessageContent::Text { text } => text@,
            _ => Seq::empty(),
        }
    }
}

impl LlmMessageResponse {
    /// The reply's text: its text parts joined in order; thinking and other
    /// parts are left out.
    pub fn text(&self) -> (r: String)
        ensures
            r@ == joined_text(self.content@),
            self.content@.len() == 1 ==> (self.content@[0] matches MessageContent::Text { text }
                ==> r@ == text@),
    {
        let mut out = String::new();
        let mut i: usize = 0;
        while i < self.content.len()
            invariant
                0 <= i <= self.content@.len(),
                out@ == joined_text(self.content@.take(i as int)),
            decreases self.content@.len() - i,
        {
            proof {
                assert(self.content@.take(i + 1).drop_last() == self.content@.take(i as int));
            }
            match &self.content[i] {
                MessageContent::Text { text } => {
                    out.append(text.as_str());
                },
                _ => {},
            }
            i = i + 1;
        }
        proof {
            assert(self.content@.take(self.content@.len() as int) == self.content@);
            if self.content@.len() == 1 {
                if let MessageContent::Text { text } = self.content@[0] {
                    lemma_single_part_text(text, self.content@[0]);
                    assert(self.content@ == seq![MessageContent::Text { text }]);
                }
            }
        }
        out
    }
}

/// The text of a reply splits along its parts: the text of two runs of
/// parts, one after the other, is the text of the first run followed by the
/// text of the second.
pub proof fn lemma_reply_text_concat(a: Seq<MessageContent>, b: Seq<MessageContent>)
    ensures
        joined_text(a + b) == joined_text(a) + joined_text(b),
    decreases b.len(),
{
    if b.len() == 0 {
        assert(a + b == a);
        assert(joined_text(a) + joined_text(b) == joined_text(a));
    } else {
        lemma_reply_text_concat(a, b.drop_last());
        assert((a + b).drop_last() == a + b.drop_last());
        assert((a + b).last() == b.last());
    }
}

/// What each single part adds to a reply's text: no parts give no text, a
/// text part gives exactly its text, and any other part gives none.
pub proof fn lemma_single_part_text(t: String, p: MessageContent)
    ensures
        joined_text(Seq::empty()) == Seq::<char>::empty(),
        joined_text(seq![MessageContent::Text { text: t }]) == t@,
        !(p is Text) ==> joined_text(seq![p]) == Seq::<char>::empty(),
{
    let s = seq![MessageContent::Text { text: t }];
    assert(s.drop_last() == Seq::<MessageContent>::empty());
    assert(Seq::<char>::empty() + t@ == t@);
    assert(seq![p].drop_last() == Seq::<MessageContent>::empty());
    assert(Seq::<char>::empty() + Seq::<char>::empty() == Seq::<char>::empty());
}

/// The text of a reply is the texts of its text parts, in order, each whole:
/// for any parts before and after, a text part `t` among them contributes
/// exactly `t` at its place, and a part of another kind contributes nothing.
pub proof fn lemma_reply_text_in_order(
    before: Seq<MessageContent>,
    t: String,
    p: MessageContent,
    after: Seq<MessageContent>,
)
    ensures
        joined_text(before + seq![MessageContent::Text { text: t }] + after) == joined_text(before)
            + t@ + joined_text(after),
        !(p is Text) ==> joined_text(before + seq![p] + after) == joined_text(before) + joined_text(
            after,
        ),
{
    lemma_single_part_text(t, p);
    lemma_reply_text_concat(before, seq![MessageContent::Text { text: t }]);
    lemma_reply_text_concat(before + seq![MessageContent::Text { text: t }], after);
    lemma_reply_text_concat(before, seq![p]);
    lemma_reply_text_concat(before + seq![p], after);
    assert(joined_text(before) + Seq::<char>::empty() == joined_text(before));
}

} // verus!
