//! Conversation state of a chat actor: the bounded history window and the
//! rules for folding requests and streamed replies into it.

use vstd::prelude::*;

verus! {

/// Model used when none is configured.
pub const DEFAULT_MODEL_NAME: &'static str = "llama3.2";

/// Inference endpoint used when none is configured.
pub const DEFAULT_ENDPOINT: &'static str = "http://localhost:11434";

/// Number of history entries kept when none is configured.
pub const DEFAULT_MESSAGES_NUMBER_LIMIT: usize = 10;

/// Who authored a chat message.
#[derive(Clone, Copy, Debug, PartialEq, Eq, Structural)]
pub enum MessageRole {
    User,
    Assistant,
    System,
    Tool,
}

/// One entry of a conversation.
#[derive(Debug, PartialEq, Eq)]
pub struct ChatMessage {
    pub role: MessageRole,
    pub content: String,
}

impl Clone for ChatMessage {
    fn clone(&self) -> (r: Self)
        ensures
            r == *self,
    {
        ChatMessage { role: self.role, content: self.content.clone() }
    }
}

impl ChatMessage {
    /// A message authored by the model.
    pub fn assistant(content: String) -> (r: ChatMessage)
        ensures
            r == (ChatMessage { role: MessageRole::Assistant, content }),
    {
        ChatMessage { role: MessageRole::Assistant, content }
    }

    /// A message authored by the user.
    pub fn user(content: String) -> (r: ChatMessage)
        ensures
            r == (ChatMessage { role: MessageRole::User, content }),
    {
        ChatMessage { role: MessageRole::User, content }
    }

    /// A message that sets the scene for the model.
    pub fn system(content: String) -> (r: ChatMessage)
        ensures
            r == (ChatMessage { role: MessageRole::System, content }),
    {
        ChatMessage { role: MessageRole::System, content }
    }
}

/// A request to continue (or restart) a conversation.
#[derive(Debug)]
pub struct ChatMessages {
    pub messages: Vec<ChatMessage>,
    pub restart: bool,
    pub persist: bool,
}

/// One piece of a streamed model reply.
#[derive(Debug)]
pub struct ChatChunk {
    /// Text of the reply, present on the closing piece.
    pub message: Option<String>,
    /// Whether this piece closes the reply.
    pub done: bool,
}

/// A chat actor's persistable state.
#[derive(Debug)]
pub struct Chat {
    pub model: String,
    pub endpoint: String,
    pub messages_number_limit: usize,
    pub history: Vec<ChatMessage>,
}

/// The canonical text of the absolute URL that `text` denotes, or `None`
/// where it denotes none.
pub uninterp spec fn canonical_url(text: Seq<char>) -> Option<Seq<char>>;

/// Parses `text` with `url::Url::parse` and hands back the serialization of
/// the URL it found. Trusted: that the outcome is a function of the text
/// alone, which is all that `canonical_url` names.
#[verifier::external_body]
fn parse_url(text: &str) -> (r: Option<String>)
    ensures
        r.is_some() == canonical_url(text@).is_some(),
        r.is_some() ==> r.unwrap()@ == canonical_url(text@).unwrap(),
{
    match url::Url::parse(text) {
        Ok(parsed) => Some(String::from(parsed)),
        Err(_) => None,
    }
}

/// The last `limit` entries of `s` (all of it when it is shorter).
pub open spec fn window(s: Seq<ChatMessage>, limit: nat) -> Seq<ChatMessage> {
    if s.len() <= limit {
        s
    } else {
        s.subrange(s.len() - limit, s.len() as int)
    }
}

/// History after a request has been folded in: a restart empties it first,
/// and any new message brings the window down to `limit`.
pub open spec fn absorbed(
    history: Seq<ChatMessage>,
    messages: Seq<ChatMessage>,
    restart: bool,
    limit: nat,
) -> Seq<ChatMessage> {
    let base = if restart {
        Seq::<ChatMessage>::empty()
    } else {
        history
    };
    if messages.len() == 0 {
        base
    } else {
        window(base + messages, limit)
    }
}

/// History after `messages` were appended one at a time, the window
/// brought down to `limit` after each.
pub open spec fn fed(history: Seq<ChatMessage>, messages: Seq<ChatMessage>, limit: nat) -> Seq<
    ChatMessage,
>
    decreases messages.len(),
{
    if messages.len() == 0 {
        history
    } else {
        fed(window(history.push(messages.first()), limit), messages.drop_first(), limit)
    }
}

/// Windowing before more is appended changes nothing once the whole is
/// windowed again.
pub proof fn lemma_window_absorbs(x: Seq<ChatMessage>, y: Seq<ChatMessage>, limit: nat)
    ensures
        window(window(x, limit) + y, limit) == window(x + y, limit),
{
    assert(window(window(x, limit) + y, limit) =~= window(x + y, limit));
}

/// Appending messages one at a time, trimming after each, leaves the same
/// history as appending them all and trimming once.
pub proof fn lemma_fed_is_absorbed(
    history: Seq<ChatMessage>,
    messages: Seq<ChatMessage>,
    limit: nat,
)
    ensures
        fed(history, messages, limit) == absorbed(history, messages, false, limit),
    decreases messages.len(),
{
    if messages.len() > 0 {
        let first = messages.first();
        let rest = messages.drop_first();
        let next = window(history.push(first), limit);
        lemma_fed_is_absorbed(next, rest, limit);
        assert(history.push(first) + rest =~= history + messages);
        if rest.len() == 0 {
            assert(history.push(first) =~= history + messages);
        } else {
            lemma_window_absorbs(history.push(first), rest, limit);
        }
    }
}

/// `s` without its scene-setting messages, order kept.
pub open spec fn without_system(s: Seq<ChatMessage>) -> Seq<ChatMessage>
    decreases s.len(),
{
    if s.len() == 0 {
        s
    } else if s.last().role == MessageRole::System {
        without_system(s.drop_last())
    } else {
        without_system(s.drop_last()).push(s.last())
    }
}

/// History after one streamed piece: only a closing piece changes it, by
/// appending the model's message (if any) and, when persisting, dropping
/// scene-setting messages.
pub open spec fn settled(history: Seq<ChatMessage>, chunk: ChatChunk, persist: bool) -> Seq<
    ChatMessage,
> {
    if !chunk.done {
        history
    } else {
        let grown = match chunk.message {
            Some(content) => history.push(
                ChatMessage { role: MessageRole::Assistant, content },
            ),
            None => history,
        };
        if persist {
            without_system(grown)
        } else {
            grown
        }
    }
}

/// Copies `source` without its scene-setting messages.
fn strip_system(source: &Vec<ChatMessage>) -> (kept: Vec<ChatMessage>)
    ensures
        kept@ == without_system(source@),
{
    let mut kept: Vec<ChatMessage> = Vec::new();
    let mut i: usize = 0;
    while i < source.len()
        invariant
            i <= source.len(),
            kept@ == without_system(source@.subrange(0, i as int)),
        decreases source.len() - i,
    {
        assert(source@.subrange(0, i + 1).drop_last() =~= source@.subrange(0, i as int));
        if source[i].role != MessageRole::System {
            kept.push(source[i].clone());
        }
        i += 1;
    }
    assert(source@.subrange(0, i as int) =~= source@);
    kept
}

impl Default for Chat {
    fn default() -> (r: Self)
        ensures
            r.model@ == DEFAULT_MODEL_NAME@,
            r.endpoint@ == DEFAULT_ENDPOINT@,
            r.messages_number_limit == DEFAULT_MESSAGES_NUMBER_LIMIT,
            r.history@.len() == 0,
    {
        Chat {
            model: String::from_str(DEFAULT_MODEL_NAME),
            endpoint: String::from_str(DEFAULT_ENDPOINT),
            messages_number_limit: DEFAULT_MESSAGES_NUMBER_LIMIT,
            history: Vec::new(),
        }
    }
}

impl Chat {
    /// Points the actor at an already parsed endpoint; without one the actor
    /// is given up.
    pub fn point_at(self, parsed: Option<String>) -> (r: Option<Chat>)
        ensures
            parsed.is_none() <==> r.is_none(),
            parsed.is_some() ==> r.unwrap() == (Chat { endpoint: parsed.unwrap(), ..self }),
    {
        match parsed {
            Some(endpoint) => Some(Chat { endpoint, ..self }),
            None => None,
        }
    }

    /// Points the actor at the endpoint that `text` denotes, in canonical
    /// form; `None` where `text` is no absolute URL.
    pub fn with_endpoint(self, text: &str) -> (r: Option<Chat>)
        ensures
            canonical_url(text@).is_none() <==> r.is_none(),
            r.is_some() ==> {
                &&& r.unwrap().endpoint@ == canonical_url(text@).unwrap()
                &&& r.unwrap().model == self.model
                &&& r.unwrap().messages_number_limit == self.messages_number_limit
                &&& r.unwrap().history == self.history
            },
    {
        self.point_at(parse_url(text))
    }

    /// Folds a request into the history before the model is asked.
    pub fn absorb(&mut self, request: &ChatMessages)
        ensures
            final(self).history@ == absorbed(
                old(self).history@,
                request.messages@,
                request.restart,
                old(self).messages_number_limit as nat,
            ),
            final(self).model == old(self).model,
            final(self).endpoint == old(self).endpoint,
            final(self).messages_number_limit == old(self).messages_number_limit,
    {
        if request.restart {
            self.history.clear();
        }
        let ghost base = self.history@;
        let mut i: usize = 0;
        while i < request.messages.len()
            invariant
                i <= request.messages.len(),
                self.history@ == base + request.messages@.subrange(0, i as int),
                self.model == old(self).model,
                self.endpoint == old(self).endpoint,
                self.messages_number_limit == old(self).messages_number_limit,
            decreases request.messages.len() - i,
        {
            self.history.push(request.messages[i].clone());
            assert(self.history@ =~= base + request.messages@.subrange(0, i + 1));
            i += 1;
        }
        assert(request.messages@.subrange(0, i as int) =~= request.messages@);
        if request.messages.len() > 0 {
            self.trim();
        } else {
            assert(self.history@ =~= base);
        }
    }

    /// Brings the history down to its last `messages_number_limit` entries.
    pub fn trim(&mut self)
        ensures
            final(self).history@ == window(
                old(self).history@,
                old(self).messages_number_limit as nat,
            ),
            final(self).model == old(self).model,
            final(self).endpoint == old(self).endpoint,
            final(self).messages_number_limit == old(self).messages_number_limit,
    {
        let n = self.history.len();
        if n > self.messages_number_limit {
            let tail = self.history.split_off(n - self.messages_number_limit);
            self.history = tail;
        }
    }

    /// Folds one streamed piece of the model's reply into the history, after
    /// it has been passed on to the requester. Returns whether the state is
    /// to be saved now.
    pub fn settle(&mut self, chunk: &ChatChunk, persist: bool) -> (save: bool)
        ensures
            final(self).history@ == settled(old(self).history@, *chunk, persist),
            save == (chunk.done && persist),
            final(self).model == old(self).model,
            final(self).endpoint == old(self).endpoint,
            final(self).messages_number_limit == old(self).messages_number_limit,
    {
        if !chunk.done {
            return false;
        }
        match &chunk.message {
            Some(content) => {
                self.history.push(ChatMessage::assistant(content.clone()));
            },
            None => {},
        }
        if persist {
            let kept = strip_system(&self.history);
            self.history = kept;
        }
        persist
    }
}

} // verus!
