use vstd::prelude::*;

use crate::app_error::{AppError, AppErrorKind};
use crate::clock::{new_uuid_v4, now_rfc3339};
use crate::entities::{Conversation, ConversationMessage};
use crate::text::{append_str, chars_of, concat3, join_spec, owned, str_eq, string_of, utc_rfc3339_shape};

verus! {

// ---------------------------------------------------------------------------
// Views
// ---------------------------------------------------------------------------

/// The content of a message.
pub struct MessageView {
    pub sender: Seq<char>,
    pub content: Seq<char>,
    pub time: Seq<char>,
}

/// The content of a conversation.
pub struct ConversationView {
    pub messages: Seq<MessageView>,
    pub last_interaction: Seq<char>,
}

pub open spec fn message_view(m: ConversationMessage) -> MessageView {
    MessageView { sender: m.sender@, content: m.content@, time: m.time@ }
}

pub open spec fn messages_view(ms: Seq<ConversationMessage>) -> Seq<MessageView> {
    ms.map_values(|m: ConversationMessage| message_view(m))
}

pub open spec fn conversation_view(c: Conversation) -> ConversationView {
    ConversationView { messages: messages_view(c.messages@), last_interaction: c.last_interaction@ }
}

// ---------------------------------------------------------------------------
// History given to the chat provider
// ---------------------------------------------------------------------------

/// How many of the latest messages the history holds.
pub open spec fn history_window() -> nat {
    10
}

/// The latest messages of `ms`, at most [`history_window`] of them, in order.
pub open spec fn recent(ms: Seq<MessageView>) -> Seq<MessageView> {
    if ms.len() <= history_window() {
        ms
    } else {
        ms.skip(ms.len() - history_window())
    }
}

/// One message as it appears in the history.
pub open spec fn history_entry(m: MessageView) -> Seq<char> {
    "-----\nTime: "@ + m.time + "\nRole: "@ + m.sender + "\nMessage: "@ + m.content
}

/// The history of a conversation whose messages are `ms`: its latest messages,
/// one entry each, joined by line breaks.
pub open spec fn history_text(ms: Seq<MessageView>) -> Seq<char> {
    join_spec(recent(ms).map_values(|m: MessageView| history_entry(m)), "\n"@)
}

/// The history given to the chat provider holds the latest messages of the
/// conversation in their order: all of them when there are at most ten,
/// otherwise the last ten; so it always ends with the newest message.
pub proof fn law_history_holds_the_latest_messages(ms: Seq<MessageView>)
    ensures
        recent(ms).len() == if ms.len() <= history_window() {
            ms.len()
        } else {
            history_window()
        },
        recent(ms) == ms.subrange(ms.len() - recent(ms).len(), ms.len() as int),
        ms.len() > 0 ==> recent(ms).last() == ms.last(),
{
    if ms.len() <= history_window() {
        assert(ms.subrange(0, ms.len() as int) == ms);
    }
}

/// The history handed to the chat provider for a turn ends with the turn's new
/// message, shown with its time, its sender and its text.
pub proof fn law_history_ends_with_the_new_message(previous: Seq<MessageView>, m: MessageView)
    ensures
        exists|before: Seq<char>|
            history_text(previous.push(m)) == before + ("-----\nTime: "@ + m.time + "\nRole: "@
                + m.sender + "\nMessage: "@ + m.content),
{
    let ms = previous.push(m);
    law_history_holds_the_latest_messages(ms);
    let rec = recent(ms);
    let parts = rec.map_values(|x: MessageView| history_entry(x));
    assert(parts.last() == history_entry(m));
    if parts.len() == 1 {
        assert(history_text(ms) == Seq::<char>::empty() + history_entry(m));
    } else {
        let before = join_spec(parts.drop_last(), "\n"@) + "\n"@;
        assert(history_text(ms) == before + history_entry(m));
    }
}

fn push_entry(out: &mut String, m: &ConversationMessage)
    ensures
        final(out)@ == old(out)@ + history_entry(message_view(*m)),
{
    append_str(out, "-----\nTime: ");
    append_str(out, m.time.as_str());
    append_str(out, "\nRole: ");
    append_str(out, m.sender.as_str());
    append_str(out, "\nMessage: ");
    append_str(out, m.content.as_str());
}

/// The history of a conversation whose messages are `messages`: the latest ten
/// at most, each as `-----` then its time, role and text on their own lines,
/// joined by line breaks.
pub fn build_conversation_history(messages: &Vec<ConversationMessage>) -> (r: String)
    ensures
        r@ == history_text(messages_view(messages@)),
{
    let n = messages.len();
    let start: usize = if n > 10 {
        n - 10
    } else {
        0
    };
    let ghost all = messages_view(messages@);
    let ghost rec = recent(all);
    let ghost entries = rec.map_values(|m: MessageView| history_entry(m));
    assert(rec == all.subrange(start as int, n as int));
    let mut out = String::new();
    let mut i: usize = start;
    while i < n
        invariant
            n == messages.len(),
            start <= i <= n,
            all == messages_view(messages@),
            rec == all.subrange(start as int, n as int),
            entries == rec.map_values(|m: MessageView| history_entry(m)),
            out@ == join_spec(entries.take(i - start), "\n"@),
        decreases n - i,
    {
        let ghost before = out@;
        if i > start {
            append_str(&mut out, "\n");
        }
        push_entry(&mut out, &messages[i]);
        proof {
            let k = (i - start) as int;
            assert(entries.take(k + 1).drop_last() == entries.take(k));
            assert(entries.take(k + 1).last() == history_entry(message_view(messages@[i as int])));
            if k == 0 {
                assert(entries.take(1) == seq![entries[0]]);
            }
        }
        i = i + 1;
    }
    assert(entries.take(n - start) == entries);
    out
}

// ---------------------------------------------------------------------------
// The store of conversations
// ---------------------------------------------------------------------------

/// The conversations in memory, each under its identifier.
pub struct ConversationStore {
    conversations: Vec<Conversation>,
}

impl ConversationStore {
    #[verifier::type_invariant]
    spec fn unique_ids(self) -> bool {
        forall|i: int, j: int|
            0 <= i < self.conversations@.len() && 0 <= j < self.conversations@.len() && i != j
                ==> self.conversations@[i].id@ != self.conversations@[j].id@
    }

    spec fn has_id(self, k: Seq<char>) -> bool {
        exists|i: int| 0 <= i < self.conversations@.len() && #[trigger] self.conversations@[i].id@ == k
    }

    spec fn index_of(self, k: Seq<char>) -> int {
        choose|i: int| 0 <= i < self.conversations@.len() && #[trigger] self.conversations@[i].id@ == k
    }

    proof fn lemma_index_of(self, i: int)
        requires
            self.unique_ids(),
            0 <= i < self.conversations@.len(),
        ensures
            self.has_id(self.conversations@[i].id@),
            self.index_of(self.conversations@[i].id@) == i,
    {
        let k = self.conversations@[i].id@;
        assert(self.conversations@[i].id@ == k);
        let j = self.index_of(k);
        assert(0 <= j < self.conversations@.len() && self.conversations@[j].id@ == k);
    }
}

/// `after` is `before` with one more conversation, stored under `id`, which no
/// conversation of `before` had: nothing stored is replaced.
pub open spec fn starts_new_conversation(
    before: Map<Seq<char>, ConversationView>,
    after: Map<Seq<char>, ConversationView>,
    id: Seq<char>,
) -> bool {
    &&& !before.contains_key(id)
    &&& after.contains_key(id)
    &&& after == before.insert(id, after[id])
}

/// Starting new conversations never replaces a stored one: after two new
/// conversations are started one after the other, their identifiers differ,
/// both are stored, the first one as it was left, and every conversation stored
/// before them is kept unchanged.
pub proof fn law_new_conversations_never_replace(
    s0: Map<Seq<char>, ConversationView>,
    s1: Map<Seq<char>, ConversationView>,
    s2: Map<Seq<char>, ConversationView>,
    id1: Seq<char>,
    id2: Seq<char>,
)
    requires
        starts_new_conversation(s0, s1, id1),
        starts_new_conversation(s1, s2, id2),
    ensures
        id1 != id2,
        s2.contains_key(id1) && s2[id1] == s1[id1],
        s2.contains_key(id2),
        forall|k: Seq<char>| s0.contains_key(k) ==> s2.contains_key(k) && #[trigger] s2[k] == s0[k],
        s2.dom() == s0.dom().insert(id1).insert(id2),
{
    assert(s1.contains_key(id1));
    assert(s2.dom() =~= s0.dom().insert(id1).insert(id2));
}

impl View for ConversationStore {
    type V = Map<Seq<char>, ConversationView>;

    closed spec fn view(&self) -> Map<Seq<char>, ConversationView> {
        Map::new(
            |k: Seq<char>| self.has_id(k),
            |k: Seq<char>| conversation_view(self.conversations@[self.index_of(k)]),
        )
    }
}

/// The start of a chat turn: the conversation it belongs to, when the user's
/// message was recorded, and the history to answer from.
pub struct TurnStart {
    pub conversation_id: String,
    pub message_time: String,
    pub history: String,
}

/// What the user sends in a chat turn.
pub struct ChatConversationInput {
    pub id: Option<String>,
    pub content: String,
}

/// What a chat provider answers: the text, and the category it inferred.
pub struct ChatProviderResponse {
    pub content: String,
    pub category: String,
}

/// What a chat turn answers with.
pub struct ChatConversationResult {
    pub id: String,
    pub content: String,
    pub category: String,
    pub time: String,
}

impl ConversationStore {
    /// An empty store.
    pub fn new() -> (r: ConversationStore)
        ensures
            r@ == Map::<Seq<char>, ConversationView>::empty(),
    {
        let r = ConversationStore { conversations: Vec::new() };
        assert(r@ =~= Map::<Seq<char>, ConversationView>::empty());
        r
    }

    fn find(&self, id: &str) -> (r: Option<usize>)
        ensures
            match r {
                Some(i) => i < self.conversations@.len() && self.conversations@[i as int].id@
                    == id@,
                None => !self.has_id(id@),
            },
    {
        let mut i: usize = 0;
        while i < self.conversations.len()
            invariant
                i <= self.conversations@.len(),
                forall|j: int| 0 <= j < i ==> self.conversations@[j].id@ != id@,
            decreases self.conversations.len() - i,
        {
            if str_eq(self.conversations[i].id.as_str(), id) {
                return Some(i);
            }
            i = i + 1;
        }
        None
    }

    /// Whether a conversation is stored under `id`.
    pub fn contains(&self, id: &str) -> (r: bool)
        ensures
            r == self@.contains_key(id@),
    {
        self.find(id).is_some()
    }

    /// The number of messages of the conversation stored under `id`, if any.
    pub fn message_count(&self, id: &str) -> (r: Option<usize>)
        ensures
            match r {
                Some(n) => self@.contains_key(id@) && n == self@[id@].messages.len(),
                None => !self@.contains_key(id@),
            },
    {
        proof {
            use_type_invariant(self);
        }
        match self.find(id) {
            Some(i) => {
                proof {
                    self.lemma_index_of(i as int);
                }
                Some(self.conversations[i].messages.len())
            },
            None => None,
        }
    }

    /// Stores `c`, replacing the conversation with the same identifier if any.
    fn put(&mut self, c: Conversation)
        ensures
            final(self)@ == old(self)@.insert(c.id@, conversation_view(c)),
    {
        proof {
            use_type_invariant(&*self);
        }
        let ghost old_self = *self;
        match self.find(c.id.as_str()) {
            Some(i) => {
                let ghost k = c.id@;
                let mut v: Vec<Conversation> = Vec::new();
                std::mem::swap(&mut v, &mut self.conversations);
                v.set(i, c);
                proof {
                    assert forall|a: int, b: int|
                        0 <= a < v@.len() && 0 <= b < v@.len() && a != b implies v@[a].id@
                        != v@[b].id@ by {
                        assert(old_self.conversations@[a].id@ == v@[a].id@);
                        assert(old_self.conversations@[b].id@ == v@[b].id@);
                    }
                }
                self.conversations = v;
                proof {
                    assert forall|a: int, b: int|
                        0 <= a < self.conversations@.len() && 0 <= b < self.conversations@.len()
                            && a != b implies self.conversations@[a].id@
                        != self.conversations@[b].id@ by {
                        assert(old_self.conversations@[a].id@ == self.conversations@[a].id@);
                        assert(old_self.conversations@[b].id@ == self.conversations@[b].id@);
                    }
                    assert forall|q: Seq<char>| #[trigger] self.has_id(q) == old_self.has_id(q) by {
                        if self.has_id(q) {
                            let w = choose|w: int|
                                0 <= w < self.conversations@.len()
                                    && #[trigger] self.conversations@[w].id@ == q;
                            assert(old_self.conversations@[w].id@ == q);
                        }
                        if old_self.has_id(q) {
                            let w = choose|w: int|
                                0 <= w < old_self.conversations@.len()
                                    && #[trigger] old_self.conversations@[w].id@ == q;
                            assert(self.conversations@[w].id@ == q);
                        }
                    }
                    assert forall|q: Seq<char>| self.has_id(q) && q != k implies #[trigger] self.index_of(q)
                        == old_self.index_of(q) by {
                        old_self.lemma_index_of(old_self.index_of(q));
                        let w = old_self.index_of(q);
                        assert(w != i);
                        assert(self.conversations@[w].id@ == q);
                        self.lemma_index_of(w);
                    }
                    self.lemma_index_of(i as int);
                    assert(self@ =~= old_self@.insert(k, conversation_view(c)));
                }
            },
            None => {
                let ghost k = c.id@;
                let ghost n = self.conversations@.len();
                let mut v: Vec<Conversation> = Vec::new();
                std::mem::swap(&mut v, &mut self.conversations);
                v.push(c);
                proof {
                    assert forall|a: int, b: int|
                        0 <= a < v@.len() && 0 <= b < v@.len() && a != b implies v@[a].id@
                        != v@[b].id@ by {
                        if a < n && b < n {
                            assert(old_self.conversations@[a].id@ == v@[a].id@);
                            assert(old_self.conversations@[b].id@ == v@[b].id@);
                        } else if a < n {
                            assert(old_self.conversations@[a].id@ == v@[a].id@);
                        } else {
                            assert(old_self.conversations@[b].id@ == v@[b].id@);
                        }
                    }
                }
                self.conversations = v;
                proof {
                    assert forall|a: int, b: int|
                        0 <= a < self.conversations@.len() && 0 <= b < self.conversations@.len()
                            && a != b implies self.conversations@[a].id@
                        != self.conversations@[b].id@ by {
                        if a < n && b < n {
                            assert(old_self.conversations@[a].id@ == self.conversations@[a].id@);
                            assert(old_self.conversations@[b].id@ == self.conversations@[b].id@);
                        } else if a < n {
                            assert(old_self.conversations@[a].id@ == self.conversations@[a].id@);
                        } else {
                            assert(old_self.conversations@[b].id@ == self.conversations@[b].id@);
                        }
                    }
                    assert forall|q: Seq<char>| #[trigger] self.has_id(q) == (old_self.has_id(q) || q
                        == k) by {
                        if self.has_id(q) {
                            let w = choose|w: int|
                                0 <= w < self.conversations@.len()
                                    && #[trigger] self.conversations@[w].id@ == q;
                            if w < n {
                                assert(old_self.conversations@[w].id@ == q);
                            }
                        }
                        if old_self.has_id(q) {
                            let w = choose|w: int|
                                0 <= w < old_self.conversations@.len()
                                    && #[trigger] old_self.conversations@[w].id@ == q;
                            assert(self.conversations@[w].id@ == q);
                        }
                        if q == k {
                            assert(self.conversations@[n as int].id@ == q);
                        }
                    }
                    assert forall|q: Seq<char>| old_self.has_id(q) implies #[trigger] self.index_of(q)
                        == old_self.index_of(q) by {
                        old_self.lemma_index_of(old_self.index_of(q));
                        let w = old_self.index_of(q);
                        assert(self.conversations@[w].id@ == q);
                        self.lemma_index_of(w);
                    }
                    self.lemma_index_of(n as int);
                    assert(self@ =~= old_self@.insert(k, conversation_view(c)));
                }
            },
        }
    }

    /// Removes and returns the conversation stored under `id`, if any.
    fn take(&mut self, id: &str) -> (r: Option<Conversation>)
        ensures
            match r {
                Some(c) => {
                    &&& old(self)@.contains_key(id@)
                    &&& c.id@ == id@
                    &&& conversation_view(c) == old(self)@[id@]
                    &&& final(self)@ == old(self)@.remove(id@)
                },
                None => !old(self)@.contains_key(id@) && final(self)@ == old(self)@,
            },
    {
        proof {
            use_type_invariant(&*self);
        }
        let ghost old_self = *self;
        match self.find(id) {
            Some(i) => {
                proof {
                    old_self.lemma_index_of(i as int);
                }
                let mut v: Vec<Conversation> = Vec::new();
                std::mem::swap(&mut v, &mut self.conversations);
                let c = v.remove(i);
                proof {
                    assert forall|j: int| 0 <= j < v@.len() implies #[trigger] v@[j]
                        == old_self.conversations@[if j < i {
                        j
                    } else {
                        j + 1
                    }] by {}
                    assert forall|a: int, b: int|
                        0 <= a < v@.len() && 0 <= b < v@.len() && a != b implies v@[a].id@
                        != v@[b].id@ by {
                        let a2 = if a < i {
                            a
                        } else {
                            a + 1
                        };
                        let b2 = if b < i {
                            b
                        } else {
                            b + 1
                        };
                        assert(v@[a] == old_self.conversations@[a2]);
                        assert(v@[b] == old_self.conversations@[b2]);
                    }
                }
                self.conversations = v;
                proof {
                    let n = old_self.conversations@.len();
                    assert forall|j: int| 0 <= j < self.conversations@.len() implies #[trigger] self.conversations@[j]
                        == old_self.conversations@[if j < i {
                        j
                    } else {
                        j + 1
                    }] by {}
                    assert forall|a: int, b: int|
                        0 <= a < self.conversations@.len() && 0 <= b < self.conversations@.len()
                            && a != b implies self.conversations@[a].id@
                        != self.conversations@[b].id@ by {
                        let a2 = if a < i {
                            a
                        } else {
                            a + 1
                        };
                        let b2 = if b < i {
                            b
                        } else {
                            b + 1
                        };
                        assert(self.conversations@[a] == old_self.conversations@[a2]);
                        assert(self.conversations@[b] == old_self.conversations@[b2]);
                    }
                    assert forall|q: Seq<char>| #[trigger] self.has_id(q) == (old_self.has_id(q) && q
                        != id@) by {
                        if self.has_id(q) {
                            let w = choose|w: int|
                                0 <= w < self.conversations@.len()
                                    && #[trigger] self.conversations@[w].id@ == q;
                            let w2 = if w < i {
                                w
                            } else {
                                w + 1
                            };
                            assert(self.conversations@[w] == old_self.conversations@[w2]);
                            assert(old_self.conversations@[w2].id@ == q);
                            assert(w2 != i);
                        }
                        if old_self.has_id(q) && q != id@ {
                            let w = choose|w: int|
                                0 <= w < old_self.conversations@.len()
                                    && #[trigger] old_self.conversations@[w].id@ == q;
                            assert(w != i);
                            let w1 = if w < i {
                                w
                            } else {
                                w - 1
                            };
                            assert(self.conversations@[w1] == old_self.conversations@[w]);
                        }
                    }
                    assert forall|q: Seq<char>| self.has_id(q) implies conversation_view(
                        #[trigger] self.conversations@[self.index_of(q)],
                    ) == conversation_view(old_self.conversations@[old_self.index_of(q)]) by {
                        let w = self.index_of(q);
                        let w2 = if w < i {
                            w
                        } else {
                            w + 1
                        };
                        assert(self.conversations@[w] == old_self.conversations@[w2]);
                        old_self.lemma_index_of(w2);
                    }
                    assert(self@ =~= old_self@.remove(id@));
                }
                Some(c)
            },
            None => None,
        }
    }

    /// Starts a chat turn at the given moments, with `fresh_id` as the identifier
    /// of a new conversation. A turn that names a conversation continues it, and is
    /// refused when no such conversation is stored; a turn without one starts a new
    /// conversation under `fresh_id`. The user's message is appended, and the
    /// history of the conversation is returned.
    pub fn start_turn_with(
        &mut self,
        input: ChatConversationInput,
        interaction_time: String,
        message_time: String,
        fresh_id: String,
    ) -> (r: Result<TurnStart, AppError>)
        ensures
            match input.id {
                Some(id) => if old(self)@.contains_key(id@) {
                    r is Ok
                } else {
                    r matches Err(e) && e@ == (
                        AppErrorKind::NotFound,
                        "Conversa com ID "@ + id@ + " não encontrada"@,
                    ) && final(self)@ == old(self)@
                },
                None => r is Ok,
            },
            r matches Ok(t) ==> {
                let cid = t.conversation_id@;
                let previous = match input.id {
                    Some(id) => old(self)@[id@].messages,
                    None => Seq::empty(),
                };
                let user_message = MessageView {
                    sender: "User"@,
                    content: input.content@,
                    time: message_time@,
                };
                &&& cid == match input.id {
                    Some(id) => id@,
                    None => fresh_id@,
                }
                &&& (input.id matches Some(id) ==> old(self)@.contains_key(id@))
                &&& t.message_time@ == message_time@
                &&& final(self)@ == old(self)@.insert(
                    cid,
                    ConversationView {
                        messages: previous.push(user_message),
                        last_interaction: interaction_time@,
                    },
                )
                &&& t.history@ == history_text(previous.push(user_message))
            },
    {
        let ChatConversationInput { id, content } = input;
        let ghost old_view = self@;
        let mut conversation = match id {
            Some(id) => match self.take(id.as_str()) {
                Some(c) => Conversation {
                    id: c.id,
                    messages: c.messages,
                    last_interaction: interaction_time,
                },
                None => {
                    return Err(
                        AppError::NotFound(
                            concat3("Conversa com ID ", id.as_str(), " não encontrada"),
                        ),
                    );
                },
            },
            None => Conversation {
                id: fresh_id,
                messages: Vec::new(),
                last_interaction: interaction_time,
            },
        };
        let ghost previous = messages_view(conversation.messages@);
        assert(previous == match id {
            Some(i) => old_view[i@].messages,
            None => Seq::<MessageView>::empty(),
        });
        let user_message = ConversationMessage {
            content,
            time: message_time.clone(),
            sender: owned("User"),
        };
        conversation.messages.push(user_message);
        assert(messages_view(conversation.messages@) =~= previous.push(
            message_view(conversation.messages@.last()),
        ));
        let history = build_conversation_history(&conversation.messages);
        let conversation_id = conversation.id.clone();
        let ghost cid = conversation.id@;
        let ghost cv = conversation_view(conversation);
        self.put(conversation);
        proof {
            assert(old_view.remove(cid).insert(cid, cv) =~= old_view.insert(cid, cv));
        }
        Ok(TurnStart { conversation_id, message_time, history })
    }

    /// An identifier that no stored conversation has: `candidate` itself when it is
    /// free, otherwise `candidate` lengthened with `-` past every stored
    /// identifier.
    fn unused_id(&self, candidate: String) -> (r: String)
        ensures
            !self@.contains_key(r@),
            !self@.contains_key(candidate@) ==> r@ == candidate@,
    {
        if !self.contains(candidate.as_str()) {
            return candidate;
        }
        let mut longest: usize = 0;
        let mut i: usize = 0;
        while i < self.conversations.len()
            invariant
                i <= self.conversations@.len(),
                forall|j: int| 0 <= j < i ==> (#[trigger] self.conversations@[j]).id@.len() <= longest,
            decreases self.conversations.len() - i,
        {
            let n = chars_of(self.conversations[i].id.as_str()).len();
            if n > longest {
                longest = n;
            }
            i = i + 1;
        }
        let mut v = chars_of(candidate.as_str());
        while v.len() <= longest
            invariant
                forall|j: int|
                    0 <= j < self.conversations@.len() ==> (#[trigger] self.conversations@[j]).id@.len()
                        <= longest,
            decreases longest + 1 - v.len(),
        {
            v.push('-');
        }
        let r = string_of(&v);
        proof {
            if self@.contains_key(r@) {
                let w = choose|w: int|
                    0 <= w < self.conversations@.len() && #[trigger] self.conversations@[w].id@ == r@;
                assert(self.conversations@[w].id@.len() <= longest);
            }
        }
        r
    }

    /// Starts a chat turn now; a new conversation gets a fresh random identifier.
    /// See [`ConversationStore::start_turn_with`].
    pub fn start_turn(&mut self, input: ChatConversationInput) -> (r: Result<TurnStart, AppError>)
        ensures
            match input.id {
                Some(id) => if old(self)@.contains_key(id@) {
                    r is Ok
                } else {
                    r matches Err(e) && e@ == (
                        AppErrorKind::NotFound,
                        "Conversa com ID "@ + id@ + " não encontrada"@,
                    ) && final(self)@ == old(self)@
                },
                None => r is Ok,
            },
            r matches Ok(t) ==> {
                let cid = t.conversation_id@;
                let previous = match input.id {
                    Some(id) => old(self)@[id@].messages,
                    None => Seq::empty(),
                };
                let user_message = MessageView {
                    sender: "User"@,
                    content: input.content@,
                    time: t.message_time@,
                };
                &&& (input.id matches Some(id) ==> cid == id@ && old(self)@.contains_key(id@))
                &&& (input.id is None ==> starts_new_conversation(old(self)@, final(self)@, cid))
                &&& final(self)@.contains_key(cid)
                &&& final(self)@[cid].messages == previous.push(user_message)
                &&& final(self)@ == old(self)@.insert(cid, final(self)@[cid])
                &&& t.history@ == history_text(previous.push(user_message))
                &&& utc_rfc3339_shape(t.message_time@)
                &&& utc_rfc3339_shape(final(self)@[cid].last_interaction)
            },
    {
        let fresh_id = match input.id {
            Some(_) => String::new(),
            None => self.unused_id(new_uuid_v4()),
        };
        let interaction_time = now_rfc3339();
        let message_time = now_rfc3339();
        self.start_turn_with(input, interaction_time, message_time, fresh_id)
    }

    /// Appends the assistant's answer `content`, recorded at `time`, to the
    /// conversation stored under `id`; refused when there is none.
    pub fn record_reply_at(&mut self, id: &str, content: String, time: String) -> (r: Result<
        usize,
        AppError,
    >)
        ensures
            match r {
                Ok(n) => {
                    &&& old(self)@.contains_key(id@)
                    &&& final(self)@ == old(self)@.insert(
                        id@,
                        ConversationView {
                            messages: old(self)@[id@].messages.push(
                                MessageView { sender: "Assistant"@, content: content@, time: time@ },
                            ),
                            ..old(self)@[id@]
                        },
                    )
                    &&& n == final(self)@[id@].messages.len()
                },
                Err(e) => {
                    &&& !old(self)@.contains_key(id@)
                    &&& final(self)@ == old(self)@
                    &&& e@ == (
                        AppErrorKind::InternalError,
                        "Falha ao recuperar conversa para persistir resposta"@,
                    )
                },
            },
    {
        let ghost old_view = self@;
        let mut conversation = match self.take(id) {
            Some(c) => c,
            None => {
                return Err(
                    AppError::InternalError(
                        owned("Falha ao recuperar conversa para persistir resposta"),
                    ),
                );
            },
        };
        let ghost previous = messages_view(conversation.messages@);
        conversation.messages.push(
            ConversationMessage { content, time, sender: owned("Assistant") },
        );
        assert(messages_view(conversation.messages@) =~= previous.push(
            message_view(conversation.messages@.last()),
        ));
        let n = conversation.messages.len();
        let ghost cv = conversation_view(conversation);
        self.put(conversation);
        proof {
            assert(old_view.remove(id@).insert(id@, cv) =~= old_view.insert(id@, cv));
        }
        Ok(n)
    }

    /// Appends the assistant's answer `content`, recorded now, to the conversation
    /// stored under `id`. See [`ConversationStore::record_reply_at`].
    pub fn record_reply(&mut self, id: &str, content: String) -> (r: Result<usize, AppError>)
        ensures
            match r {
                Ok(n) => {
                    &&& old(self)@.contains_key(id@)
                    &&& final(self)@.contains_key(id@)
                    &&& final(self)@[id@].messages.drop_last() == old(self)@[id@].messages
                    &&& final(self)@[id@].messages.last().sender == "Assistant"@
                    &&& final(self)@[id@].messages.last().content == content@
                    &&& utc_rfc3339_shape(final(self)@[id@].messages.last().time)
                    &&& final(self)@[id@].last_interaction == old(self)@[id@].last_interaction
                    &&& final(self)@ == old(self)@.insert(id@, final(self)@[id@])
                    &&& n == final(self)@[id@].messages.len()
                },
                Err(e) => !old(self)@.contains_key(id@) && final(self)@ == old(self)@,
            },
    {
        let time = now_rfc3339();
        self.record_reply_at(id, content, time)
    }
}

// ---------------------------------------------------------------------------
// The chat use case
// ---------------------------------------------------------------------------

/// Answers chat messages with a chat provider, within conversations that keep
/// their history.
pub struct ChatConversationUseCase<P> {
    chat_provider: P,
}

impl<P> ChatConversationUseCase<P> {
    /// The chat provider in use.
    pub closed spec fn provider(&self) -> P {
        self.chat_provider
    }

    pub fn new(chat_provider: P) -> (r: ChatConversationUseCase<P>)
        ensures
            r.provider() == chat_provider,
    {
        ChatConversationUseCase { chat_provider }
    }

    /// The chat provider in use.
    pub fn chat_provider(&self) -> (r: &P)
        ensures
            *r == self.provider(),
    {
        &self.chat_provider
    }

    /// Finishes a turn started with [`ConversationStore::start_turn`] once the
    /// provider answered `reply`: the answer is recorded, and the result names the
    /// conversation, the answer, its category and when the user's message was
    /// recorded.
    pub fn finish_turn(store: &mut ConversationStore, turn: TurnStart, reply: ChatProviderResponse) -> (r:
        Result<ChatConversationResult, AppError>)
        ensures
            match r {
                Ok(res) => {
                    &&& old(store)@.contains_key(turn.conversation_id@)
                    &&& res.id == turn.conversation_id
                    &&& res.content@ == reply.content@
                    &&& res.category == reply.category
                    &&& res.time == turn.message_time
                    &&& final(store)@.contains_key(turn.conversation_id@)
                    &&& final(store)@[turn.conversation_id@].messages.drop_last() == old(
                        store,
                    )@[turn.conversation_id@].messages
                    &&& final(store)@[turn.conversation_id@].messages.last().sender
                        == "Assistant"@
                    &&& final(store)@[turn.conversation_id@].messages.last().content
                        == reply.content@
                    &&& utc_rfc3339_shape(
                        final(store)@[turn.conversation_id@].messages.last().time,
                    )
                    &&& final(store)@[turn.conversation_id@].last_interaction == old(
                        store,
                    )@[turn.conversation_id@].last_interaction
                    &&& final(store)@ == old(store)@.insert(
                        turn.conversation_id@,
                        final(store)@[turn.conversation_id@],
                    )
                },
                Err(e) => {
                    &&& !old(store)@.contains_key(turn.conversation_id@)
                    &&& final(store)@ == old(store)@
                    &&& e@ == (
                        AppErrorKind::InternalError,
                        "Falha ao recuperar conversa para persistir resposta"@,
                    )
                },
            },
    {
        let ChatProviderResponse { content, category } = reply;
        let reply_content = content.clone();
        let time = now_rfc3339();
        store.record_reply_at(turn.conversation_id.as_str(), reply_content, time)?;
        Ok(
            ChatConversationResult {
                id: turn.conversation_id,
                content,
                category,
                time: turn.message_time,
            },
        )
    }
}

} // verus!
