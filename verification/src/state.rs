//! The state store: the in-memory model of conversations, messages and the
//! current selection. It owns all mutation; every successful mutating
//! operation delivers exactly one notification to the registered observers,
//! synchronously and in registration order, with an immutable copy of the
//! relevant data.

use vstd::prelude::*;

use crate::types::{conv_eq, convs_eq, Conversation, Message, Notification, StateError};

verus! {

/// A registered notification sink. Implementations receive copies of the
/// relevant data, never the live state, so they cannot mutate the store
/// re-entrantly during delivery.
pub trait StateObserver {
    /// The conversation mapping was replaced from the initial listing.
    fn on_conversations_added(&self, data: &Vec<Conversation>);

    /// The active selection changed.
    fn on_conversation_change(&self, data: &Conversation);

    /// A message was stored; `active` says whether its conversation was the
    /// current selection at delivery time.
    fn on_message(&self, message: &Message, conversation_id: &String, active: bool);
}

/// An observer that ignores every notification.
pub struct NullObserver;

impl StateObserver for NullObserver {
    fn on_conversations_added(&self, data: &Vec<Conversation>) {
    }

    fn on_conversation_change(&self, data: &Conversation) {
    }

    fn on_message(&self, message: &Message, conversation_id: &String, active: bool) {
    }
}

/// No two conversations in the sequence share an id.
pub open spec fn ids_unique(s: Seq<Conversation>) -> bool {
    forall|i: int, j: int| 0 <= i < j < s.len() ==> s[i].data.id@ != s[j].data.id@
}

/// Some conversation in the sequence carries the given id.
pub open spec fn has_conv(s: Seq<Conversation>, id: Seq<char>) -> bool {
    exists|i: int| 0 <= i < s.len() && s[i].data.id@ == id
}

/// The position of the conversation with the given id; meaningful only when
/// `has_conv` holds, and unique when `ids_unique` holds.
pub open spec fn conv_index(s: Seq<Conversation>, id: Seq<char>) -> int {
    choose|i: int| 0 <= i < s.len() && s[i].data.id@ == id
}

/// A switch to this conversation must fetch its history first: it exists and
/// its history has not been retrieved yet.
pub open spec fn needs_fetch(s: Seq<Conversation>, id: Seq<char>) -> bool {
    has_conv(s, id) && !s[conv_index(s, id)].fetched
}

/// `post` is `pre` with `m` appended to the messages of the conversation at
/// `i` and everything else unchanged.
pub open spec fn appended_at(pre: Seq<Conversation>, post: Seq<Conversation>, i: int, m: Message) -> bool {
    &&& post.len() == pre.len()
    &&& 0 <= i < pre.len()
    &&& post[i].data == pre[i].data
    &&& post[i].fetched == pre[i].fetched
    &&& post[i].messages@ == pre[i].messages@.push(m)
    &&& forall|j: int| 0 <= j < pre.len() && j != i ==> post[j] == pre[j]
}

/// `post` is `pre` with `h` placed ahead of the messages of the conversation
/// at `i` and everything else unchanged.
pub open spec fn prepended_at(pre: Seq<Conversation>, post: Seq<Conversation>, i: int, h: Seq<Message>) -> bool {
    &&& post.len() == pre.len()
    &&& 0 <= i < pre.len()
    &&& post[i].data == pre[i].data
    &&& post[i].fetched == pre[i].fetched
    &&& post[i].messages@ == h + pre[i].messages@
    &&& forall|j: int| 0 <= j < pre.len() && j != i ==> post[j] == pre[j]
}

/// `post` is `pre` with the fetched flag of the conversation at `i` set and
/// everything else unchanged.
pub open spec fn fetched_marked_at(pre: Seq<Conversation>, post: Seq<Conversation>, i: int) -> bool {
    &&& post.len() == pre.len()
    &&& 0 <= i < pre.len()
    &&& post[i].data == pre[i].data
    &&& post[i].fetched == true
    &&& post[i].messages@ == pre[i].messages@
    &&& forall|j: int| 0 <= j < pre.len() && j != i ==> post[j] == pre[j]
}

/// `n` reports exactly the arrival of `m`, under `m`'s own conversation id,
/// with the given activity flag.
pub open spec fn is_message_notification(n: Notification, m: Message, active: bool) -> bool {
    match n {
        Notification::MessageReceived(m2, id2, a2) => m2 == m && id2@ == m.conversation_id@
            && a2 == active,
        _ => false,
    }
}

/// An id at a position with that id is the position `conv_index` names, as
/// long as ids are unique.
pub proof fn lemma_index_unique(s: Seq<Conversation>, id: Seq<char>, i: int)
    requires
        ids_unique(s),
        0 <= i < s.len(),
        s[i].data.id@ == id,
    ensures
        has_conv(s, id),
        conv_index(s, id) == i,
{
    assert(has_conv(s, id));
    let j = conv_index(s, id);
    assert(0 <= j < s.len() && s[j].data.id@ == id);
    if j < i {
        assert(s[j].data.id@ != s[i].data.id@);
    } else if i < j {
        assert(s[i].data.id@ != s[j].data.id@);
    }
}

/// The application state: the conversation mapping (keys unique, insertion
/// order kept), the optional current selection, and the observer registry.
pub struct ApplicationStateInner<O: StateObserver> {
    conversations: Vec<Conversation>,
    current: Option<usize>,
    observers: Vec<O>,
}

impl<O: StateObserver> ApplicationStateInner<O> {
    /// The stored conversations, in insertion order.
    pub closed spec fn convs(self) -> Seq<Conversation> {
        self.conversations@
    }

    /// The position of the current selection, if one is set.
    pub closed spec fn cur(self) -> Option<usize> {
        self.current
    }

    /// How many observers are registered.
    pub closed spec fn observer_count(self) -> nat {
        self.observers@.len()
    }

    /// Well-formedness: conversation ids are unique and the selection, if
    /// set, names an existing conversation. Constructors establish it and
    /// every method preserves it.
    pub open spec fn wf(self) -> bool {
        &&& ids_unique(self.convs())
        &&& match self.cur() {
            Some(i) => (i as int) < self.convs().len(),
            None => true,
        }
    }

    /// The id of the current selection, if one is set.
    pub open spec fn current_id(self) -> Option<Seq<char>> {
        match self.cur() {
            Some(i) => Some(self.convs()[i as int].data.id@),
            None => None,
        }
    }

    /// A stored message for this id would be delivered as active.
    pub open spec fn is_active_for(self, id: Seq<char>) -> bool {
        self.current_id() == Some(id)
    }

    /// An empty store: no conversations, no selection, no observers.
    pub fn new() -> (r: Self)
        ensures
            r.wf(),
            r.convs() == Seq::<Conversation>::empty(),
            r.cur() is None,
            r.observer_count() == 0,
    {
        ApplicationStateInner { conversations: Vec::new(), current: None, observers: Vec::new() }
    }

    /// Registers one more notification sink; observers are invoked in
    /// registration order. Registration itself notifies nobody.
    pub fn register_observer(&mut self, observer: O)
        ensures
            final(self).convs() == old(self).convs(),
            final(self).cur() == old(self).cur(),
            final(self).observer_count() == old(self).observer_count() + 1,
    {
        self.observers.push(observer);
    }

    /// Delivers one notification to every observer, in registration order.
    fn notify_all(&self, n: &Notification) {
        let mut i: usize = 0;
        while i < self.observers.len()
            invariant
                i <= self.observers@.len(),
            decreases self.observers@.len() - i,
        {
            match n {
                Notification::ConversationsAdded(convs) => {
                    self.observers[i].on_conversations_added(convs);
                },
                Notification::ConversationChanged(c) => {
                    self.observers[i].on_conversation_change(c);
                },
                Notification::MessageReceived(m, id, active) => {
                    self.observers[i].on_message(m, id, *active);
                },
            }
            i = i + 1;
        }
    }

    /// Finds the position of the conversation with the given id.
    fn find_index(&self, id: &String) -> (r: Option<usize>)
        ensures
            match r {
                Some(i) => (i as int) < self.convs().len() && self.convs()[i as int].data.id@
                    == id@,
                None => !has_conv(self.convs(), id@),
            },
    {
        let mut i: usize = 0;
        while i < self.conversations.len()
            invariant
                i <= self.convs().len(),
                forall|j: int| 0 <= j < i ==> self.convs()[j].data.id@ != id@,
            decreases self.convs().len() - i,
        {
            if self.conversations[i].data.id == *id {
                return Some(i);
            }
            i = i + 1;
        }
        None
    }

    /// Replaces the conversation mapping with the given listing and clears
    /// the selection; notifies `conversations_added` with a snapshot of the
    /// new mapping.
    pub fn set_conversations(&mut self, convs: Vec<Conversation>) -> (r: Notification)
        requires
            ids_unique(convs@),
        ensures
            final(self).wf(),
            final(self).convs() == convs@,
            final(self).cur() is None,
            final(self).observer_count() == old(self).observer_count(),
            match r {
                Notification::ConversationsAdded(snap) => convs_eq(snap@, convs@),
                _ => false,
            },
    {
        let snapshot = clone_conversations(&convs);
        self.conversations = convs;
        self.current = None;
        let n = Notification::ConversationsAdded(snapshot);
        self.notify_all(&n);
        n
    }

    /// Sets the current selection to the conversation with the given id and
    /// notifies `conversation_changed` with a snapshot of it; reports
    /// `NotFound`, changing nothing, when no conversation has that id.
    pub fn set_current_conversation(&mut self, id: &String) -> (r: Result<Notification, StateError>)
        requires
            old(self).wf(),
        ensures
            final(self).wf(),
            final(self).convs() == old(self).convs(),
            final(self).observer_count() == old(self).observer_count(),
            match r {
                Ok(n) => {
                    &&& has_conv(old(self).convs(), id@)
                    &&& final(self).cur() == Some(conv_index(old(self).convs(), id@) as usize)
                    &&& final(self).current_id() == Some(id@)
                    &&& match n {
                        Notification::ConversationChanged(c) => conv_eq(
                            c,
                            old(self).convs()[conv_index(old(self).convs(), id@)],
                        ),
                        _ => false,
                    }
                },
                Err(e) => {
                    &&& e == StateError::NotFound
                    &&& !has_conv(old(self).convs(), id@)
                    &&& final(self).cur() == old(self).cur()
                },
            },
    {
        match self.find_index(id) {
            Some(i) => {
                proof {
                    lemma_index_unique(self.convs(), id@, i as int);
                }
                self.current = Some(i);
                let snapshot = self.conversations[i].clone();
                let n = Notification::ConversationChanged(snapshot);
                self.notify_all(&n);
                Ok(n)
            },
            None => Err(StateError::NotFound),
        }
    }

    /// What `insert_message` guarantees: the message is appended to its own
    /// conversation — one `PushArrival` step of the conversation-event model
    /// — and the delivered notification carries the message and the activity
    /// of its conversation at delivery time. A message for an unknown
    /// conversation is dropped silently (the store's documented policy) and
    /// nothing is notified.
    pub open spec fn message_inserted(pre: Self, post: Self, m: Message, r: Option<
        Notification,
    >) -> bool {
        &&& post.cur() == pre.cur()
        &&& post.observer_count() == pre.observer_count()
        &&& if has_conv(pre.convs(), m.conversation_id@) {
            let i = conv_index(pre.convs(), m.conversation_id@);
            &&& appended_at(pre.convs(), post.convs(), i, m)
            &&& (post.convs()[i].messages@, post.convs()[i].fetched) == apply_conversation_event(
                pre.convs()[i].messages@,
                pre.convs()[i].fetched,
                ConversationEvent::PushArrival(m),
            )
            &&& match r {
                Some(n) => is_message_notification(n, m, pre.is_active_for(m.conversation_id@)),
                None => false,
            }
        } else {
            &&& r is None
            &&& post.convs() == pre.convs()
        }
    }

    /// Appends a live message to its conversation and notifies
    /// `message_received`, reporting whether that conversation is the current
    /// selection at delivery time.
    pub fn insert_message(&mut self, message: Message) -> (r: Option<Notification>)
        requires
            old(self).wf(),
        ensures
            final(self).wf(),
            Self::message_inserted(*old(self), *final(self), message, r),
    {
        match self.find_index(&message.conversation_id) {
            Some(i) => {
                proof {
                    lemma_index_unique(self.convs(), message.conversation_id@, i as int);
                }
                let active = match self.current {
                    Some(c) => c == i,
                    None => false,
                };
                proof {
                    match self.cur() {
                        Some(c) => {
                            if c != i {
                                assert(self.convs()[c as int].data.id@ != self.convs()[
                                    i as int
                                ].data.id@);
                            }
                        },
                        None => {},
                    }
                }
                let msg_copy = message.clone();
                let cid = message.conversation_id.clone();
                let conv = &mut self.conversations[i];
                conv.messages.push(message);
                let n = Notification::MessageReceived(msg_copy, cid, active);
                self.notify_all(&n);
                proof {
                    let pre = old(self).convs();
                    let post = self.convs();
                    assert forall|a: int, b: int| 0 <= a < b < post.len() implies post[a].data.id@
                        != post[b].data.id@ by {
                        assert(pre[a].data.id@ != pre[b].data.id@);
                    }
                }
                Some(n)
            },
            None => None,
        }
    }

    /// Marks the conversation's history as retrieved; reports whether the
    /// conversation exists. Used only by the switch algorithm, so it emits no
    /// notification of its own.
    pub fn mark_fetched(&mut self, id: &String) -> (r: bool)
        requires
            old(self).wf(),
        ensures
            final(self).wf(),
            final(self).cur() == old(self).cur(),
            final(self).observer_count() == old(self).observer_count(),
            r == has_conv(old(self).convs(), id@),
            r ==> fetched_marked_at(
                old(self).convs(),
                final(self).convs(),
                conv_index(old(self).convs(), id@),
            ),
            !r ==> final(self).convs() == old(self).convs(),
    {
        match self.find_index(id) {
            Some(i) => {
                proof {
                    lemma_index_unique(self.convs(), id@, i as int);
                }
                let conv = &mut self.conversations[i];
                conv.fetched = true;
                proof {
                    let pre = old(self).convs();
                    let post = self.convs();
                    assert forall|a: int, b: int| 0 <= a < b < post.len() implies post[a].data.id@
                        != post[b].data.id@ by {
                        assert(pre[a].data.id@ != pre[b].data.id@);
                    }
                }
                true
            },
            None => false,
        }
    }

    /// Places fetched history ahead of any messages the push stream has
    /// already appended, preserving both orders; reports whether the
    /// conversation exists. Used only by the switch algorithm, so it emits no
    /// notification of its own.
    pub fn bulk_insert_history(&mut self, id: &String, messages: Vec<Message>) -> (r: bool)
        requires
            old(self).wf(),
        ensures
            final(self).wf(),
            final(self).cur() == old(self).cur(),
            final(self).observer_count() == old(self).observer_count(),
            r == has_conv(old(self).convs(), id@),
            r ==> prepended_at(
                old(self).convs(),
                final(self).convs(),
                conv_index(old(self).convs(), id@),
                messages@,
            ),
            !r ==> final(self).convs() == old(self).convs(),
    {
        match self.find_index(id) {
            Some(i) => {
                proof {
                    lemma_index_unique(self.convs(), id@, i as int);
                }
                let mut combined = messages;
                let conv = &mut self.conversations[i];
                combined.append(&mut conv.messages);
                conv.messages = combined;
                proof {
                    let pre = old(self).convs();
                    let post = self.convs();
                    assert forall|a: int, b: int| 0 <= a < b < post.len() implies post[a].data.id@
                        != post[b].data.id@ by {
                        assert(pre[a].data.id@ != pre[b].data.id@);
                    }
                }
                true
            },
            None => false,
        }
    }

    /// Immutable view of the conversation with the given id.
    pub fn get_conversation(&self, id: &String) -> (r: Option<&Conversation>)
        requires
            self.wf(),
        ensures
            match r {
                Some(c) => has_conv(self.convs(), id@) && *c == self.convs()[conv_index(
                    self.convs(),
                    id@,
                )],
                None => !has_conv(self.convs(), id@),
            },
    {
        match self.find_index(id) {
            Some(i) => {
                proof {
                    lemma_index_unique(self.convs(), id@, i as int);
                }
                Some(&self.conversations[i])
            },
            None => None,
        }
    }

    /// Immutable view of the current selection, if one is set.
    pub fn get_current_conversation(&self) -> (r: Option<&Conversation>)
        requires
            self.wf(),
        ensures
            match self.cur() {
                Some(i) => r matches Some(c) && *c == self.convs()[i as int],
                None => r is None,
            },
    {
        match self.current {
            Some(i) => Some(&self.conversations[i]),
            None => None,
        }
    }

    /// How many conversations the store holds.
    pub fn conversation_count(&self) -> (r: usize)
        ensures
            r == self.convs().len(),
    {
        self.conversations.len()
    }
}

impl<O: StateObserver> Default for ApplicationStateInner<O> {
    /// Same as `new`: an empty store.
    fn default() -> (r: Self)
        ensures
            r.wf(),
            r.convs() == Seq::<Conversation>::empty(),
            r.cur() is None,
            r.observer_count() == 0,
    {
        Self::new()
    }
}

/// Copies a conversation sequence element for element.
pub fn clone_conversations(v: &Vec<Conversation>) -> (r: Vec<Conversation>)
    ensures
        convs_eq(r@, v@),
{
    let mut r: Vec<Conversation> = Vec::new();
    let mut i: usize = 0;
    while i < v.len()
        invariant
            i <= v@.len(),
            r@.len() == i,
            forall|j: int| 0 <= j < i ==> conv_eq(r@[j], v@[j]),
        decreases v@.len() - i,
    {
        r.push(v[i].clone());
        i = i + 1;
    }
    r
}

/// One event in the lifetime of a single conversation's message store: a
/// live arrival from the push stream, or the outcome of a successful history
/// fetch.
pub enum ConversationEvent {
    PushArrival(Message),
    HistoryFetched(Seq<Message>),
}

/// How one event transforms a conversation's stored messages and fetched
/// flag: live arrivals are appended; the first successful fetch places its
/// history ahead of everything already stored and sets the flag; any later
/// fetch outcome is ignored.
pub open spec fn apply_conversation_event(
    msgs: Seq<Message>,
    fetched: bool,
    e: ConversationEvent,
) -> (Seq<Message>, bool) {
    match e {
        ConversationEvent::PushArrival(m) => (msgs.push(m), fetched),
        ConversationEvent::HistoryFetched(h) => if !fetched {
            (h + msgs, true)
        } else {
            (msgs, fetched)
        },
    }
}

/// Folds a whole event sequence over a conversation's message store.
pub open spec fn run_conversation(
    msgs: Seq<Message>,
    fetched: bool,
    events: Seq<ConversationEvent>,
) -> (Seq<Message>, bool)
    decreases events.len(),
{
    if events.len() == 0 {
        (msgs, fetched)
    } else {
        let stepped = apply_conversation_event(msgs, fetched, events[0]);
        run_conversation(stepped.0, stepped.1, events.drop_first())
    }
}

/// The push arrivals of an event sequence, in arrival order.
pub open spec fn push_arrivals(events: Seq<ConversationEvent>) -> Seq<Message>
    decreases events.len(),
{
    if events.len() == 0 {
        Seq::empty()
    } else {
        match events[0] {
            ConversationEvent::PushArrival(m) => seq![m] + push_arrivals(events.drop_first()),
            ConversationEvent::HistoryFetched(h) => push_arrivals(events.drop_first()),
        }
    }
}

/// The history carried by the first fetch outcome, if any.
pub open spec fn first_history(events: Seq<ConversationEvent>) -> Option<Seq<Message>>
    decreases events.len(),
{
    if events.len() == 0 {
        None
    } else {
        match events[0] {
            ConversationEvent::HistoryFetched(h) => Some(h),
            ConversationEvent::PushArrival(m) => first_history(events.drop_first()),
        }
    }
}

/// Once the history is fetched, every later event only appends push arrivals
/// in order, and the flag stays set.
pub proof fn lemma_run_fetched(msgs: Seq<Message>, events: Seq<ConversationEvent>)
    ensures
        run_conversation(msgs, true, events).0 == msgs + push_arrivals(events),
        run_conversation(msgs, true, events).1 == true,
    decreases events.len(),
{
    if events.len() == 0 {
        assert(msgs + push_arrivals(events) =~= msgs);
    } else {
        match events[0] {
            ConversationEvent::PushArrival(m) => {
                lemma_run_fetched(msgs.push(m), events.drop_first());
                assert(msgs.push(m) + push_arrivals(events.drop_first()) =~= msgs + (seq![m]
                    + push_arrivals(events.drop_first())));
            },
            ConversationEvent::HistoryFetched(h) => {
                lemma_run_fetched(msgs, events.drop_first());
            },
        }
    }
}

/// Message ordering: starting from messages `msgs` and unfetched history,
/// after any event sequence the stored messages are the first fetched
/// history (if a fetch happened), then `msgs`, then every push arrival in
/// arrival order — nothing is dropped, duplicated or reordered; and the
/// fetched flag is set iff some fetch succeeded.
pub proof fn lemma_message_ordering(msgs: Seq<Message>, events: Seq<ConversationEvent>)
    ensures
        ({
            let outcome = run_conversation(msgs, false, events);
            match first_history(events) {
                Some(h) => outcome.0 == h + msgs + push_arrivals(events) && outcome.1 == true,
                None => outcome.0 == msgs + push_arrivals(events) && outcome.1 == false,
            }
        }),
    decreases events.len(),
{
    if events.len() == 0 {
        assert(msgs + push_arrivals(events) =~= msgs);
    } else {
        match events[0] {
            ConversationEvent::PushArrival(m) => {
                lemma_message_ordering(msgs.push(m), events.drop_first());
                let rest = events.drop_first();
                match first_history(rest) {
                    Some(h) => {
                        assert(h + msgs.push(m) + push_arrivals(rest) =~= h + msgs + (seq![m]
                            + push_arrivals(rest)));
                    },
                    None => {
                        assert(msgs.push(m) + push_arrivals(rest) =~= msgs + (seq![m]
                            + push_arrivals(rest)));
                    },
                }
            },
            ConversationEvent::HistoryFetched(h) => {
                lemma_run_fetched(h + msgs, events.drop_first());
                assert(h + msgs + push_arrivals(events.drop_first()) =~= h + msgs + push_arrivals(
                    events,
                ));
            },
        }
    }
}

/// Fetch idempotence, first half: a conversation whose history is already
/// fetched never needs another fetch, however many switches target it.
pub proof fn lemma_fetch_idempotent(s: Seq<Conversation>, id: Seq<char>)
    requires
        has_conv(s, id),
        s[conv_index(s, id)].fetched,
    ensures
        !needs_fetch(s, id),
{
}

/// Fetch idempotence, second half: every store transition — leaving the
/// mapping alone, appending a message, prepending history, or marking a
/// fetch — preserves every conversation's fetched flag once set.
pub proof fn lemma_fetched_monotone(pre: Seq<Conversation>, post: Seq<Conversation>)
    requires
        post == pre || (exists|i: int, m: Message| #[trigger] appended_at(pre, post, i, m)) || (
        exists|i: int, h: Seq<Message>| #[trigger] prepended_at(pre, post, i, h)) || (exists|
            i: int,
        | #[trigger] fetched_marked_at(pre, post, i)),
    ensures
        post.len() == pre.len(),
        forall|j: int| 0 <= j < pre.len() && pre[j].fetched ==> post[j].fetched,
{
    if post == pre {
    } else if exists|i: int, m: Message| #[trigger] appended_at(pre, post, i, m) {
        let (i, m) = choose|i: int, m: Message| #[trigger] appended_at(pre, post, i, m);
        assert forall|j: int| 0 <= j < pre.len() && pre[j].fetched implies post[j].fetched by {
            if j != i {
                assert(post[j] == pre[j]);
            }
        }
    } else if exists|i: int, h: Seq<Message>| #[trigger] prepended_at(pre, post, i, h) {
        let (i, h) = choose|i: int, h: Seq<Message>| #[trigger] prepended_at(pre, post, i, h);
        assert forall|j: int| 0 <= j < pre.len() && pre[j].fetched implies post[j].fetched by {
            if j != i {
                assert(post[j] == pre[j]);
            }
        }
    } else {
        let i = choose|i: int| #[trigger] fetched_marked_at(pre, post, i);
        assert forall|j: int| 0 <= j < pre.len() && pre[j].fetched implies post[j].fetched by {
            if j != i {
                assert(post[j] == pre[j]);
            }
        }
    }
}

} // verus!
