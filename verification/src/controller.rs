//! Event-router decisions: how the initial listing, interface commands and
//! push-stream events change the state store, and which backend calls they
//! demand. The surrounding application runs the actual event loop; it hands
//! each event and each backend result to these functions as plain values and
//! performs the calls they plan.

use vstd::prelude::*;

use crate::state::{
    apply_conversation_event, conv_index, fetched_marked_at, has_conv, ids_unique, needs_fetch,
    prepended_at, ApplicationStateInner, ConversationEvent, StateObserver,
};
use crate::types::{
    conv_eq, Channel, Conversation, KeybaseConversation, ListenerEvent, Message, Notification,
    StateError,
};

verus! {

/// How many messages a history fetch requests: the most recent ones, in
/// chronological order.
pub const FETCH_PAGE_SIZE: usize = 20;

/// No two listed conversations share an id.
pub open spec fn listing_ids_unique(s: Seq<KeybaseConversation>) -> bool {
    forall|i: int, j: int| 0 <= i < j < s.len() ==> s[i].id@ != s[j].id@
}

/// Loads the initial listing into the store — every conversation unfetched
/// and without messages, in listing order — and selects the first one when
/// the listing is non-empty. The initial selection triggers no history
/// fetch; only an explicit switch does.
pub fn init_conversations<O: StateObserver>(
    state: &mut ApplicationStateInner<O>,
    listing: Vec<KeybaseConversation>,
)
    requires
        listing_ids_unique(listing@),
    ensures
        final(state).wf(),
        final(state).convs().len() == listing@.len(),
        forall|i: int| 0 <= i < listing@.len() ==> final(state).convs()[i].data == listing@[i]
            && final(state).convs()[i].fetched == false && final(state).convs()[i].messages@
            == Seq::<Message>::empty(),
        listing@.len() > 0 ==> final(state).cur() == Some(0usize),
        listing@.len() == 0 ==> final(state).cur() is None,
        final(state).observer_count() == old(state).observer_count(),
{
    let mut convs: Vec<Conversation> = Vec::new();
    let mut i: usize = 0;
    while i < listing.len()
        invariant
            i <= listing@.len(),
            convs@.len() == i,
            forall|j: int| 0 <= j < i ==> convs@[j].data == listing@[j] && convs@[j].fetched
                == false && convs@[j].messages@ == Seq::<Message>::empty(),
        decreases listing@.len() - i,
    {
        convs.push(Conversation::new(listing[i].clone()));
        i = i + 1;
    }
    let first_id: Option<String> = if listing.len() > 0 {
        Some(listing[0].id.clone())
    } else {
        None
    };
    proof {
        assert forall|a: int, b: int| 0 <= a < b < convs@.len() implies convs@[a].data.id@
            != convs@[b].data.id@ by {
            assert(convs@[a].data == listing@[a]);
            assert(convs@[b].data == listing@[b]);
            assert(listing@[a].id@ != listing@[b].id@);
        }
        assert(ids_unique(convs@));
    }
    state.set_conversations(convs);
    match first_id {
        Some(id) => {
            proof {
                assert(state.convs()[0].data.id@ == id@);
            }
            let _ = state.set_current_conversation(&id);
            proof {
                crate::state::lemma_index_unique(state.convs(), id@, 0);
            }
        },
        None => {},
    }
}

/// What a switch to a conversation requires of the backend before the
/// selection can be updated.
pub enum SwitchPlan {
    /// No conversation has the target id; the switch is refused as a whole.
    UnknownConversation,
    /// The target exists and its history was never retrieved: fetch the
    /// `limit` most recent messages for `channel`, then select.
    FetchThenSelect { channel: Channel, limit: usize },
    /// The target exists and its history is already present: just select.
    SelectOnly,
}

/// First step of the switch algorithm: decides — without touching the store —
/// whether the target is known and whether its history must be fetched
/// first. A fetch is planned exactly when the target exists and is still
/// unfetched, so a conversation's history is fetched at most once.
pub fn prepare_switch<O: StateObserver>(
    state: &ApplicationStateInner<O>,
    target: &String,
) -> (r: SwitchPlan)
    requires
        state.wf(),
    ensures
        match r {
            SwitchPlan::UnknownConversation => !has_conv(state.convs(), target@),
            SwitchPlan::FetchThenSelect { channel, limit } => needs_fetch(state.convs(), target@)
                && channel == state.convs()[conv_index(state.convs(), target@)].data.channel
                && limit == FETCH_PAGE_SIZE,
            SwitchPlan::SelectOnly => has_conv(state.convs(), target@) && !needs_fetch(
                state.convs(),
                target@,
            ),
        },
{
    match state.get_conversation(target) {
        Some(conv) => {
            if !conv.fetched {
                SwitchPlan::FetchThenSelect {
                    channel: conv.data.channel.clone(),
                    limit: FETCH_PAGE_SIZE,
                }
            } else {
                SwitchPlan::SelectOnly
            }
        },
        None => SwitchPlan::UnknownConversation,
    }
}

/// How the backend interaction a `SwitchPlan` asked for went.
pub enum FetchOutcome {
    /// The plan was `SelectOnly`: there was nothing to fetch.
    NotNeeded,
    /// The planned fetch succeeded with these messages, oldest first.
    Fetched(Vec<Message>),
    /// The planned fetch failed; the conversation stays unfetched so a later
    /// switch can retry.
    FetchFailed,
}

/// Second step of the switch algorithm. On a successful fetch it marks the
/// target fetched and places the history ahead of any messages the push
/// stream appended while the fetch was in flight — one `HistoryFetched` step
/// of the conversation-event model. Whether or not a fetch happened or
/// failed, it then sets the current selection to the target; only an unknown
/// target refuses the switch, with `NotFound` and no change at all.
pub fn complete_switch<O: StateObserver>(
    state: &mut ApplicationStateInner<O>,
    target: &String,
    outcome: FetchOutcome,
) -> (r: Result<Notification, StateError>)
    requires
        old(state).wf(),
        outcome matches FetchOutcome::Fetched(_) ==> needs_fetch(old(state).convs(), target@),
    ensures
        final(state).wf(),
        final(state).observer_count() == old(state).observer_count(),
        final(state).convs().len() == old(state).convs().len(),
        match r {
            Ok(n) => {
                &&& has_conv(old(state).convs(), target@)
                &&& final(state).current_id() == Some(target@)
                &&& ({
                    let i = conv_index(old(state).convs(), target@);
                    &&& match outcome {
                        FetchOutcome::Fetched(h) => {
                            &&& final(state).convs()[i].data == old(state).convs()[i].data
                            &&& (
                            final(state).convs()[i].messages@,
                            final(state).convs()[i].fetched,
                            ) == apply_conversation_event(
                                old(state).convs()[i].messages@,
                                old(state).convs()[i].fetched,
                                ConversationEvent::HistoryFetched(h@),
                            )
                            &&& !needs_fetch(final(state).convs(), target@)
                            &&& forall|j: int|
                                0 <= j < old(state).convs().len() && j != i
                                    ==> final(state).convs()[j] == old(state).convs()[j]
                        },
                        _ => final(state).convs() == old(state).convs(),
                    }
                    &&& match n {
                        Notification::ConversationChanged(c) => conv_eq(
                            c,
                            final(state).convs()[i],
                        ),
                        _ => false,
                    }
                })
            },
            Err(e) => {
                &&& e == StateError::NotFound
                &&& !has_conv(old(state).convs(), target@)
                &&& final(state).convs() == old(state).convs()
                &&& final(state).cur() == old(state).cur()
            },
        },
{
    match outcome {
        FetchOutcome::Fetched(messages) => {
            let ghost pre = state.convs();
            let ghost i = conv_index(pre, target@);
            let ghost history = messages@;
            proof {
                assert(has_conv(pre, target@));
                assert(0 <= i < pre.len() && pre[i].data.id@ == target@);
            }
            let marked = state.mark_fetched(target);
            proof {
                assert(marked);
                assert(fetched_marked_at(pre, state.convs(), i));
                crate::state::lemma_index_unique(state.convs(), target@, i);
            }
            let ghost mid = state.convs();
            let inserted = state.bulk_insert_history(target, messages);
            proof {
                assert(inserted);
                assert(prepended_at(mid, state.convs(), i, history));
                crate::state::lemma_index_unique(state.convs(), target@, i);
            }
            let r = state.set_current_conversation(target);
            proof {
                crate::state::lemma_index_unique(state.convs(), target@, i);
            }
            r
        },
        FetchOutcome::NotNeeded => state.set_current_conversation(target),
        FetchOutcome::FetchFailed => state.set_current_conversation(target),
    }
}

/// Decides what a `SendMessage` command does: when a conversation is
/// currently selected, the backend must be handed exactly its channel
/// descriptor, unchanged, with the text; with no selection the command is
/// dropped.
pub fn prepare_send<O: StateObserver>(
    state: &ApplicationStateInner<O>,
    text: String,
) -> (r: Option<(Channel, String)>)
    requires
        state.wf(),
    ensures
        match (r, state.cur()) {
            (Some(p), Some(i)) => p.0 == state.convs()[i as int].data.channel && p.1 == text,
            (None, None) => true,
            _ => false,
        },
{
    match state.get_current_conversation() {
        Some(conv) => Some((conv.data.channel.clone(), text)),
        None => None,
    }
}

/// Applies one push-stream event: the carried message is appended to its own
/// conversation — selected or not — and the observers are told whether that
/// conversation is the current selection.
pub fn handle_listener_event<O: StateObserver>(
    state: &mut ApplicationStateInner<O>,
    event: ListenerEvent,
) -> (r: Option<Notification>)
    requires
        old(state).wf(),
    ensures
        final(state).wf(),
        match event {
            ListenerEvent::ChatMessage(m) => ApplicationStateInner::<O>::message_inserted(
                *old(state),
                *final(state),
                m,
                r,
            ),
        },
{
    match event {
        ListenerEvent::ChatMessage(message) => state.insert_message(message),
    }
}

} // verus!
