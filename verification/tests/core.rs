use std::cell::RefCell;
use std::rc::Rc;

use keybase_chat_tui::controller::{
    complete_switch, handle_listener_event, init_conversations, prepare_send, prepare_switch,
    FetchOutcome, SwitchPlan, FETCH_PAGE_SIZE,
};
use keybase_chat_tui::state::{ApplicationStateInner, NullObserver, StateObserver};
use keybase_chat_tui::types::{
    Channel, Conversation, KeybaseConversation, ListenerEvent, MemberType, Message, MessageBody,
    MessageType, Notification, Sender, StateError,
};

fn conversation(id: &str) -> KeybaseConversation {
    KeybaseConversation {
        id: id.to_owned(),
        unread: false,
        channel: Channel {
            name: "channel".to_owned(),
            topic_name: "".to_owned(),
            members_type: MemberType::User,
        },
    }
}

fn message(convo_id: &str, text: &str) -> Message {
    Message {
        conversation_id: convo_id.to_owned(),
        content: MessageType::Text { text: MessageBody { body: text.to_owned() } },
        channel: Channel {
            name: "channel".to_owned(),
            topic_name: "".to_owned(),
            members_type: MemberType::User,
        },
        sender: Sender { device_name: "My Device".to_owned(), username: "Some Guy".to_owned() },
    }
}

fn bodies(conv: &Conversation) -> Vec<String> {
    conv.messages
        .iter()
        .map(|m| match &m.content {
            MessageType::Text { text } => text.body.clone(),
            _ => panic!("expected a text message"),
        })
        .collect()
}

fn new_state() -> ApplicationStateInner<NullObserver> {
    ApplicationStateInner::new()
}

/// An empty listing initialises an empty store with no selection.
#[test]
fn init() {
    let mut state = new_state();
    init_conversations(&mut state, vec![]);
    assert_eq!(state.conversation_count(), 0);
    assert!(state.get_current_conversation().is_none());
}

/// Switching to an unfetched conversation plans exactly one history fetch
/// for that conversation's channel; afterwards it is fetched and current.
#[test]
fn switch_conversation() {
    let mut state = new_state();
    init_conversations(&mut state, vec![conversation("test1"), conversation("test2")]);

    let target = "test1".to_owned();
    let plan = prepare_switch(&state, &target);
    match plan {
        SwitchPlan::FetchThenSelect { channel, limit } => {
            assert_eq!(channel.name, "channel");
            assert_eq!(limit, 20);
            assert_eq!(limit, FETCH_PAGE_SIZE);
        }
        _ => panic!("expected a fetch to be planned"),
    }
    let r = complete_switch(&mut state, &target, FetchOutcome::Fetched(vec![]));
    assert!(r.is_ok());

    let test1 = state.get_conversation(&target).unwrap();
    assert!(test1.fetched);
    assert_eq!(test1.messages.len(), 0);
    assert_eq!(state.get_current_conversation().unwrap().data.id, "test1");
}

/// Given listing [A, B], after init the current conversation is A and both
/// exist with fetched == false.
#[test]
fn initial_selection() {
    let mut state = new_state();
    init_conversations(&mut state, vec![conversation("A"), conversation("B")]);

    assert_eq!(state.conversation_count(), 2);
    assert_eq!(state.get_current_conversation().unwrap().data.id, "A");
    let a = state.get_conversation(&"A".to_owned()).unwrap();
    assert!(!a.fetched);
    assert!(a.messages.is_empty());
    let b = state.get_conversation(&"B".to_owned()).unwrap();
    assert!(!b.fetched);
    assert!(b.messages.is_empty());
}

/// However many switches target a conversation, only the first one plans a
/// fetch; fetched becomes true after it and stays true.
#[test]
fn fetch_idempotence() {
    let mut state = new_state();
    init_conversations(&mut state, vec![conversation("test1"), conversation("test2")]);
    let target = "test2".to_owned();

    assert!(matches!(
        prepare_switch(&state, &target),
        SwitchPlan::FetchThenSelect { .. }
    ));
    complete_switch(&mut state, &target, FetchOutcome::Fetched(vec![])).unwrap();
    assert!(state.get_conversation(&target).unwrap().fetched);

    for _ in 0..3 {
        assert!(matches!(prepare_switch(&state, &target), SwitchPlan::SelectOnly));
        complete_switch(&mut state, &target, FetchOutcome::NotNeeded).unwrap();
        assert!(state.get_conversation(&target).unwrap().fetched);
    }

    // unrelated traffic does not clear the flag either
    handle_listener_event(&mut state, ListenerEvent::ChatMessage(message("test2", "hi")));
    assert!(state.get_conversation(&target).unwrap().fetched);
}

/// A failed fetch leaves the conversation unfetched (so a later switch can
/// retry) but still moves the selection.
#[test]
fn fetch_failure_allows_retry() {
    let mut state = new_state();
    init_conversations(&mut state, vec![conversation("test1"), conversation("test2")]);
    let target = "test2".to_owned();

    assert!(matches!(
        prepare_switch(&state, &target),
        SwitchPlan::FetchThenSelect { .. }
    ));
    let r = complete_switch(&mut state, &target, FetchOutcome::FetchFailed);
    assert!(r.is_ok());
    assert_eq!(state.get_current_conversation().unwrap().data.id, "test2");
    assert!(!state.get_conversation(&target).unwrap().fetched);
    assert!(matches!(
        prepare_switch(&state, &target),
        SwitchPlan::FetchThenSelect { .. }
    ));
}

/// The stored sequence is fetched history first, then push arrivals in
/// arrival order — even for pushes that arrived before the fetch landed.
#[test]
fn message_ordering() {
    let mut state = new_state();
    init_conversations(&mut state, vec![conversation("test1"), conversation("test2")]);
    let target = "test2".to_owned();

    // a live message arrives while test2 is still unfetched
    handle_listener_event(&mut state, ListenerEvent::ChatMessage(message("test2", "live1")));
    assert_eq!(bodies(state.get_conversation(&target).unwrap()), vec!["live1"]);

    // the switch backfills history ahead of it
    let history = vec![message("test2", "old1"), message("test2", "old2")];
    complete_switch(&mut state, &target, FetchOutcome::Fetched(history)).unwrap();
    assert_eq!(
        bodies(state.get_conversation(&target).unwrap()),
        vec!["old1", "old2", "live1"]
    );

    // later arrivals keep appending
    handle_listener_event(&mut state, ListenerEvent::ChatMessage(message("test2", "live2")));
    assert_eq!(
        bodies(state.get_conversation(&target).unwrap()),
        vec!["old1", "old2", "live1", "live2"]
    );
}

/// With current = test1, a push for test2 grows test2's list and is reported
/// as not active.
#[test]
fn push_for_inactive_conversation() {
    let mut state = new_state();
    init_conversations(&mut state, vec![conversation("test1"), conversation("test2")]);

    let n = handle_listener_event(&mut state, ListenerEvent::ChatMessage(message("test2", "hey")));
    match n {
        Some(Notification::MessageReceived(m, id, active)) => {
            assert_eq!(id, "test2");
            assert!(!active);
            match m.content {
                MessageType::Text { text } => assert_eq!(text.body, "hey"),
                _ => panic!("expected text"),
            }
        }
        _ => panic!("expected a message notification"),
    }
    assert_eq!(state.get_conversation(&"test2".to_owned()).unwrap().messages.len(), 1);
    assert_eq!(state.get_conversation(&"test1".to_owned()).unwrap().messages.len(), 0);
}

/// A push for the current selection is reported as active.
#[test]
fn push_for_active_conversation() {
    let mut state = new_state();
    init_conversations(&mut state, vec![conversation("test1"), conversation("test2")]);

    let n = handle_listener_event(&mut state, ListenerEvent::ChatMessage(message("test1", "yo")));
    match n {
        Some(Notification::MessageReceived(_, id, active)) => {
            assert_eq!(id, "test1");
            assert!(active);
        }
        _ => panic!("expected a message notification"),
    }
}

/// With current = test1, a send command hands the backend exactly test1's
/// channel and the text; with no selection it is dropped.
#[test]
fn send_message() {
    let mut state = new_state();
    init_conversations(&mut state, vec![conversation("test1"), conversation("test2")]);

    let planned = prepare_send(&state, "hello".to_owned());
    let (channel, text) = planned.expect("a selection exists, so the send must be planned");
    assert_eq!(channel.name, "channel");
    assert_eq!(channel.topic_name, "");
    assert_eq!(text, "hello");

    let empty = new_state();
    assert!(prepare_send(&empty, "hello".to_owned()).is_none());
}

/// Unknown conversation ids are refused consistently: neither the fetch nor
/// the selection step runs, and nothing changes.
#[test]
fn not_found_policy() {
    let mut state = new_state();
    init_conversations(&mut state, vec![conversation("test1")]);
    let missing = "nope".to_owned();

    assert!(matches!(prepare_switch(&state, &missing), SwitchPlan::UnknownConversation));
    let r = complete_switch(&mut state, &missing, FetchOutcome::NotNeeded);
    assert!(matches!(r, Err(StateError::NotFound)));
    assert_eq!(state.get_current_conversation().unwrap().data.id, "test1");

    let r = state.set_current_conversation(&missing);
    assert!(matches!(r, Err(StateError::NotFound)));

    // a push for an unknown conversation is dropped silently
    let n = handle_listener_event(&mut state, ListenerEvent::ChatMessage(message("nope", "x")));
    assert!(n.is_none());
    assert_eq!(state.conversation_count(), 1);
}

/// History is placed ahead of existing messages without reordering either
/// part, directly through the store operation.
#[test]
fn bulk_insert_prepends() {
    let mut state = new_state();
    init_conversations(&mut state, vec![conversation("test1")]);
    let id = "test1".to_owned();

    state.insert_message(message("test1", "c"));
    state.insert_message(message("test1", "d"));
    let ok = state.bulk_insert_history(&id, vec![message("test1", "a"), message("test1", "b")]);
    assert!(ok);
    assert_eq!(bodies(state.get_conversation(&id).unwrap()), vec!["a", "b", "c", "d"]);

    assert!(!state.bulk_insert_history(&"nope".to_owned(), vec![]));
    assert!(state.mark_fetched(&id));
    assert!(!state.mark_fetched(&"nope".to_owned()));
}

/// Team channels are named by their topic, direct channels by the channel
/// name.
#[test]
fn conversation_names() {
    let mut team = conversation("t");
    team.channel.topic_name = "general".to_owned();
    team.channel.members_type = MemberType::Team;
    assert_eq!(team.get_name().as_str(), "general");

    let direct = conversation("d");
    assert_eq!(direct.get_name().as_str(), "channel");
    assert_eq!(Conversation::new(direct).get_name().as_str(), "channel");
}

#[derive(Clone)]
struct RecordingObserver {
    log: Rc<RefCell<Vec<String>>>,
}

impl StateObserver for RecordingObserver {
    fn on_conversations_added(&self, data: &Vec<Conversation>) {
        self.log.borrow_mut().push(format!("added:{}", data.len()));
    }

    fn on_conversation_change(&self, data: &Conversation) {
        self.log.borrow_mut().push(format!("changed:{}", data.data.id));
    }

    fn on_message(&self, _message: &Message, conversation_id: &String, active: bool) {
        self.log.borrow_mut().push(format!("msg:{}:{}", conversation_id, active));
    }
}

/// Every successful mutation delivers exactly one notification to every
/// registered observer, in a coherent order, with the active flag evaluated
/// at delivery time.
#[test]
fn observers_see_ordered_notifications() {
    let first = RecordingObserver { log: Rc::new(RefCell::new(Vec::new())) };
    let second = RecordingObserver { log: Rc::new(RefCell::new(Vec::new())) };
    let first_log = Rc::clone(&first.log);
    let second_log = Rc::clone(&second.log);

    let mut state: ApplicationStateInner<RecordingObserver> = ApplicationStateInner::new();
    state.register_observer(first);
    state.register_observer(second);

    init_conversations(&mut state, vec![conversation("test1"), conversation("test2")]);
    handle_listener_event(&mut state, ListenerEvent::ChatMessage(message("test2", "hi")));
    complete_switch(&mut state, &"test2".to_owned(), FetchOutcome::Fetched(vec![])).unwrap();
    handle_listener_event(&mut state, ListenerEvent::ChatMessage(message("test2", "again")));

    let expected = vec![
        "added:2".to_owned(),
        "changed:test1".to_owned(),
        "msg:test2:false".to_owned(),
        "changed:test2".to_owned(),
        "msg:test2:true".to_owned(),
    ];
    assert_eq!(*first_log.borrow(), expected);
    assert_eq!(*second_log.borrow(), expected);
}
