//! Shared data model: channels, messages, conversations, commands and
//! notifications.

use vstd::prelude::*;

verus! {

/// How a channel's membership is organised. Team channels are named by their
/// topic, direct channels by the channel name itself.
#[derive(Clone, Copy, PartialEq, Eq, Structural, Debug)]
pub enum MemberType {
    User,
    Team,
}

/// Opaque routing information for the backend. The core passes it back to the
/// backend client unchanged and never interprets it.
pub struct Channel {
    pub name: String,
    pub topic_name: String,
    pub members_type: MemberType,
}

impl Clone for Channel {
    fn clone(&self) -> (r: Self)
        ensures
            r == *self,
    {
        Channel {
            name: self.name.clone(),
            topic_name: self.topic_name.clone(),
            members_type: self.members_type,
        }
    }
}

/// Identity of the author of a message.
pub struct Sender {
    pub username: String,
    pub device_name: String,
}

impl Clone for Sender {
    fn clone(&self) -> (r: Self)
        ensures
            r == *self,
    {
        Sender { username: self.username.clone(), device_name: self.device_name.clone() }
    }
}

/// Body of a text message.
pub struct MessageBody {
    pub body: String,
}

impl Clone for MessageBody {
    fn clone(&self) -> (r: Self)
        ensures
            r == *self,
    {
        MessageBody { body: self.body.clone() }
    }
}

/// The content variants a message can carry. Only text is rendered; the
/// others are accepted and stored but may be no-ops at the boundary.
pub enum MessageType {
    Text { text: MessageBody },
    Join,
    Attachment,
    Metadata,
    System,
    Reaction,
    Unfurl,
}

impl Clone for MessageType {
    fn clone(&self) -> (r: Self)
        ensures
            r == *self,
    {
        match self {
            MessageType::Text { text } => MessageType::Text { text: text.clone() },
            MessageType::Join => MessageType::Join,
            MessageType::Attachment => MessageType::Attachment,
            MessageType::Metadata => MessageType::Metadata,
            MessageType::System => MessageType::System,
            MessageType::Reaction => MessageType::Reaction,
            MessageType::Unfurl => MessageType::Unfurl,
        }
    }
}

/// A single chat message. It belongs to exactly one conversation and is
/// immutable once stored.
pub struct Message {
    pub conversation_id: String,
    pub content: MessageType,
    pub channel: Channel,
    pub sender: Sender,
}

impl Clone for Message {
    fn clone(&self) -> (r: Self)
        ensures
            r == *self,
    {
        Message {
            conversation_id: self.conversation_id.clone(),
            content: self.content.clone(),
            channel: self.channel.clone(),
            sender: self.sender.clone(),
        }
    }
}

/// A conversation as the backend lists it: identity, unread flag and the
/// routing descriptor. This is the element type of the initial listing.
pub struct KeybaseConversation {
    pub id: String,
    pub unread: bool,
    pub channel: Channel,
}

impl Clone for KeybaseConversation {
    fn clone(&self) -> (r: Self)
        ensures
            r == *self,
    {
        KeybaseConversation {
            id: self.id.clone(),
            unread: self.unread,
            channel: self.channel.clone(),
        }
    }
}

impl KeybaseConversation {
    /// The name under which the conversation is presented: team channels go
    /// by their topic, direct channels by the channel name.
    pub fn get_name(&self) -> (r: &String)
        ensures
            self.channel.members_type == MemberType::Team ==> r == self.channel.topic_name,
            self.channel.members_type == MemberType::User ==> r == self.channel.name,
    {
        match self.channel.members_type {
            MemberType::Team => &self.channel.topic_name,
            MemberType::User => &self.channel.name,
        }
    }
}

/// Copies a message sequence element for element.
pub fn clone_messages(v: &Vec<Message>) -> (r: Vec<Message>)
    ensures
        r@ == v@,
{
    let mut r: Vec<Message> = Vec::new();
    let mut i: usize = 0;
    while i < v.len()
        invariant
            i <= v@.len(),
            r@ == v@.subrange(0, i as int),
        decreases v@.len() - i,
    {
        r.push(v[i].clone());
        proof {
            assert(r@ =~= v@.subrange(0, i + 1 as int));
        }
        i = i + 1;
    }
    proof {
        assert(r@ =~= v@);
    }
    r
}

/// A conversation as the store holds it: the listing data, whether its
/// history has been retrieved, and the stored message sequence in arrival
/// order (backfilled history first, then live arrivals).
pub struct Conversation {
    pub data: KeybaseConversation,
    pub fetched: bool,
    pub messages: Vec<Message>,
}

/// Deep equality of two conversations; message sequences are compared by
/// their views.
pub open spec fn conv_eq(a: Conversation, b: Conversation) -> bool {
    &&& a.data == b.data
    &&& a.fetched == b.fetched
    &&& a.messages@ == b.messages@
}

/// Elementwise deep equality of two conversation sequences.
pub open spec fn convs_eq(a: Seq<Conversation>, b: Seq<Conversation>) -> bool {
    &&& a.len() == b.len()
    &&& forall|i: int| 0 <= i < a.len() ==> conv_eq(a[i], b[i])
}

impl Clone for Conversation {
    fn clone(&self) -> (r: Self)
        ensures
            conv_eq(r, *self),
    {
        Conversation {
            data: self.data.clone(),
            fetched: self.fetched,
            messages: clone_messages(&self.messages),
        }
    }
}

impl Conversation {
    /// Builds the store's record of a freshly listed conversation: nothing
    /// fetched yet and no messages stored.
    pub fn new(data: KeybaseConversation) -> (r: Self)
        ensures
            r.data == data,
            r.fetched == false,
            r.messages@ == Seq::<Message>::empty(),
    {
        Conversation { data, fetched: false, messages: Vec::new() }
    }

    /// The name under which the conversation is presented.
    pub fn get_name(&self) -> (r: &String)
        ensures
            self.data.channel.members_type == MemberType::Team ==> r == self.data.channel.topic_name,
            self.data.channel.members_type == MemberType::User ==> r == self.data.channel.name,
    {
        self.data.get_name()
    }
}

/// Commands issued by the interface.
pub enum UiEvent {
    SendMessage(String),
    SwitchConversation(String),
}

/// Events arriving on the backend's push stream.
pub enum ListenerEvent {
    ChatMessage(Message),
}

/// Errors the state store can report.
#[derive(Clone, Copy, PartialEq, Eq, Structural, Debug)]
pub enum StateError {
    /// The named conversation does not exist in the store.
    NotFound,
}

/// A state-change notification, delivered to every registered observer in
/// registration order. Each carries an immutable copy of the relevant data,
/// never the live state.
pub enum Notification {
    /// The conversation mapping was replaced from the initial listing.
    ConversationsAdded(Vec<Conversation>),
    /// The active selection changed; carries a snapshot of that conversation.
    ConversationChanged(Conversation),
    /// A message was stored: the message, its conversation id, and whether
    /// that conversation was the current selection at delivery time.
    MessageReceived(Message, String, bool),
}

} // verus!
