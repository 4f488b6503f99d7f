//! The resources that remote messages and events are registered with.
//!
//! Every registered message owns a few resources (the message queue itself, its reader,
//! the buffer of messages received from the other side, ...). The world knows each of them
//! by a component id, which the registry keeps as its index. An event is a message that is
//! also triggered as an observer event; its message resources are listed among the
//! messages of its kind, after the plain messages.
use vstd::prelude::*;

verus! {

/// A message sent from clients to the server.
#[derive(Clone, Copy, Debug, PartialEq, Eq, Structural)]
pub struct ClientMessage {
    /// The resource with the messages written on the client.
    pub messages_id: usize,
    /// The resource with the reader that tracks which client messages were already sent.
    pub reader_id: usize,
    /// The resource with the messages received from clients.
    pub from_messages_id: usize,
}

/// A message sent from the server to clients.
#[derive(Clone, Copy, Debug, PartialEq, Eq, Structural)]
pub struct ServerMessage {
    /// The resource with the messages received from the server.
    pub messages_id: usize,
    /// The resource with the messages that arrived before the tick they belong to.
    pub queue_id: usize,
    /// The resource with the messages the server writes for its clients.
    pub to_messages_id: usize,
}

/// A message that both sides send with the same type.
#[derive(Clone, Copy, Debug, PartialEq, Eq, Structural)]
pub struct SharedMessage {
    /// The resource with the messages received from the other side.
    pub messages_id: usize,
    /// The resource with the messages written locally for the other side.
    pub shared_messages_id: usize,
}

/// Which of the registered messages of one kind are meant.
#[derive(Clone, Copy, Debug, PartialEq, Eq, Structural)]
pub enum Selection {
    /// The plain messages followed by the messages of the events.
    All,
    /// The messages of the events only.
    Events,
}

/// A resource of a client message.
#[derive(Clone, Copy, Debug, PartialEq, Eq, Structural)]
pub enum ClientField {
    Messages,
    Reader,
    FromMessages,
}

/// A resource of a server message.
#[derive(Clone, Copy, Debug, PartialEq, Eq, Structural)]
pub enum ServerField {
    Messages,
    Queue,
    ToMessages,
}

/// A resource of a shared message.
#[derive(Clone, Copy, Debug, PartialEq, Eq, Structural)]
pub enum SharedField {
    Messages,
    SharedMessages,
}

/// The kind of message and the selection that a system iterates.
#[derive(Clone, Copy, Debug, PartialEq, Eq, Structural)]
pub enum MessageSource {
    Client(Selection),
    Server(Selection),
    Shared(Selection),
}

impl MessageSource {
    pub open spec fn selection(self) -> Selection {
        match self {
            MessageSource::Client(sel) => sel,
            MessageSource::Server(sel) => sel,
            MessageSource::Shared(sel) => sel,
        }
    }
}

/// One resource of each message of a selection, in registry order.
#[derive(Clone, Copy, Debug, PartialEq, Eq, Structural)]
pub enum Resources {
    Client(Selection, ClientField),
    Server(Selection, ServerField),
    Shared(Selection, SharedField),
}

impl Resources {
    pub open spec fn spec_source(self) -> MessageSource {
        match self {
            Resources::Client(sel, _) => MessageSource::Client(sel),
            Resources::Server(sel, _) => MessageSource::Server(sel),
            Resources::Shared(sel, _) => MessageSource::Shared(sel),
        }
    }

    /// The messages whose resources these are.
    #[verifier::when_used_as_spec(spec_source)]
    pub fn source(self) -> (r: MessageSource)
        ensures
            r == self.spec_source(),
    {
        match self {
            Resources::Client(sel, _) => MessageSource::Client(sel),
            Resources::Server(sel, _) => MessageSource::Server(sel),
            Resources::Shared(sel, _) => MessageSource::Shared(sel),
        }
    }
}

pub open spec fn client_id(m: ClientMessage, field: ClientField) -> usize {
    match field {
        ClientField::Messages => m.messages_id,
        ClientField::Reader => m.reader_id,
        ClientField::FromMessages => m.from_messages_id,
    }
}

pub open spec fn server_id(m: ServerMessage, field: ServerField) -> usize {
    match field {
        ServerField::Messages => m.messages_id,
        ServerField::Queue => m.queue_id,
        ServerField::ToMessages => m.to_messages_id,
    }
}

pub open spec fn shared_id(m: SharedMessage, field: SharedField) -> usize {
    match field {
        SharedField::Messages => m.messages_id,
        SharedField::SharedMessages => m.shared_messages_id,
    }
}

/// The registered remote messages and events, by the ids of their resources.
pub struct RemoteMessageRegistry {
    pub client_messages: Vec<ClientMessage>,
    pub client_events: Vec<ClientMessage>,
    pub server_messages: Vec<ServerMessage>,
    pub server_events: Vec<ServerMessage>,
    pub shared_messages: Vec<SharedMessage>,
    pub shared_events: Vec<SharedMessage>,
}

/// The registry as values.
pub struct RegistryView {
    pub client_messages: Seq<ClientMessage>,
    pub client_events: Seq<ClientMessage>,
    pub server_messages: Seq<ServerMessage>,
    pub server_events: Seq<ServerMessage>,
    pub shared_messages: Seq<SharedMessage>,
    pub shared_events: Seq<SharedMessage>,
}

impl View for RemoteMessageRegistry {
    type V = RegistryView;

    open spec fn view(&self) -> RegistryView {
        RegistryView {
            client_messages: self.client_messages@,
            client_events: self.client_events@,
            server_messages: self.server_messages@,
            server_events: self.server_events@,
            shared_messages: self.shared_messages@,
            shared_events: self.shared_events@,
        }
    }
}

impl RegistryView {
    pub open spec fn client(self, sel: Selection) -> Seq<ClientMessage> {
        match sel {
            Selection::All => self.client_messages + self.client_events,
            Selection::Events => self.client_events,
        }
    }

    pub open spec fn server(self, sel: Selection) -> Seq<ServerMessage> {
        match sel {
            Selection::All => self.server_messages + self.server_events,
            Selection::Events => self.server_events,
        }
    }

    pub open spec fn shared(self, sel: Selection) -> Seq<SharedMessage> {
        match sel {
            Selection::All => self.shared_messages + self.shared_events,
            Selection::Events => self.shared_events,
        }
    }

    /// The number of messages of a source.
    pub open spec fn count(self, source: MessageSource) -> nat {
        match source {
            MessageSource::Client(sel) => self.client(sel).len(),
            MessageSource::Server(sel) => self.server(sel).len(),
            MessageSource::Shared(sel) => self.shared(sel).len(),
        }
    }

    /// The ids of the resources, one per message, in registry order.
    pub open spec fn ids(self, resources: Resources) -> Seq<usize> {
        match resources {
            Resources::Client(sel, f) => self.client(sel).map_values(|m: ClientMessage| client_id(m, f)),
            Resources::Server(sel, f) => self.server(sel).map_values(|m: ServerMessage| server_id(m, f)),
            Resources::Shared(sel, f) => self.shared(sel).map_values(|m: SharedMessage| shared_id(m, f)),
        }
    }

    /// The number of plain messages, not events, of the kind of a source.
    pub open spec fn plain_count(self, source: MessageSource) -> nat {
        match source {
            MessageSource::Client(_) => self.client_messages.len(),
            MessageSource::Server(_) => self.server_messages.len(),
            MessageSource::Shared(_) => self.shared_messages.len(),
        }
    }

    /// Where the message at `index` of a source stands among all messages of its kind.
    pub open spec fn position(self, source: MessageSource, index: int) -> int {
        if source.selection() == Selection::Events {
            self.plain_count(source) + index
        } else {
            index
        }
    }

    /// The message at `position` among all messages of the kind of a source is the one at
    /// `index` of the source.
    pub open spec fn same_message(self, source: MessageSource, index: int, position: int) -> bool {
        match source {
            MessageSource::Client(sel) => self.client(Selection::All)[position] == self.client(sel)[index],
            MessageSource::Server(sel) => self.server(Selection::All)[position] == self.server(sel)[index],
            MessageSource::Shared(sel) => self.shared(Selection::All)[position] == self.shared(sel)[index],
        }
    }

    pub open spec fn has_any_client(self) -> bool {
        self.client_messages.len() > 0 || self.client_events.len() > 0
    }

    pub open spec fn has_any_server(self) -> bool {
        self.server_messages.len() > 0 || self.server_events.len() > 0
    }

    pub open spec fn has_any_shared(self) -> bool {
        self.shared_messages.len() > 0 || self.shared_events.len() > 0
    }

    pub open spec fn has_client_events(self) -> bool {
        self.client_events.len() > 0
    }

    pub open spec fn has_server_events(self) -> bool {
        self.server_events.len() > 0
    }

    pub open spec fn has_shared_events(self) -> bool {
        self.shared_events.len() > 0
    }

    pub open spec fn is_empty(self) -> bool {
        !self.has_any_client() && !self.has_any_server() && !self.has_any_shared()
    }
}

impl Default for RemoteMessageRegistry {
    fn default() -> (r: Self)
        ensures
            r@.client_messages.len() == 0,
            r@.client_events.len() == 0,
            r@.server_messages.len() == 0,
            r@.server_events.len() == 0,
            r@.shared_messages.len() == 0,
            r@.shared_events.len() == 0,
    {
        RemoteMessageRegistry::new()
    }
}

impl RemoteMessageRegistry {
    /// A registry with nothing registered.
    pub fn new() -> (r: Self)
        ensures
            r@.is_empty(),
            r@.client_messages.len() == 0,
            r@.client_events.len() == 0,
            r@.server_messages.len() == 0,
            r@.server_events.len() == 0,
            r@.shared_messages.len() == 0,
            r@.shared_events.len() == 0,
    {
        RemoteMessageRegistry {
            client_messages: Vec::new(),
            client_events: Vec::new(),
            server_messages: Vec::new(),
            server_events: Vec::new(),
            shared_messages: Vec::new(),
            shared_events: Vec::new(),
        }
    }

    pub fn has_any_client(&self) -> (r: bool)
        ensures
            r == self@.has_any_client(),
    {
        self.client_messages.len() > 0 || self.client_events.len() > 0
    }

    pub fn has_any_server(&self) -> (r: bool)
        ensures
            r == self@.has_any_server(),
    {
        self.server_messages.len() > 0 || self.server_events.len() > 0
    }

    pub fn has_any_shared(&self) -> (r: bool)
        ensures
            r == self@.has_any_shared(),
    {
        self.shared_messages.len() > 0 || self.shared_events.len() > 0
    }

    pub fn has_client_events(&self) -> (r: bool)
        ensures
            r == self@.has_client_events(),
    {
        self.client_events.len() > 0
    }

    pub fn has_server_events(&self) -> (r: bool)
        ensures
            r == self@.has_server_events(),
    {
        self.server_events.len() > 0
    }

    pub fn has_shared_events(&self) -> (r: bool)
        ensures
            r == self@.has_shared_events(),
    {
        self.shared_events.len() > 0
    }

    pub fn is_empty(&self) -> (r: bool)
        ensures
            r == self@.is_empty(),
    {
        !self.has_any_client() && !self.has_any_server() && !self.has_any_shared()
    }

    /// Where the message at `index` of a source stands among all messages of its kind (the
    /// plain messages followed by the events), or `None` when the source has no such message.
    /// `None` also stands for a position past `usize::MAX`, which a registry in memory cannot
    /// reach.
    pub fn position(&self, source: MessageSource, index: usize) -> (r: Option<usize>)
        ensures
            r == (if index < self@.count(source) && self@.position(source, index as int)
                <= usize::MAX {
                Some(self@.position(source, index as int) as usize)
            } else {
                None
            }),
            r matches Some(p) ==> self@.same_message(source, index as int, p as int),
    {
        let (sel, plain, events) = match source {
            MessageSource::Client(sel) => (sel, self.client_messages.len(), self.client_events.len()),
            MessageSource::Server(sel) => (sel, self.server_messages.len(), self.server_events.len()),
            MessageSource::Shared(sel) => (sel, self.shared_messages.len(), self.shared_events.len()),
        };
        match sel {
            Selection::All => {
                if index < plain || index - plain < events {
                    Some(index)
                } else {
                    None
                }
            },
            Selection::Events => {
                if index < events {
                    plain.checked_add(index)
                } else {
                    None
                }
            },
        }
    }

    /// The ids of the resources, one per message of the selection, in registry order.
    pub fn ids(&self, resources: Resources) -> (r: Vec<usize>)
        ensures
            r@ == self@.ids(resources),
    {
        let mut out: Vec<usize> = Vec::new();
        match resources {
            Resources::Client(sel, f) => {
                if sel == Selection::All {
                    push_client_ids(&mut out, &self.client_messages, f);
                }
                push_client_ids(&mut out, &self.client_events, f);
            },
            Resources::Server(sel, f) => {
                if sel == Selection::All {
                    push_server_ids(&mut out, &self.server_messages, f);
                }
                push_server_ids(&mut out, &self.server_events, f);
            },
            Resources::Shared(sel, f) => {
                if sel == Selection::All {
                    push_shared_ids(&mut out, &self.shared_messages, f);
                }
                push_shared_ids(&mut out, &self.shared_events, f);
            },
        }
        out
    }
}

fn client_field_id(m: &ClientMessage, f: ClientField) -> (r: usize)
    ensures
        r == client_id(*m, f),
{
    match f {
        ClientField::Messages => m.messages_id,
        ClientField::Reader => m.reader_id,
        ClientField::FromMessages => m.from_messages_id,
    }
}

fn server_field_id(m: &ServerMessage, f: ServerField) -> (r: usize)
    ensures
        r == server_id(*m, f),
{
    match f {
        ServerField::Messages => m.messages_id,
        ServerField::Queue => m.queue_id,
        ServerField::ToMessages => m.to_messages_id,
    }
}

fn shared_field_id(m: &SharedMessage, f: SharedField) -> (r: usize)
    ensures
        r == shared_id(*m, f),
{
    match f {
        SharedField::Messages => m.messages_id,
        SharedField::SharedMessages => m.shared_messages_id,
    }
}

fn push_client_ids(out: &mut Vec<usize>, messages: &Vec<ClientMessage>, f: ClientField)
    ensures
        final(out)@ == old(out)@ + messages@.map_values(|m: ClientMessage| client_id(m, f)),
{
    let ghost start = out@;
    let n = messages.len();
    let mut i: usize = 0;
    while i < n
        invariant
            n == messages.len(),
            i <= n,
            out@ == start + messages@.take(i as int).map_values(|m: ClientMessage| client_id(m, f)),
        decreases n - i,
    {
        out.push(client_field_id(&messages[i], f));
        proof {
            assert(messages@.take(i + 1) =~= messages@.take(i as int).push(messages@[i as int]));
            assert(messages@.take(i + 1).map_values(|m: ClientMessage| client_id(m, f))
                =~= messages@.take(i as int).map_values(|m: ClientMessage| client_id(m, f)).push(
                client_id(messages@[i as int], f),
            ));
        }
        i = i + 1;
    }
    assert(messages@.take(n as int) =~= messages@);
}

fn push_server_ids(out: &mut Vec<usize>, messages: &Vec<ServerMessage>, f: ServerField)
    ensures
        final(out)@ == old(out)@ + messages@.map_values(|m: ServerMessage| server_id(m, f)),
{
    let ghost start = out@;
    let n = messages.len();
    let mut i: usize = 0;
    while i < n
        invariant
            n == messages.len(),
            i <= n,
            out@ == start + messages@.take(i as int).map_values(|m: ServerMessage| server_id(m, f)),
        decreases n - i,
    {
        out.push(server_field_id(&messages[i], f));
        proof {
            assert(messages@.take(i + 1) =~= messages@.take(i as int).push(messages@[i as int]));
            assert(messages@.take(i + 1).map_values(|m: ServerMessage| server_id(m, f))
                =~= messages@.take(i as int).map_values(|m: ServerMessage| server_id(m, f)).push(
                server_id(messages@[i as int], f),
            ));
        }
        i = i + 1;
    }
    assert(messages@.take(n as int) =~= messages@);
}

fn push_shared_ids(out: &mut Vec<usize>, messages: &Vec<SharedMessage>, f: SharedField)
    ensures
        final(out)@ == old(out)@ + messages@.map_values(|m: SharedMessage| shared_id(m, f)),
{
    let ghost start = out@;
    let n = messages.len();
    let mut i: usize = 0;
    while i < n
        invariant
            n == messages.len(),
            i <= n,
            out@ == start + messages@.take(i as int).map_values(|m: SharedMessage| shared_id(m, f)),
        decreases n - i,
    {
        out.push(shared_field_id(&messages[i], f));
        proof {
            assert(messages@.take(i + 1) =~= messages@.take(i as int).push(messages@[i as int]));
            assert(messages@.take(i + 1).map_values(|m: SharedMessage| shared_id(m, f))
                =~= messages@.take(i as int).map_values(|m: SharedMessage| shared_id(m, f)).push(
                shared_id(messages@[i as int], f),
            ));
        }
        i = i + 1;
    }
    assert(messages@.take(n as int) =~= messages@);
}

} // verus!
