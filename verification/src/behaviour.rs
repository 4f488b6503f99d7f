//! What each system of the plugins does, stated over the registered messages themselves: which
//! messages a run walks and which of their resources it fetches, which resources its query
//! parameters may touch, in which frames it runs, and what its messages are handed.
use vstd::prelude::*;
use crate::registry::{
    ClientField, ClientMessage, MessageSource, RegistryView, Resources, Selection, ServerField,
    ServerMessage, SharedField, SharedMessage,
};
use crate::systems::{
    counts_fit, lemma_ids_len, loop_steps, param_ids, steps, system_loops, system_queries,
    system_view, Access, DispatchStep, Lookup, LookupTemplate, LoopTemplate, QueryParam,
    ResourceRole, Schedule, SystemName, SystemView, Frame, ClientStatus, ServerStatus,
    condition_holds, runs_in, system_args, RunArgs, ContextKind, NetworkBuffer, system_after,
    system_set, SystemRef, SystemSet,
};

verus! {

/// A run that fetches one resource per message: for each message, in order, the resource
/// with id `ids[i]` through the first query parameter, with `access`, panicking with `role`.
pub open spec fn one_fetch(
    st: Seq<DispatchStep>,
    source: MessageSource,
    ids: Seq<usize>,
    access: Access,
    role: ResourceRole,
) -> bool {
    &&& st.len() == ids.len()
    &&& forall|i: int|
        0 <= i < st.len() ==> {
            &&& (#[trigger] st[i]).source == source
            &&& st[i].index as int == i
            &&& st[i].first == Lookup { query: 0, resource: ids[i], access, role }
            &&& st[i].second is None
        }
}

/// A run that fetches two resources per message: for each message, in order, `ids1[i]`
/// through the first query parameter, then `ids2[i]` through the second.
pub open spec fn two_fetch(
    st: Seq<DispatchStep>,
    source: MessageSource,
    ids1: Seq<usize>,
    access1: Access,
    role1: ResourceRole,
    ids2: Seq<usize>,
    access2: Access,
    role2: ResourceRole,
) -> bool {
    &&& st.len() == ids1.len()
    &&& st.len() == ids2.len()
    &&& forall|i: int|
        0 <= i < st.len() ==> {
            &&& (#[trigger] st[i]).source == source
            &&& st[i].index as int == i
            &&& st[i].first == Lookup { query: 0, resource: ids1[i], access: access1, role: role1 }
            &&& st[i].second == Some(
                Lookup { query: 1, resource: ids2[i], access: access2, role: role2 },
            )
        }
}

/// The query parameters declare, in order, exactly these resources with this access.
pub open spec fn declares(
    reg: RegistryView,
    queries: Seq<QueryParam>,
    expected: Seq<(Seq<usize>, Access)>,
) -> bool {
    &&& queries.len() == expected.len()
    &&& forall|q: int|
        0 <= q < queries.len() ==> param_ids(reg, #[trigger] queries[q]) == expected[q].0
            && queries[q].access == expected[q].1
}

/// All client messages: plain ones, then events.
pub open spec fn all_client(reg: RegistryView) -> Seq<ClientMessage> {
    reg.client_messages + reg.client_events
}

/// All server messages: plain ones, then events.
pub open spec fn all_server(reg: RegistryView) -> Seq<ServerMessage> {
    reg.server_messages + reg.server_events
}

/// All shared messages: plain ones, then events.
pub open spec fn all_shared(reg: RegistryView) -> Seq<SharedMessage> {
    reg.shared_messages + reg.shared_events
}

proof fn lemma_single_loop(reg: RegistryView, t: LoopTemplate)
    ensures
        steps(reg, seq![t]) == loop_steps(reg, t),
{
    assert(seq![t].drop_last() =~= Seq::<LoopTemplate>::empty());
    assert(steps(reg, Seq::<LoopTemplate>::empty()) =~= Seq::<DispatchStep>::empty());
    assert(steps(reg, seq![t]) =~= loop_steps(reg, t));
}

proof fn lemma_one_fetch(reg: RegistryView, t: LookupTemplate)
    requires
        counts_fit(reg),
        t.query == 0,
    ensures
        one_fetch(
            steps(reg, seq![LoopTemplate { first: t, second: None }]),
            t.resources.spec_source(),
            reg.ids(t.resources),
            t.access,
            t.role,
        ),
{
    let l = LoopTemplate { first: t, second: None };
    lemma_single_loop(reg, l);
    lemma_ids_len(reg, t.resources);
    let st = steps(reg, seq![l]);
    assert forall|i: int| 0 <= i < st.len() implies (#[trigger] st[i]).index as int == i by {
        assert(i < usize::MAX);
    }
}

proof fn lemma_two_fetch(reg: RegistryView, t1: LookupTemplate, t2: LookupTemplate)
    requires
        counts_fit(reg),
        t1.query == 0,
        t2.query == 1,
        t1.resources.spec_source() == t2.resources.spec_source(),
    ensures
        two_fetch(
            steps(reg, seq![LoopTemplate { first: t1, second: Some(t2) }]),
            t1.resources.spec_source(),
            reg.ids(t1.resources),
            t1.access,
            t1.role,
            reg.ids(t2.resources),
            t2.access,
            t2.role,
        ),
{
    let l = LoopTemplate { first: t1, second: Some(t2) };
    lemma_single_loop(reg, l);
    lemma_ids_len(reg, t1.resources);
    lemma_ids_len(reg, t2.resources);
    let st = steps(reg, seq![l]);
    assert forall|i: int| 0 <= i < st.len() implies (#[trigger] st[i]).index as int == i by {
        assert(i < usize::MAX);
    }
}

/// The server receives every shared message, plain ones and events, in registry order: one
/// step per message, writing its shared-messages resource, and its one query parameter may
/// write exactly those resources.
pub proof fn law_server_receives_every_shared_message(reg: RegistryView)
    requires
        counts_fit(reg),
    ensures
        one_fetch(
            steps(reg, system_loops(SystemName::ServerReceiveShared)),
            MessageSource::Shared(Selection::All),
            all_shared(reg).map_values(|m: SharedMessage| m.shared_messages_id),
            Access::Write,
            ResourceRole::SharedMessages,
        ),
        declares(
            reg,
            system_queries(SystemName::ServerReceiveShared),
            seq![(all_shared(reg).map_values(|m: SharedMessage| m.shared_messages_id), Access::Write)],
        ),
{
    let r = Resources::Shared(Selection::All, SharedField::SharedMessages);
    lemma_one_fetch(reg, LookupTemplate { query: 0, resources: r, access: Access::Write, role: ResourceRole::SharedMessages });
    assert(reg.ids(r) =~= all_shared(reg).map_values(|m: SharedMessage| m.shared_messages_id));
}

/// The client receives every message from the server, plain ones and events, in registry order: for each, it writes the message's received messages, then its queue of early messages; its two query parameters may write exactly those resources; its query parameters may touch exactly those resources, with that access.
pub proof fn law_client_receives_every_server_message(reg: RegistryView)
    requires
        counts_fit(reg),
    ensures
        two_fetch(
            steps(reg, system_loops(SystemName::ClientReceive)),
            MessageSource::Server(Selection::All),
            all_server(reg).map_values(|m: ServerMessage| m.messages_id),
            Access::Write,
            ResourceRole::Messages,
            all_server(reg).map_values(|m: ServerMessage| m.queue_id),
            Access::Write,
            ResourceRole::Queue,
        ),
        declares(
            reg,
            system_queries(SystemName::ClientReceive),
            seq![
                (all_server(reg).map_values(|m: ServerMessage| m.messages_id), Access::Write),
                (all_server(reg).map_values(|m: ServerMessage| m.queue_id), Access::Write),
            ],
        ),
{
    let r0 = Resources::Server(Selection::All, ServerField::Messages);
    let r1 = Resources::Server(Selection::All, ServerField::Queue);
    lemma_two_fetch(
        reg,
        LookupTemplate { query: 0, resources: r0, access: Access::Write, role: ResourceRole::Messages },
        LookupTemplate { query: 1, resources: r1, access: Access::Write, role: ResourceRole::Queue },
    );
    assert(reg.ids(r0) =~= all_server(reg).map_values(|m: ServerMessage| m.messages_id));
    assert(reg.ids(r1) =~= all_server(reg).map_values(|m: ServerMessage| m.queue_id));
}

/// The client triggers exactly the server events, in registry order, and no plain server message: for each event it writes the event's received messages; its query parameters may touch exactly those resources, with that access.
pub proof fn law_client_triggers_exactly_server_events(reg: RegistryView)
    requires
        counts_fit(reg),
    ensures
        one_fetch(
            steps(reg, system_loops(SystemName::ClientTrigger)),
            MessageSource::Server(Selection::Events),
            reg.server_events.map_values(|m: ServerMessage| m.messages_id),
            Access::Write,
            ResourceRole::Messages,
        ),
        declares(
            reg,
            system_queries(SystemName::ClientTrigger),
            seq![(reg.server_events.map_values(|m: ServerMessage| m.messages_id), Access::Write)],
        ),
{
    let r0 = Resources::Server(Selection::Events, ServerField::Messages);
    lemma_one_fetch(reg, LookupTemplate { query: 0, resources: r0, access: Access::Write, role: ResourceRole::Messages });
    assert(reg.ids(r0) =~= reg.server_events.map_values(|m: ServerMessage| m.messages_id));
}

/// The client sends every message to the server, plain ones and events, in registry order: for each, it reads the written messages and writes the reader of those already sent; its query parameters may touch exactly those resources, with that access.
pub proof fn law_client_sends_every_client_message(reg: RegistryView)
    requires
        counts_fit(reg),
    ensures
        two_fetch(
            steps(reg, system_loops(SystemName::ClientSend)),
            MessageSource::Client(Selection::All),
            all_client(reg).map_values(|m: ClientMessage| m.messages_id),
            Access::Read,
            ResourceRole::Messages,
            all_client(reg).map_values(|m: ClientMessage| m.reader_id),
            Access::Write,
            ResourceRole::MessageReader,
        ),
        declares(
            reg,
            system_queries(SystemName::ClientSend),
            seq![
                (all_client(reg).map_values(|m: ClientMessage| m.messages_id), Access::Read),
                (all_client(reg).map_values(|m: ClientMessage| m.reader_id), Access::Write),
            ],
        ),
{
    let r0 = Resources::Client(Selection::All, ClientField::Messages);
    let r1 = Resources::Client(Selection::All, ClientField::Reader);
    lemma_two_fetch(
        reg,
        LookupTemplate { query: 0, resources: r0, access: Access::Read, role: ResourceRole::Messages },
        LookupTemplate { query: 1, resources: r1, access: Access::Write, role: ResourceRole::MessageReader },
    );
    assert(reg.ids(r0) =~= all_client(reg).map_values(|m: ClientMessage| m.messages_id));
    assert(reg.ids(r1) =~= all_client(reg).map_values(|m: ClientMessage| m.reader_id));
}

/// While disconnected the client moves every message to the server, plain ones and events, from its written messages into the buffer the server reads, in registry order; its query parameters may touch exactly those resources, with that access.
pub proof fn law_client_delivers_every_client_message_locally(reg: RegistryView)
    requires
        counts_fit(reg),
    ensures
        two_fetch(
            steps(reg, system_loops(SystemName::ClientSendLocally)),
            MessageSource::Client(Selection::All),
            all_client(reg).map_values(|m: ClientMessage| m.from_messages_id),
            Access::Write,
            ResourceRole::FromClientsMessages,
            all_client(reg).map_values(|m: ClientMessage| m.messages_id),
            Access::Write,
            ResourceRole::Messages,
        ),
        declares(
            reg,
            system_queries(SystemName::ClientSendLocally),
            seq![
                (all_client(reg).map_values(|m: ClientMessage| m.from_messages_id), Access::Write),
                (all_client(reg).map_values(|m: ClientMessage| m.messages_id), Access::Write),
            ],
        ),
{
    let r0 = Resources::Client(Selection::All, ClientField::FromMessages);
    let r1 = Resources::Client(Selection::All, ClientField::Messages);
    lemma_two_fetch(
        reg,
        LookupTemplate { query: 0, resources: r0, access: Access::Write, role: ResourceRole::FromClientsMessages },
        LookupTemplate { query: 1, resources: r1, access: Access::Write, role: ResourceRole::Messages },
    );
    assert(reg.ids(r0) =~= all_client(reg).map_values(|m: ClientMessage| m.from_messages_id));
    assert(reg.ids(r1) =~= all_client(reg).map_values(|m: ClientMessage| m.messages_id));
}

/// The client sends every shared message, plain ones and events, in registry order: for each it writes the received and the written messages; its query parameters may touch exactly those resources, with that access.
pub proof fn law_client_sends_every_shared_message(reg: RegistryView)
    requires
        counts_fit(reg),
    ensures
        two_fetch(
            steps(reg, system_loops(SystemName::ClientSendShared)),
            MessageSource::Shared(Selection::All),
            all_shared(reg).map_values(|m: SharedMessage| m.messages_id),
            Access::Write,
            ResourceRole::Messages,
            all_shared(reg).map_values(|m: SharedMessage| m.shared_messages_id),
            Access::Write,
            ResourceRole::SharedMessages,
        ),
        declares(
            reg,
            system_queries(SystemName::ClientSendShared),
            seq![
                (all_shared(reg).map_values(|m: SharedMessage| m.messages_id), Access::Write),
                (all_shared(reg).map_values(|m: SharedMessage| m.shared_messages_id), Access::Write),
            ],
        ),
{
    let r0 = Resources::Shared(Selection::All, SharedField::Messages);
    let r1 = Resources::Shared(Selection::All, SharedField::SharedMessages);
    lemma_two_fetch(
        reg,
        LookupTemplate { query: 0, resources: r0, access: Access::Write, role: ResourceRole::Messages },
        LookupTemplate { query: 1, resources: r1, access: Access::Write, role: ResourceRole::SharedMessages },
    );
    assert(reg.ids(r0) =~= all_shared(reg).map_values(|m: SharedMessage| m.messages_id));
    assert(reg.ids(r1) =~= all_shared(reg).map_values(|m: SharedMessage| m.shared_messages_id));
}

/// While disconnected the client moves every shared message, plain ones and events, between its written and received messages, in registry order; its query parameters may touch exactly those resources, with that access.
pub proof fn law_client_delivers_every_shared_message_locally(reg: RegistryView)
    requires
        counts_fit(reg),
    ensures
        two_fetch(
            steps(reg, system_loops(SystemName::ClientSendSharedLocally)),
            MessageSource::Shared(Selection::All),
            all_shared(reg).map_values(|m: SharedMessage| m.shared_messages_id),
            Access::Write,
            ResourceRole::SharedMessages,
            all_shared(reg).map_values(|m: SharedMessage| m.messages_id),
            Access::Write,
            ResourceRole::Messages,
        ),
        declares(
            reg,
            system_queries(SystemName::ClientSendSharedLocally),
            seq![
                (all_shared(reg).map_values(|m: SharedMessage| m.shared_messages_id), Access::Write),
                (all_shared(reg).map_values(|m: SharedMessage| m.messages_id), Access::Write),
            ],
        ),
{
    let r0 = Resources::Shared(Selection::All, SharedField::SharedMessages);
    let r1 = Resources::Shared(Selection::All, SharedField::Messages);
    lemma_two_fetch(
        reg,
        LookupTemplate { query: 0, resources: r0, access: Access::Write, role: ResourceRole::SharedMessages },
        LookupTemplate { query: 1, resources: r1, access: Access::Write, role: ResourceRole::Messages },
    );
    assert(reg.ids(r0) =~= all_shared(reg).map_values(|m: SharedMessage| m.shared_messages_id));
    assert(reg.ids(r1) =~= all_shared(reg).map_values(|m: SharedMessage| m.messages_id));
}

/// The client triggers exactly the shared events, in registry order, and no plain shared message; its query parameters may touch exactly those resources, with that access.
pub proof fn law_client_triggers_exactly_shared_events(reg: RegistryView)
    requires
        counts_fit(reg),
    ensures
        one_fetch(
            steps(reg, system_loops(SystemName::ClientTriggerShared)),
            MessageSource::Shared(Selection::Events),
            reg.shared_events.map_values(|m: SharedMessage| m.shared_messages_id),
            Access::Write,
            ResourceRole::SharedMessages,
        ),
        declares(
            reg,
            system_queries(SystemName::ClientTriggerShared),
            seq![(reg.shared_events.map_values(|m: SharedMessage| m.shared_messages_id), Access::Write)],
        ),
{
    let r0 = Resources::Shared(Selection::Events, SharedField::SharedMessages);
    lemma_one_fetch(reg, LookupTemplate { query: 0, resources: r0, access: Access::Write, role: ResourceRole::SharedMessages });
    assert(reg.ids(r0) =~= reg.shared_events.map_values(|m: SharedMessage| m.shared_messages_id));
}

/// The server receives every message from clients, plain ones and events, in registry order, writing each one's buffer of messages received from clients; its query parameters may touch exactly those resources, with that access.
pub proof fn law_server_receives_every_client_message(reg: RegistryView)
    requires
        counts_fit(reg),
    ensures
        one_fetch(
            steps(reg, system_loops(SystemName::ServerReceive)),
            MessageSource::Client(Selection::All),
            all_client(reg).map_values(|m: ClientMessage| m.from_messages_id),
            Access::Write,
            ResourceRole::FromClientsMessages,
        ),
        declares(
            reg,
            system_queries(SystemName::ServerReceive),
            seq![(all_client(reg).map_values(|m: ClientMessage| m.from_messages_id), Access::Write)],
        ),
{
    let r0 = Resources::Client(Selection::All, ClientField::FromMessages);
    lemma_one_fetch(reg, LookupTemplate { query: 0, resources: r0, access: Access::Write, role: ResourceRole::FromClientsMessages });
    assert(reg.ids(r0) =~= all_client(reg).map_values(|m: ClientMessage| m.from_messages_id));
}

/// The server triggers exactly the client events, in registry order, and no plain client message; its query parameters may touch exactly those resources, with that access.
pub proof fn law_server_triggers_exactly_client_events(reg: RegistryView)
    requires
        counts_fit(reg),
    ensures
        one_fetch(
            steps(reg, system_loops(SystemName::ServerTrigger)),
            MessageSource::Client(Selection::Events),
            reg.client_events.map_values(|m: ClientMessage| m.from_messages_id),
            Access::Write,
            ResourceRole::FromClientsMessages,
        ),
        declares(
            reg,
            system_queries(SystemName::ServerTrigger),
            seq![(reg.client_events.map_values(|m: ClientMessage| m.from_messages_id), Access::Write)],
        ),
{
    let r0 = Resources::Client(Selection::Events, ClientField::FromMessages);
    lemma_one_fetch(reg, LookupTemplate { query: 0, resources: r0, access: Access::Write, role: ResourceRole::FromClientsMessages });
    assert(reg.ids(r0) =~= reg.client_events.map_values(|m: ClientMessage| m.from_messages_id));
}

/// The server triggers exactly the shared events, in registry order, and no plain shared message; its query parameters may touch exactly those resources, with that access.
pub proof fn law_server_triggers_exactly_shared_events(reg: RegistryView)
    requires
        counts_fit(reg),
    ensures
        one_fetch(
            steps(reg, system_loops(SystemName::ServerTriggerShared)),
            MessageSource::Shared(Selection::Events),
            reg.shared_events.map_values(|m: SharedMessage| m.shared_messages_id),
            Access::Write,
            ResourceRole::SharedMessages,
        ),
        declares(
            reg,
            system_queries(SystemName::ServerTriggerShared),
            seq![(reg.shared_events.map_values(|m: SharedMessage| m.shared_messages_id), Access::Write)],
        ),
{
    let r0 = Resources::Shared(Selection::Events, SharedField::SharedMessages);
    lemma_one_fetch(reg, LookupTemplate { query: 0, resources: r0, access: Access::Write, role: ResourceRole::SharedMessages });
    assert(reg.ids(r0) =~= reg.shared_events.map_values(|m: SharedMessage| m.shared_messages_id));
}

/// The server sends or buffers every message to clients, plain ones and events, in registry order, only reading the messages written for clients; its query parameters may touch exactly those resources, with that access.
pub proof fn law_server_sends_or_buffers_every_server_message(reg: RegistryView)
    requires
        counts_fit(reg),
    ensures
        one_fetch(
            steps(reg, system_loops(SystemName::ServerSendOrBuffer)),
            MessageSource::Server(Selection::All),
            all_server(reg).map_values(|m: ServerMessage| m.to_messages_id),
            Access::Read,
            ResourceRole::ToClientsMessages,
        ),
        declares(
            reg,
            system_queries(SystemName::ServerSendOrBuffer),
            seq![(all_server(reg).map_values(|m: ServerMessage| m.to_messages_id), Access::Read)],
        ),
{
    let r0 = Resources::Server(Selection::All, ServerField::ToMessages);
    lemma_one_fetch(reg, LookupTemplate { query: 0, resources: r0, access: Access::Read, role: ResourceRole::ToClientsMessages });
    assert(reg.ids(r0) =~= all_server(reg).map_values(|m: ServerMessage| m.to_messages_id));
}

/// While its client is disconnected the server moves every message to clients, plain ones and events, from the messages written for clients into the received buffer, in registry order; its query parameters may touch exactly those resources, with that access.
pub proof fn law_server_delivers_every_server_message_locally(reg: RegistryView)
    requires
        counts_fit(reg),
    ensures
        two_fetch(
            steps(reg, system_loops(SystemName::ServerSendLocally)),
            MessageSource::Server(Selection::All),
            all_server(reg).map_values(|m: ServerMessage| m.to_messages_id),
            Access::Write,
            ResourceRole::ToMessages,
            all_server(reg).map_values(|m: ServerMessage| m.messages_id),
            Access::Write,
            ResourceRole::Messages,
        ),
        declares(
            reg,
            system_queries(SystemName::ServerSendLocally),
            seq![
                (all_server(reg).map_values(|m: ServerMessage| m.to_messages_id), Access::Write),
                (all_server(reg).map_values(|m: ServerMessage| m.messages_id), Access::Write),
            ],
        ),
{
    let r0 = Resources::Server(Selection::All, ServerField::ToMessages);
    let r1 = Resources::Server(Selection::All, ServerField::Messages);
    lemma_two_fetch(
        reg,
        LookupTemplate { query: 0, resources: r0, access: Access::Write, role: ResourceRole::ToMessages },
        LookupTemplate { query: 1, resources: r1, access: Access::Write, role: ResourceRole::Messages },
    );
    assert(reg.ids(r0) =~= all_server(reg).map_values(|m: ServerMessage| m.to_messages_id));
    assert(reg.ids(r1) =~= all_server(reg).map_values(|m: ServerMessage| m.messages_id));
}

/// Sending the buffered messages walks no message and declares no query parameter.
pub proof fn law_send_buffered_walks_no_message(reg: RegistryView)
    ensures
        steps(reg, system_loops(SystemName::ServerSendBuffered)).len() == 0,
        system_queries(SystemName::ServerSendBuffered).len() == 0,
{
}

/// On disconnect the client's reset may write exactly the messages of every message to the
/// server, the queue of every message from the server and the received messages of every
/// shared message, through three query parameters in that order.
pub proof fn law_reset_declares_every_buffer(reg: RegistryView)
    ensures
        declares(
            reg,
            system_queries(SystemName::ClientReset),
            seq![
                (all_client(reg).map_values(|m: ClientMessage| m.messages_id), Access::Write),
                (all_server(reg).map_values(|m: ServerMessage| m.queue_id), Access::Write),
                (all_shared(reg).map_values(|m: SharedMessage| m.messages_id), Access::Write),
            ],
        ),
{
    assert(reg.ids(Resources::Client(Selection::All, ClientField::Messages)) =~= all_client(reg).map_values(|m: ClientMessage| m.messages_id));
    assert(reg.ids(Resources::Server(Selection::All, ServerField::Queue)) =~= all_server(reg).map_values(|m: ServerMessage| m.queue_id));
    assert(reg.ids(Resources::Shared(Selection::All, SharedField::Messages)) =~= all_shared(reg).map_values(|m: SharedMessage| m.messages_id));
}

/// The systems of the client plugin.
pub open spec fn is_client_system(name: SystemName) -> bool {
    match name {
        SystemName::ClientReceive | SystemName::ClientTrigger | SystemName::ClientSend
        | SystemName::ClientSendLocally | SystemName::ClientSendShared
        | SystemName::ClientSendSharedLocally | SystemName::ClientTriggerShared
        | SystemName::ClientReset => true,
        _ => false,
    }
}

/// In which frames the client's systems run: receiving in `PreUpdate` only while connected
/// and always on entering the connected state; triggering always; sending over the network
/// only while connected and delivering locally only while disconnected, for plain and for
/// shared messages; resetting always on leaving the connected state.
pub proof fn law_client_run_conditions(f: Frame)
    ensures
        runs_in(system_view(SystemName::ClientReceive, Schedule::PreUpdate), f) <==> f.client
            == ClientStatus::Connected,
        runs_in(system_view(SystemName::ClientReceive, Schedule::OnEnterClientConnected), f),
        runs_in(system_view(SystemName::ClientTrigger, Schedule::PreUpdate), f),
        runs_in(system_view(SystemName::ClientTrigger, Schedule::OnEnterClientConnected), f),
        runs_in(system_view(SystemName::ClientSend, Schedule::PostUpdate), f) <==> f.client
            == ClientStatus::Connected,
        runs_in(system_view(SystemName::ClientSendLocally, Schedule::PostUpdate), f) <==> f.client
            == ClientStatus::Disconnected,
        runs_in(system_view(SystemName::ClientSendShared, Schedule::PostUpdate), f) <==> f.client
            == ClientStatus::Connected,
        runs_in(system_view(SystemName::ClientSendSharedLocally, Schedule::PostUpdate), f)
            <==> f.client == ClientStatus::Disconnected,
        runs_in(system_view(SystemName::ClientTriggerShared, Schedule::PostUpdate), f),
        runs_in(system_view(SystemName::ClientReset, Schedule::OnExitClientConnected), f),
{
    lemma_runs_single(system_view(SystemName::ClientReceive, Schedule::PreUpdate), f);
    lemma_runs_single(system_view(SystemName::ClientSend, Schedule::PostUpdate), f);
    lemma_runs_single(system_view(SystemName::ClientSendLocally, Schedule::PostUpdate), f);
    lemma_runs_single(system_view(SystemName::ClientSendShared, Schedule::PostUpdate), f);
    lemma_runs_single(system_view(SystemName::ClientSendSharedLocally, Schedule::PostUpdate), f);
}

/// In which frames the server's systems run: receiving plain and shared messages, and sending
/// or buffering, exactly while the server runs, whatever the client state; triggering client
/// events, and delivering locally, exactly while the client is disconnected; triggering
/// shared events always; sending the buffered messages exactly while the server runs and its
/// tick changed.
pub proof fn law_server_run_conditions(f: Frame)
    ensures
        runs_in(system_view(SystemName::ServerReceive, Schedule::PreUpdate), f) <==> f.server
            == ServerStatus::Running,
        runs_in(system_view(SystemName::ServerTrigger, Schedule::PreUpdate), f) <==> f.client
            == ClientStatus::Disconnected,
        runs_in(system_view(SystemName::ServerReceiveShared, Schedule::PreUpdate), f)
            <==> f.server == ServerStatus::Running,
        runs_in(system_view(SystemName::ServerTriggerShared, Schedule::PreUpdate), f),
        runs_in(system_view(SystemName::ServerSendOrBuffer, Schedule::PostUpdate), f) <==> f.server
            == ServerStatus::Running,
        runs_in(system_view(SystemName::ServerSendBuffered, Schedule::PostUpdate), f) <==> (f.server
            == ServerStatus::Running && f.server_tick_changed),
        runs_in(system_view(SystemName::ServerSendLocally, Schedule::PostUpdate), f) <==> f.client
            == ClientStatus::Disconnected,
{
    lemma_runs_single(system_view(SystemName::ServerReceive, Schedule::PreUpdate), f);
    lemma_runs_single(system_view(SystemName::ServerTrigger, Schedule::PreUpdate), f);
    lemma_runs_single(system_view(SystemName::ServerReceiveShared, Schedule::PreUpdate), f);
    lemma_runs_single(system_view(SystemName::ServerSendOrBuffer, Schedule::PostUpdate), f);
    lemma_runs_single(system_view(SystemName::ServerSendLocally, Schedule::PostUpdate), f);
    let v = system_view(SystemName::ServerSendBuffered, Schedule::PostUpdate);
    if f.server == ServerStatus::Running && f.server_tick_changed {
        assert forall|i: int| 0 <= i < v.run_if.len() implies condition_holds(
            #[trigger] v.run_if[i],
            f,
        ) by {
            assert(i == 0 || i == 1);
        }
    }
    if runs_in(v, f) {
        assert(condition_holds(v.run_if[0], f));
        assert(condition_holds(v.run_if[1], f));
    }
}

proof fn lemma_runs_single(v: SystemView, f: Frame)
    requires
        v.run_if.len() == 1,
    ensures
        runs_in(v, f) <==> condition_holds(v.run_if[0], f),
{
    if condition_holds(v.run_if[0], f) {
        assert forall|i: int| 0 <= i < v.run_if.len() implies condition_holds(
            #[trigger] v.run_if[i],
            f,
        ) by {
            assert(i == 0);
        }
    }
}

/// What the messages of each system are handed besides their resources: the client's sends,
/// plain and shared, get a client send context and the client's network buffer; the client's
/// receive gets a client receive context, the client's network buffer and the update tick;
/// the server's receives, plain and shared, get a server receive context and the server's
/// network buffer; the server's send-or-buffer gets a server send context, the server's
/// network buffer, the connected clients and the message buffer; no other system hands a
/// context or a network buffer. A system of one side never hands the other side's network
/// buffer.
pub proof fn law_run_arguments(name: SystemName)
    ensures
        (name == SystemName::ClientSend || name == SystemName::ClientSendShared) ==> system_args(name)
            == (RunArgs {
            context: Some(ContextKind::ClientSend),
            buffer: Some(NetworkBuffer::ClientMessages),
            update_tick: false,
            connected_clients: false,
            message_buffer: false,
        }),
        name == SystemName::ClientReceive ==> system_args(name) == (RunArgs {
            context: Some(ContextKind::ClientReceive),
            buffer: Some(NetworkBuffer::ClientMessages),
            update_tick: true,
            connected_clients: false,
            message_buffer: false,
        }),
        (name == SystemName::ServerReceive || name == SystemName::ServerReceiveShared)
            ==> system_args(name) == (RunArgs {
            context: Some(ContextKind::ServerReceive),
            buffer: Some(NetworkBuffer::ServerMessages),
            update_tick: false,
            connected_clients: false,
            message_buffer: false,
        }),
        name == SystemName::ServerSendOrBuffer ==> system_args(name) == (RunArgs {
            context: Some(ContextKind::ServerSend),
            buffer: Some(NetworkBuffer::ServerMessages),
            update_tick: false,
            connected_clients: true,
            message_buffer: true,
        }),
        !(name == SystemName::ClientSend || name == SystemName::ClientSendShared || name
            == SystemName::ClientReceive || name == SystemName::ServerReceive || name
            == SystemName::ServerReceiveShared || name == SystemName::ServerSendOrBuffer)
            ==> system_args(name).context is None && system_args(name).buffer is None,
        is_client_system(name) ==> system_args(name).buffer != Some(NetworkBuffer::ServerMessages),
        !is_client_system(name) ==> system_args(name).buffer != Some(NetworkBuffer::ClientMessages),
{
}

/// What each system runs after: the client receives after replication was received and
/// triggers server events after receiving them; it delivers locally after sending, and
/// triggers shared events after delivering shared messages locally; the server triggers
/// events after receiving them; every other client system is not ordered.
pub proof fn law_ordering()
    ensures
        system_after(SystemName::ClientReceive) == seq![SystemRef::ReceiveReplication],
        system_after(SystemName::ClientTrigger) == seq![SystemRef::Local(SystemName::ClientReceive)],
        system_after(SystemName::ClientSend).len() == 0,
        system_after(SystemName::ClientSendLocally) == seq![SystemRef::Local(SystemName::ClientSend)],
        system_after(SystemName::ClientSendShared).len() == 0,
        system_after(SystemName::ClientSendSharedLocally) == seq![
            SystemRef::Local(SystemName::ClientSendShared),
        ],
        system_after(SystemName::ClientTriggerShared) == seq![
            SystemRef::Local(SystemName::ClientSendSharedLocally),
        ],
        system_after(SystemName::ClientReset).len() == 0,
        system_after(SystemName::ServerReceive).len() == 0,
        system_after(SystemName::ServerTrigger) == seq![SystemRef::Local(SystemName::ServerReceive)],
        system_after(SystemName::ServerReceiveShared).len() == 0,
        system_after(SystemName::ServerTriggerShared) == seq![
            SystemRef::Local(SystemName::ServerReceiveShared),
        ],
{
}

/// Each system's set: the client's receiving and triggering of server events in its receive
/// set, its sending, local delivery and shared triggering in its send set, its reset in its
/// reset set; the server's receiving and triggering in its receive set, its sending in its
/// send set.
pub proof fn law_sets(name: SystemName)
    ensures
        (name == SystemName::ClientReceive || name == SystemName::ClientTrigger) ==> system_set(name)
            == SystemSet::ClientReceive,
        (name == SystemName::ClientSend || name == SystemName::ClientSendLocally || name
            == SystemName::ClientSendShared || name == SystemName::ClientSendSharedLocally || name
            == SystemName::ClientTriggerShared) ==> system_set(name) == SystemSet::ClientSend,
        name == SystemName::ClientReset ==> system_set(name) == SystemSet::ClientReset,
        (name == SystemName::ServerReceive || name == SystemName::ServerTrigger || name
            == SystemName::ServerReceiveShared || name == SystemName::ServerTriggerShared)
            ==> system_set(name) == SystemSet::ServerReceive,
        (name == SystemName::ServerSendOrBuffer || name == SystemName::ServerSendBuffered || name
            == SystemName::ServerSendLocally) ==> system_set(name) == SystemSet::ServerSend,
        is_client_system(name) <==> (system_set(name) == SystemSet::ClientReceive || system_set(name)
            == SystemSet::ClientSend || system_set(name) == SystemSet::ClientReset),
{
}

} // verus!
