//! What holds of the plugins across their functions: the access their systems declare, the
//! order they run in, and what they leave out.
use vstd::prelude::*;
use crate::client::client_entries;
use crate::registry::{
    ClientField, RegistryView, Resources, Selection, ServerField, SharedField,
};
use crate::server::server_entries;
use crate::shared::{shared_setup, AuthMethod, Channel, SharedSetup};
use crate::systems::{
    counts_fit, covers, entry_views, lemma_ids_len, loop_steps, param_ids, steps, system_after,
    system_loops, system_queries, system_view, Access, DispatchStep, Lookup, LookupTemplate,
    LoopTemplate, QueryParam, Schedule, SystemName, SystemRef, condition_holds, runs_in, Frame,
    ClientStatus, ServerStatus,
};

verus! {

/// A fetch goes through one of the system's query parameters, which declared the fetched
/// resource with enough access.
pub open spec fn lookup_declared(reg: RegistryView, queries: Seq<QueryParam>, l: Lookup) -> bool {
    &&& l.query < queries.len()
    &&& param_ids(reg, queries[l.query as int]).contains(l.resource)
    &&& covers(queries[l.query as int].access, l.access)
}

/// Both fetches of a step are declared.
pub open spec fn step_declared(reg: RegistryView, queries: Seq<QueryParam>, st: DispatchStep) -> bool {
    &&& lookup_declared(reg, queries, st.first)
    &&& (st.second matches Some(l) ==> lookup_declared(reg, queries, l))
}

spec fn template_declared(queries: Seq<QueryParam>, t: LookupTemplate) -> bool {
    &&& t.query < queries.len()
    &&& queries[t.query as int].resources == t.resources
    &&& covers(queries[t.query as int].access, t.access)
}

spec fn loop_declared(queries: Seq<QueryParam>, t: LoopTemplate) -> bool {
    &&& t.well_formed()
    &&& template_declared(queries, t.first)
    &&& (t.second matches Some(s) ==> template_declared(queries, s))
}

proof fn lemma_loop_steps_declared(reg: RegistryView, queries: Seq<QueryParam>, t: LoopTemplate)
    requires
        loop_declared(queries, t),
    ensures
        forall|j: int|
            0 <= j < loop_steps(reg, t).len() ==> step_declared(
                reg,
                queries,
                #[trigger] loop_steps(reg, t)[j],
            ),
{
    lemma_ids_len(reg, t.first.resources);
    assert forall|j: int| 0 <= j < loop_steps(reg, t).len() implies step_declared(
        reg,
        queries,
        #[trigger] loop_steps(reg, t)[j],
    ) by {
        let st = loop_steps(reg, t)[j];
        assert(reg.ids(t.first.resources)[j] == st.first.resource);
        match t.second {
            Some(s) => {
                lemma_ids_len(reg, s.resources);
                assert(reg.ids(s.resources)[j] == st.second.unwrap().resource);
            },
            None => {},
        }
    }
}

proof fn lemma_steps_declared(reg: RegistryView, queries: Seq<QueryParam>, loops: Seq<LoopTemplate>)
    requires
        forall|k: int| 0 <= k < loops.len() ==> loop_declared(queries, #[trigger] loops[k]),
    ensures
        forall|j: int|
            0 <= j < steps(reg, loops).len() ==> step_declared(
                reg,
                queries,
                #[trigger] steps(reg, loops)[j],
            ),
    decreases loops.len(),
{
    if loops.len() > 0 {
        let prefix = loops.drop_last();
        assert forall|k: int| 0 <= k < prefix.len() implies loop_declared(
            queries,
            #[trigger] prefix[k],
        ) by {
            assert(prefix[k] == loops[k]);
        }
        lemma_steps_declared(reg, queries, prefix);
        assert(loop_declared(queries, loops[loops.len() - 1]));
        lemma_loop_steps_declared(reg, queries, loops.last());
        let a = steps(reg, prefix);
        let b = loop_steps(reg, loops.last());
        assert forall|j: int| 0 <= j < steps(reg, loops).len() implies step_declared(
            reg,
            queries,
            #[trigger] steps(reg, loops)[j],
        ) by {
            if j < a.len() {
                assert(steps(reg, loops)[j] == a[j]);
            } else {
                assert(steps(reg, loops)[j] == b[j - a.len()]);
            }
        }
    }
}

/// Every resource that a system of either plugin fetches when it runs was declared by the
/// query parameters that the plugin built it with, with enough access: no fetch finds its
/// resource missing from the system's access.
pub proof fn law_fetches_declared(reg: RegistryView, name: SystemName, schedule: Schedule)
    ensures
        forall|j: int|
            0 <= j < steps(reg, system_loops(name)).len() ==> step_declared(
                reg,
                system_view(name, schedule).queries,
                #[trigger] steps(reg, system_loops(name))[j],
            ),
{
    let queries = system_view(name, schedule).queries;
    let loops = system_loops(name);
    assert forall|k: int| 0 <= k < loops.len() implies loop_declared(queries, #[trigger] loops[k]) by {
    }
    lemma_steps_declared(reg, queries, loops);
}

/// Every system that either plugin plans for a registry can fetch, when it runs, every
/// resource that it hands to the registered messages.
pub proof fn law_planned_fetches_declared(reg: RegistryView)
    ensures
        forall|k: int, j: int|
            0 <= k < entry_views(client_entries(reg)).len() && 0 <= j < steps(
                reg,
                system_loops(entry_views(client_entries(reg))[k].name),
            ).len() ==> step_declared(
                reg,
                entry_views(client_entries(reg))[k].queries,
                #[trigger] steps(reg, system_loops(entry_views(client_entries(reg))[k].name))[j],
            ),
        forall|k: int, j: int|
            0 <= k < entry_views(server_entries(reg)).len() && 0 <= j < steps(
                reg,
                system_loops(entry_views(server_entries(reg))[k].name),
            ).len() ==> step_declared(
                reg,
                entry_views(server_entries(reg))[k].queries,
                #[trigger] steps(reg, system_loops(entry_views(server_entries(reg))[k].name))[j],
            ),
{
    let c = entry_views(client_entries(reg));
    assert forall|k: int, j: int|
        0 <= k < c.len() && 0 <= j < steps(reg, system_loops(c[k].name)).len() implies step_declared(
        reg,
        c[k].queries,
        #[trigger] steps(reg, system_loops(c[k].name))[j],
    ) by {
        let e = client_entries(reg)[k];
        assert(c[k] == system_view(e.0, e.1));
        law_fetches_declared(reg, e.0, e.1);
    }
    let s = entry_views(server_entries(reg));
    assert forall|k: int, j: int|
        0 <= k < s.len() && 0 <= j < steps(reg, system_loops(s[k].name)).len() implies step_declared(
        reg,
        s[k].queries,
        #[trigger] steps(reg, system_loops(s[k].name))[j],
    ) by {
        let e = server_entries(reg)[k];
        assert(s[k] == system_view(e.0, e.1));
        law_fetches_declared(reg, e.0, e.1);
    }
}

proof fn lemma_contains1<A>(a: A, x: A)
    ensures
        seq![a].contains(x) <==> x == a,
{
    if x == a {
        assert(seq![a][0] == a);
    }
}

proof fn lemma_contains2<A>(a: A, b: A, x: A)
    ensures
        seq![a, b].contains(x) <==> (x == a || x == b),
{
    if x == a {
        assert(seq![a, b][0] == a);
    }
    if x == b {
        assert(seq![a, b][1] == b);
    }
}

proof fn lemma_contains3<A>(a: A, b: A, c: A, x: A)
    ensures
        seq![a, b, c].contains(x) <==> (x == a || x == b || x == c),
{
    if x == a {
        assert(seq![a, b, c][0] == a);
    }
    if x == b {
        assert(seq![a, b, c][1] == b);
    }
    if x == c {
        assert(seq![a, b, c][2] == c);
    }
}

proof fn lemma_contains0<A>(x: A)
    ensures
        !Seq::<A>::empty().contains(x),
{
}

/// When the client plugin adds a system to a schedule.
pub open spec fn client_planned(reg: RegistryView, entry: (SystemName, Schedule)) -> bool {
    match entry {
        (SystemName::ClientReceive, Schedule::PreUpdate) => reg.has_any_server(),
        (SystemName::ClientReceive, Schedule::OnEnterClientConnected) => reg.has_any_server(),
        (SystemName::ClientTrigger, Schedule::PreUpdate) => reg.has_server_events(),
        (SystemName::ClientTrigger, Schedule::OnEnterClientConnected) => reg.has_server_events(),
        (SystemName::ClientSend, Schedule::PostUpdate) => reg.has_any_client(),
        (SystemName::ClientSendLocally, Schedule::PostUpdate) => reg.has_any_client(),
        (SystemName::ClientSendShared, Schedule::PostUpdate) => reg.has_any_shared(),
        (SystemName::ClientSendSharedLocally, Schedule::PostUpdate) => reg.has_any_shared(),
        (SystemName::ClientTriggerShared, Schedule::PostUpdate) => reg.has_shared_events(),
        (SystemName::ClientReset, Schedule::OnExitClientConnected) => !reg.is_empty(),
        _ => false,
    }
}

/// When the server plugin adds a system to a schedule.
pub open spec fn server_planned(reg: RegistryView, entry: (SystemName, Schedule)) -> bool {
    match entry {
        (SystemName::ServerReceive, Schedule::PreUpdate) => reg.has_any_client(),
        (SystemName::ServerTrigger, Schedule::PreUpdate) => reg.has_client_events(),
        (SystemName::ServerReceiveShared, Schedule::PreUpdate) => reg.has_any_shared(),
        (SystemName::ServerTriggerShared, Schedule::PreUpdate) => reg.has_shared_events(),
        (SystemName::ServerSendOrBuffer, Schedule::PostUpdate) => reg.has_any_server(),
        (SystemName::ServerSendBuffered, Schedule::PostUpdate) => reg.has_any_server(),
        (SystemName::ServerSendLocally, Schedule::PostUpdate) => reg.has_any_server(),
        _ => false,
    }
}

/// The client plugin adds a system to a schedule exactly when its messages call for it: the
/// receiving systems when messages come from the server, the triggering ones when some of
/// them are events, the sending ones when messages go to the server or are shared, and the
/// reset on disconnect when anything is registered at all.
pub proof fn law_client_planned(reg: RegistryView, entry: (SystemName, Schedule))
    ensures
        client_entries(reg).contains(entry) <==> client_planned(reg, entry),
{
    broadcast use vstd::seq_lib::lemma_seq_concat_contains_all_elements;

    lemma_contains0(entry);
    lemma_contains2(
        (SystemName::ClientReceive, Schedule::PreUpdate),
        (SystemName::ClientReceive, Schedule::OnEnterClientConnected),
        entry,
    );
    lemma_contains2(
        (SystemName::ClientTrigger, Schedule::PreUpdate),
        (SystemName::ClientTrigger, Schedule::OnEnterClientConnected),
        entry,
    );
    lemma_contains2(
        (SystemName::ClientSend, Schedule::PostUpdate),
        (SystemName::ClientSendLocally, Schedule::PostUpdate),
        entry,
    );
    lemma_contains2(
        (SystemName::ClientSendShared, Schedule::PostUpdate),
        (SystemName::ClientSendSharedLocally, Schedule::PostUpdate),
        entry,
    );
    lemma_contains1((SystemName::ClientTriggerShared, Schedule::PostUpdate), entry);
    lemma_contains1((SystemName::ClientReset, Schedule::OnExitClientConnected), entry);
}

/// The server plugin adds a system to a schedule exactly when its messages call for it: the
/// receiving systems when messages come from clients or are shared, the triggering ones when
/// some of them are events, and the sending ones when messages go to clients.
pub proof fn law_server_planned(reg: RegistryView, entry: (SystemName, Schedule))
    ensures
        server_entries(reg).contains(entry) <==> server_planned(reg, entry),
{
    broadcast use vstd::seq_lib::lemma_seq_concat_contains_all_elements;

    lemma_contains0(entry);
    lemma_contains1((SystemName::ServerReceive, Schedule::PreUpdate), entry);
    lemma_contains1((SystemName::ServerTrigger, Schedule::PreUpdate), entry);
    lemma_contains1((SystemName::ServerReceiveShared, Schedule::PreUpdate), entry);
    lemma_contains1((SystemName::ServerTriggerShared, Schedule::PreUpdate), entry);
    lemma_contains3(
        (SystemName::ServerSendOrBuffer, Schedule::PostUpdate),
        (SystemName::ServerSendBuffered, Schedule::PostUpdate),
        (SystemName::ServerSendLocally, Schedule::PostUpdate),
        entry,
    );
}

/// Every system of the plugin that a planned system is ordered after is planned too, in the
/// same schedule.
pub open spec fn order_targets_planned(entries: Seq<(SystemName, Schedule)>) -> bool {
    forall|k: int, m: int|
        0 <= k < entries.len() && 0 <= m < system_after(entries[k].0).len() ==> (
        #[trigger] system_after(entries[k].0)[m] matches SystemRef::Local(n) ==> entries.contains(
            (n, entries[k].1),
        ))
}

/// The client plugin never orders a system after one of its own that it did not add: events
/// are triggered after their messages were received (in both schedules), messages are moved
/// locally after sending, and shared events are triggered after the shared messages were
/// moved locally.
pub proof fn law_client_order_targets_planned(reg: RegistryView)
    ensures
        order_targets_planned(client_entries(reg)),
{
    let e = client_entries(reg);
    assert forall|k: int, m: int|
        0 <= k < e.len() && 0 <= m < system_after(e[k].0).len() implies (
        #[trigger] system_after(e[k].0)[m] matches SystemRef::Local(n) ==> e.contains((n, e[k].1)))
        by {
        assert(e.contains(e[k]));
        law_client_planned(reg, e[k]);
        if system_after(e[k].0)[m] is Local {
            let n = system_after(e[k].0)[m]->Local_0;
            law_client_planned(reg, (n, e[k].1));
        }
    }
}

/// The server plugin never orders a system after one of its own that it did not add: events
/// are triggered after their messages were received, and buffered messages are sent after
/// sending or buffering and before being moved locally.
pub proof fn law_server_order_targets_planned(reg: RegistryView)
    ensures
        order_targets_planned(server_entries(reg)),
{
    let e = server_entries(reg);
    assert forall|k: int, m: int|
        0 <= k < e.len() && 0 <= m < system_after(e[k].0).len() implies (
        #[trigger] system_after(e[k].0)[m] matches SystemRef::Local(n) ==> e.contains((n, e[k].1)))
        by {
        assert(e.contains(e[k]));
        law_server_planned(reg, e[k]);
        if system_after(e[k].0)[m] is Local {
            let n = system_after(e[k].0)[m]->Local_0;
            law_server_planned(reg, (n, e[k].1));
        }
    }
}

proof fn lemma_steps_push(reg: RegistryView, loops: Seq<LoopTemplate>, t: LoopTemplate)
    ensures
        steps(reg, loops.push(t)) == steps(reg, loops) + loop_steps(reg, t),
{
    assert(loops.push(t).drop_last() =~= loops);
}

/// No two resources of the registry share an id: every resource of every message, in every
/// role, is a resource of its own.
pub open spec fn roles_distinct(reg: RegistryView) -> bool {
    forall|r1: Resources, r2: Resources, i: int, j: int|
        r1.spec_source().selection() == Selection::All && r2.spec_source().selection()
            == Selection::All && (r1 != r2 || i != j) && 0 <= i < reg.ids(r1).len() && 0 <= j
            < reg.ids(r2).len() ==> #[trigger] reg.ids(r1)[i] != #[trigger] reg.ids(r2)[j]
}

/// Two lists of ids share none.
pub open spec fn disjoint(a: Seq<usize>, b: Seq<usize>) -> bool {
    forall|i: int, j: int| 0 <= i < a.len() && 0 <= j < b.len() ==> a[i] != b[j]
}

/// When the registry gives every resource an id of its own, no system of either plugin
/// declares a resource in two of its query parameters where one of them writes it, so the
/// access of every built system is free of conflicts.
pub proof fn law_no_conflicting_access(reg: RegistryView, name: SystemName)
    requires
        roles_distinct(reg),
    ensures
        forall|p: int, q: int|
            0 <= p < system_queries(name).len() && 0 <= q < system_queries(name).len() && p != q
                && (system_queries(name)[p].access == Access::Write || system_queries(name)[q].access
                == Access::Write) ==> disjoint(
                param_ids(reg, #[trigger] system_queries(name)[p]),
                param_ids(reg, #[trigger] system_queries(name)[q]),
            ),
{
    let qs = system_queries(name);
    assert forall|p: int, q: int|
        0 <= p < qs.len() && 0 <= q < qs.len() && p != q && (qs[p].access == Access::Write
            || qs[q].access == Access::Write) implies disjoint(
        param_ids(reg, #[trigger] qs[p]),
        param_ids(reg, #[trigger] qs[q]),
    ) by {
        let r1 = qs[p].resources;
        let r2 = qs[q].resources;
        assert(r1 != r2);
        assert(r1.spec_source().selection() == Selection::All);
        assert(r2.spec_source().selection() == Selection::All);
        assert forall|i: int, j: int|
            0 <= i < reg.ids(r1).len() && 0 <= j < reg.ids(r2).len() implies reg.ids(r1)[i]
            != reg.ids(r2)[j] by {}
    }
}

/// On disconnect the client clears, in this order, the messages of every message to the
/// server, the queue of every message from the server and the received messages of every
/// shared message, all of them with write access.
pub proof fn law_reset_clears_everything(reg: RegistryView)
    ensures
        steps(reg, system_loops(SystemName::ClientReset)).map_values(|st: DispatchStep| st.first.resource)
            == reg.ids(Resources::Client(Selection::All, ClientField::Messages)) + reg.ids(
            Resources::Server(Selection::All, ServerField::Queue),
        ) + reg.ids(Resources::Shared(Selection::All, SharedField::Messages)),
        forall|j: int|
            0 <= j < steps(reg, system_loops(SystemName::ClientReset)).len() ==> (#[trigger] steps(
                reg,
                system_loops(SystemName::ClientReset),
            )[j]).first.access == Access::Write && steps(
                reg,
                system_loops(SystemName::ClientReset),
            )[j].second is None,
{
    let loops = system_loops(SystemName::ClientReset);
    let a = loop_steps(reg, loops[0]);
    let b = loop_steps(reg, loops[1]);
    let c = loop_steps(reg, loops[2]);
    let l0 = Seq::<LoopTemplate>::empty().push(loops[0]);
    let l1 = l0.push(loops[1]);
    assert(loops =~= l1.push(loops[2]));
    lemma_steps_push(reg, Seq::empty(), loops[0]);
    lemma_steps_push(reg, l0, loops[1]);
    lemma_steps_push(reg, l1, loops[2]);
    assert(steps(reg, Seq::<LoopTemplate>::empty()) =~= Seq::<DispatchStep>::empty());
    assert(steps(reg, loops) =~= a + b + c);
    let f = |st: DispatchStep| st.first.resource;
    assert(a.map_values(f) =~= reg.ids(Resources::Client(Selection::All, ClientField::Messages)));
    assert(b.map_values(f) =~= reg.ids(Resources::Server(Selection::All, ServerField::Queue)));
    assert(c.map_values(f) =~= reg.ids(Resources::Shared(Selection::All, SharedField::Messages)));
    assert((a + b + c).map_values(f) =~= a.map_values(f) + b.map_values(f) + c.map_values(f));
}

/// A plugin with nothing registered adds no systems.
pub proof fn law_empty_registry_adds_nothing(reg: RegistryView)
    requires
        reg.is_empty(),
    ensures
        client_entries(reg).len() == 0,
        server_entries(reg).len() == 0,
{
}

/// Neither plugin adds the same system to the same schedule twice.
pub proof fn law_entries_unique(reg: RegistryView)
    ensures
        forall|i: int, j: int|
            0 <= i < j < client_entries(reg).len() ==> client_entries(reg)[i] != client_entries(
                reg,
            )[j],
        forall|i: int, j: int|
            0 <= i < j < server_entries(reg).len() ==> server_entries(reg)[i] != server_entries(
                reg,
            )[j],
{
    let e = client_entries(reg);
    assert forall|i: int, j: int| 0 <= i < j < e.len() implies e[i] != e[j] by {
        // entries of the client plugin are ordered by a rank that grows strictly
        lemma_client_rank(reg, i);
        lemma_client_rank(reg, j);
    }
    let f = server_entries(reg);
    assert forall|i: int, j: int| 0 <= i < j < f.len() implies f[i] != f[j] by {
        lemma_server_rank(reg, i);
        lemma_server_rank(reg, j);
    }
}

spec fn client_rank(e: (SystemName, Schedule)) -> int {
    match e {
        (SystemName::ClientReceive, Schedule::PreUpdate) => 0,
        (SystemName::ClientReceive, _) => 1,
        (SystemName::ClientTrigger, Schedule::PreUpdate) => 2,
        (SystemName::ClientTrigger, _) => 3,
        (SystemName::ClientSend, _) => 4,
        (SystemName::ClientSendLocally, _) => 5,
        (SystemName::ClientSendShared, _) => 6,
        (SystemName::ClientSendSharedLocally, _) => 7,
        (SystemName::ClientTriggerShared, _) => 8,
        _ => 9,
    }
}

spec fn server_rank(e: (SystemName, Schedule)) -> int {
    match e.0 {
        SystemName::ServerReceive => 0,
        SystemName::ServerTrigger => 1,
        SystemName::ServerReceiveShared => 2,
        SystemName::ServerTriggerShared => 3,
        SystemName::ServerSendOrBuffer => 4,
        SystemName::ServerSendBuffered => 5,
        _ => 6,
    }
}

proof fn lemma_client_rank(reg: RegistryView, i: int)
    requires
        0 <= i < client_entries(reg).len(),
    ensures
        forall|j: int|
            i < j < client_entries(reg).len() ==> client_rank(client_entries(reg)[i]) < client_rank(
                #[trigger] client_entries(reg)[j],
            ),
{
}

proof fn lemma_server_rank(reg: RegistryView, i: int)
    requires
        0 <= i < server_entries(reg).len(),
    ensures
        forall|j: int|
            i < j < server_entries(reg).len() ==> server_rank(server_entries(reg)[i]) < server_rank(
                #[trigger] server_entries(reg)[j],
            ),
{
}

/// The shared plugin registers the events of the protocol check exactly when the
/// authorization method is the protocol check, and always makes the method available.
pub proof fn law_protocol_check_events(auth_method: AuthMethod)
    ensures
        shared_setup(auth_method).contains(SharedSetup::AddProtocolHashClientEvent(Channel::Ordered))
            <==> auth_method == AuthMethod::ProtocolCheck,
        shared_setup(auth_method).contains(
            SharedSetup::AddProtocolMismatchServerEvent(Channel::Unreliable),
        ) <==> auth_method == AuthMethod::ProtocolCheck,
        shared_setup(auth_method).contains(SharedSetup::InsertAuthMethod(auth_method)),
{
    let s = shared_setup(auth_method);
    assert(s[11] == SharedSetup::InsertAuthMethod(auth_method));
    if auth_method == AuthMethod::ProtocolCheck {
        assert(s[13] == SharedSetup::AddProtocolHashClientEvent(Channel::Ordered));
        assert(s[14] == SharedSetup::AddProtocolMismatchServerEvent(Channel::Unreliable));
    }
}

/// A system with one loop hands each message of its source its resources once, in registry
/// order.
pub proof fn law_each_message_once(reg: RegistryView, name: SystemName)
    requires
        system_loops(name).len() == 1,
        counts_fit(reg),
    ensures
        steps(reg, system_loops(name)).len() == reg.count(
            system_loops(name)[0].first.resources.spec_source(),
        ),
        forall|j: int|
            0 <= j < steps(reg, system_loops(name)).len() ==> (#[trigger] steps(
                reg,
                system_loops(name),
            )[j]).index == j && steps(reg, system_loops(name))[j].source == system_loops(
                name,
            )[0].first.resources.spec_source(),
{
    let loops = system_loops(name);
    assert(loops =~= Seq::<LoopTemplate>::empty().push(loops[0]));
    lemma_steps_push(reg, Seq::empty(), loops[0]);
    assert(steps(reg, Seq::<LoopTemplate>::empty()) =~= Seq::<DispatchStep>::empty());
    assert(steps(reg, loops) =~= loop_steps(reg, loops[0]));
    lemma_ids_len(reg, loops[0].first.resources);
    assert(steps(reg, loops).len() <= usize::MAX);
}

/// In no frame does the client both send its messages to the server and deliver them
/// locally: sending runs only while connected, delivering locally only while disconnected;
/// the same holds of shared messages.
pub proof fn law_client_sends_or_delivers_locally(frame: Frame)
    ensures
        !(runs_in(system_view(SystemName::ClientSend, Schedule::PostUpdate), frame) && runs_in(
            system_view(SystemName::ClientSendLocally, Schedule::PostUpdate),
            frame,
        )),
        !(runs_in(system_view(SystemName::ClientSendShared, Schedule::PostUpdate), frame)
            && runs_in(system_view(SystemName::ClientSendSharedLocally, Schedule::PostUpdate), frame)),
{
    assert(condition_holds(
        system_view(SystemName::ClientSend, Schedule::PostUpdate).run_if[0],
        frame,
    ) ==> frame.client == ClientStatus::Connected);
    if runs_in(system_view(SystemName::ClientSend, Schedule::PostUpdate), frame) {
        assert(condition_holds(
            system_view(SystemName::ClientSend, Schedule::PostUpdate).run_if[0],
            frame,
        ));
        assert(!condition_holds(
            system_view(SystemName::ClientSendLocally, Schedule::PostUpdate).run_if[0],
            frame,
        ));
    }
    if runs_in(system_view(SystemName::ClientSendShared, Schedule::PostUpdate), frame) {
        assert(condition_holds(
            system_view(SystemName::ClientSendShared, Schedule::PostUpdate).run_if[0],
            frame,
        ));
        assert(!condition_holds(
            system_view(SystemName::ClientSendSharedLocally, Schedule::PostUpdate).run_if[0],
            frame,
        ));
    }
}

/// When the server sends messages, it does so in one chain after its replication sends: it
/// sends or buffers them, then sends the buffered messages (only in frames whose server tick
/// changed), then delivers them locally, all in the same schedule.
pub proof fn law_server_send_chain(reg: RegistryView)
    requires
        reg.has_any_server(),
    ensures
        server_entries(reg).contains((SystemName::ServerSendOrBuffer, Schedule::PostUpdate)),
        server_entries(reg).contains((SystemName::ServerSendBuffered, Schedule::PostUpdate)),
        server_entries(reg).contains((SystemName::ServerSendLocally, Schedule::PostUpdate)),
        system_after(SystemName::ServerSendOrBuffer).contains(SystemRef::SendMessages),
        system_after(SystemName::ServerSendBuffered).contains(
            SystemRef::Local(SystemName::ServerSendOrBuffer),
        ),
        system_after(SystemName::ServerSendBuffered).contains(SystemRef::SendMessages),
        system_after(SystemName::ServerSendLocally).contains(
            SystemRef::Local(SystemName::ServerSendBuffered),
        ),
        system_after(SystemName::ServerSendLocally).contains(SystemRef::SendMessages),
        forall|frame: Frame|
            runs_in(system_view(SystemName::ServerSendBuffered, Schedule::PostUpdate), frame)
                ==> frame.server_tick_changed && frame.server == ServerStatus::Running,
{
    law_server_planned(reg, (SystemName::ServerSendOrBuffer, Schedule::PostUpdate));
    law_server_planned(reg, (SystemName::ServerSendBuffered, Schedule::PostUpdate));
    law_server_planned(reg, (SystemName::ServerSendLocally, Schedule::PostUpdate));
    assert(system_after(SystemName::ServerSendOrBuffer)[0] == SystemRef::SendMessages);
    assert(system_after(SystemName::ServerSendBuffered)[0] == SystemRef::Local(
        SystemName::ServerSendOrBuffer,
    ));
    assert(system_after(SystemName::ServerSendBuffered)[1] == SystemRef::SendMessages);
    assert(system_after(SystemName::ServerSendLocally)[0] == SystemRef::Local(
        SystemName::ServerSendBuffered,
    ));
    assert(system_after(SystemName::ServerSendLocally)[1] == SystemRef::SendMessages);
    assert forall|frame: Frame|
        runs_in(system_view(SystemName::ServerSendBuffered, Schedule::PostUpdate), frame)
        implies frame.server_tick_changed && frame.server == ServerStatus::Running by {
        let v = system_view(SystemName::ServerSendBuffered, Schedule::PostUpdate);
        assert(condition_holds(v.run_if[0], frame));
        assert(condition_holds(v.run_if[1], frame));
    }
}

} // verus!
