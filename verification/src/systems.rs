//! The systems that the message plugins add, as values: where each runs, under which
//! conditions, after what, which resources its query parameters may touch, and which
//! resources it fetches for each registered message when it runs.
use vstd::prelude::*;
use crate::registry::{
    ClientField, MessageSource, RegistryView, RemoteMessageRegistry, Resources, Selection,
    ServerField, SharedField,
};

verus! {

/// How a query parameter, or a fetch through it, uses a resource.
#[derive(Clone, Copy, Debug, PartialEq, Eq, Structural)]
pub enum Access {
    Read,
    Write,
}

/// Whether a query parameter declared with `declared` lets a fetch with `needed` through.
pub open spec fn covers(declared: Access, needed: Access) -> bool {
    declared == Access::Write || needed == Access::Read
}

/// The schedule a system is added to.
#[derive(Clone, Copy, Debug, PartialEq, Eq, Structural)]
pub enum Schedule {
    PreUpdate,
    PostUpdate,
    /// Entering the connected client state.
    OnEnterClientConnected,
    /// Leaving the connected client state.
    OnExitClientConnected,
}

/// A condition that a system runs under.
#[derive(Clone, Copy, Debug, PartialEq, Eq, Structural)]
pub enum RunCondition {
    ClientConnected,
    ClientDisconnected,
    ServerRunning,
    /// The server tick resource changed since the system last ran.
    ServerTickChanged,
}

/// The set a system is added to.
#[derive(Clone, Copy, Debug, PartialEq, Eq, Structural)]
pub enum SystemSet {
    ClientReceive,
    ClientSend,
    ClientReset,
    ServerReceive,
    ServerSend,
}

/// The systems of the message plugins.
#[derive(Clone, Copy, Debug, PartialEq, Eq, Hash, Structural)]
pub enum SystemName {
    ClientReceive,
    ClientTrigger,
    ClientSend,
    ClientSendLocally,
    ClientSendShared,
    ClientSendSharedLocally,
    ClientTriggerShared,
    ClientReset,
    ServerReceive,
    ServerTrigger,
    ServerReceiveShared,
    ServerTriggerShared,
    ServerSendOrBuffer,
    ServerSendBuffered,
    ServerSendLocally,
}

/// A system that another one runs after.
#[derive(Clone, Copy, Debug, PartialEq, Eq, Structural)]
pub enum SystemRef {
    /// A system of the same plugin.
    Local(SystemName),
    /// The client system that receives replication.
    ReceiveReplication,
    /// The server system that sends replication and messages.
    SendMessages,
}

/// A dynamic query parameter: optional access to one resource of each message of a selection.
#[derive(Clone, Copy, Debug, PartialEq, Eq, Structural)]
pub struct QueryParam {
    pub access: Access,
    pub resources: Resources,
}

/// A system to add.
pub struct SystemSpec {
    pub name: SystemName,
    pub schedule: Schedule,
    pub run_if: Vec<RunCondition>,
    pub after: Vec<SystemRef>,
    pub set: SystemSet,
    /// The dynamic query parameters, in the order of the system's parameters.
    pub queries: Vec<QueryParam>,
}

/// A system to add, as values.
pub struct SystemView {
    pub name: SystemName,
    pub schedule: Schedule,
    pub run_if: Seq<RunCondition>,
    pub after: Seq<SystemRef>,
    pub set: SystemSet,
    pub queries: Seq<QueryParam>,
}

impl View for SystemSpec {
    type V = SystemView;

    open spec fn view(&self) -> SystemView {
        SystemView {
            name: self.name,
            schedule: self.schedule,
            run_if: self.run_if@,
            after: self.after@,
            set: self.set,
            queries: self.queries@,
        }
    }
}

/// The views of a list of systems.
pub open spec fn views(systems: Seq<SystemSpec>) -> Seq<SystemView> {
    systems.map_values(|s: SystemSpec| s@)
}

/// The text of the panic when a resource cannot be fetched.
#[derive(Clone, Copy, Debug, PartialEq, Eq, Structural)]
pub enum ResourceRole {
    Messages,
    MessageReader,
    SharedMessages,
    Queue,
    FromClientsMessages,
    ToClientsMessages,
    ToMessages,
}

pub open spec fn role_text(role: ResourceRole) -> Seq<char> {
    match role {
        ResourceRole::Messages => "messages resource should be accessible"@,
        ResourceRole::MessageReader => "message reader resource should be accessible"@,
        ResourceRole::SharedMessages => "shared messages resource should be accessible"@,
        ResourceRole::Queue => "queue resource should be accessible"@,
        ResourceRole::FromClientsMessages => "from clients messages resource should be accessible"@,
        ResourceRole::ToClientsMessages => "to clients messages resource should be accessible"@,
        ResourceRole::ToMessages => "to messages resource should be accessible"@,
    }
}

impl ResourceRole {
    /// What a system panics with when it cannot fetch a resource of this role.
    pub fn expect_text(self) -> (r: &'static str)
        ensures
            r@ == role_text(self),
    {
        match self {
            ResourceRole::Messages => "messages resource should be accessible",
            ResourceRole::MessageReader => "message reader resource should be accessible",
            ResourceRole::SharedMessages => "shared messages resource should be accessible",
            ResourceRole::Queue => "queue resource should be accessible",
            ResourceRole::FromClientsMessages => "from clients messages resource should be accessible",
            ResourceRole::ToClientsMessages => "to clients messages resource should be accessible",
            ResourceRole::ToMessages => "to messages resource should be accessible",
        }
    }
}

/// How a dispatch loop fetches one resource of each message.
#[derive(Clone, Copy, Debug, PartialEq, Eq, Structural)]
pub struct LookupTemplate {
    /// The query parameter it fetches through.
    pub query: usize,
    pub resources: Resources,
    pub access: Access,
    pub role: ResourceRole,
}

/// A loop of a system over the messages of one source, fetching one or two resources of each.
#[derive(Clone, Copy, Debug, PartialEq, Eq, Structural)]
pub struct LoopTemplate {
    pub first: LookupTemplate,
    pub second: Option<LookupTemplate>,
}

impl LoopTemplate {
    /// Both fetches walk the same messages.
    pub open spec fn well_formed(self) -> bool {
        match self.second {
            Some(s) => s.resources.source() == self.first.resources.source(),
            None => true,
        }
    }
}

/// One resource to fetch: through which query parameter, which, how, and what to panic with
/// when it cannot be fetched.
#[derive(Clone, Copy, Debug, PartialEq, Eq, Structural)]
pub struct Lookup {
    pub query: usize,
    pub resource: usize,
    pub access: Access,
    pub role: ResourceRole,
}

/// The work of a system for one message: fetch one or two resources, then hand them to the
/// message at `index` of `source`.
#[derive(Clone, Copy, Debug, PartialEq, Eq, Structural)]
pub struct DispatchStep {
    pub source: MessageSource,
    pub index: usize,
    pub first: Lookup,
    pub second: Option<Lookup>,
}

pub open spec fn lookup_at(reg: RegistryView, t: LookupTemplate, i: int) -> Lookup {
    Lookup { query: t.query, resource: reg.ids(t.resources)[i], access: t.access, role: t.role }
}

/// The steps of one loop, one per message of its source, in registry order.
pub open spec fn loop_steps(reg: RegistryView, t: LoopTemplate) -> Seq<DispatchStep> {
    Seq::new(
        reg.ids(t.first.resources).len(),
        |i: int|
            DispatchStep {
                source: t.first.resources.source(),
                index: i as usize,
                first: lookup_at(reg, t.first, i),
                second: match t.second {
                    Some(s) => Some(lookup_at(reg, s, i)),
                    None => None,
                },
            },
    )
}

/// The steps of loops run one after the other.
pub open spec fn steps(reg: RegistryView, loops: Seq<LoopTemplate>) -> Seq<DispatchStep>
    decreases loops.len(),
{
    if loops.len() == 0 {
        Seq::empty()
    } else {
        steps(reg, loops.drop_last()) + loop_steps(reg, loops.last())
    }
}

/// The ids a query parameter may touch.
pub open spec fn param_ids(reg: RegistryView, q: QueryParam) -> Seq<usize> {
    reg.ids(q.resources)
}

/// The number of messages of each source fits in memory.
pub open spec fn counts_fit(reg: RegistryView) -> bool {
    &&& reg.client_messages.len() + reg.client_events.len() <= usize::MAX
    &&& reg.server_messages.len() + reg.server_events.len() <= usize::MAX
    &&& reg.shared_messages.len() + reg.shared_events.len() <= usize::MAX
}

/// Lengths of the id lists of a source.
pub proof fn lemma_ids_len(reg: RegistryView, r: Resources)
    ensures
        reg.ids(r).len() == reg.count(r.source()),
{
}

/// The resource ids that a query parameter may touch, in registry order.
pub fn query_ids(registry: &RemoteMessageRegistry, q: QueryParam) -> (r: Vec<usize>)
    ensures
        r@ == param_ids(registry@, q),
{
    registry.ids(q.resources)
}

/// Appends the steps of one loop.
fn push_loop(out: &mut Vec<DispatchStep>, registry: &RemoteMessageRegistry, t: LoopTemplate)
    requires
        t.well_formed(),
    ensures
        final(out)@ == old(out)@ + loop_steps(registry@, t),
{
    let ghost reg = registry@;
    let first_ids = registry.ids(t.first.resources);
    let second_ids = match t.second {
        Some(s) => registry.ids(s.resources),
        None => Vec::new(),
    };
    proof {
        lemma_ids_len(reg, t.first.resources);
        match t.second {
            Some(s) => {
                lemma_ids_len(reg, s.resources);
            },
            None => {},
        }
    }
    let ghost start = out@;
    let n = first_ids.len();
    let mut i: usize = 0;
    while i < n
        invariant
            n == first_ids@.len(),
            first_ids@ == reg.ids(t.first.resources),
            t.second matches Some(s) ==> second_ids@ == reg.ids(s.resources) && second_ids@.len()
                == n,
            i <= n,
            out@ == start + loop_steps(reg, t).take(i as int),
        decreases n - i,
    {
        let first = Lookup {
            query: t.first.query,
            resource: first_ids[i],
            access: t.first.access,
            role: t.first.role,
        };
        let second = match t.second {
            Some(s) => Some(
                Lookup { query: s.query, resource: second_ids[i], access: s.access, role: s.role },
            ),
            None => None,
        };
        let step = DispatchStep { source: t.first.resources.source(), index: i, first, second };
        out.push(step);
        proof {
            assert(loop_steps(reg, t)[i as int] == step);
            assert(loop_steps(reg, t).take(i + 1) =~= loop_steps(reg, t).take(i as int).push(step));
        }
        i = i + 1;
    }
    assert(loop_steps(reg, t).take(n as int) =~= loop_steps(reg, t));
}

/// The steps of loops run one after the other.
pub fn dispatch_loops(registry: &RemoteMessageRegistry, loops: &Vec<LoopTemplate>) -> (r: Vec<
    DispatchStep,
>)
    requires
        forall|k: int| 0 <= k < loops@.len() ==> (#[trigger] loops@[k]).well_formed(),
    ensures
        r@ == steps(registry@, loops@),
{
    let mut out: Vec<DispatchStep> = Vec::new();
    let n = loops.len();
    let mut k: usize = 0;
    while k < n
        invariant
            n == loops@.len(),
            k <= n,
            forall|j: int| 0 <= j < loops@.len() ==> (#[trigger] loops@[j]).well_formed(),
            out@ == steps(registry@, loops@.take(k as int)),
        decreases n - k,
    {
        push_loop(&mut out, registry, loops[k]);
        proof {
            assert(loops@.take(k + 1).drop_last() =~= loops@.take(k as int));
            assert(loops@.take(k + 1).last() == loops@[k as int]);
        }
        k = k + 1;
    }
    assert(loops@.take(n as int) =~= loops@);
    out
}


// The table of systems.

pub open spec fn read(resources: Resources) -> QueryParam {
    QueryParam { access: Access::Read, resources }
}

pub open spec fn write(resources: Resources) -> QueryParam {
    QueryParam { access: Access::Write, resources }
}

pub open spec fn fetch(query: usize, resources: Resources, access: Access, role: ResourceRole) -> LookupTemplate {
    LookupTemplate { query, resources, access, role }
}

pub open spec fn one(first: LookupTemplate) -> LoopTemplate {
    LoopTemplate { first, second: None }
}

pub open spec fn two(first: LookupTemplate, second: LookupTemplate) -> LoopTemplate {
    LoopTemplate { first, second: Some(second) }
}

/// The query parameters of a system.
pub open spec fn system_queries(name: SystemName) -> Seq<QueryParam> {
    let all = Selection::All;
    let events = Selection::Events;
    match name {
        SystemName::ClientReceive => seq![
            write(Resources::Server(all, ServerField::Messages)),
            write(Resources::Server(all, ServerField::Queue)),
        ],
        SystemName::ClientTrigger => seq![write(Resources::Server(events, ServerField::Messages))],
        SystemName::ClientSend => seq![
            read(Resources::Client(all, ClientField::Messages)),
            write(Resources::Client(all, ClientField::Reader)),
        ],
        SystemName::ClientSendLocally => seq![
            write(Resources::Client(all, ClientField::FromMessages)),
            write(Resources::Client(all, ClientField::Messages)),
        ],
        SystemName::ClientSendShared => seq![
            write(Resources::Shared(all, SharedField::Messages)),
            write(Resources::Shared(all, SharedField::SharedMessages)),
        ],
        SystemName::ClientSendSharedLocally => seq![
            write(Resources::Shared(all, SharedField::SharedMessages)),
            write(Resources::Shared(all, SharedField::Messages)),
        ],
        SystemName::ClientTriggerShared => seq![
            write(Resources::Shared(events, SharedField::SharedMessages)),
        ],
        SystemName::ClientReset => seq![
            write(Resources::Client(all, ClientField::Messages)),
            write(Resources::Server(all, ServerField::Queue)),
            write(Resources::Shared(all, SharedField::Messages)),
        ],
        SystemName::ServerReceive => seq![write(Resources::Client(all, ClientField::FromMessages))],
        SystemName::ServerTrigger => seq![
            write(Resources::Client(events, ClientField::FromMessages)),
        ],
        SystemName::ServerReceiveShared => seq![
            write(Resources::Shared(all, SharedField::SharedMessages)),
        ],
        SystemName::ServerTriggerShared => seq![
            write(Resources::Shared(events, SharedField::SharedMessages)),
        ],
        SystemName::ServerSendOrBuffer => seq![read(Resources::Server(all, ServerField::ToMessages))],
        SystemName::ServerSendBuffered => seq![],
        SystemName::ServerSendLocally => seq![
            write(Resources::Server(all, ServerField::ToMessages)),
            write(Resources::Server(all, ServerField::Messages)),
        ],
    }
}

/// The loops a system runs over the registered messages, in order.
pub open spec fn system_loops(name: SystemName) -> Seq<LoopTemplate> {
    let all = Selection::All;
    let events = Selection::Events;
    let w = Access::Write;
    match name {
        SystemName::ClientReceive => seq![
            two(
                fetch(0, Resources::Server(all, ServerField::Messages), w, ResourceRole::Messages),
                fetch(1, Resources::Server(all, ServerField::Queue), w, ResourceRole::Queue),
            ),
        ],
        SystemName::ClientTrigger => seq![
            one(fetch(0, Resources::Server(events, ServerField::Messages), w, ResourceRole::Messages)),
        ],
        SystemName::ClientSend => seq![
            two(
                fetch(0, Resources::Client(all, ClientField::Messages), Access::Read, ResourceRole::Messages),
                fetch(1, Resources::Client(all, ClientField::Reader), w, ResourceRole::MessageReader),
            ),
        ],
        SystemName::ClientSendLocally => seq![
            two(
                fetch(0, Resources::Client(all, ClientField::FromMessages), w, ResourceRole::FromClientsMessages),
                fetch(1, Resources::Client(all, ClientField::Messages), w, ResourceRole::Messages),
            ),
        ],
        SystemName::ClientSendShared => seq![
            two(
                fetch(0, Resources::Shared(all, SharedField::Messages), w, ResourceRole::Messages),
                fetch(1, Resources::Shared(all, SharedField::SharedMessages), w, ResourceRole::SharedMessages),
            ),
        ],
        SystemName::ClientSendSharedLocally => seq![
            two(
                fetch(0, Resources::Shared(all, SharedField::SharedMessages), w, ResourceRole::SharedMessages),
                fetch(1, Resources::Shared(all, SharedField::Messages), w, ResourceRole::Messages),
            ),
        ],
        SystemName::ClientTriggerShared => seq![
            one(fetch(0, Resources::Shared(events, SharedField::SharedMessages), w, ResourceRole::SharedMessages)),
        ],
        SystemName::ClientReset => seq![
            one(fetch(0, Resources::Client(all, ClientField::Messages), w, ResourceRole::Messages)),
            one(fetch(1, Resources::Server(all, ServerField::Queue), w, ResourceRole::Queue)),
            one(fetch(2, Resources::Shared(all, SharedField::Messages), w, ResourceRole::SharedMessages)),
        ],
        SystemName::ServerReceive => seq![
            one(fetch(0, Resources::Client(all, ClientField::FromMessages), w, ResourceRole::FromClientsMessages)),
        ],
        SystemName::ServerTrigger => seq![
            one(fetch(0, Resources::Client(events, ClientField::FromMessages), w, ResourceRole::FromClientsMessages)),
        ],
        SystemName::ServerReceiveShared => seq![
            one(fetch(0, Resources::Shared(all, SharedField::SharedMessages), w, ResourceRole::SharedMessages)),
        ],
        SystemName::ServerTriggerShared => seq![
            one(fetch(0, Resources::Shared(events, SharedField::SharedMessages), w, ResourceRole::SharedMessages)),
        ],
        SystemName::ServerSendOrBuffer => seq![
            one(fetch(0, Resources::Server(all, ServerField::ToMessages), Access::Read, ResourceRole::ToClientsMessages)),
        ],
        SystemName::ServerSendBuffered => seq![],
        SystemName::ServerSendLocally => seq![
            two(
                fetch(0, Resources::Server(all, ServerField::ToMessages), w, ResourceRole::ToMessages),
                fetch(1, Resources::Server(all, ServerField::Messages), w, ResourceRole::Messages),
            ),
        ],
    }
}

/// The conditions a system runs under in a schedule.
pub open spec fn system_run_if(name: SystemName, schedule: Schedule) -> Seq<RunCondition> {
    match name {
        SystemName::ClientReceive => if schedule == Schedule::PreUpdate {
            seq![RunCondition::ClientConnected]
        } else {
            seq![]
        },
        SystemName::ClientSend => seq![RunCondition::ClientConnected],
        SystemName::ClientSendLocally => seq![RunCondition::ClientDisconnected],
        SystemName::ClientSendShared => seq![RunCondition::ClientConnected],
        SystemName::ClientSendSharedLocally => seq![RunCondition::ClientDisconnected],
        SystemName::ServerReceive => seq![RunCondition::ServerRunning],
        SystemName::ServerTrigger => seq![RunCondition::ClientDisconnected],
        SystemName::ServerReceiveShared => seq![RunCondition::ServerRunning],
        SystemName::ServerSendOrBuffer => seq![RunCondition::ServerRunning],
        SystemName::ServerSendBuffered => seq![
            RunCondition::ServerRunning,
            RunCondition::ServerTickChanged,
        ],
        SystemName::ServerSendLocally => seq![RunCondition::ClientDisconnected],
        _ => seq![],
    }
}

/// The systems a system runs after.
pub open spec fn system_after(name: SystemName) -> Seq<SystemRef> {
    match name {
        SystemName::ClientReceive => seq![SystemRef::ReceiveReplication],
        SystemName::ClientTrigger => seq![SystemRef::Local(SystemName::ClientReceive)],
        SystemName::ClientSendLocally => seq![SystemRef::Local(SystemName::ClientSend)],
        SystemName::ClientSendSharedLocally => seq![SystemRef::Local(SystemName::ClientSendShared)],
        SystemName::ClientTriggerShared => seq![
            SystemRef::Local(SystemName::ClientSendSharedLocally),
        ],
        SystemName::ServerTrigger => seq![SystemRef::Local(SystemName::ServerReceive)],
        SystemName::ServerTriggerShared => seq![SystemRef::Local(SystemName::ServerReceiveShared)],
        SystemName::ServerSendOrBuffer => seq![SystemRef::SendMessages],
        SystemName::ServerSendBuffered => seq![
            SystemRef::Local(SystemName::ServerSendOrBuffer),
            SystemRef::SendMessages,
        ],
        SystemName::ServerSendLocally => seq![
            SystemRef::Local(SystemName::ServerSendBuffered),
            SystemRef::SendMessages,
        ],
        _ => seq![],
    }
}

/// The set of a system.
pub open spec fn system_set(name: SystemName) -> SystemSet {
    match name {
        SystemName::ClientReceive | SystemName::ClientTrigger => SystemSet::ClientReceive,
        SystemName::ClientSend | SystemName::ClientSendLocally | SystemName::ClientSendShared
        | SystemName::ClientSendSharedLocally | SystemName::ClientTriggerShared => SystemSet::ClientSend,
        SystemName::ClientReset => SystemSet::ClientReset,
        SystemName::ServerReceive | SystemName::ServerTrigger | SystemName::ServerReceiveShared
        | SystemName::ServerTriggerShared => SystemSet::ServerReceive,
        _ => SystemSet::ServerSend,
    }
}

/// A system of the table, added to a schedule.
pub open spec fn system_view(name: SystemName, schedule: Schedule) -> SystemView {
    SystemView {
        name,
        schedule,
        run_if: system_run_if(name, schedule),
        after: system_after(name),
        set: system_set(name),
        queries: system_queries(name),
    }
}

/// The views of systems given by name and schedule.
pub open spec fn entry_views(entries: Seq<(SystemName, Schedule)>) -> Seq<SystemView> {
    entries.map_values(|e: (SystemName, Schedule)| system_view(e.0, e.1))
}

fn list0<T>() -> (r: Vec<T>)
    ensures
        r@ == Seq::<T>::empty(),
{
    Vec::new()
}

fn list1<T>(a: T) -> (r: Vec<T>)
    ensures
        r@ == seq![a],
{
    let mut v = Vec::new();
    v.push(a);
    v
}

fn list2<T>(a: T, b: T) -> (r: Vec<T>)
    ensures
        r@ == seq![a, b],
{
    let mut v = Vec::new();
    v.push(a);
    v.push(b);
    v
}

fn list3<T>(a: T, b: T, c: T) -> (r: Vec<T>)
    ensures
        r@ == seq![a, b, c],
{
    let mut v = Vec::new();
    v.push(a);
    v.push(b);
    v.push(c);
    v
}

fn read_param(resources: Resources) -> (r: QueryParam)
    ensures
        r == read(resources),
{
    QueryParam { access: Access::Read, resources }
}

fn write_param(resources: Resources) -> (r: QueryParam)
    ensures
        r == write(resources),
{
    QueryParam { access: Access::Write, resources }
}

fn fetch_template(query: usize, resources: Resources, access: Access, role: ResourceRole) -> (r: LookupTemplate)
    ensures
        r == fetch(query, resources, access, role),
{
    LookupTemplate { query, resources, access, role }
}

/// The query parameters of a system.
pub fn queries_of(name: SystemName) -> (r: Vec<QueryParam>)
    ensures
        r@ == system_queries(name),
{
    let all = Selection::All;
    let events = Selection::Events;
    match name {
        SystemName::ClientReceive => list2(
            write_param(Resources::Server(all, ServerField::Messages)),
            write_param(Resources::Server(all, ServerField::Queue)),
        ),
        SystemName::ClientTrigger => list1(write_param(Resources::Server(events, ServerField::Messages))),
        SystemName::ClientSend => list2(
            read_param(Resources::Client(all, ClientField::Messages)),
            write_param(Resources::Client(all, ClientField::Reader)),
        ),
        SystemName::ClientSendLocally => list2(
            write_param(Resources::Client(all, ClientField::FromMessages)),
            write_param(Resources::Client(all, ClientField::Messages)),
        ),
        SystemName::ClientSendShared => list2(
            write_param(Resources::Shared(all, SharedField::Messages)),
            write_param(Resources::Shared(all, SharedField::SharedMessages)),
        ),
        SystemName::ClientSendSharedLocally => list2(
            write_param(Resources::Shared(all, SharedField::SharedMessages)),
            write_param(Resources::Shared(all, SharedField::Messages)),
        ),
        SystemName::ClientTriggerShared => list1(
            write_param(Resources::Shared(events, SharedField::SharedMessages)),
        ),
        SystemName::ClientReset => list3(
            write_param(Resources::Client(all, ClientField::Messages)),
            write_param(Resources::Server(all, ServerField::Queue)),
            write_param(Resources::Shared(all, SharedField::Messages)),
        ),
        SystemName::ServerReceive => list1(write_param(Resources::Client(all, ClientField::FromMessages))),
        SystemName::ServerTrigger => list1(
            write_param(Resources::Client(events, ClientField::FromMessages)),
        ),
        SystemName::ServerReceiveShared => list1(
            write_param(Resources::Shared(all, SharedField::SharedMessages)),
        ),
        SystemName::ServerTriggerShared => list1(
            write_param(Resources::Shared(events, SharedField::SharedMessages)),
        ),
        SystemName::ServerSendOrBuffer => list1(read_param(Resources::Server(all, ServerField::ToMessages))),
        SystemName::ServerSendBuffered => list0(),
        SystemName::ServerSendLocally => list2(
            write_param(Resources::Server(all, ServerField::ToMessages)),
            write_param(Resources::Server(all, ServerField::Messages)),
        ),
    }
}

/// The loops a system runs over the registered messages, in order.
pub fn loops_of(name: SystemName) -> (r: Vec<LoopTemplate>)
    ensures
        r@ == system_loops(name),
{
    let all = Selection::All;
    let events = Selection::Events;
    let w = Access::Write;
    match name {
        SystemName::ClientReceive => list1(LoopTemplate {
            first: fetch_template(0, Resources::Server(all, ServerField::Messages), w, ResourceRole::Messages),
            second: Some(fetch_template(1, Resources::Server(all, ServerField::Queue), w, ResourceRole::Queue)),
        }),
        SystemName::ClientTrigger => list1(LoopTemplate {
            first: fetch_template(0, Resources::Server(events, ServerField::Messages), w, ResourceRole::Messages),
            second: None,
        }),
        SystemName::ClientSend => list1(LoopTemplate {
            first: fetch_template(0, Resources::Client(all, ClientField::Messages), Access::Read, ResourceRole::Messages),
            second: Some(fetch_template(1, Resources::Client(all, ClientField::Reader), w, ResourceRole::MessageReader)),
        }),
        SystemName::ClientSendLocally => list1(LoopTemplate {
            first: fetch_template(0, Resources::Client(all, ClientField::FromMessages), w, ResourceRole::FromClientsMessages),
            second: Some(fetch_template(1, Resources::Client(all, ClientField::Messages), w, ResourceRole::Messages)),
        }),
        SystemName::ClientSendShared => list1(LoopTemplate {
            first: fetch_template(0, Resources::Shared(all, SharedField::Messages), w, ResourceRole::Messages),
            second: Some(fetch_template(1, Resources::Shared(all, SharedField::SharedMessages), w, ResourceRole::SharedMessages)),
        }),
        SystemName::ClientSendSharedLocally => list1(LoopTemplate {
            first: fetch_template(0, Resources::Shared(all, SharedField::SharedMessages), w, ResourceRole::SharedMessages),
            second: Some(fetch_template(1, Resources::Shared(all, SharedField::Messages), w, ResourceRole::Messages)),
        }),
        SystemName::ClientTriggerShared => list1(LoopTemplate {
            first: fetch_template(0, Resources::Shared(events, SharedField::SharedMessages), w, ResourceRole::SharedMessages),
            second: None,
        }),
        SystemName::ClientReset => list3(
            LoopTemplate {
                first: fetch_template(0, Resources::Client(all, ClientField::Messages), w, ResourceRole::Messages),
                second: None,
            },
            LoopTemplate {
                first: fetch_template(1, Resources::Server(all, ServerField::Queue), w, ResourceRole::Queue),
                second: None,
            },
            LoopTemplate {
                first: fetch_template(2, Resources::Shared(all, SharedField::Messages), w, ResourceRole::SharedMessages),
                second: None,
            },
        ),
        SystemName::ServerReceive => list1(LoopTemplate {
            first: fetch_template(0, Resources::Client(all, ClientField::FromMessages), w, ResourceRole::FromClientsMessages),
            second: None,
        }),
        SystemName::ServerTrigger => list1(LoopTemplate {
            first: fetch_template(0, Resources::Client(events, ClientField::FromMessages), w, ResourceRole::FromClientsMessages),
            second: None,
        }),
        SystemName::ServerReceiveShared => list1(LoopTemplate {
            first: fetch_template(0, Resources::Shared(all, SharedField::SharedMessages), w, ResourceRole::SharedMessages),
            second: None,
        }),
        SystemName::ServerTriggerShared => list1(LoopTemplate {
            first: fetch_template(0, Resources::Shared(events, SharedField::SharedMessages), w, ResourceRole::SharedMessages),
            second: None,
        }),
        SystemName::ServerSendOrBuffer => list1(LoopTemplate {
            first: fetch_template(0, Resources::Server(all, ServerField::ToMessages), Access::Read, ResourceRole::ToClientsMessages),
            second: None,
        }),
        SystemName::ServerSendBuffered => list0(),
        SystemName::ServerSendLocally => list1(LoopTemplate {
            first: fetch_template(0, Resources::Server(all, ServerField::ToMessages), w, ResourceRole::ToMessages),
            second: Some(fetch_template(1, Resources::Server(all, ServerField::Messages), w, ResourceRole::Messages)),
        }),
    }
}

/// A system of the table, added to a schedule.
pub fn system(name: SystemName, schedule: Schedule) -> (r: SystemSpec)
    ensures
        r@ == system_view(name, schedule),
{
    let run_if = match name {
        SystemName::ClientReceive => if schedule == Schedule::PreUpdate {
            list1(RunCondition::ClientConnected)
        } else {
            list0()
        },
        SystemName::ClientSend => list1(RunCondition::ClientConnected),
        SystemName::ClientSendLocally => list1(RunCondition::ClientDisconnected),
        SystemName::ClientSendShared => list1(RunCondition::ClientConnected),
        SystemName::ClientSendSharedLocally => list1(RunCondition::ClientDisconnected),
        SystemName::ServerReceive => list1(RunCondition::ServerRunning),
        SystemName::ServerTrigger => list1(RunCondition::ClientDisconnected),
        SystemName::ServerReceiveShared => list1(RunCondition::ServerRunning),
        SystemName::ServerSendOrBuffer => list1(RunCondition::ServerRunning),
        SystemName::ServerSendBuffered => list2(RunCondition::ServerRunning, RunCondition::ServerTickChanged),
        SystemName::ServerSendLocally => list1(RunCondition::ClientDisconnected),
        _ => list0(),
    };
    let after = match name {
        SystemName::ClientReceive => list1(SystemRef::ReceiveReplication),
        SystemName::ClientTrigger => list1(SystemRef::Local(SystemName::ClientReceive)),
        SystemName::ClientSendLocally => list1(SystemRef::Local(SystemName::ClientSend)),
        SystemName::ClientSendSharedLocally => list1(SystemRef::Local(SystemName::ClientSendShared)),
        SystemName::ClientTriggerShared => list1(SystemRef::Local(SystemName::ClientSendSharedLocally)),
        SystemName::ServerTrigger => list1(SystemRef::Local(SystemName::ServerReceive)),
        SystemName::ServerTriggerShared => list1(SystemRef::Local(SystemName::ServerReceiveShared)),
        SystemName::ServerSendOrBuffer => list1(SystemRef::SendMessages),
        SystemName::ServerSendBuffered => list2(
            SystemRef::Local(SystemName::ServerSendOrBuffer),
            SystemRef::SendMessages,
        ),
        SystemName::ServerSendLocally => list2(
            SystemRef::Local(SystemName::ServerSendBuffered),
            SystemRef::SendMessages,
        ),
        _ => list0(),
    };
    let set = match name {
        SystemName::ClientReceive | SystemName::ClientTrigger => SystemSet::ClientReceive,
        SystemName::ClientSend | SystemName::ClientSendLocally | SystemName::ClientSendShared
        | SystemName::ClientSendSharedLocally | SystemName::ClientTriggerShared => SystemSet::ClientSend,
        SystemName::ClientReset => SystemSet::ClientReset,
        SystemName::ServerReceive | SystemName::ServerTrigger | SystemName::ServerReceiveShared
        | SystemName::ServerTriggerShared => SystemSet::ServerReceive,
        _ => SystemSet::ServerSend,
    };
    SystemSpec { name, schedule, run_if, after, set, queries: queries_of(name) }
}

/// Every loop of the table walks the same messages in both of its fetches.
pub proof fn lemma_loops_well_formed(name: SystemName)
    ensures
        forall|k: int| 0 <= k < system_loops(name).len() ==> (#[trigger] system_loops(name)[k]).well_formed(),
{
}

/// The steps a system takes for the registered messages when it runs.
pub fn dispatch(name: SystemName, registry: &RemoteMessageRegistry) -> (r: Vec<DispatchStep>)
    ensures
        r@ == steps(registry@, system_loops(name)),
{
    let loops = loops_of(name);
    proof {
        lemma_loops_well_formed(name);
    }
    dispatch_loops(registry, &loops)
}

/// Appends a system of the table to a plan.
pub(crate) fn push_system(
    plan: &mut Vec<SystemSpec>,
    entries: Ghost<Seq<(SystemName, Schedule)>>,
    name: SystemName,
    schedule: Schedule,
)
    requires
        views(old(plan)@) == entry_views(entries@),
    ensures
        views(final(plan)@) == entry_views(entries@.push((name, schedule))),
{
    let s = system(name, schedule);
    let ghost before = plan@;
    plan.push(s);
    let ghost e = entries@.push((name, schedule));
    assert(views(before).len() == entry_views(entries@).len());
    assert forall|k: int| 0 <= k < plan@.len() implies views(plan@)[k] == entry_views(e)[k] by {
        if k < before.len() {
            assert(plan@[k] == before[k]);
            assert(views(before)[k] == entry_views(entries@)[k]);
            assert(e[k] == entries@[k]);
        }
    }
    assert(views(plan@) =~= entry_views(e));
}

// What a run of a system comes to once the world answered its fetches.

/// Whether the world gave a step the resources it fetched.
#[derive(Clone, Copy, Debug, PartialEq, Eq, Structural)]
pub struct Found {
    /// The first fetch found its resource with the access it needs.
    pub first: bool,
    /// The second fetch, where the step has one, found its resource with the access it needs.
    pub second: bool,
}

/// The fetch of a step that fails first, by the role it panics with: the first fetch is made
/// before the second, and a step without a second fetch cannot fail on it.
pub open spec fn fetch_failure(step: DispatchStep, found: Found) -> Option<ResourceRole> {
    if !found.first {
        Some(step.first.role)
    } else {
        match step.second {
            Some(l) => if !found.second {
                Some(l.role)
            } else {
                None
            },
            None => None,
        }
    }
}

/// The fetch of a step that fails first, if any.
pub fn step_failure(step: &DispatchStep, found: Found) -> (r: Option<ResourceRole>)
    ensures
        r == fetch_failure(*step, found),
{
    if !found.first {
        Some(step.first.role)
    } else {
        match step.second {
            Some(l) => if !found.second {
                Some(l.role)
            } else {
                None
            },
            None => None,
        }
    }
}

/// How a run of a system ends: the steps before `handled` had their resources handed to
/// their messages; then either every step was handled, or the run panics with the text of
/// `failure`, the fetch of step `handled` that failed first.
#[derive(Clone, Copy, Debug, PartialEq, Eq, Structural)]
pub struct DispatchOutcome {
    pub handled: usize,
    pub failure: Option<ResourceRole>,
}

/// How a run that takes `steps` in order ends when their fetches find what `found` says: the
/// messages are handled in order up to the first step with a failed fetch, which ends the
/// run with that fetch's text; without one, every message is handled.
pub fn dispatch_outcome(steps: &Vec<DispatchStep>, found: &Vec<Found>) -> (r: DispatchOutcome)
    requires
        found@.len() == steps@.len(),
    ensures
        r.handled <= steps@.len(),
        forall|i: int| 0 <= i < r.handled ==> fetch_failure(steps@[i], found@[i]) is None,
        r.failure is None <==> r.handled == steps@.len(),
        r.handled < steps@.len() ==> r.failure == fetch_failure(
            steps@[r.handled as int],
            found@[r.handled as int],
        ),
{
    let n = steps.len();
    let mut i: usize = 0;
    while i < n
        invariant
            n == steps@.len(),
            found@.len() == n,
            i <= n,
            forall|k: int| 0 <= k < i ==> fetch_failure(steps@[k], found@[k]) is None,
        decreases n - i,
    {
        let failure = step_failure(&steps[i], found[i]);
        if failure.is_some() {
            return DispatchOutcome { handled: i, failure };
        }
        i = i + 1;
    }
    DispatchOutcome { handled: n, failure: None }
}

// When planned systems run.

/// The connection state of the client.
#[derive(Clone, Copy, Debug, PartialEq, Eq, Structural)]
pub enum ClientStatus {
    Disconnected,
    Connecting,
    Connected,
}

/// The state of the server.
#[derive(Clone, Copy, Debug, PartialEq, Eq, Structural)]
pub enum ServerStatus {
    Stopped,
    Running,
}

/// What the run conditions of a frame read.
pub struct Frame {
    pub client: ClientStatus,
    pub server: ServerStatus,
    /// The server tick changed since the system last ran.
    pub server_tick_changed: bool,
}

/// Whether a run condition holds in a frame.
pub open spec fn condition_holds(c: RunCondition, frame: Frame) -> bool {
    match c {
        RunCondition::ClientConnected => frame.client == ClientStatus::Connected,
        RunCondition::ClientDisconnected => frame.client == ClientStatus::Disconnected,
        RunCondition::ServerRunning => frame.server == ServerStatus::Running,
        RunCondition::ServerTickChanged => frame.server_tick_changed,
    }
}

/// Whether a system runs in a frame of its schedule: all its conditions hold.
pub open spec fn runs_in(system: SystemView, frame: Frame) -> bool {
    forall|i: int| 0 <= i < system.run_if.len() ==> condition_holds(#[trigger] system.run_if[i], frame)
}

// What every step of a run is handed besides the resources it fetched.

/// The context that a run of a system builds once and hands to every message it handles.
#[derive(Clone, Copy, Debug, PartialEq, Eq, Structural)]
pub enum ContextKind {
    /// Replication storage, the map of server entities and the type registry, with the
    /// entities that messages referred to but the client does not know.
    ClientSend,
    /// The same as for sending, used to receive.
    ClientReceive,
    /// Replication storage and the type registry.
    ServerSend,
    /// Replication storage and the type registry.
    ServerReceive,
}

/// The buffer of network messages of one side.
#[derive(Clone, Copy, Debug, PartialEq, Eq, Structural)]
pub enum NetworkBuffer {
    ClientMessages,
    ServerMessages,
}

/// What every step of a run of a system is handed besides its fetched resources.
#[derive(Clone, Copy, Debug, PartialEq, Eq, Structural)]
pub struct RunArgs {
    /// The run's one context.
    pub context: Option<ContextKind>,
    /// The side's network buffer.
    pub buffer: Option<NetworkBuffer>,
    /// The update tick of the server read once for the run.
    pub update_tick: bool,
    /// The connected clients.
    pub connected_clients: bool,
    /// The buffer of messages that wait for their tick.
    pub message_buffer: bool,
}

pub open spec fn args(
    context: Option<ContextKind>,
    buffer: Option<NetworkBuffer>,
    update_tick: bool,
    connected_clients: bool,
    message_buffer: bool,
) -> RunArgs {
    RunArgs { context, buffer, update_tick, connected_clients, message_buffer }
}

/// What a system hands to every step of a run.
pub open spec fn system_args(name: SystemName) -> RunArgs {
    match name {
        SystemName::ClientSend | SystemName::ClientSendShared => args(
            Some(ContextKind::ClientSend),
            Some(NetworkBuffer::ClientMessages),
            false,
            false,
            false,
        ),
        SystemName::ClientReceive => args(
            Some(ContextKind::ClientReceive),
            Some(NetworkBuffer::ClientMessages),
            true,
            false,
            false,
        ),
        SystemName::ServerReceive | SystemName::ServerReceiveShared => args(
            Some(ContextKind::ServerReceive),
            Some(NetworkBuffer::ServerMessages),
            false,
            false,
            false,
        ),
        SystemName::ServerSendOrBuffer => args(
            Some(ContextKind::ServerSend),
            Some(NetworkBuffer::ServerMessages),
            false,
            true,
            true,
        ),
        _ => args(None, None, false, false, false),
    }
}

/// What a system hands to every step of a run.
pub fn args_of(name: SystemName) -> (r: RunArgs)
    ensures
        r == system_args(name),
{
    match name {
        SystemName::ClientSend | SystemName::ClientSendShared => RunArgs {
            context: Some(ContextKind::ClientSend),
            buffer: Some(NetworkBuffer::ClientMessages),
            update_tick: false,
            connected_clients: false,
            message_buffer: false,
        },
        SystemName::ClientReceive => RunArgs {
            context: Some(ContextKind::ClientReceive),
            buffer: Some(NetworkBuffer::ClientMessages),
            update_tick: true,
            connected_clients: false,
            message_buffer: false,
        },
        SystemName::ServerReceive | SystemName::ServerReceiveShared => RunArgs {
            context: Some(ContextKind::ServerReceive),
            buffer: Some(NetworkBuffer::ServerMessages),
            update_tick: false,
            connected_clients: false,
            message_buffer: false,
        },
        SystemName::ServerSendOrBuffer => RunArgs {
            context: Some(ContextKind::ServerSend),
            buffer: Some(NetworkBuffer::ServerMessages),
            update_tick: false,
            connected_clients: true,
            message_buffer: true,
        },
        _ => RunArgs {
            context: None,
            buffer: None,
            update_tick: false,
            connected_clients: false,
            message_buffer: false,
        },
    }
}

/// The context a run builds once and hands to every message it handles.
pub struct RunContext {
    pub kind: ContextKind,
    /// The entities that messages referred to but the client does not know, by their bits;
    /// the server's contexts keep none.
    pub invalid_entities: Vec<u64>,
}

impl RunContext {
    /// The context at the start of a run: no invalid entity yet.
    pub fn new(kind: ContextKind) -> (r: Self)
        ensures
            r.kind == kind,
            r.invalid_entities@.len() == 0,
    {
        RunContext { kind, invalid_entities: Vec::new() }
    }
}

/// One step of a run with what it is handed besides its fetched resources.
#[derive(Clone, Copy, Debug, PartialEq, Eq, Structural)]
pub struct Call {
    pub step: DispatchStep,
    pub args: RunArgs,
}

/// The steps, each with the same arguments.
pub open spec fn calls(steps: Seq<DispatchStep>, args: RunArgs) -> Seq<Call> {
    steps.map_values(|step: DispatchStep| Call { step, args })
}

/// A run of a system: the one context it builds, and its steps in order, every one of them
/// handed that context and the same other arguments.
pub struct SystemRun {
    pub context: Option<RunContext>,
    pub calls: Vec<Call>,
}

/// How a run of a system starts: its context, empty, where it has one, and its steps, each
/// handed the arguments of the system.
pub fn run(name: SystemName, registry: &RemoteMessageRegistry) -> (r: SystemRun)
    ensures
        r.calls@ == calls(steps(registry@, system_loops(name)), system_args(name)),
        forall|i: int| 0 <= i < r.calls@.len() ==> (#[trigger] r.calls@[i]).args == system_args(name),
        match system_args(name).context {
            Some(kind) => r.context matches Some(c) && c.kind == kind && c.invalid_entities@.len()
                == 0,
            None => r.context is None,
        },
{
    let plain = dispatch(name, registry);
    let a = args_of(name);
    let context = match a.context {
        Some(kind) => Some(RunContext::new(kind)),
        None => None,
    };
    let ghost expected = calls(plain@, a);
    let mut out: Vec<Call> = Vec::new();
    let n = plain.len();
    let mut i: usize = 0;
    while i < n
        invariant
            n == plain@.len(),
            i <= n,
            expected == calls(plain@, a),
            out@ == expected.take(i as int),
        decreases n - i,
    {
        out.push(Call { step: plain[i], args: a });
        assert(expected.take(i + 1) =~= expected.take(i as int).push(expected[i as int]));
        i = i + 1;
    }
    assert(expected.take(n as int) =~= expected);
    SystemRun { context, calls: out }
}

} // verus!
