//! Sending messages and events from the server to clients.
use vstd::prelude::*;
use crate::registry::{RegistryView, RemoteMessageRegistry};
use crate::shared::ExpectFailure;
use crate::systems::{
    dispatch, entry_views, push_system, steps, system_loops, views, DispatchStep,
    Schedule, SystemName, SystemSpec,
};

verus! {

/// Sending messages and events from the server to clients, and receiving those of clients.
///
/// Can be left out of apps that act only as clients.
#[derive(Clone, Copy, Debug, PartialEq, Eq, Structural)]
pub struct ServerMessagePlugin;

/// What a run of the system that sends or buffers messages does, in order.
#[derive(Clone, Copy, Debug, PartialEq, Eq, Structural)]
pub enum BufferAction {
    /// The message buffer starts collecting the messages of a new tick.
    StartTick,
    /// A step for one message.
    Dispatch(DispatchStep),
}

/// The steps as actions.
pub open spec fn dispatched(steps: Seq<DispatchStep>) -> Seq<BufferAction> {
    steps.map_values(|step: DispatchStep| BufferAction::Dispatch(step))
}

/// The systems that the server plugin adds, by name and schedule, in the order it adds them.
pub open spec fn server_entries(reg: RegistryView) -> Seq<(SystemName, Schedule)> {
    (if reg.has_any_client() {
        seq![(SystemName::ServerReceive, Schedule::PreUpdate)]
    } else {
        seq![]
    }) + (if reg.has_client_events() {
        seq![(SystemName::ServerTrigger, Schedule::PreUpdate)]
    } else {
        seq![]
    }) + (if reg.has_any_shared() {
        seq![(SystemName::ServerReceiveShared, Schedule::PreUpdate)]
    } else {
        seq![]
    }) + (if reg.has_shared_events() {
        seq![(SystemName::ServerTriggerShared, Schedule::PreUpdate)]
    } else {
        seq![]
    }) + (if reg.has_any_server() {
        seq![
            (SystemName::ServerSendOrBuffer, Schedule::PostUpdate),
            (SystemName::ServerSendBuffered, Schedule::PostUpdate),
            (SystemName::ServerSendLocally, Schedule::PostUpdate),
        ]
    } else {
        seq![]
    })
}

impl ServerMessagePlugin {
    /// The systems to add once every plugin is built, when the registered messages are known.
    pub fn finish(&self, registry: &RemoteMessageRegistry) -> (r: Vec<SystemSpec>)
        ensures
            views(r@) == entry_views(server_entries(registry@)),
    {
        let ghost reg = registry@;
        let mut plan: Vec<SystemSpec> = Vec::new();
        let ghost mut e: Seq<(SystemName, Schedule)> = seq![];
        assert(views(plan@) =~= entry_views(e));
        if registry.has_any_client() {
            push_system(&mut plan, Ghost(e), SystemName::ServerReceive, Schedule::PreUpdate);
            proof { e = e.push((SystemName::ServerReceive, Schedule::PreUpdate)); }
        }
        if registry.has_client_events() {
            push_system(&mut plan, Ghost(e), SystemName::ServerTrigger, Schedule::PreUpdate);
            proof { e = e.push((SystemName::ServerTrigger, Schedule::PreUpdate)); }
        }
        if registry.has_any_shared() {
            push_system(&mut plan, Ghost(e), SystemName::ServerReceiveShared, Schedule::PreUpdate);
            proof { e = e.push((SystemName::ServerReceiveShared, Schedule::PreUpdate)); }
        }
        if registry.has_shared_events() {
            push_system(&mut plan, Ghost(e), SystemName::ServerTriggerShared, Schedule::PreUpdate);
            proof { e = e.push((SystemName::ServerTriggerShared, Schedule::PreUpdate)); }
        }
        if registry.has_any_server() {
            push_system(&mut plan, Ghost(e), SystemName::ServerSendOrBuffer, Schedule::PostUpdate);
            proof { e = e.push((SystemName::ServerSendOrBuffer, Schedule::PostUpdate)); }
            push_system(&mut plan, Ghost(e), SystemName::ServerSendBuffered, Schedule::PostUpdate);
            proof { e = e.push((SystemName::ServerSendBuffered, Schedule::PostUpdate)); }
            push_system(&mut plan, Ghost(e), SystemName::ServerSendLocally, Schedule::PostUpdate);
            proof { e = e.push((SystemName::ServerSendLocally, Schedule::PostUpdate)); }
        }
        assert(e =~= server_entries(reg));
        plan
    }

    /// First the buffer starts a new tick, once; then, for each message to clients, the
    /// messages written for clients, read, are handed to the message to send them now or
    /// buffer them until their tick.
    pub fn send_or_buffer(registry: &RemoteMessageRegistry) -> (r: Vec<BufferAction>)
        ensures
            r@ == seq![BufferAction::StartTick] + dispatched(
                steps(registry@, system_loops(SystemName::ServerSendOrBuffer)),
            ),
            r@.len() >= 1,
            r@[0] == BufferAction::StartTick,
            forall|i: int| 1 <= i < r@.len() ==> (#[trigger] r@[i]) is Dispatch,
    {
        let plain = dispatch(SystemName::ServerSendOrBuffer, registry);
        let ghost expected = seq![BufferAction::StartTick] + dispatched(plain@);
        let mut out: Vec<BufferAction> = Vec::new();
        out.push(BufferAction::StartTick);
        let n = plain.len();
        let mut i: usize = 0;
        while i < n
            invariant
                n == plain@.len(),
                i <= n,
                expected == seq![BufferAction::StartTick] + dispatched(plain@),
                out@ == expected.take(i + 1),
            decreases n - i,
        {
            out.push(BufferAction::Dispatch(plain[i]));
            assert(expected.take(i + 2) =~= expected.take(i + 1).push(expected[i + 1]));
            i = i + 1;
        }
        assert(expected.take(n + 1) =~= expected);
        out
    }

    /// Sending the buffered messages ends the run, or panics with the failure's text when the
    /// message buffer could not send them.
    pub fn send_buffered(sent: bool) -> (r: Result<(), ExpectFailure>)
        ensures
            r == (if sent {
                Ok::<(), ExpectFailure>(())
            } else {
                Err(ExpectFailure::BufferedSend)
            }),
    {
        if sent {
            Ok(())
        } else {
            Err(ExpectFailure::BufferedSend)
        }
    }

    /// For each message from clients: the buffer of received messages, handed to the
    /// message to receive into.
    pub fn receive(registry: &RemoteMessageRegistry) -> (r: Vec<DispatchStep>)
        ensures
            r@ == steps(registry@, system_loops(SystemName::ServerReceive)),
    {
        dispatch(SystemName::ServerReceive, registry)
    }

    /// For each shared message: the written messages, handed to the message to receive
    /// into.
    pub fn receive_shared(registry: &RemoteMessageRegistry) -> (r: Vec<DispatchStep>)
        ensures
            r@ == steps(registry@, system_loops(SystemName::ServerReceiveShared)),
    {
        dispatch(SystemName::ServerReceiveShared, registry)
    }

    /// For each client event: its received messages, handed to the event to trigger.
    pub fn trigger(registry: &RemoteMessageRegistry) -> (r: Vec<DispatchStep>)
        ensures
            r@ == steps(registry@, system_loops(SystemName::ServerTrigger)),
    {
        dispatch(SystemName::ServerTrigger, registry)
    }

    /// For each shared event: its written messages, handed to the event to trigger.
    pub fn trigger_shared(registry: &RemoteMessageRegistry) -> (r: Vec<DispatchStep>)
        ensures
            r@ == steps(registry@, system_loops(SystemName::ServerTriggerShared)),
    {
        dispatch(SystemName::ServerTriggerShared, registry)
    }

    /// For each message to clients while no client is connected: the messages written for
    /// clients and the local buffer of received messages, handed to the message to move
    /// them locally.
    pub fn send_locally(registry: &RemoteMessageRegistry) -> (r: Vec<DispatchStep>)
        ensures
            r@ == steps(registry@, system_loops(SystemName::ServerSendLocally)),
    {
        dispatch(SystemName::ServerSendLocally, registry)
    }
}

} // verus!
