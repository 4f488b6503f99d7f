//! Sending messages and events from a client to the server.
use vstd::prelude::*;
use crate::registry::{RegistryView, RemoteMessageRegistry};
use crate::systems::{
    dispatch, entry_views, push_system, steps, system_loops, views, DispatchStep,
    Schedule, SystemName, SystemSpec,
};

verus! {

/// Sending messages and events from a client to the server, and receiving those of the server.
///
/// Can be left out of apps that act only as servers.
#[derive(Clone, Copy, Debug, PartialEq, Eq, Structural)]
pub struct ClientMessagePlugin;

/// A step of a run that receives messages, with the update tick of the server that the run
/// hands to every message.
#[derive(Clone, Copy, Debug, PartialEq, Eq, Structural)]
pub struct TickedStep {
    pub step: DispatchStep,
    pub tick: u32,
}

/// The steps, each with the same tick.
pub open spec fn ticked(steps: Seq<DispatchStep>, tick: u32) -> Seq<TickedStep> {
    steps.map_values(|step: DispatchStep| TickedStep { step, tick })
}

/// The systems that the client plugin adds, by name and schedule, in the order it adds them.
pub open spec fn client_entries(reg: RegistryView) -> Seq<(SystemName, Schedule)> {
    (if reg.has_any_server() {
        seq![
            (SystemName::ClientReceive, Schedule::PreUpdate),
            (SystemName::ClientReceive, Schedule::OnEnterClientConnected),
        ]
    } else {
        seq![]
    }) + (if reg.has_server_events() {
        seq![
            (SystemName::ClientTrigger, Schedule::PreUpdate),
            (SystemName::ClientTrigger, Schedule::OnEnterClientConnected),
        ]
    } else {
        seq![]
    }) + (if reg.has_any_client() {
        seq![
            (SystemName::ClientSend, Schedule::PostUpdate),
            (SystemName::ClientSendLocally, Schedule::PostUpdate),
        ]
    } else {
        seq![]
    }) + (if reg.has_any_shared() {
        seq![
            (SystemName::ClientSendShared, Schedule::PostUpdate),
            (SystemName::ClientSendSharedLocally, Schedule::PostUpdate),
        ]
    } else {
        seq![]
    }) + (if reg.has_shared_events() {
        seq![(SystemName::ClientTriggerShared, Schedule::PostUpdate)]
    } else {
        seq![]
    }) + (if !reg.is_empty() {
        seq![(SystemName::ClientReset, Schedule::OnExitClientConnected)]
    } else {
        seq![]
    })
}

impl ClientMessagePlugin {
    /// The systems to add once every plugin is built, when the registered messages are known.
    pub fn finish(&self, registry: &RemoteMessageRegistry) -> (r: Vec<SystemSpec>)
        ensures
            views(r@) == entry_views(client_entries(registry@)),
    {
        let ghost reg = registry@;
        let mut plan: Vec<SystemSpec> = Vec::new();
        let ghost mut e: Seq<(SystemName, Schedule)> = seq![];
        assert(views(plan@) =~= entry_views(e));
        if registry.has_any_server() {
            push_system(&mut plan, Ghost(e), SystemName::ClientReceive, Schedule::PreUpdate);
            proof { e = e.push((SystemName::ClientReceive, Schedule::PreUpdate)); }
            push_system(&mut plan, Ghost(e), SystemName::ClientReceive, Schedule::OnEnterClientConnected);
            proof { e = e.push((SystemName::ClientReceive, Schedule::OnEnterClientConnected)); }
        }
        if registry.has_server_events() {
            push_system(&mut plan, Ghost(e), SystemName::ClientTrigger, Schedule::PreUpdate);
            proof { e = e.push((SystemName::ClientTrigger, Schedule::PreUpdate)); }
            push_system(&mut plan, Ghost(e), SystemName::ClientTrigger, Schedule::OnEnterClientConnected);
            proof { e = e.push((SystemName::ClientTrigger, Schedule::OnEnterClientConnected)); }
        }
        if registry.has_any_client() {
            push_system(&mut plan, Ghost(e), SystemName::ClientSend, Schedule::PostUpdate);
            proof { e = e.push((SystemName::ClientSend, Schedule::PostUpdate)); }
            push_system(&mut plan, Ghost(e), SystemName::ClientSendLocally, Schedule::PostUpdate);
            proof { e = e.push((SystemName::ClientSendLocally, Schedule::PostUpdate)); }
        }
        if registry.has_any_shared() {
            push_system(&mut plan, Ghost(e), SystemName::ClientSendShared, Schedule::PostUpdate);
            proof { e = e.push((SystemName::ClientSendShared, Schedule::PostUpdate)); }
            push_system(&mut plan, Ghost(e), SystemName::ClientSendSharedLocally, Schedule::PostUpdate);
            proof { e = e.push((SystemName::ClientSendSharedLocally, Schedule::PostUpdate)); }
        }
        if registry.has_shared_events() {
            push_system(&mut plan, Ghost(e), SystemName::ClientTriggerShared, Schedule::PostUpdate);
            proof { e = e.push((SystemName::ClientTriggerShared, Schedule::PostUpdate)); }
        }
        if !registry.is_empty() {
            push_system(&mut plan, Ghost(e), SystemName::ClientReset, Schedule::OnExitClientConnected);
            proof { e = e.push((SystemName::ClientReset, Schedule::OnExitClientConnected)); }
        }
        assert(e =~= client_entries(reg));
        plan
    }

    /// For each message from the server: the buffer of received messages and the queue of
    /// messages waiting for their tick, handed to the message to receive into, together with
    /// the update tick of the server read once for the run.
    pub fn receive(registry: &RemoteMessageRegistry, update_tick: u32) -> (r: Vec<TickedStep>)
        ensures
            r@ == ticked(steps(registry@, system_loops(SystemName::ClientReceive)), update_tick),
            forall|i: int| 0 <= i < r@.len() ==> (#[trigger] r@[i]).tick == update_tick,
    {
        let plain = dispatch(SystemName::ClientReceive, registry);
        let ghost expected = ticked(plain@, update_tick);
        let mut out: Vec<TickedStep> = Vec::new();
        let n = plain.len();
        let mut i: usize = 0;
        while i < n
            invariant
                n == plain@.len(),
                i <= n,
                expected == ticked(plain@, update_tick),
                out@ == expected.take(i as int),
            decreases n - i,
        {
            out.push(TickedStep { step: plain[i], tick: update_tick });
            assert(expected.take(i + 1) =~= expected.take(i as int).push(expected[i as int]));
            i = i + 1;
        }
        assert(expected.take(n as int) =~= expected);
        out
    }

    /// For each server event: its received messages, handed to the event to trigger.
    pub fn trigger(registry: &RemoteMessageRegistry) -> (r: Vec<DispatchStep>)
        ensures
            r@ == steps(registry@, system_loops(SystemName::ClientTrigger)),
    {
        dispatch(SystemName::ClientTrigger, registry)
    }

    /// For each message to the server: the written messages, read, and the reader of those
    /// already sent, written, handed to the message to send.
    pub fn send(registry: &RemoteMessageRegistry) -> (r: Vec<DispatchStep>)
        ensures
            r@ == steps(registry@, system_loops(SystemName::ClientSend)),
    {
        dispatch(SystemName::ClientSend, registry)
    }

    /// For each message to the server while disconnected: the buffer the server reads
    /// from and the written messages, handed to the message to move them locally.
    pub fn send_locally(registry: &RemoteMessageRegistry) -> (r: Vec<DispatchStep>)
        ensures
            r@ == steps(registry@, system_loops(SystemName::ClientSendLocally)),
    {
        dispatch(SystemName::ClientSendLocally, registry)
    }

    /// For each shared message: the received and the written messages, handed to the
    /// message to send.
    pub fn send_shared(registry: &RemoteMessageRegistry) -> (r: Vec<DispatchStep>)
        ensures
            r@ == steps(registry@, system_loops(SystemName::ClientSendShared)),
    {
        dispatch(SystemName::ClientSendShared, registry)
    }

    /// For each shared message while disconnected: the written and the received messages,
    /// handed to the message to move them locally.
    pub fn send_shared_locally(registry: &RemoteMessageRegistry) -> (r: Vec<DispatchStep>)
        ensures
            r@ == steps(registry@, system_loops(SystemName::ClientSendSharedLocally)),
    {
        dispatch(SystemName::ClientSendSharedLocally, registry)
    }

    /// For each shared event: its written messages, handed to the event to trigger.
    pub fn trigger_shared(registry: &RemoteMessageRegistry) -> (r: Vec<DispatchStep>)
        ensures
            r@ == steps(registry@, system_loops(SystemName::ClientTriggerShared)),
    {
        dispatch(SystemName::ClientTriggerShared, registry)
    }

    /// On disconnect: the messages of every message to the server, the queue of every
    /// message from the server, and the received messages of every shared message, each
    /// handed to its message to clear.
    pub fn reset(registry: &RemoteMessageRegistry) -> (r: Vec<DispatchStep>)
        ensures
            r@ == steps(registry@, system_loops(SystemName::ClientReset)),
    {
        dispatch(SystemName::ClientReset, registry)
    }
}

} // verus!
