use bevy_replicon::client::ClientMessagePlugin;
use bevy_replicon::registry::{
    ClientField, ClientMessage, MessageSource, RemoteMessageRegistry, Resources, Selection,
    ServerField, ServerMessage, SharedField, SharedMessage,
};
use bevy_replicon::server::{BufferAction, ServerMessagePlugin};
use bevy_replicon::shared::{
    AuthMethod, Channel, ExpectFailure, RepliconSharedPlugin, SharedFinish, SharedSetup,
};
use bevy_replicon::systems::{
    dispatch, dispatch_outcome, query_ids, run, system, Access, ContextKind, DispatchOutcome, Found,
    NetworkBuffer, DispatchStep, Lookup, QueryParam, ResourceRole,
    RunCondition, Schedule, SystemName, SystemRef, SystemSet, SystemSpec,
};

fn client(base: usize) -> ClientMessage {
    ClientMessage { messages_id: base, reader_id: base + 1, from_messages_id: base + 2 }
}

fn server(base: usize) -> ServerMessage {
    ServerMessage { messages_id: base, queue_id: base + 1, to_messages_id: base + 2 }
}

fn shared(base: usize) -> SharedMessage {
    SharedMessage { messages_id: base, shared_messages_id: base + 1 }
}

/// Two client messages (one of them an event), two server messages (one an event) and one
/// shared event.
fn full_registry() -> RemoteMessageRegistry {
    let mut reg = RemoteMessageRegistry::new();
    reg.client_messages.push(client(10));
    reg.client_events.push(client(20));
    reg.server_messages.push(server(30));
    reg.server_events.push(server(40));
    reg.shared_events.push(shared(50));
    reg
}

fn entries(plan: &[SystemSpec]) -> Vec<(SystemName, Schedule)> {
    plan.iter().map(|s| (s.name, s.schedule)).collect()
}

#[test]
fn empty_registry_adds_no_systems() {
    let reg = RemoteMessageRegistry::new();
    assert!(reg.is_empty());
    assert!(ClientMessagePlugin.finish(&reg).is_empty());
    assert!(ServerMessagePlugin.finish(&reg).is_empty());
}

#[test]
fn client_plan_for_full_registry() {
    let reg = full_registry();
    let plan = ClientMessagePlugin.finish(&reg);
    assert_eq!(
        entries(&plan),
        vec![
            (SystemName::ClientReceive, Schedule::PreUpdate),
            (SystemName::ClientReceive, Schedule::OnEnterClientConnected),
            (SystemName::ClientTrigger, Schedule::PreUpdate),
            (SystemName::ClientTrigger, Schedule::OnEnterClientConnected),
            (SystemName::ClientSend, Schedule::PostUpdate),
            (SystemName::ClientSendLocally, Schedule::PostUpdate),
            (SystemName::ClientSendShared, Schedule::PostUpdate),
            (SystemName::ClientSendSharedLocally, Schedule::PostUpdate),
            (SystemName::ClientTriggerShared, Schedule::PostUpdate),
            (SystemName::ClientReset, Schedule::OnExitClientConnected),
        ]
    );
    // receiving runs only while connected in PreUpdate, unconditionally on entering the state
    assert_eq!(plan[0].run_if, vec![RunCondition::ClientConnected]);
    assert!(plan[1].run_if.is_empty());
    assert_eq!(plan[0].after, vec![SystemRef::ReceiveReplication]);
    assert_eq!(plan[2].after, vec![SystemRef::Local(SystemName::ClientReceive)]);
    assert_eq!(plan[5].after, vec![SystemRef::Local(SystemName::ClientSend)]);
    assert_eq!(plan[5].run_if, vec![RunCondition::ClientDisconnected]);
    assert_eq!(plan[8].after, vec![SystemRef::Local(SystemName::ClientSendSharedLocally)]);
    assert_eq!(plan[9].set, SystemSet::ClientReset);
    assert_eq!(plan[4].set, SystemSet::ClientSend);
    assert_eq!(plan[0].set, SystemSet::ClientReceive);
}

#[test]
fn client_plan_with_only_server_messages() {
    let mut reg = RemoteMessageRegistry::new();
    reg.server_messages.push(server(1));
    let plan = ClientMessagePlugin.finish(&reg);
    assert_eq!(
        entries(&plan),
        vec![
            (SystemName::ClientReceive, Schedule::PreUpdate),
            (SystemName::ClientReceive, Schedule::OnEnterClientConnected),
            (SystemName::ClientReset, Schedule::OnExitClientConnected),
        ]
    );
}

#[test]
fn client_plan_with_only_shared_messages() {
    let mut reg = RemoteMessageRegistry::new();
    reg.shared_messages.push(shared(1));
    let plan = ClientMessagePlugin.finish(&reg);
    assert_eq!(
        entries(&plan),
        vec![
            (SystemName::ClientSendShared, Schedule::PostUpdate),
            (SystemName::ClientSendSharedLocally, Schedule::PostUpdate),
            (SystemName::ClientReset, Schedule::OnExitClientConnected),
        ]
    );
}

#[test]
fn server_plan_for_full_registry() {
    let reg = full_registry();
    let plan = ServerMessagePlugin.finish(&reg);
    assert_eq!(
        entries(&plan),
        vec![
            (SystemName::ServerReceive, Schedule::PreUpdate),
            (SystemName::ServerTrigger, Schedule::PreUpdate),
            (SystemName::ServerReceiveShared, Schedule::PreUpdate),
            (SystemName::ServerTriggerShared, Schedule::PreUpdate),
            (SystemName::ServerSendOrBuffer, Schedule::PostUpdate),
            (SystemName::ServerSendBuffered, Schedule::PostUpdate),
            (SystemName::ServerSendLocally, Schedule::PostUpdate),
        ]
    );
    assert_eq!(plan[1].run_if, vec![RunCondition::ClientDisconnected]);
    assert_eq!(plan[1].after, vec![SystemRef::Local(SystemName::ServerReceive)]);
    assert_eq!(
        plan[5].run_if,
        vec![RunCondition::ServerRunning, RunCondition::ServerTickChanged]
    );
    assert_eq!(
        plan[6].after,
        vec![SystemRef::Local(SystemName::ServerSendBuffered), SystemRef::SendMessages]
    );
    assert!(plan[5].queries.is_empty());
}

#[test]
fn server_plan_with_only_client_messages() {
    let mut reg = RemoteMessageRegistry::new();
    reg.client_messages.push(client(1));
    let plan = ServerMessagePlugin.finish(&reg);
    assert_eq!(entries(&plan), vec![(SystemName::ServerReceive, Schedule::PreUpdate)]);
}

#[test]
fn client_send_reads_messages_and_writes_readers() {
    let reg = full_registry();
    let steps = ClientMessagePlugin::send(&reg);
    assert_eq!(
        steps,
        vec![
            DispatchStep {
                source: MessageSource::Client(Selection::All),
                index: 0,
                first: Lookup { query: 0, resource: 10, access: Access::Read, role: ResourceRole::Messages },
                second: Some(Lookup {
                    query: 1,
                    resource: 11,
                    access: Access::Write,
                    role: ResourceRole::MessageReader,
                }),
            },
            DispatchStep {
                source: MessageSource::Client(Selection::All),
                index: 1,
                first: Lookup { query: 0, resource: 20, access: Access::Read, role: ResourceRole::Messages },
                second: Some(Lookup {
                    query: 1,
                    resource: 21,
                    access: Access::Write,
                    role: ResourceRole::MessageReader,
                }),
            },
        ]
    );
    let send = system(SystemName::ClientSend, Schedule::PostUpdate);
    assert_eq!(query_ids(&reg, send.queries[0]), vec![10, 20]);
    assert_eq!(query_ids(&reg, send.queries[1]), vec![11, 21]);
}

#[test]
fn client_receive_fetches_messages_and_queues() {
    let reg = full_registry();
    let ticked = ClientMessagePlugin::receive(&reg, 7);
    assert!(ticked.iter().all(|t| t.tick == 7));
    let steps: Vec<DispatchStep> = ticked.iter().map(|t| t.step).collect();
    let fetched: Vec<(usize, Option<usize>)> =
        steps.iter().map(|s| (s.first.resource, s.second.map(|l| l.resource))).collect();
    assert_eq!(fetched, vec![(30, Some(31)), (40, Some(41))]);
    assert!(steps.iter().all(|s| s.first.role == ResourceRole::Messages));
}

#[test]
fn client_trigger_walks_server_events_only() {
    let reg = full_registry();
    let steps = ClientMessagePlugin::trigger(&reg);
    assert_eq!(steps.len(), 1);
    assert_eq!(steps[0].source, MessageSource::Server(Selection::Events));
    assert_eq!(steps[0].index, 0);
    assert_eq!(steps[0].first.resource, 40);
    assert_eq!(steps[0].second, None);
}

#[test]
fn client_reset_clears_every_buffer() {
    let mut reg = full_registry();
    reg.shared_messages.push(shared(60));
    let steps = ClientMessagePlugin::reset(&reg);
    let fetched: Vec<(usize, usize, ResourceRole)> =
        steps.iter().map(|s| (s.first.query, s.first.resource, s.first.role)).collect();
    assert_eq!(
        fetched,
        vec![
            (0, 10, ResourceRole::Messages),
            (0, 20, ResourceRole::Messages),
            (1, 31, ResourceRole::Queue),
            (1, 41, ResourceRole::Queue),
            (2, 60, ResourceRole::SharedMessages),
            (2, 50, ResourceRole::SharedMessages),
        ]
    );
}

#[test]
fn client_local_and_shared_dispatch() {
    let reg = full_registry();
    let local = ClientMessagePlugin::send_locally(&reg);
    assert_eq!(local[0].first.resource, 12);
    assert_eq!(local[0].first.role, ResourceRole::FromClientsMessages);
    assert_eq!(local[0].second.unwrap().resource, 10);
    let shared_send = ClientMessagePlugin::send_shared(&reg);
    assert_eq!(shared_send.len(), 1);
    assert_eq!(shared_send[0].first.resource, 50);
    assert_eq!(shared_send[0].second.unwrap().resource, 51);
    let shared_local = ClientMessagePlugin::send_shared_locally(&reg);
    assert_eq!(shared_local[0].first.resource, 51);
    assert_eq!(shared_local[0].second.unwrap().resource, 50);
    let trigger_shared = ClientMessagePlugin::trigger_shared(&reg);
    assert_eq!(trigger_shared[0].first.resource, 51);
    assert_eq!(trigger_shared[0].source, MessageSource::Shared(Selection::Events));
}

#[test]
fn server_dispatch() {
    let reg = full_registry();
    let actions = ServerMessagePlugin::send_or_buffer(&reg);
    assert_eq!(actions[0], BufferAction::StartTick);
    assert_eq!(actions.len(), 3);
    let sob: Vec<DispatchStep> = actions[1..]
        .iter()
        .map(|a| match a {
            BufferAction::Dispatch(step) => *step,
            BufferAction::StartTick => panic!("the tick starts once, first"),
        })
        .collect();
    let fetched: Vec<(usize, Access, ResourceRole)> =
        sob.iter().map(|s| (s.first.resource, s.first.access, s.first.role)).collect();
    assert_eq!(
        fetched,
        vec![
            (32, Access::Read, ResourceRole::ToClientsMessages),
            (42, Access::Read, ResourceRole::ToClientsMessages),
        ]
    );
    let recv = ServerMessagePlugin::receive(&reg);
    let ids: Vec<usize> = recv.iter().map(|s| s.first.resource).collect();
    assert_eq!(ids, vec![12, 22]);
    let trig = ServerMessagePlugin::trigger(&reg);
    assert_eq!(trig.len(), 1);
    assert_eq!(trig[0].first.resource, 22);
    let recv_shared = ServerMessagePlugin::receive_shared(&reg);
    assert_eq!(recv_shared[0].first.resource, 51);
    let trig_shared = ServerMessagePlugin::trigger_shared(&reg);
    assert_eq!(trig_shared[0].first.resource, 51);
    let local = ServerMessagePlugin::send_locally(&reg);
    assert_eq!(local[1].first.resource, 42);
    assert_eq!(local[1].first.role, ResourceRole::ToMessages);
    assert_eq!(local[1].second.unwrap().resource, 40);
    assert!(dispatch(SystemName::ServerSendBuffered, &reg).is_empty());
}

#[test]
fn every_fetch_is_declared() {
    let reg = full_registry();
    let plans = [ClientMessagePlugin.finish(&reg), ServerMessagePlugin.finish(&reg)];
    for plan in plans.iter() {
        for spec in plan {
            for step in dispatch(spec.name, &reg) {
                for l in [Some(step.first), step.second].into_iter().flatten() {
                    let q: QueryParam = spec.queries[l.query];
                    assert!(query_ids(&reg, q).contains(&l.resource));
                    assert!(q.access == Access::Write || l.access == Access::Read);
                }
            }
        }
    }
}

#[test]
fn no_system_declares_a_resource_twice() {
    let reg = full_registry();
    let plans = [ClientMessagePlugin.finish(&reg), ServerMessagePlugin.finish(&reg)];
    for plan in plans.iter() {
        for spec in plan {
            let mut seen: Vec<usize> = Vec::new();
            for q in &spec.queries {
                for id in query_ids(&reg, *q) {
                    assert!(!seen.contains(&id));
                    seen.push(id);
                }
            }
        }
    }
}

#[test]
fn query_ids_of_events_and_all() {
    let reg = full_registry();
    let events = QueryParam {
        access: Access::Write,
        resources: Resources::Client(Selection::Events, ClientField::FromMessages),
    };
    assert_eq!(query_ids(&reg, events), vec![22]);
    let all = QueryParam {
        access: Access::Write,
        resources: Resources::Server(Selection::All, ServerField::Queue),
    };
    assert_eq!(query_ids(&reg, all), vec![31, 41]);
    let shared_all = QueryParam {
        access: Access::Read,
        resources: Resources::Shared(Selection::All, SharedField::Messages),
    };
    assert_eq!(query_ids(&reg, shared_all), vec![50]);
}

#[test]
fn expect_texts() {
    assert_eq!(ResourceRole::Messages.expect_text(), "messages resource should be accessible");
    assert_eq!(
        ResourceRole::MessageReader.expect_text(),
        "message reader resource should be accessible"
    );
    assert_eq!(
        ResourceRole::SharedMessages.expect_text(),
        "shared messages resource should be accessible"
    );
    assert_eq!(ResourceRole::Queue.expect_text(), "queue resource should be accessible");
    assert_eq!(
        ResourceRole::FromClientsMessages.expect_text(),
        "from clients messages resource should be accessible"
    );
    assert_eq!(
        ResourceRole::ToClientsMessages.expect_text(),
        "to clients messages resource should be accessible"
    );
    assert_eq!(ResourceRole::ToMessages.expect_text(), "to messages resource should be accessible");
}

#[test]
fn auth_method_defaults_to_protocol_check() {
    assert_eq!(AuthMethod::default(), AuthMethod::ProtocolCheck);
    assert_eq!(RepliconSharedPlugin::default().auth_method, AuthMethod::ProtocolCheck);
}

#[test]
fn protocol_check_registers_its_events() {
    let steps = RepliconSharedPlugin { auth_method: AuthMethod::ProtocolCheck }.build();
    assert_eq!(steps.len(), 16);
    assert_eq!(steps[11], SharedSetup::InsertAuthMethod(AuthMethod::ProtocolCheck));
    assert_eq!(steps[12], SharedSetup::AddDisconnectRequestMessage);
    assert_eq!(
        &steps[13..],
        &[
            SharedSetup::AddProtocolHashClientEvent(Channel::Ordered),
            SharedSetup::AddProtocolMismatchServerEvent(Channel::Unreliable),
            SharedSetup::MakeProtocolMismatchIndependent,
        ]
    );
}

#[test]
fn other_auth_methods_skip_protocol_events() {
    for auth in [AuthMethod::NoCheck, AuthMethod::Custom] {
        let steps = RepliconSharedPlugin { auth_method: auth }.build();
        assert_eq!(steps.len(), 13);
        assert_eq!(steps[0], SharedSetup::InitClientState);
        assert_eq!(steps[11], SharedSetup::InsertAuthMethod(auth));
        assert!(!steps.contains(&SharedSetup::MakeProtocolMismatchIndependent));
    }
}

#[test]
fn ordering_targets_are_planned_in_the_same_schedule() {
    let mut partial = RemoteMessageRegistry::new();
    partial.server_events.push(server(1));
    partial.shared_events.push(shared(5));
    let registries = [full_registry(), partial];
    for reg in registries.iter() {
        let plans = [ClientMessagePlugin.finish(reg), ServerMessagePlugin.finish(reg)];
        for plan in plans.iter() {
            for spec in plan {
                for target in &spec.after {
                    if let SystemRef::Local(name) = target {
                        assert!(plan
                            .iter()
                            .any(|other| other.name == *name && other.schedule == spec.schedule));
                    }
                }
            }
        }
    }
}

#[test]
fn plans_add_each_system_once_per_schedule() {
    let reg = full_registry();
    for plan in [ClientMessagePlugin.finish(&reg), ServerMessagePlugin.finish(&reg)] {
        let e = entries(&plan);
        for i in 0..e.len() {
            for j in (i + 1)..e.len() {
                assert_ne!(e[i], e[j]);
            }
        }
    }
}

#[test]
fn send_or_buffer_starts_the_tick_even_without_messages() {
    let reg = RemoteMessageRegistry::new();
    assert_eq!(ServerMessagePlugin::send_or_buffer(&reg), vec![BufferAction::StartTick]);
}

#[test]
fn outcome_stops_at_the_first_failed_fetch() {
    let reg = full_registry();
    let steps = ClientMessagePlugin::send(&reg);
    let all = vec![Found { first: true, second: true }; 2];
    assert_eq!(dispatch_outcome(&steps, &all), DispatchOutcome { handled: 2, failure: None });
    let reader_missing = vec![Found { first: true, second: true }, Found { first: true, second: false }];
    assert_eq!(
        dispatch_outcome(&steps, &reader_missing),
        DispatchOutcome { handled: 1, failure: Some(ResourceRole::MessageReader) }
    );
    let both_missing = vec![Found { first: false, second: false }, Found { first: false, second: false }];
    assert_eq!(
        dispatch_outcome(&steps, &both_missing),
        DispatchOutcome { handled: 0, failure: Some(ResourceRole::Messages) }
    );
    // a step with one fetch cannot fail on a second one
    let reset = ClientMessagePlugin::reset(&reg);
    let found = vec![Found { first: true, second: false }; reset.len()];
    assert_eq!(
        dispatch_outcome(&reset, &found),
        DispatchOutcome { handled: reset.len(), failure: None }
    );
}

#[test]
fn positions_of_events_follow_the_plain_messages() {
    let mut reg = full_registry();
    reg.client_messages.push(client(70));
    assert_eq!(reg.position(MessageSource::Client(Selection::Events), 0), Some(2));
    assert_eq!(reg.position(MessageSource::Client(Selection::All), 2), Some(2));
    assert_eq!(reg.position(MessageSource::Client(Selection::All), 3), None);
    assert_eq!(reg.position(MessageSource::Client(Selection::Events), 1), None);
    assert_eq!(reg.position(MessageSource::Server(Selection::Events), 0), Some(1));
    assert_eq!(reg.position(MessageSource::Shared(Selection::Events), 0), Some(0));
}

#[test]
fn runs_hand_every_step_the_same_context_and_buffer() {
    let reg = full_registry();
    let send = run(SystemName::ClientSend, &reg);
    let ctx = send.context.expect("sending builds a context");
    assert_eq!(ctx.kind, ContextKind::ClientSend);
    assert!(ctx.invalid_entities.is_empty());
    assert_eq!(send.calls.len(), 2);
    for call in &send.calls {
        assert_eq!(call.args.context, Some(ContextKind::ClientSend));
        assert_eq!(call.args.buffer, Some(NetworkBuffer::ClientMessages));
        assert!(!call.args.update_tick);
    }
    let receive = run(SystemName::ClientReceive, &reg);
    assert!(receive.calls.iter().all(|c| c.args.update_tick));
    let sob = run(SystemName::ServerSendOrBuffer, &reg);
    assert_eq!(sob.context.unwrap().kind, ContextKind::ServerSend);
    assert!(sob.calls.iter().all(|c| c.args.connected_clients
        && c.args.message_buffer
        && c.args.buffer == Some(NetworkBuffer::ServerMessages)));
    let shared_receive = run(SystemName::ServerReceiveShared, &reg);
    assert_eq!(shared_receive.context.unwrap().kind, ContextKind::ServerReceive);
    let reset = run(SystemName::ClientReset, &reg);
    assert!(reset.context.is_none());
    assert!(reset.calls.iter().all(|c| c.args.buffer.is_none()));
}

#[test]
fn finishing_failures_and_their_texts() {
    let plugin = RepliconSharedPlugin::default();
    assert_eq!(plugin.finish(true), Ok(SharedFinish::ReplaceHasherWithHash));
    assert_eq!(plugin.finish(false), Err(ExpectFailure::ProtocolHasher));
    assert_eq!(ServerMessagePlugin::send_buffered(true), Ok(()));
    assert_eq!(ServerMessagePlugin::send_buffered(false), Err(ExpectFailure::BufferedSend));
    assert_eq!(
        ExpectFailure::ProtocolHasher.expect_text(),
        "protocol hasher should be initialized at the plugin build"
    );
    assert_eq!(ExpectFailure::BufferedSend.expect_text(), "buffered server events should send");
    assert_eq!(
        ExpectFailure::MessageRegistry.expect_text(),
        "message registry should be initialized on app build"
    );
}
