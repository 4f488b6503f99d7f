//! What both the client and the server set up, and how clients get authorized.
use vstd::prelude::*;

verus! {

/// Configures how connected clients become authorized.
///
/// Set through [`RepliconSharedPlugin::auth_method`].
#[derive(Clone, Copy, Debug, PartialEq, Eq, Structural)]
pub enum AuthMethod {
    /// Wait for the protocol hash event from the client.
    ///
    /// - If the hash differs from the server's, the client is notified with a protocol
    ///   mismatch event and disconnected.
    /// - If the hash matches, the client is marked as authorized.
    ProtocolCheck,
    /// Consider all connected clients immediately authorized. Use with caution.
    NoCheck,
    /// Disable automatic authorization: the user marks clients as authorized on the server.
    Custom,
}

impl Default for AuthMethod {
    fn default() -> (r: Self)
        ensures
            r == AuthMethod::ProtocolCheck,
    {
        AuthMethod::ProtocolCheck
    }
}

/// The channel a message goes through.
#[derive(Clone, Copy, Debug, PartialEq, Eq, Structural)]
pub enum Channel {
    Ordered,
    Unreliable,
}

/// One thing the shared plugin sets up when it is built, in order.
#[derive(Clone, Copy, Debug, PartialEq, Eq, Structural)]
pub enum SharedSetup {
    InitClientState,
    InitServerState,
    InitProtocolHasher,
    InitNetworkIdMap,
    InitRepliconChannels,
    InitReplicationRegistry,
    InitReplicationRules,
    InitReplicationStorage,
    InitSignatureMap,
    InitReceiveMarkers,
    InitRemoteMessageRegistry,
    /// Makes the authorization method available as a resource.
    InsertAuthMethod(AuthMethod),
    AddDisconnectRequestMessage,
    /// Registers the protocol hash as an event sent by clients.
    AddProtocolHashClientEvent(Channel),
    /// Registers the protocol mismatch as an event sent by the server.
    AddProtocolMismatchServerEvent(Channel),
    /// Lets clients receive the protocol mismatch event without waiting for replication.
    MakeProtocolMismatchIndependent,
}

/// The steps that every build takes, whatever the authorization method.
pub open spec fn common_setup(auth_method: AuthMethod) -> Seq<SharedSetup> {
    seq![
        SharedSetup::InitClientState,
        SharedSetup::InitServerState,
        SharedSetup::InitProtocolHasher,
        SharedSetup::InitNetworkIdMap,
        SharedSetup::InitRepliconChannels,
        SharedSetup::InitReplicationRegistry,
        SharedSetup::InitReplicationRules,
        SharedSetup::InitReplicationStorage,
        SharedSetup::InitSignatureMap,
        SharedSetup::InitReceiveMarkers,
        SharedSetup::InitRemoteMessageRegistry,
        SharedSetup::InsertAuthMethod(auth_method),
        SharedSetup::AddDisconnectRequestMessage,
    ]
}

/// The steps that register the events of the protocol check.
pub open spec fn protocol_check_setup() -> Seq<SharedSetup> {
    seq![
        SharedSetup::AddProtocolHashClientEvent(Channel::Ordered),
        SharedSetup::AddProtocolMismatchServerEvent(Channel::Unreliable),
        SharedSetup::MakeProtocolMismatchIndependent,
    ]
}

/// What the shared plugin sets up for an authorization method.
pub open spec fn shared_setup(auth_method: AuthMethod) -> Seq<SharedSetup> {
    if auth_method == AuthMethod::ProtocolCheck {
        common_setup(auth_method) + protocol_check_setup()
    } else {
        common_setup(auth_method)
    }
}

/// Initializes the states, resources and messages needed by both the client and the server.
#[derive(Clone, Copy, Debug, PartialEq, Eq, Structural)]
pub struct RepliconSharedPlugin {
    /// Configures the authorization process.
    pub auth_method: AuthMethod,
}

impl Default for RepliconSharedPlugin {
    fn default() -> (r: Self)
        ensures
            r.auth_method == AuthMethod::ProtocolCheck,
    {
        RepliconSharedPlugin { auth_method: AuthMethod::ProtocolCheck }
    }
}

impl RepliconSharedPlugin {
    /// What to set up when the plugin is built.
    pub fn build(&self) -> (r: Vec<SharedSetup>)
        ensures
            r@ == shared_setup(self.auth_method),
    {
        let mut steps: Vec<SharedSetup> = Vec::new();
        steps.push(SharedSetup::InitClientState);
        steps.push(SharedSetup::InitServerState);
        steps.push(SharedSetup::InitProtocolHasher);
        steps.push(SharedSetup::InitNetworkIdMap);
        steps.push(SharedSetup::InitRepliconChannels);
        steps.push(SharedSetup::InitReplicationRegistry);
        steps.push(SharedSetup::InitReplicationRules);
        steps.push(SharedSetup::InitReplicationStorage);
        steps.push(SharedSetup::InitSignatureMap);
        steps.push(SharedSetup::InitReceiveMarkers);
        steps.push(SharedSetup::InitRemoteMessageRegistry);
        steps.push(SharedSetup::InsertAuthMethod(self.auth_method));
        steps.push(SharedSetup::AddDisconnectRequestMessage);
        assert(steps@ =~= common_setup(self.auth_method));
        if self.auth_method == AuthMethod::ProtocolCheck {
            steps.push(SharedSetup::AddProtocolHashClientEvent(Channel::Ordered));
            steps.push(SharedSetup::AddProtocolMismatchServerEvent(Channel::Unreliable));
            steps.push(SharedSetup::MakeProtocolMismatchIndependent);
            assert(steps@ =~= common_setup(self.auth_method) + protocol_check_setup());
        }
        steps
    }
}

/// What a plugin panics with when the world lacks what it expects.
#[derive(Clone, Copy, Debug, PartialEq, Eq, Structural)]
pub enum ExpectFailure {
    /// The message plugins find no message registry when they finish.
    MessageRegistry,
    /// The shared plugin finds no protocol hasher when it finishes.
    ProtocolHasher,
    /// The message buffer of the server fails to send the buffered messages.
    BufferedSend,
}

pub open spec fn failure_text(f: ExpectFailure) -> Seq<char> {
    match f {
        ExpectFailure::MessageRegistry => "message registry should be initialized on app build"@,
        ExpectFailure::ProtocolHasher => "protocol hasher should be initialized at the plugin build"@,
        ExpectFailure::BufferedSend => "buffered server events should send"@,
    }
}

impl ExpectFailure {
    /// The text of the panic.
    pub fn expect_text(self) -> (r: &'static str)
        ensures
            r@ == failure_text(self),
    {
        match self {
            ExpectFailure::MessageRegistry => "message registry should be initialized on app build",
            ExpectFailure::ProtocolHasher => "protocol hasher should be initialized at the plugin build",
            ExpectFailure::BufferedSend => "buffered server events should send",
        }
    }
}

/// What the shared plugin does once every plugin is built.
#[derive(Clone, Copy, Debug, PartialEq, Eq, Structural)]
pub enum SharedFinish {
    /// The protocol hasher is taken out of the world and its hash put in its place.
    ReplaceHasherWithHash,
}

impl RepliconSharedPlugin {
    /// Once every plugin is built: the protocol hasher is replaced by its hash, or, when the
    /// world has no hasher, the plugin panics with the text of the failure.
    pub fn finish(&self, hasher_found: bool) -> (r: Result<SharedFinish, ExpectFailure>)
        ensures
            r == (if hasher_found {
                Ok::<SharedFinish, ExpectFailure>(SharedFinish::ReplaceHasherWithHash)
            } else {
                Err(ExpectFailure::ProtocolHasher)
            }),
    {
        if hasher_found {
            Ok(SharedFinish::ReplaceHasherWithHash)
        } else {
            Err(ExpectFailure::ProtocolHasher)
        }
    }
}

} // verus!
