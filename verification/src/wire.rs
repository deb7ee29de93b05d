//! Lifecycle records carried on the engine-management channel: component
//! announcement, readiness, health, graceful stop, and the typed launch
//! envelope a child process receives from its supervising manager.

use vstd::prelude::*;

use crate::identity::{EngineIdentifier, ParentAuthority, UnixUserIdentifier};

verus! {

/// Name of a supervised component, as the manager addresses it.
#[derive(Debug, Clone, PartialEq, Eq, PartialOrd, Ord, Hash)]
pub struct ComponentName(String);

impl View for ComponentName {
    type V = Seq<char>;

    closed spec fn view(&self) -> Seq<char> {
        self.0@
    }
}

impl ComponentName {
    /// Names a component by the given text.
    pub fn new(value: &str) -> (name: Self)
        ensures
            name@ == value@,
    {
        ComponentName(value.to_owned())
    }

    /// The text of the name.
    pub fn as_str(&self) -> (text: &str)
        ensures
            text@ == self@,
    {
        self.0.as_str()
    }
}

/// The role a supervised component plays in the engine.
#[derive(Debug, Clone, Copy, PartialEq, Eq, Structural)]
pub enum ComponentKind {
    Mind,
    Router,
    Message,
    System,
    Harness,
    Terminal,
    Introspect,
    Orchestrate,
    Spirit,
}

/// Health state a component reports.
#[derive(Debug, Clone, Copy, PartialEq, Eq, Structural)]
pub enum ComponentHealth {
    Starting,
    Running,
    Degraded,
    Stopped,
    Failed,
}

/// State the manager wants a component to be in.
#[derive(Debug, Clone, Copy, PartialEq, Eq, Structural)]
pub enum ComponentDesiredState {
    Running,
    Stopped,
}

/// A component's name, role, desired state and current health.
#[derive(Debug, Clone, PartialEq, Eq)]
pub struct ComponentStatus {
    pub name: ComponentName,
    pub kind: ComponentKind,
    pub desired_state: ComponentDesiredState,
    pub health: ComponentHealth,
}

/// Protocol number a component announces.
#[derive(Debug, Clone, Copy, PartialEq, Eq, Hash, Structural)]
pub struct Protocol(u16);

impl View for Protocol {
    type V = u16;

    closed spec fn view(&self) -> u16 {
        self.0
    }
}

impl Protocol {
    /// Two values are equal exactly when their views are.
    pub proof fn lemma_view_injective(a: Self, b: Self)
        ensures
            a@ == b@ <==> a == b,
    {
    }
}

impl Protocol {
    /// Protocol with the given number.
    pub fn new(value: u16) -> (protocol: Self)
        ensures
            protocol@ == value,
    {
        Protocol(value)
    }

    /// The protocol number.
    pub fn into_u16(self) -> (value: u16)
        ensures
            value == self@,
    {
        self.0
    }
}

/// Version of the engine-management protocol a launched child must speak.
#[derive(Debug, Clone, Copy, PartialEq, Eq, Hash, Structural)]
pub struct EngineManagementProtocolVersion(u16);

impl View for EngineManagementProtocolVersion {
    type V = u16;

    closed spec fn view(&self) -> u16 {
        self.0
    }
}

impl EngineManagementProtocolVersion {
    /// Two values are equal exactly when their views are.
    pub proof fn lemma_view_injective(a: Self, b: Self)
        ensures
            a@ == b@ <==> a == b,
    {
    }
}

impl EngineManagementProtocolVersion {
    /// Version with the given number.
    pub fn new(value: u16) -> (version: Self)
        ensures
            version@ == value,
    {
        EngineManagementProtocolVersion(value)
    }

    /// The version number.
    pub fn into_u16(self) -> (value: u16)
        ensures
            value == self@,
    {
        self.0
    }
}

/// A filesystem path as it travels on the wire.
#[derive(Debug, Clone, PartialEq, Eq, Hash)]
pub struct WirePath(String);

impl View for WirePath {
    type V = Seq<char>;

    closed spec fn view(&self) -> Seq<char> {
        self.0@
    }
}

impl WirePath {
    /// Path with the given text.
    pub fn new(value: &str) -> (path: Self)
        ensures
            path@ == value@,
    {
        WirePath(value.to_owned())
    }

    /// The text of the path.
    pub fn as_str(&self) -> (text: &str)
        ensures
            text@ == self@,
    {
        self.0.as_str()
    }
}

/// Unix permission bits of a socket file.
#[derive(Debug, Clone, Copy, PartialEq, Eq, Hash, Structural)]
pub struct SocketMode(u32);

impl View for SocketMode {
    type V = u32;

    closed spec fn view(&self) -> u32 {
        self.0
    }
}

impl SocketMode {
    /// Two values are equal exactly when their views are.
    pub proof fn lemma_view_injective(a: Self, b: Self)
        ensures
            a@ == b@ <==> a == b,
    {
    }
}

impl SocketMode {
    /// Mode with the given permission bits.
    pub fn new(value: u32) -> (mode: Self)
        ensures
            mode@ == value,
    {
        SocketMode(value)
    }

    /// The permission bits.
    pub fn into_u32(self) -> (value: u32)
        ensures
            value == self@,
    {
        self.0
    }
}

/// A point in time, in nanoseconds.
#[derive(Debug, Clone, Copy, PartialEq, Eq, Hash, Structural)]
pub struct TimestampNanos(u64);

impl View for TimestampNanos {
    type V = u64;

    closed spec fn view(&self) -> u64 {
        self.0
    }
}

impl TimestampNanos {
    /// Two values are equal exactly when their views are.
    pub proof fn lemma_view_injective(a: Self, b: Self)
        ensures
            a@ == b@ <==> a == b,
    {
    }
}

impl TimestampNanos {
    /// Timestamp with the given number of nanoseconds.
    pub fn new(value: u64) -> (timestamp: Self)
        ensures
            timestamp@ == value,
    {
        TimestampNanos(value)
    }

    /// The number of nanoseconds.
    pub fn into_u64(self) -> (value: u64)
        ensures
            value == self@,
    {
        self.0
    }
}

/// Why a component failed to start.
#[derive(Debug, Clone, PartialEq, Eq, Structural)]
pub enum ComponentStartupError {
    SocketBindFailed,
    StoreOpenFailed,
    EnvelopeIncomplete,
}

/// Why a component is not ready yet.
#[derive(Debug, Clone, PartialEq, Eq, Structural)]
pub enum ComponentNotReadyReason {
    NotYetBound,
    AwaitingDependency,
    RecoveringFromCrash,
}

/// A child's announcement of itself to the manager.
#[derive(Debug, Clone, PartialEq, Eq)]
pub struct Presence {
    pub expected_component: ComponentName,
    pub expected_kind: ComponentKind,
    pub protocol: Protocol,
}

/// The manager's acknowledgement of an announced component.
#[derive(Debug, Clone, PartialEq, Eq)]
pub struct ComponentIdentity {
    pub name: ComponentName,
    pub kind: ComponentKind,
    pub protocol: Protocol,
    pub last_fatal_startup_error: Option<ComponentStartupError>,
}

/// Reply to a readiness query from a ready component.
#[derive(Debug, Clone, PartialEq, Eq, Structural)]
pub struct ComponentReady {
    pub component_started_at: Option<TimestampNanos>,
}

/// Reply to a readiness query from a component that is not ready.
#[derive(Debug, Clone, PartialEq, Eq, Structural)]
pub struct ComponentNotReady {
    pub reason: ComponentNotReadyReason,
}

/// Reply to a health query.
#[derive(Debug, Clone, PartialEq, Eq, Structural)]
pub struct ComponentHealthReport {
    pub health: ComponentHealth,
}

/// Reply to a stop request once the component has drained.
#[derive(Debug, Clone, PartialEq, Eq, Structural)]
pub struct StopAcknowledgement {
    pub drain_completed_at: Option<TimestampNanos>,
}

/// Kind of dependency that is missing.
#[derive(Debug, Clone, Copy, PartialEq, Eq, Structural)]
pub enum DependencyKind {
    PeerComponent,
}

/// Kind of resource that is unavailable.
#[derive(Debug, Clone, Copy, PartialEq, Eq, Structural)]
pub enum ResourceKind {
    ManagerSocket,
    SocketPath,
    StateDirectory,
}

/// Why a decodable request is not answered with its typed result.
#[derive(Debug, Clone, Copy, PartialEq, Eq, Structural)]
pub enum UnimplementedReason {
    NotInPrototypeScope,
    DependencyMissing(DependencyKind),
    ResourceUnavailable(ResourceKind),
}

/// Reply to a request variant that decodes but is not built yet.
#[derive(Debug, Clone, PartialEq, Eq, Structural)]
pub struct RequestUnimplemented {
    pub reason: UnimplementedReason,
}

/// Owner of an engine.
#[derive(Debug, Clone, Copy, PartialEq, Eq, Structural)]
pub enum OwnerIdentity {
    UnixUser(UnixUserIdentifier),
}

/// The ordinary domain socket of a peer component.
#[derive(Debug, Clone, PartialEq, Eq)]
pub struct PeerSocket {
    pub component_name: ComponentName,
    pub domain_socket_path: WirePath,
}

/// Typed launch record the manager hands to a child process.
#[derive(Debug, Clone, PartialEq, Eq)]
pub struct SpawnEnvelope {
    pub engine_identifier: EngineIdentifier,
    pub component_kind: ComponentKind,
    pub component_name: ComponentName,
    pub owner_identity: OwnerIdentity,
    pub state_dir: WirePath,
    pub domain_socket_path: WirePath,
    pub domain_socket_mode: SocketMode,
    pub engine_management_socket_path: WirePath,
    pub engine_management_socket_mode: SocketMode,
    pub peer_sockets: Vec<PeerSocket>,
    pub manager_socket: WirePath,
    pub engine_management_protocol_version: EngineManagementProtocolVersion,
    pub parent_authority: ParentAuthority,
}

/// What the manager asks a component about.
#[derive(Debug, Clone, PartialEq, Eq)]
pub enum Query {
    ReadinessStatus(ComponentName),
    HealthStatus(ComponentName),
}

/// Requests the manager sends on the engine-management channel.
#[derive(Debug, Clone, PartialEq, Eq)]
pub enum Operation {
    Announce(Presence),
    Query(Query),
    Stop(ComponentName),
}

/// Replies a component sends on the engine-management channel.
#[derive(Debug, Clone, PartialEq, Eq)]
pub enum Reply {
    Identified(ComponentIdentity),
    Ready(ComponentReady),
    NotReady(ComponentNotReady),
    HealthReport(ComponentHealthReport),
    StopAcknowledged(StopAcknowledgement),
    Unimplemented(RequestUnimplemented),
}

} // verus!
