//! Ordinary Signal contract for Persona engine-management lifecycle traffic.
//!
//! This crate carries the manager-to-supervised-component relation:
//! component announcement, readiness, health, graceful stop, the typed
//! launch envelope a child process receives, and the verification that binds
//! a connecting supervisor to a stable durable identity.

pub mod identity;
pub mod text;
pub mod wire;

pub use identity::{
    DurableIdentity, EngineIdentifier, IdentityError, ParentAuthority, PeerCredentials,
    PeerCredentialsSource, ProcessIdentifier, UnixGroupIdentifier, UnixUserIdentifier,
    verify_peer_credentials_against_envelope, verify_read_peer_credentials,
    verify_spawn_envelope_origin,
};
pub use wire::{
    ComponentDesiredState, ComponentHealth, ComponentHealthReport, ComponentIdentity,
    ComponentKind, ComponentName, ComponentNotReady, ComponentNotReadyReason, ComponentReady,
    ComponentStartupError, ComponentStatus, DependencyKind, EngineManagementProtocolVersion,
    Operation, OwnerIdentity, PeerSocket, Presence, Protocol, Query, Reply, RequestUnimplemented,
    ResourceKind, SocketMode, SpawnEnvelope, StopAcknowledgement, TimestampNanos,
    UnimplementedReason, WirePath,
};
