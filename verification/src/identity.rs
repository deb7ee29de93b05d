//! Stable durable identity for supervised components.
//!
//! The supervising manager declares, in the spawn envelope, the long-lived
//! engine identifier and its own parent authority (kernel process identifier
//! and Unix user identifier). When the supervisor later connects to a socket
//! the child bound, the child reads the kernel-supplied peer credentials of
//! the accepted stream. A [`DurableIdentity`] binds the envelope's engine
//! identifier to those credentials, and is minted only when the reported
//! process and Unix user identifiers agree with the declared parent
//! authority. On any refusal the caller must close the connection: the peer
//! is not the supervisor.

use vstd::prelude::*;
use vstd::string::*;

use crate::text::{decimal, push_decimal};
use crate::wire::SpawnEnvelope;

verus! {

/// Kernel process identifier, as reported for a socket peer.
#[derive(Debug, Clone, Copy, PartialEq, Eq, Hash, Structural)]
pub struct ProcessIdentifier(u32);

impl View for ProcessIdentifier {
    type V = u32;

    closed spec fn view(&self) -> u32 {
        self.0
    }
}

impl ProcessIdentifier {
    /// Two values are equal exactly when their views are.
    pub proof fn lemma_view_injective(a: Self, b: Self)
        ensures
            a@ == b@ <==> a == b,
    {
    }
}

impl ProcessIdentifier {
    /// Creates a process identifier from a raw kernel value.
    pub fn new(value: u32) -> (identifier: Self)
        ensures
            identifier@ == value,
    {
        ProcessIdentifier(value)
    }

    /// Returns the raw process identifier.
    pub fn into_u32(self) -> (value: u32)
        ensures
            value == self@,
    {
        self.0
    }
}

/// Unix user identifier.
#[derive(Debug, Clone, Copy, PartialEq, Eq, Hash, Structural)]
pub struct UnixUserIdentifier(u32);

impl View for UnixUserIdentifier {
    type V = u32;

    closed spec fn view(&self) -> u32 {
        self.0
    }
}

impl UnixUserIdentifier {
    /// Two values are equal exactly when their views are.
    pub proof fn lemma_view_injective(a: Self, b: Self)
        ensures
            a@ == b@ <==> a == b,
    {
    }
}

impl UnixUserIdentifier {
    /// Creates a Unix user identifier from a raw value.
    pub fn new(value: u32) -> (identifier: Self)
        ensures
            identifier@ == value,
    {
        UnixUserIdentifier(value)
    }

    /// Returns the raw Unix user identifier.
    pub fn as_u32(&self) -> (value: u32)
        ensures
            value == self@,
    {
        self.0
    }
}

/// Unix group identifier, as reported for a socket peer.
#[derive(Debug, Clone, Copy, PartialEq, Eq, Hash, Structural)]
pub struct UnixGroupIdentifier(u32);

impl View for UnixGroupIdentifier {
    type V = u32;

    closed spec fn view(&self) -> u32 {
        self.0
    }
}

impl UnixGroupIdentifier {
    /// Two values are equal exactly when their views are.
    pub proof fn lemma_view_injective(a: Self, b: Self)
        ensures
            a@ == b@ <==> a == b,
    {
    }
}

impl UnixGroupIdentifier {
    /// Creates a Unix group identifier from a raw value.
    pub fn new(value: u32) -> (identifier: Self)
        ensures
            identifier@ == value,
    {
        UnixGroupIdentifier(value)
    }

    /// Returns the raw Unix group identifier.
    pub fn into_u32(self) -> (value: u32)
        ensures
            value == self@,
    {
        self.0
    }
}

/// Long-lived identity of an engine; it survives restarts of either side.
#[derive(Debug, Clone, PartialEq, Eq, Hash)]
pub struct EngineIdentifier(String);

impl View for EngineIdentifier {
    type V = Seq<char>;

    closed spec fn view(&self) -> Seq<char> {
        self.0@
    }
}

impl EngineIdentifier {
    /// Names an engine by the given text.
    pub fn new(value: &str) -> (identifier: Self)
        ensures
            identifier@ == value@,
    {
        EngineIdentifier(value.to_owned())
    }

    /// The text of the identifier.
    pub fn as_str(&self) -> (text: &str)
        ensures
            text@ == self@,
    {
        self.0.as_str()
    }
}

/// The supervising process's verifiable identity, declared by the spawn
/// envelope. The peer credentials of a connection from the supervisor must
/// report both of these values.
#[derive(Debug, Clone, Copy, PartialEq, Eq, Structural)]
pub struct ParentAuthority {
    /// The supervisor's kernel process identifier at the moment of spawn.
    pub parent_process_identifier: ProcessIdentifier,
    /// The supervisor's Unix user identifier.
    pub parent_unix_user_identifier: UnixUserIdentifier,
}

impl ParentAuthority {
    /// Names a new parent authority for a spawn envelope.
    pub fn new(
        parent_process_identifier: ProcessIdentifier,
        parent_unix_user_identifier: UnixUserIdentifier,
    ) -> (authority: Self)
        ensures
            authority.parent_process_identifier == parent_process_identifier,
            authority.parent_unix_user_identifier == parent_unix_user_identifier,
    {
        ParentAuthority { parent_process_identifier, parent_unix_user_identifier }
    }
}

/// Kernel-supplied credentials of the peer of an accepted stream.
#[derive(Debug, Clone, Copy, PartialEq, Eq, Structural)]
pub struct PeerCredentials {
    /// The connecting peer's kernel process identifier.
    pub process_identifier: ProcessIdentifier,
    /// The connecting peer's Unix user identifier.
    pub unix_user_identifier: UnixUserIdentifier,
    /// The connecting peer's primary Unix group identifier.
    pub unix_group_identifier: UnixGroupIdentifier,
}

impl PeerCredentials {
    /// Constructs a peer-credentials record from raw kernel values.
    pub fn new(
        process_identifier: ProcessIdentifier,
        unix_user_identifier: UnixUserIdentifier,
        unix_group_identifier: UnixGroupIdentifier,
    ) -> (credentials: Self)
        ensures
            credentials.process_identifier == process_identifier,
            credentials.unix_user_identifier == unix_user_identifier,
            credentials.unix_group_identifier == unix_group_identifier,
    {
        PeerCredentials { process_identifier, unix_user_identifier, unix_group_identifier }
    }
}

/// The bound stable durable identity for one connection: the envelope's
/// engine identifier together with the kernel-verified peer credentials.
#[derive(Debug, Clone, PartialEq, Eq)]
pub struct DurableIdentity {
    /// The long-lived engine identity declared by the spawning supervisor.
    pub engine_identifier: EngineIdentifier,
    /// The kernel-verified credentials of the connected peer.
    pub peer_credentials: PeerCredentials,
}

/// The identity that binds `envelope` to `peer`.
pub open spec fn binding(envelope: SpawnEnvelope, peer: PeerCredentials) -> DurableIdentity {
    DurableIdentity { engine_identifier: envelope.engine_identifier, peer_credentials: peer }
}

impl DurableIdentity {
    /// Records the binding of the envelope's engine identifier to the given
    /// peer credentials. It checks nothing: use
    /// [`verify_spawn_envelope_origin`] for verification and binding.
    pub fn from_envelope_and_peer(envelope: &SpawnEnvelope, peer: PeerCredentials) -> (identity:
        Self)
        ensures
            identity == binding(*envelope, peer),
            identity.engine_identifier == envelope.engine_identifier,
            identity.peer_credentials == peer,
    {
        DurableIdentity {
            engine_identifier: EngineIdentifier(envelope.engine_identifier.0.clone()),
            peer_credentials: peer,
        }
    }
}

/// Reason a verification step refused to mint a [`DurableIdentity`].
#[derive(Debug, Clone, PartialEq, Eq)]
pub enum IdentityError {
    /// The reported peer process identifier disagreed with the declared
    /// parent process identifier.
    ProcessIdentifierMismatch {
        /// The envelope-declared parent process identifier.
        expected: ProcessIdentifier,
        /// The kernel-reported peer process identifier.
        actual: ProcessIdentifier,
    },
    /// The reported peer Unix user identifier disagreed with the declared
    /// parent Unix user identifier.
    UnixUserIdentifierMismatch {
        /// The envelope-declared parent Unix user identifier.
        expected: UnixUserIdentifier,
        /// The kernel-reported peer Unix user identifier.
        actual: UnixUserIdentifier,
    },
    /// The peer credentials could not be read from the accepted stream; the
    /// message describes the operating-system error.
    PeerCredentialsReadFailed(String),
}

/// Human-readable description of an identity error.
pub open spec fn error_message(error: IdentityError) -> Seq<char> {
    match error {
        IdentityError::ProcessIdentifierMismatch { expected, actual } => "peer process identifier "@
            + decimal(actual@ as nat) + " disagrees with envelope-declared parent "@ + decimal(
            expected@ as nat,
        ),
        IdentityError::UnixUserIdentifierMismatch { expected, actual } =>
            "peer Unix user identifier "@ + decimal(actual@ as nat)
                + " disagrees with envelope-declared parent "@ + decimal(expected@ as nat),
        IdentityError::PeerCredentialsReadFailed(message) => "could not read SO_PEERCRED: "@
            + message@,
    }
}

impl IdentityError {
    /// Describes the error in words.
    pub fn to_string(&self) -> (text: String)
        ensures
            text@ == error_message(*self),
    {
        match self {
            IdentityError::ProcessIdentifierMismatch { expected, actual } => {
                let mut text = String::new();
                text.append("peer process identifier ");
                push_decimal(&mut text, actual.into_u32());
                text.append(" disagrees with envelope-declared parent ");
                push_decimal(&mut text, expected.into_u32());
                text
            },
            IdentityError::UnixUserIdentifierMismatch { expected, actual } => {
                let mut text = String::new();
                text.append("peer Unix user identifier ");
                push_decimal(&mut text, actual.as_u32());
                text.append(" disagrees with envelope-declared parent ");
                push_decimal(&mut text, expected.as_u32());
                text
            },
            IdentityError::PeerCredentialsReadFailed(message) => {
                let mut text = String::new();
                text.append("could not read SO_PEERCRED: ");
                text.append(message.as_str());
                text
            },
        }
    }
}

/// Whether `peer` reports the process and Unix user identifiers that
/// `authority` declares.
pub open spec fn matches_authority(authority: ParentAuthority, peer: PeerCredentials) -> bool {
    &&& peer.process_identifier == authority.parent_process_identifier
    &&& peer.unix_user_identifier == authority.parent_unix_user_identifier
}

/// The error reported for a peer that does not match `authority`: a process
/// identifier mismatch takes precedence over a Unix user identifier mismatch.
pub open spec fn mismatch_error(authority: ParentAuthority, peer: PeerCredentials) -> IdentityError {
    if peer.process_identifier != authority.parent_process_identifier {
        IdentityError::ProcessIdentifierMismatch {
            expected: authority.parent_process_identifier,
            actual: peer.process_identifier,
        }
    } else {
        IdentityError::UnixUserIdentifierMismatch {
            expected: authority.parent_unix_user_identifier,
            actual: peer.unix_user_identifier,
        }
    }
}

/// The verdict on `peer` against `authority`: accepted when it matches,
/// otherwise the error [`mismatch_error`] names.
pub open spec fn credential_check(authority: ParentAuthority, peer: PeerCredentials) -> Result<
    (),
    IdentityError,
> {
    if matches_authority(authority, peer) {
        Ok(())
    } else {
        Err(mismatch_error(authority, peer))
    }
}

/// Compares kernel-supplied peer credentials against the envelope's parent
/// authority, without reading them from a stream.
pub fn verify_peer_credentials_against_envelope(envelope: &SpawnEnvelope, peer: PeerCredentials) -> (result: Result<(), IdentityError>)
    ensures
        result == credential_check(envelope.parent_authority, peer),
        result is Ok <==> matches_authority(envelope.parent_authority, peer),
        result is Ok <==> (peer.process_identifier
            == envelope.parent_authority.parent_process_identifier && peer.unix_user_identifier
            == envelope.parent_authority.parent_unix_user_identifier),
        (peer.process_identifier == envelope.parent_authority.parent_process_identifier
            && peer.unix_user_identifier == envelope.parent_authority.parent_unix_user_identifier)
            ==> result == Ok::<(), IdentityError>(()),
        result == Err::<(), IdentityError>(
            IdentityError::ProcessIdentifierMismatch {
                expected: envelope.parent_authority.parent_process_identifier,
                actual: peer.process_identifier,
            },
        ) <==> peer.process_identifier != envelope.parent_authority.parent_process_identifier,
        result == Err::<(), IdentityError>(
            IdentityError::UnixUserIdentifierMismatch {
                expected: envelope.parent_authority.parent_unix_user_identifier,
                actual: peer.unix_user_identifier,
            },
        ) <==> (peer.process_identifier == envelope.parent_authority.parent_process_identifier
            && peer.unix_user_identifier
            != envelope.parent_authority.parent_unix_user_identifier),
{
    let authority = &envelope.parent_authority;
    if peer.process_identifier != authority.parent_process_identifier {
        return Err(
            IdentityError::ProcessIdentifierMismatch {
                expected: authority.parent_process_identifier,
                actual: peer.process_identifier,
            },
        );
    }
    if peer.unix_user_identifier != authority.parent_unix_user_identifier {
        return Err(
            IdentityError::UnixUserIdentifierMismatch {
                expected: authority.parent_unix_user_identifier,
                actual: peer.unix_user_identifier,
            },
        );
    }
    Ok(())
}

/// The outcome of verifying a peer-credentials read against `envelope`: a
/// failed read is passed on, a matching peer is bound to the envelope's
/// engine identifier, and any other peer is refused.
pub open spec fn verification_outcome(
    read: Result<PeerCredentials, IdentityError>,
    envelope: SpawnEnvelope,
) -> Result<DurableIdentity, IdentityError> {
    match read {
        Err(error) => Err(error),
        Ok(peer) => if matches_authority(envelope.parent_authority, peer) {
            Ok(binding(envelope, peer))
        } else {
            Err(mismatch_error(envelope.parent_authority, peer))
        },
    }
}

/// Verifies the result of reading the peer credentials of an accepted
/// stream against the envelope, and mints the [`DurableIdentity`] when the
/// peer is the declared supervisor.
pub fn verify_read_peer_credentials(
    read: Result<PeerCredentials, IdentityError>,
    envelope: &SpawnEnvelope,
) -> (result: Result<DurableIdentity, IdentityError>)
    ensures
        result == verification_outcome(read, *envelope),
        read matches Err(error) ==> result == Err::<DurableIdentity, IdentityError>(error),
        read matches Ok(peer) ==> ((peer.process_identifier
            == envelope.parent_authority.parent_process_identifier && peer.unix_user_identifier
            == envelope.parent_authority.parent_unix_user_identifier) ==> result == Ok::<
            DurableIdentity,
            IdentityError,
        >((DurableIdentity { engine_identifier: envelope.engine_identifier, peer_credentials: peer }))),
        read matches Ok(peer) ==> (peer.process_identifier
            != envelope.parent_authority.parent_process_identifier ==> result == Err::<
            DurableIdentity,
            IdentityError,
        >(
            IdentityError::ProcessIdentifierMismatch {
                expected: envelope.parent_authority.parent_process_identifier,
                actual: peer.process_identifier,
            },
        )),
        read matches Ok(peer) ==> ((peer.process_identifier
            == envelope.parent_authority.parent_process_identifier && peer.unix_user_identifier
            != envelope.parent_authority.parent_unix_user_identifier) ==> result == Err::<
            DurableIdentity,
            IdentityError,
        >(
            IdentityError::UnixUserIdentifierMismatch {
                expected: envelope.parent_authority.parent_unix_user_identifier,
                actual: peer.unix_user_identifier,
            },
        )),
{
    let peer = match read {
        Ok(peer) => peer,
        Err(error) => {
            return Err(error);
        },
    };
    match verify_peer_credentials_against_envelope(envelope, peer) {
        Ok(()) => Ok(DurableIdentity::from_envelope_and_peer(envelope, peer)),
        Err(error) => Err(error),
    }
}

/// Source of the kernel-supplied peer credentials of an accepted stream.
///
/// Supervised daemons supply the implementation (for example one backed by
/// the operating system's peer-credential socket option); tests supply a
/// fixture.
pub trait PeerCredentialsSource {
    /// The kind of accepted stream the credentials are read from.
    type Stream;

    /// Reads the peer credentials of `stream`.
    fn read_peer_credentials(&self, stream: &Self::Stream) -> Result<PeerCredentials, IdentityError>;
}

/// Verifies that the peer of an accepted stream is the supervising process
/// declared by the envelope, and returns the bound [`DurableIdentity`] when
/// it is. On a refusal the caller must close the connection.
pub fn verify_spawn_envelope_origin<S: PeerCredentialsSource>(
    source: &S,
    stream: &S::Stream,
    envelope: &SpawnEnvelope,
) -> (result: Result<DurableIdentity, IdentityError>)
    ensures
        exists|read: Result<PeerCredentials, IdentityError>|
            #[trigger] call_ensures(S::read_peer_credentials, (source, stream), read) && result
                == verification_outcome(read, *envelope),
        result matches Ok(identity) ==> {
            &&& call_ensures(
                S::read_peer_credentials,
                (source, stream),
                Ok::<PeerCredentials, IdentityError>(identity.peer_credentials),
            )
            &&& identity == binding(*envelope, identity.peer_credentials)
            &&& matches_authority(envelope.parent_authority, identity.peer_credentials)
            &&& identity.engine_identifier == envelope.engine_identifier
            &&& identity.peer_credentials.process_identifier
                == envelope.parent_authority.parent_process_identifier
            &&& identity.peer_credentials.unix_user_identifier
                == envelope.parent_authority.parent_unix_user_identifier
        },
        exists|read: Result<PeerCredentials, IdentityError>|
            #[trigger] call_ensures(S::read_peer_credentials, (source, stream), read) && {
                &&& read matches Err(error) ==> result == Err::<DurableIdentity, IdentityError>(
                    error,
                )
                &&& read matches Ok(peer) ==> ((peer.process_identifier
                    == envelope.parent_authority.parent_process_identifier
                    && peer.unix_user_identifier
                    == envelope.parent_authority.parent_unix_user_identifier) ==> result == Ok::<
                    DurableIdentity,
                    IdentityError,
                >(
                    (DurableIdentity {
                        engine_identifier: envelope.engine_identifier,
                        peer_credentials: peer,
                    }),
                ))
                &&& read matches Ok(peer) ==> (peer.process_identifier
                    != envelope.parent_authority.parent_process_identifier ==> result == Err::<
                    DurableIdentity,
                    IdentityError,
                >(
                    IdentityError::ProcessIdentifierMismatch {
                        expected: envelope.parent_authority.parent_process_identifier,
                        actual: peer.process_identifier,
                    },
                ))
                &&& read matches Ok(peer) ==> ((peer.process_identifier
                    == envelope.parent_authority.parent_process_identifier
                    && peer.unix_user_identifier
                    != envelope.parent_authority.parent_unix_user_identifier) ==> result == Err::<
                    DurableIdentity,
                    IdentityError,
                >(
                    IdentityError::UnixUserIdentifierMismatch {
                        expected: envelope.parent_authority.parent_unix_user_identifier,
                        actual: peer.unix_user_identifier,
                    },
                ))
            },
{
    let read = source.read_peer_credentials(stream);
    verify_read_peer_credentials(read, envelope)
}

/// Stability: every identity minted from one envelope, over any number of
/// connections, carries that envelope's engine identifier, whoever the
/// peers were.
pub proof fn lemma_identity_is_stable(
    envelope: SpawnEnvelope,
    first: Result<PeerCredentials, IdentityError>,
    second: Result<PeerCredentials, IdentityError>,
)
    requires
        verification_outcome(first, envelope) is Ok,
        verification_outcome(second, envelope) is Ok,
    ensures
        verification_outcome(first, envelope)->Ok_0.engine_identifier
            == envelope.engine_identifier,
        verification_outcome(first, envelope)->Ok_0.engine_identifier == verification_outcome(
            second,
            envelope,
        )->Ok_0.engine_identifier,
{
}

/// Durability: an identity is minted only for a successful read whose peer
/// reports exactly the envelope's declared parent process and Unix user
/// identifiers, and it carries that peer's credentials unchanged.
pub proof fn lemma_identity_is_anchored(
    envelope: SpawnEnvelope,
    read: Result<PeerCredentials, IdentityError>,
)
    ensures
        verification_outcome(read, envelope) is Ok <==> (read is Ok && matches_authority(
            envelope.parent_authority,
            read->Ok_0,
        )),
        verification_outcome(read, envelope) is Ok ==> {
            let identity = verification_outcome(read, envelope)->Ok_0;
            &&& identity.peer_credentials == read->Ok_0
            &&& identity.peer_credentials.process_identifier
                == envelope.parent_authority.parent_process_identifier
            &&& identity.peer_credentials.unix_user_identifier
                == envelope.parent_authority.parent_unix_user_identifier
        },
{
}

/// Verifying a read peer uses exactly the matching step offered on its own:
/// the peer is bound when that step accepts it, and refused with the very
/// error that step reports otherwise; a failed read is passed on unchanged.
pub proof fn lemma_outcome_follows_check(
    envelope: SpawnEnvelope,
    read: Result<PeerCredentials, IdentityError>,
)
    ensures
        read matches Err(error) ==> verification_outcome(read, envelope) == Err::<
            DurableIdentity,
            IdentityError,
        >(error),
        read matches Ok(peer) ==> match credential_check(envelope.parent_authority, peer) {
            Ok(()) => verification_outcome(read, envelope) == Ok::<DurableIdentity, IdentityError>(
                binding(envelope, peer),
            ),
            Err(error) => verification_outcome(read, envelope) == Err::<
                DurableIdentity,
                IdentityError,
            >(error),
        },
{
}

/// The verdict depends on the peer's process and Unix user identifiers
/// only: two peers that agree on both are accepted or refused alike, with
/// the same error, whatever their groups.
pub proof fn lemma_group_does_not_decide(
    authority: ParentAuthority,
    first: PeerCredentials,
    second: PeerCredentials,
)
    requires
        first.process_identifier == second.process_identifier,
        first.unix_user_identifier == second.unix_user_identifier,
    ensures
        credential_check(authority, first) == credential_check(authority, second),
{
}

/// Binding records exactly the envelope's engine identifier and the given
/// peer credentials, for every envelope and every peer, matching or not.
pub proof fn lemma_binding_keeps_its_inputs(envelope: SpawnEnvelope, peer: PeerCredentials)
    ensures
        binding(envelope, peer).engine_identifier == envelope.engine_identifier,
        binding(envelope, peer).peer_credentials == peer,
{
}

/// The matching verdict, over the identifiers themselves: a peer whose
/// process and Unix user identifiers both equal the authority's is accepted;
/// otherwise a differing process identifier is reported first, and a
/// differing Unix user identifier only when the process identifiers agree.
pub proof fn lemma_check_by_identifiers(authority: ParentAuthority, peer: PeerCredentials)
    ensures
        matches_authority(authority, peer) <==> (peer.process_identifier
            == authority.parent_process_identifier && peer.unix_user_identifier
            == authority.parent_unix_user_identifier),
        (peer.process_identifier == authority.parent_process_identifier
            && peer.unix_user_identifier == authority.parent_unix_user_identifier)
            ==> credential_check(authority, peer) == Ok::<(), IdentityError>(()),
        peer.process_identifier != authority.parent_process_identifier ==> credential_check(
            authority,
            peer,
        ) == Err::<(), IdentityError>(
            IdentityError::ProcessIdentifierMismatch {
                expected: authority.parent_process_identifier,
                actual: peer.process_identifier,
            },
        ),
        (peer.process_identifier == authority.parent_process_identifier
            && peer.unix_user_identifier != authority.parent_unix_user_identifier)
            ==> credential_check(authority, peer) == Err::<(), IdentityError>(
            IdentityError::UnixUserIdentifierMismatch {
                expected: authority.parent_unix_user_identifier,
                actual: peer.unix_user_identifier,
            },
        ),
{
}

/// Verifying a read, over the identifiers themselves: a failed read is
/// passed on; a read peer whose process and Unix user identifiers equal the
/// declared parent authority is bound, unchanged, to the envelope's engine
/// identifier; any other read peer is refused with the mismatch it shows,
/// the process identifier first.
pub proof fn lemma_outcome_by_identifiers(
    read: Result<PeerCredentials, IdentityError>,
    envelope: SpawnEnvelope,
)
    ensures
        read matches Err(error) ==> verification_outcome(read, envelope) == Err::<DurableIdentity, IdentityError>(error),
        read matches Ok(peer) ==> ((peer.process_identifier
            == envelope.parent_authority.parent_process_identifier && peer.unix_user_identifier
            == envelope.parent_authority.parent_unix_user_identifier) ==> verification_outcome(read, envelope) == Ok::<
            DurableIdentity,
            IdentityError,
        >((DurableIdentity { engine_identifier: envelope.engine_identifier, peer_credentials: peer }))),
        read matches Ok(peer) ==> (peer.process_identifier
            != envelope.parent_authority.parent_process_identifier ==> verification_outcome(read, envelope) == Err::<
            DurableIdentity,
            IdentityError,
        >(
            IdentityError::ProcessIdentifierMismatch {
                expected: envelope.parent_authority.parent_process_identifier,
                actual: peer.process_identifier,
            },
        )),
        read matches Ok(peer) ==> ((peer.process_identifier
            == envelope.parent_authority.parent_process_identifier && peer.unix_user_identifier
            != envelope.parent_authority.parent_unix_user_identifier) ==> verification_outcome(read, envelope) == Err::<
            DurableIdentity,
            IdentityError,
        >(
            IdentityError::UnixUserIdentifierMismatch {
                expected: envelope.parent_authority.parent_unix_user_identifier,
                actual: peer.unix_user_identifier,
            },
        )),
{
}

} // verus!
