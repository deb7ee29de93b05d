use signal_engine_management::{
    ComponentKind, ComponentName, DurableIdentity, EngineIdentifier,
    EngineManagementProtocolVersion, IdentityError, OwnerIdentity, ParentAuthority,
    PeerCredentials, PeerCredentialsSource, PeerSocket, ProcessIdentifier, SocketMode,
    SpawnEnvelope, UnixGroupIdentifier, UnixUserIdentifier, WirePath,
    verify_peer_credentials_against_envelope, verify_read_peer_credentials,
    verify_spawn_envelope_origin,
};

fn fixture_envelope(parent_process: u32, parent_user: u32) -> SpawnEnvelope {
    SpawnEnvelope {
        engine_identifier: EngineIdentifier::new("default"),
        component_kind: ComponentKind::Mind,
        component_name: ComponentName::new("Mind"),
        owner_identity: OwnerIdentity::UnixUser(UnixUserIdentifier::new(1001)),
        state_dir: WirePath::new("/var/lib/persona/default/mind"),
        domain_socket_path: WirePath::new("/var/run/persona/default/mind.sock"),
        domain_socket_mode: SocketMode::new(0o660),
        engine_management_socket_path: WirePath::new(
            "/var/run/persona/default/mind.engine_management.sock",
        ),
        engine_management_socket_mode: SocketMode::new(0o600),
        peer_sockets: vec![PeerSocket {
            component_name: ComponentName::new("Router"),
            domain_socket_path: WirePath::new("/var/run/persona/default/router.sock"),
        }],
        manager_socket: WirePath::new("/var/run/persona/default/persona.sock"),
        engine_management_protocol_version: EngineManagementProtocolVersion::new(1),
        parent_authority: ParentAuthority::new(
            ProcessIdentifier::new(parent_process),
            UnixUserIdentifier::new(parent_user),
        ),
    }
}

/// A fixture stream: the fixture source below ignores it.
struct FixtureStream;

/// A source that hands back pre-built credentials in place of a kernel read.
struct FixturePeerCredentialsSource(PeerCredentials);

impl PeerCredentialsSource for FixturePeerCredentialsSource {
    type Stream = FixtureStream;

    fn read_peer_credentials(
        &self,
        _stream: &FixtureStream,
    ) -> Result<PeerCredentials, IdentityError> {
        Ok(self.0)
    }
}

/// A source whose read always fails.
struct FailingPeerCredentialsSource;

impl PeerCredentialsSource for FailingPeerCredentialsSource {
    type Stream = FixtureStream;

    fn read_peer_credentials(
        &self,
        _stream: &FixtureStream,
    ) -> Result<PeerCredentials, IdentityError> {
        Err(IdentityError::PeerCredentialsReadFailed(String::from("Bad file descriptor")))
    }
}

fn fixture_unix_stream() -> FixtureStream {
    FixtureStream
}

#[test]
fn round_trip_envelope_and_peer_to_durable_identity() {
    let envelope = fixture_envelope(100, 1000);
    let peer = PeerCredentials::new(
        ProcessIdentifier::new(100),
        UnixUserIdentifier::new(1000),
        UnixGroupIdentifier::new(1000),
    );
    let source = FixturePeerCredentialsSource(peer);
    let stream = fixture_unix_stream();

    let identity = verify_spawn_envelope_origin(&source, &stream, &envelope)
        .expect("verification passes when envelope and peer agree");

    assert_eq!(
        identity,
        DurableIdentity {
            engine_identifier: EngineIdentifier::new("default"),
            peer_credentials: PeerCredentials::new(
                ProcessIdentifier::new(100),
                UnixUserIdentifier::new(1000),
                UnixGroupIdentifier::new(1000),
            ),
        }
    );
    assert_eq!(identity.engine_identifier.as_str(), "default");
    assert_eq!(identity.peer_credentials.process_identifier.into_u32(), 100);
    assert_eq!(identity.peer_credentials.unix_user_identifier.as_u32(), 1000);
    assert_eq!(identity.peer_credentials.unix_group_identifier.into_u32(), 1000);
}

#[test]
fn verification_rejects_process_identifier_mismatch() {
    let envelope = fixture_envelope(100, 1000);
    let peer = PeerCredentials::new(
        ProcessIdentifier::new(200),
        UnixUserIdentifier::new(1000),
        UnixGroupIdentifier::new(1000),
    );
    let source = FixturePeerCredentialsSource(peer);
    let stream = fixture_unix_stream();

    let error = verify_spawn_envelope_origin(&source, &stream, &envelope)
        .expect_err("process identifier mismatch rejected");

    assert_eq!(
        error,
        IdentityError::ProcessIdentifierMismatch {
            expected: ProcessIdentifier::new(100),
            actual: ProcessIdentifier::new(200),
        }
    );
}

#[test]
fn verification_rejects_unix_user_identifier_mismatch() {
    let envelope = fixture_envelope(100, 1000);
    let peer = PeerCredentials::new(
        ProcessIdentifier::new(100),
        UnixUserIdentifier::new(1001),
        UnixGroupIdentifier::new(1000),
    );
    let source = FixturePeerCredentialsSource(peer);
    let stream = fixture_unix_stream();

    let error = verify_spawn_envelope_origin(&source, &stream, &envelope)
        .expect_err("Unix user identifier mismatch rejected");

    assert_eq!(
        error,
        IdentityError::UnixUserIdentifierMismatch {
            expected: UnixUserIdentifier::new(1000),
            actual: UnixUserIdentifier::new(1001),
        }
    );
}

#[test]
fn process_identifier_mismatch_takes_precedence_over_user_mismatch() {
    let envelope = fixture_envelope(100, 1000);
    let peer = PeerCredentials::new(
        ProcessIdentifier::new(999),
        UnixUserIdentifier::new(9999),
        UnixGroupIdentifier::new(1000),
    );
    let source = FixturePeerCredentialsSource(peer);
    let stream = fixture_unix_stream();

    let error = verify_spawn_envelope_origin(&source, &stream, &envelope)
        .expect_err("dual mismatch rejected");

    assert!(matches!(error, IdentityError::ProcessIdentifierMismatch { .. },));
}

#[test]
fn pure_verification_step_does_not_require_a_stream() {
    let envelope = fixture_envelope(7000, 0);
    let matching = PeerCredentials::new(
        ProcessIdentifier::new(7000),
        UnixUserIdentifier::new(0),
        UnixGroupIdentifier::new(0),
    );
    let process_mismatch = PeerCredentials::new(
        ProcessIdentifier::new(7001),
        UnixUserIdentifier::new(0),
        UnixGroupIdentifier::new(0),
    );
    let user_mismatch = PeerCredentials::new(
        ProcessIdentifier::new(7000),
        UnixUserIdentifier::new(1),
        UnixGroupIdentifier::new(0),
    );

    verify_peer_credentials_against_envelope(&envelope, matching).expect("match accepted");
    assert!(matches!(
        verify_peer_credentials_against_envelope(&envelope, process_mismatch).unwrap_err(),
        IdentityError::ProcessIdentifierMismatch { .. },
    ));
    assert!(matches!(
        verify_peer_credentials_against_envelope(&envelope, user_mismatch).unwrap_err(),
        IdentityError::UnixUserIdentifierMismatch { .. },
    ));
}

#[test]
fn failed_read_is_passed_on_without_minting() {
    let envelope = fixture_envelope(100, 1000);
    let error = verify_spawn_envelope_origin(
        &FailingPeerCredentialsSource,
        &fixture_unix_stream(),
        &envelope,
    )
    .expect_err("a failed read mints nothing");
    assert_eq!(
        error,
        IdentityError::PeerCredentialsReadFailed(String::from("Bad file descriptor"))
    );
}

#[test]
fn verify_read_peer_credentials_matches_each_outcome() {
    let envelope = fixture_envelope(42, 7);
    let read_error = IdentityError::PeerCredentialsReadFailed(String::from("gone"));
    assert_eq!(
        verify_read_peer_credentials(Err(read_error.clone()), &envelope),
        Err(read_error)
    );
    let good = PeerCredentials::new(
        ProcessIdentifier::new(42),
        UnixUserIdentifier::new(7),
        UnixGroupIdentifier::new(3),
    );
    assert_eq!(
        verify_read_peer_credentials(Ok(good), &envelope),
        Ok(DurableIdentity::from_envelope_and_peer(&envelope, good))
    );
    let bad = PeerCredentials::new(
        ProcessIdentifier::new(42),
        UnixUserIdentifier::new(8),
        UnixGroupIdentifier::new(3),
    );
    assert_eq!(
        verify_read_peer_credentials(Ok(bad), &envelope),
        Err(IdentityError::UnixUserIdentifierMismatch {
            expected: UnixUserIdentifier::new(7),
            actual: UnixUserIdentifier::new(8),
        })
    );
}

#[test]
fn identity_is_stable_across_connections() {
    let envelope = fixture_envelope(100, 1000);
    let first = PeerCredentials::new(
        ProcessIdentifier::new(100),
        UnixUserIdentifier::new(1000),
        UnixGroupIdentifier::new(1000),
    );
    let second = PeerCredentials::new(
        ProcessIdentifier::new(100),
        UnixUserIdentifier::new(1000),
        UnixGroupIdentifier::new(5),
    );
    let one = verify_read_peer_credentials(Ok(first), &envelope).expect("first binds");
    let two = verify_read_peer_credentials(Ok(second), &envelope).expect("second binds");
    assert_eq!(one.engine_identifier, two.engine_identifier);
    assert_eq!(one.engine_identifier, envelope.engine_identifier);
    assert_eq!(two.peer_credentials.unix_group_identifier.into_u32(), 5);
}

#[test]
fn from_envelope_and_peer_records_the_binding_without_checking() {
    let envelope = fixture_envelope(1, 2);
    let stranger = PeerCredentials::new(
        ProcessIdentifier::new(3),
        UnixUserIdentifier::new(4),
        UnixGroupIdentifier::new(5),
    );
    let identity = DurableIdentity::from_envelope_and_peer(&envelope, stranger);
    assert_eq!(identity.engine_identifier.as_str(), "default");
    assert_eq!(identity.peer_credentials, stranger);
}

#[test]
fn identity_error_messages() {
    let process = IdentityError::ProcessIdentifierMismatch {
        expected: ProcessIdentifier::new(100),
        actual: ProcessIdentifier::new(200),
    };
    assert_eq!(
        process.to_string(),
        "peer process identifier 200 disagrees with envelope-declared parent 100"
    );
    let user = IdentityError::UnixUserIdentifierMismatch {
        expected: UnixUserIdentifier::new(0),
        actual: UnixUserIdentifier::new(4294967295),
    };
    assert_eq!(
        user.to_string(),
        "peer Unix user identifier 4294967295 disagrees with envelope-declared parent 0"
    );
    let read = IdentityError::PeerCredentialsReadFailed(String::from("Bad file descriptor"));
    assert_eq!(read.to_string(), "could not read SO_PEERCRED: Bad file descriptor");
}

#[test]
fn authority_and_credentials_constructors_keep_their_fields() {
    let authority = ParentAuthority::new(ProcessIdentifier::new(4242), UnixUserIdentifier::new(0));
    assert_eq!(authority.parent_process_identifier, ProcessIdentifier::new(4242));
    assert_eq!(authority.parent_unix_user_identifier, UnixUserIdentifier::new(0));
    let credentials = PeerCredentials::new(
        ProcessIdentifier::new(100),
        UnixUserIdentifier::new(1000),
        UnixGroupIdentifier::new(1001),
    );
    assert_eq!(credentials.process_identifier.into_u32(), 100);
    assert_eq!(credentials.unix_user_identifier.as_u32(), 1000);
    assert_eq!(credentials.unix_group_identifier.into_u32(), 1001);
}
