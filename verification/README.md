# signal_engine_management

Ordinary Signal contract for Persona engine-management lifecycle traffic,
written in Verus.

- `src/wire.rs` — the lifecycle records (announce, readiness and health
  queries, stop, replies) and the typed `SpawnEnvelope` a child receives.
- `src/identity.rs` — the stable durable identity: parent authority, peer
  credentials, and the verification that mints a `DurableIdentity` only when
  the connecting peer is the supervisor the envelope declares. The laws of
  the binding are public proof functions at the end of the file.
- `src/text.rs` — decimal rendering used by the error descriptions.
- `app/` — archivable (`rkyv`) copies of the records, and `Display` /
  `std::error::Error` for `IdentityError`.
