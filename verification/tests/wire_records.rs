use signal_engine_management::text::push_decimal;
use signal_engine_management::{
    ComponentHealth, ComponentHealthReport, ComponentKind, ComponentName, ComponentReady,
    EngineIdentifier, EngineManagementProtocolVersion, Operation, Presence, Protocol, Query,
    Reply, RequestUnimplemented, ResourceKind, SocketMode, TimestampNanos, UnimplementedReason,
    WirePath,
};

#[test]
fn scalar_newtypes_give_back_their_value() {
    assert_eq!(Protocol::new(7).into_u16(), 7);
    assert_eq!(Protocol::new(u16::MAX).into_u16(), u16::MAX);
    assert_eq!(EngineManagementProtocolVersion::new(1).into_u16(), 1);
    assert_eq!(SocketMode::new(0o660).into_u32(), 0o660);
    assert_eq!(TimestampNanos::new(u64::MAX).into_u64(), u64::MAX);
    assert_eq!(TimestampNanos::new(0).into_u64(), 0);
}

#[test]
fn text_newtypes_give_back_their_text() {
    assert_eq!(ComponentName::new("mind").as_str(), "mind");
    assert_eq!(ComponentName::new("").as_str(), "");
    assert_eq!(WirePath::new("/var/run/persona/default/mind.sock").as_str(), "/var/run/persona/default/mind.sock");
    assert_eq!(EngineIdentifier::new("default").as_str(), "default");
    assert_eq!(EngineIdentifier::new("default"), EngineIdentifier::new("default"));
}

#[test]
fn component_names_order_by_text() {
    assert!(ComponentName::new("mind") < ComponentName::new("router"));
    assert_eq!(ComponentName::new("mind"), ComponentName::new("mind"));
}

#[test]
fn operations_and_replies_carry_their_records() {
    let announce = Operation::Announce(Presence {
        expected_component: ComponentName::new("mind"),
        expected_kind: ComponentKind::Mind,
        protocol: Protocol::new(1),
    });
    assert!(matches!(announce, Operation::Announce(ref presence) if presence.protocol.into_u16() == 1));
    let query = Operation::Query(Query::HealthStatus(ComponentName::new("router")));
    assert_ne!(query, Operation::Query(Query::ReadinessStatus(ComponentName::new("router"))));
    let stop = Operation::Stop(ComponentName::new("router"));
    assert_eq!(stop.clone(), stop);

    let health = Reply::HealthReport(ComponentHealthReport { health: ComponentHealth::Degraded });
    assert_ne!(health, Reply::HealthReport(ComponentHealthReport { health: ComponentHealth::Running }));
    let ready = Reply::Ready(ComponentReady { component_started_at: Some(TimestampNanos::new(5)) });
    assert!(matches!(ready, Reply::Ready(ComponentReady { component_started_at: Some(_) })));
    let unimplemented = Reply::Unimplemented(RequestUnimplemented {
        reason: UnimplementedReason::ResourceUnavailable(ResourceKind::ManagerSocket),
    });
    assert!(matches!(
        unimplemented,
        Reply::Unimplemented(RequestUnimplemented {
            reason: UnimplementedReason::ResourceUnavailable(ResourceKind::ManagerSocket)
        })
    ));
}

#[test]
fn decimal_rendering_appends_digits() {
    let mut text = String::from("n=");
    push_decimal(&mut text, 0);
    assert_eq!(text, "n=0");
    push_decimal(&mut text, 10);
    assert_eq!(text, "n=010");
    let mut max = String::new();
    push_decimal(&mut max, u32::MAX);
    assert_eq!(max, "4294967295");
}
