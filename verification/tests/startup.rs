use local_relay::startup::{
    check_websocket_status, relay_endpoint, Endpoint, Phase, RelayServer, StartupAction,
    StartupEvent, BUS_CAPACITY, RELAY_PORT,
};

#[test]
fn endpoint_is_loopback_on_the_fixed_port() {
    assert_eq!(RELAY_PORT, 2356);
    assert_eq!(BUS_CAPACITY, 100);
    assert_eq!(relay_endpoint(), Endpoint { host: (127, 0, 0, 1), port: 2356 });
}

#[test]
fn free_port_leads_to_a_running_relay() {
    let mut server = RelayServer::new();
    assert_eq!(server.phase(), Phase::Probing);
    assert!(!server.status().is_running());
    assert_eq!(server.step(StartupEvent::PortFree), StartupAction::Bind(relay_endpoint()));
    assert_eq!(server.phase(), Phase::Binding);
    assert!(!server.status().is_running());
    assert_eq!(server.step(StartupEvent::Bound), StartupAction::Serve);
    assert_eq!(server.phase(), Phase::Running);
    let flag = server.status();
    assert!(flag.is_running());
    assert!(check_websocket_status(&flag));
}

#[test]
fn occupied_port_leaves_the_relay_not_running() {
    let mut server = RelayServer::new();
    assert_eq!(server.step(StartupEvent::PortInUse), StartupAction::Nothing);
    assert_eq!(server.phase(), Phase::NotStarted);
    let flag = server.status();
    assert!(!check_websocket_status(&flag));
    for event in [StartupEvent::PortFree, StartupEvent::Bound, StartupEvent::BindFailed, StartupEvent::PortInUse] {
        assert_eq!(server.step(event), StartupAction::Nothing);
        assert_eq!(server.phase(), Phase::NotStarted);
        assert!(!server.status().is_running());
    }
}

#[test]
fn bind_that_loses_the_race_leaves_the_relay_not_running() {
    let mut server = RelayServer::new();
    assert_eq!(server.step(StartupEvent::PortFree), StartupAction::Bind(relay_endpoint()));
    assert_eq!(server.step(StartupEvent::BindFailed), StartupAction::Nothing);
    assert_eq!(server.phase(), Phase::NotStarted);
    assert!(!server.status().is_running());
}

#[test]
fn events_out_of_turn_are_ignored() {
    let mut server = RelayServer::new();
    assert_eq!(server.step(StartupEvent::Bound), StartupAction::Nothing);
    assert_eq!(server.phase(), Phase::Probing);
    assert_eq!(server.step(StartupEvent::PortFree), StartupAction::Bind(relay_endpoint()));
    assert_eq!(server.step(StartupEvent::PortInUse), StartupAction::Nothing);
    assert_eq!(server.phase(), Phase::Binding);
    assert_eq!(server.step(StartupEvent::Bound), StartupAction::Serve);
    assert_eq!(server.step(StartupEvent::BindFailed), StartupAction::Nothing);
    assert_eq!(server.phase(), Phase::Running);
    assert!(server.status().is_running());
}

#[test]
fn probe_and_bind_outcomes_become_events() {
    assert_eq!(StartupEvent::from_probe(true), StartupEvent::PortFree);
    assert_eq!(StartupEvent::from_probe(false), StartupEvent::PortInUse);
    assert_eq!(StartupEvent::from_bind(true), StartupEvent::Bound);
    assert_eq!(StartupEvent::from_bind(false), StartupEvent::BindFailed);
}
