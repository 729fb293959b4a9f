use vrc_oscquery::client;
use vrc_oscquery::client::{
    AddressFound, ClientState, DeinitAction, DeinitEvent, InitAction, InitEvent,
};
use vrc_oscquery::ip::IpAddr;
use vrc_oscquery::mdns::{MeaModDiscovery, ResolvedService, ServiceEvent};
use vrc_oscquery::mdns_sidecar::{
    init_client_channels, monitor_turn, ChannelsEvent, MonitorAction, SidecarState,
};
use vrc_oscquery::{Error, OSCQueryInitError};

type State = ClientState<u32>;
type Event = InitEvent<&'static str, u32>;

fn running() -> State {
    let mut state = State::new();
    client::init(&mut state, Event::Begin);
    client::init(&mut state, Event::Channels(Ok(("a", "b"))));
    client::init(&mut state, Event::MonitorSpawned(3));
    client::init(&mut state, Event::ClientStarted(Ok(())));
    state
}

fn found(state: &mut State) {
    assert!(client::monitor_turn(state, Some(AddressFound::Osc("10.0.0.5".to_string(), 9000))));
    assert!(client::monitor_turn(state, Some(AddressFound::OscQuery("10.0.0.6".to_string(), 80))));
}

#[test]
fn client_starts_step_by_step() {
    let mut state = State::new();
    assert_eq!(client::init(&mut state, Event::Begin), InitAction::InitChannels);
    assert_eq!(
        client::init(&mut state, Event::Channels(Ok(("a", "b")))),
        InitAction::SpawnMonitor("a", "b")
    );
    assert_eq!(client::init(&mut state, Event::MonitorSpawned(3)), InitAction::MarkClientStarted);
    assert_eq!(client::init(&mut state, Event::ClientStarted(Ok(()))), InitAction::Return(Ok(())));
}

#[test]
fn running_client_is_not_started_again() {
    let mut state = running();
    assert_eq!(client::init(&mut state, Event::Begin), InitAction::Return(Ok(())));
}

#[test]
fn client_without_channels_can_be_started_again() {
    for e in [OSCQueryInitError::MDNSInitFailed, OSCQueryInitError::NotYetInitialized] {
        let mut state = State::new();
        client::init(&mut state, Event::Begin);
        assert_eq!(
            client::init(&mut state, Event::Channels(Err(e))),
            InitAction::Return(Err(Error::InitError(e)))
        );
        assert_eq!(client::init(&mut state, Event::Begin), InitAction::InitChannels);
    }
}

#[test]
fn client_that_the_sidecar_refuses_does_not_run() {
    let mut state = State::new();
    client::init(&mut state, Event::Begin);
    client::init(&mut state, Event::Channels(Ok(("a", "b"))));
    client::init(&mut state, Event::MonitorSpawned(3));
    assert_eq!(
        client::init(&mut state, Event::ClientStarted(Err("no".to_string()))),
        InitAction::Return(Err(Error::InitError(OSCQueryInitError::MDNSInitFailed)))
    );
    assert_eq!(client::init(&mut state, Event::Begin), InitAction::InitChannels);
}

#[test]
fn nothing_is_found_at_first() {
    let state = State::new();
    assert_eq!(client::get_vrchat_osc_host(&state), None);
    assert_eq!(client::get_vrchat_osc_port(&state), None);
    assert_eq!(client::get_vrchat_osc_address(&state), None);
    assert_eq!(client::get_vrchat_oscquery_host(&state), None);
    assert_eq!(client::get_vrchat_oscquery_port(&state), None);
    assert_eq!(client::get_vrchat_oscquery_address(&state), None);
}

#[test]
fn addresses_are_read_as_told() {
    let mut state = running();
    assert!(client::monitor_turn(&mut state, Some(AddressFound::Osc("10.0.0.5".to_string(), 9000))));
    assert_eq!(client::get_vrchat_osc_address(&state), Some(("10.0.0.5".to_string(), 9000)));
    assert_eq!(client::get_vrchat_oscquery_address(&state), None);
    found(&mut state);
    assert_eq!(client::get_vrchat_osc_host(&state), Some("10.0.0.5".to_string()));
    assert_eq!(client::get_vrchat_osc_port(&state), Some(9000));
    assert_eq!(client::get_vrchat_oscquery_host(&state), Some("10.0.0.6".to_string()));
    assert_eq!(client::get_vrchat_oscquery_port(&state), Some(80));
    assert_eq!(client::get_vrchat_oscquery_address(&state), Some(("10.0.0.6".to_string(), 80)));
}

#[test]
fn the_last_address_counts() {
    let mut state = running();
    found(&mut state);
    client::monitor_turn(&mut state, Some(AddressFound::Osc("10.0.0.7".to_string(), 1)));
    assert_eq!(client::get_vrchat_osc_address(&state), Some(("10.0.0.7".to_string(), 1)));
    assert_eq!(client::get_vrchat_oscquery_address(&state), Some(("10.0.0.6".to_string(), 80)));
}

#[test]
fn listening_ends_with_the_channels() {
    let mut state = running();
    found(&mut state);
    assert!(!client::monitor_turn(&mut state, None));
    assert_eq!(client::get_vrchat_osc_port(&state), Some(9000));
}

#[test]
fn client_that_does_not_run_cannot_stop() {
    let mut state = State::new();
    assert_eq!(
        client::deinit(&mut state, DeinitEvent::Begin),
        DeinitAction::Return(Err(Error::InitError(OSCQueryInitError::NotYetInitialized)))
    );
}

#[test]
fn stopped_client_knows_nothing() {
    let mut state = running();
    found(&mut state);
    assert_eq!(client::deinit(&mut state, DeinitEvent::Begin), DeinitAction::MarkClientStopped);
    assert_eq!(
        client::deinit(&mut state, DeinitEvent::ClientStopped(Ok(()))),
        DeinitAction::TearDown(Some(3))
    );
    assert_eq!(client::get_vrchat_osc_port(&state), Some(9000));
    assert_eq!(client::deinit(&mut state, DeinitEvent::TornDown), DeinitAction::Return(Ok(())));
    assert_eq!(client::get_vrchat_osc_address(&state), None);
    assert_eq!(client::get_vrchat_oscquery_address(&state), None);
    assert_eq!(
        client::deinit(&mut state, DeinitEvent::Begin),
        DeinitAction::Return(Err(Error::InitError(OSCQueryInitError::NotYetInitialized)))
    );
    assert_eq!(client::init(&mut state, Event::Begin), InitAction::InitChannels);
}

#[test]
fn client_goes_on_where_the_sidecar_refuses_to_stop() {
    let mut state = running();
    found(&mut state);
    assert_eq!(
        client::deinit(&mut state, DeinitEvent::ClientStopped(Err("no".to_string()))),
        DeinitAction::Return(Err(Error::InitError(OSCQueryInitError::MDNSInitFailed)))
    );
    assert_eq!(client::get_vrchat_osc_port(&state), Some(9000));
    assert_eq!(client::deinit(&mut state, DeinitEvent::Begin), DeinitAction::MarkClientStopped);
}

#[test]
fn a_resolved_vrchat_reaches_the_client() {
    let mut sidecar: SidecarState<(), &str, &str, ()> = SidecarState::new();
    init_client_channels(
        &mut sidecar,
        ChannelsEvent::Created {
            discovery: (),
            osc_tx: "osc",
            osc_rx: "osc",
            oscquery_tx: "oscquery",
            oscquery_rx: "oscquery",
        },
    );
    let mut discovery = MeaModDiscovery::new();
    let mut state = running();
    for (ty, port) in [("_osc._udp.local.", 9000), ("_oscjson._tcp.local.", 80)] {
        let news = discovery.process_service_event(ServiceEvent::ServiceResolved(ResolvedService {
            ty_domain: ty.to_string(),
            fullname: format!("VRChat-Client-77.{}", ty),
            addresses: vec![IpAddr::from_text("192.168.0.9").unwrap()],
            port,
        }));
        match monitor_turn(&sidecar, news) {
            MonitorAction::Send(&"osc", host, port) => {
                client::monitor_turn(&mut state, Some(AddressFound::Osc(host, port)))
            }
            MonitorAction::Send(&"oscquery", host, port) => {
                client::monitor_turn(&mut state, Some(AddressFound::OscQuery(host, port)))
            }
            other => panic!("{:?}", other),
        };
    }
    assert_eq!(client::get_vrchat_osc_address(&state), Some(("192.168.0.9".to_string(), 9000)));
    assert_eq!(client::get_vrchat_oscquery_address(&state), Some(("192.168.0.9".to_string(), 80)));
}

#[test]
fn init_errors_go_by_their_names() {
    for e in [OSCQueryInitError::MDNSInitFailed, OSCQueryInitError::NotYetInitialized] {
        assert_eq!(e.name(), format!("{:?}", e));
    }
}
