use vrc_oscquery::ip::IpAddr;
use vrc_oscquery::mdns::{
    AdvertiseAction, AdvertiseEvent, MeaModDiscovery, OSCQueryServiceProfile, OSCServiceType,
    ServiceNotification, UnadvertiseAction, UnadvertiseEvent,
};
use vrc_oscquery::mdns_sidecar::{
    deinit, init_client_channels, mark_client_started, mark_client_stopped, mark_server_started,
    mark_server_stopped, monitor_turn, ChannelsAction, ChannelsEvent, DeinitAction, DeinitEvent,
    MonitorAction, ServerProfiles, ServerStartAction, ServerStartEvent, ServerStopAction,
    ServerStopEvent, SidecarState,
};
use vrc_oscquery::models::OSCQueryInitError;

type State = SidecarState<&'static str, &'static str, &'static str, u32>;

fn profile(name: &str, address: &str, port: u16, kind: OSCServiceType) -> OSCQueryServiceProfile {
    OSCQueryServiceProfile::new(name.to_string(), IpAddr::from_text(address).unwrap(), port, kind)
}

fn create(state: &mut State) -> ChannelsAction<&'static str> {
    init_client_channels(
        state,
        ChannelsEvent::Created {
            discovery: "discovery",
            osc_tx: "osc tx",
            osc_rx: "osc rx",
            oscquery_tx: "oscquery tx",
            oscquery_rx: "oscquery rx",
        },
    )
}

fn up() -> State {
    let mut state = State::new();
    create(&mut state);
    init_client_channels(&mut state, ChannelsEvent::MonitorSpawned(7));
    state
}

fn start(state: &mut State, event: ServerStartEvent) -> ServerStartAction {
    mark_server_started(state, 9000, 9001, &"srv".to_string(), event)
}

fn osc() -> OSCQueryServiceProfile {
    profile("srv", "127.0.0.1", 9000, OSCServiceType::OSC)
}

fn oscquery() -> OSCQueryServiceProfile {
    profile("srv", "127.0.0.1", 9001, OSCServiceType::OSCQuery)
}

fn server() -> ServerProfiles {
    ServerProfiles { oscquery: oscquery(), osc: osc() }
}

#[test]
fn channels_are_made_and_given() {
    let mut state = State::new();
    assert_eq!(init_client_channels(&mut state, ChannelsEvent::Begin), ChannelsAction::Create);
    assert_eq!(create(&mut state), ChannelsAction::SpawnMonitor);
    assert_eq!(
        init_client_channels(&mut state, ChannelsEvent::MonitorSpawned(7)),
        ChannelsAction::Return(Ok(("osc rx", "oscquery rx")))
    );
    assert_eq!(state.discovery, Some("discovery"));
    assert_eq!(state.monitor_task, Some(7));
    assert_eq!(state.osc_addr_tx, Some("osc tx"));
    assert_eq!(state.oscquery_addr_tx, Some("oscquery tx"));
}

#[test]
fn channels_are_given_once() {
    let mut state = up();
    for _ in 0..2 {
        assert_eq!(
            init_client_channels(&mut state, ChannelsEvent::Begin),
            ChannelsAction::Return(Err(OSCQueryInitError::MDNSInitFailed))
        );
    }
    assert_eq!(state.discovery, Some("discovery"));
}

#[test]
fn receivers_that_are_left_are_given() {
    let mut state = up();
    state.osc_addr_rx = Some("a");
    state.oscquery_addr_rx = Some("b");
    assert_eq!(
        init_client_channels(&mut state, ChannelsEvent::Begin),
        ChannelsAction::Return(Ok(("a", "b")))
    );
}

#[test]
fn one_receiver_goes_with_the_missing_other() {
    let mut state = up();
    state.osc_addr_rx = Some("a");
    assert_eq!(
        init_client_channels(&mut state, ChannelsEvent::Begin),
        ChannelsAction::Return(Err(OSCQueryInitError::MDNSInitFailed))
    );
    assert_eq!(state.osc_addr_rx, None);

    let mut state = up();
    state.oscquery_addr_rx = Some("b");
    assert_eq!(
        init_client_channels(&mut state, ChannelsEvent::Begin),
        ChannelsAction::Return(Err(OSCQueryInitError::MDNSInitFailed))
    );
    assert_eq!(state.oscquery_addr_rx, Some("b"));
}

#[test]
fn vrchat_addresses_are_sent_on_by_kind() {
    let state = up();
    let p = profile("VRChat-Client-AB12._osc._udp.local.", "10.0.0.5", 9000, OSCServiceType::OSC);
    assert_eq!(
        monitor_turn(&state, Some(ServiceNotification::OscAdded(p))),
        MonitorAction::Send(&"osc tx", "10.0.0.5".to_string(), 9000)
    );
    let p = profile("VRChat-Client-", "fe80::1", 80, OSCServiceType::OSCQuery);
    assert_eq!(
        monitor_turn(&state, Some(ServiceNotification::OscQueryAdded(p))),
        MonitorAction::Send(&"oscquery tx", "fe80::1".to_string(), 80)
    );
}

#[test]
fn other_services_are_not_sent_on() {
    let state = up();
    for name in ["", "VRChat-Client", "vrchat-client-1", "My VRChat-Client-1", "VRChat-Clienta-", "\u{e9}VRChat-Client-"] {
        let p = profile(name, "10.0.0.5", 9000, OSCServiceType::OSC);
        assert_eq!(
            monitor_turn(&state, Some(ServiceNotification::OscAdded(p.clone()))),
            MonitorAction::Wait
        );
        assert_eq!(
            monitor_turn(&state, Some(ServiceNotification::OscQueryAdded(p))),
            MonitorAction::Wait
        );
    }
}

#[test]
fn removals_are_not_sent_on() {
    let state = up();
    let name = || "VRChat-Client-1".to_string();
    assert_eq!(monitor_turn(&state, Some(ServiceNotification::OscRemoved(name()))), MonitorAction::Wait);
    assert_eq!(monitor_turn(&state, Some(ServiceNotification::OscQueryRemoved(name()))), MonitorAction::Wait);
}

#[test]
fn nothing_is_sent_without_a_channel() {
    let state = State::new();
    let p = profile("VRChat-Client-1", "10.0.0.5", 9000, OSCServiceType::OSC);
    assert_eq!(monitor_turn(&state, Some(ServiceNotification::OscAdded(p))), MonitorAction::Wait);
}

#[test]
fn monitor_ends_with_the_news() {
    assert_eq!(monitor_turn(&up(), None), MonitorAction::Exit);
}

#[test]
fn server_start_advertises_both_services() {
    let mut state = up();
    assert_eq!(start(&mut state, ServerStartEvent::Begin), ServerStartAction::AdvertiseOsc(osc()));
    assert!(state.server_enabled);
    assert_eq!(
        start(&mut state, ServerStartEvent::OscAdvertised(Ok(()))),
        ServerStartAction::AdvertiseOscQuery(oscquery())
    );
    assert_eq!(state.server_profiles, None);
    assert_eq!(
        start(&mut state, ServerStartEvent::OscQueryAdvertised(Ok(()))),
        ServerStartAction::Return(Ok(()))
    );
    assert_eq!(state.server_profiles, Some(server()));
}

#[test]
fn server_start_sets_up_what_is_missing() {
    let mut state = State::new();
    assert_eq!(start(&mut state, ServerStartEvent::Begin), ServerStartAction::InitChannels);
    assert!(!state.server_enabled);
    let mut state = up();
    assert_eq!(
        start(&mut state, ServerStartEvent::ChannelsReady(Ok(()))),
        ServerStartAction::AdvertiseOsc(osc())
    );
}

#[test]
fn server_start_fails_without_channels() {
    let mut state = State::new();
    assert_eq!(
        start(&mut state, ServerStartEvent::ChannelsReady(Err(OSCQueryInitError::MDNSInitFailed))),
        ServerStartAction::Return(Err(
            "mDNS discovery instance not initialized and failed to init: MDNSInitFailed".to_string()
        ))
    );
    assert!(!state.server_enabled);
    assert_eq!(
        start(&mut state, ServerStartEvent::ChannelsReady(Err(OSCQueryInitError::NotYetInitialized))),
        ServerStartAction::Return(Err(
            "mDNS discovery instance not initialized and failed to init: NotYetInitialized".to_string()
        ))
    );
}

#[test]
fn server_start_fails_without_discovery() {
    let mut state = State::new();
    assert_eq!(
        start(&mut state, ServerStartEvent::ChannelsReady(Ok(()))),
        ServerStartAction::Return(Err("mDNS discovery not initialized.".to_string()))
    );
    assert!(state.server_enabled);
}

#[test]
fn failed_osc_service_ends_the_start() {
    let mut state = up();
    start(&mut state, ServerStartEvent::Begin);
    assert_eq!(
        start(&mut state, ServerStartEvent::OscAdvertised(Err("no".to_string()))),
        ServerStartAction::Return(Err("no".to_string()))
    );
    assert_eq!(state.server_profiles, None);
    assert!(state.server_enabled);
}

#[test]
fn failed_oscquery_service_rolls_the_start_back() {
    let mut state = up();
    start(&mut state, ServerStartEvent::Begin);
    start(&mut state, ServerStartEvent::OscAdvertised(Ok(())));
    assert_eq!(
        start(&mut state, ServerStartEvent::OscQueryAdvertised(Err("no".to_string()))),
        ServerStartAction::RollBack(osc(), "no".to_string())
    );
    assert_eq!(
        start(&mut state, ServerStartEvent::RolledBack("no".to_string())),
        ServerStartAction::Return(Err("no".to_string()))
    );
    assert_eq!(state.server_profiles, None);
}

#[test]
fn server_stop_withdraws_both_services() {
    let mut state = up();
    start(&mut state, ServerStartEvent::Begin);
    start(&mut state, ServerStartEvent::OscQueryAdvertised(Ok(())));
    assert_eq!(
        mark_server_stopped(&mut state, ServerStopEvent::Begin),
        ServerStopAction::Unadvertise(oscquery(), osc())
    );
    assert!(!state.server_enabled);
    assert_eq!(state.server_profiles, None);
    assert_eq!(
        mark_server_stopped(
            &mut state,
            ServerStopEvent::Unadvertised(Err("a".to_string()), Err("b".to_string()))
        ),
        ServerStopAction::Return(Ok(()))
    );
}

#[test]
fn server_stop_without_a_server_is_nothing() {
    for mut state in [State::new(), up()] {
        state.server_enabled = true;
        assert_eq!(
            mark_server_stopped(&mut state, ServerStopEvent::Begin),
            ServerStopAction::Return(Ok(()))
        );
        assert!(!state.server_enabled);
    }
}

#[test]
fn profiles_are_kept_where_there_is_no_discovery() {
    let mut state = State::new();
    state.server_profiles = Some(server());
    assert_eq!(
        mark_server_stopped(&mut state, ServerStopEvent::Begin),
        ServerStopAction::Return(Ok(()))
    );
    assert_eq!(state.server_profiles, Some(server()));
}

#[test]
fn client_is_marked() {
    let mut state = State::new();
    assert_eq!(mark_client_started(&mut state), Ok(()));
    assert!(state.client_enabled);
    assert_eq!(mark_client_stopped(&mut state), Ok(()));
    assert!(!state.client_enabled);
}

#[test]
fn sidecar_goes_down_and_can_come_up_again() {
    let mut state = up();
    mark_client_started(&mut state).unwrap();
    state.server_profiles = Some(server());
    assert_eq!(deinit(&mut state, DeinitEvent::Begin), DeinitAction::StopMonitor(Some(7)));
    assert_eq!(
        deinit(&mut state, DeinitEvent::MonitorStopped),
        DeinitAction::Unadvertise(oscquery(), osc())
    );
    assert_eq!(state.discovery, Some("discovery"));
    assert_eq!(
        deinit(&mut state, DeinitEvent::Unadvertised(Err("no".to_string()), Err("no".to_string()))),
        DeinitAction::Return
    );
    assert_eq!(state.discovery, None);
    assert_eq!(state.osc_addr_tx, None);
    assert_eq!(state.oscquery_addr_tx, None);
    assert_eq!(state.server_profiles, None);
    assert_eq!(state.monitor_task, None);
    assert!(state.client_enabled);
    assert_eq!(init_client_channels(&mut state, ChannelsEvent::Begin), ChannelsAction::Create);
}

#[test]
fn sidecar_without_a_server_goes_down_at_once() {
    let mut state = up();
    assert_eq!(deinit(&mut state, DeinitEvent::Begin), DeinitAction::StopMonitor(Some(7)));
    assert_eq!(deinit(&mut state, DeinitEvent::MonitorStopped), DeinitAction::Return);
    assert_eq!(state.discovery, None);
    assert_eq!(deinit(&mut state, DeinitEvent::Begin), DeinitAction::StopMonitor(None));
}

fn advertised(d: &mut MeaModDiscovery, p: OSCQueryServiceProfile) -> Result<(), String> {
    match d.advertise(AdvertiseEvent::Begin(p)) {
        AdvertiseAction::Register(advertisement) => {
            match d.advertise(AdvertiseEvent::Registered(advertisement, Ok(()))) {
                AdvertiseAction::Return(outcome) => outcome,
                other => panic!("{:?}", other),
            }
        }
        other => panic!("{:?}", other),
    }
}

/// Starts a server.
fn start_server(
    state: &mut State,
    discovery: &mut MeaModDiscovery,
    osc_port: u16,
    oscquery_port: u16,
    name: &str,
) {
    let name = name.to_string();
    let mut event = ServerStartEvent::Begin;
    loop {
        event = match mark_server_started(state, osc_port, oscquery_port, &name, event) {
            ServerStartAction::AdvertiseOsc(p) => {
                ServerStartEvent::OscAdvertised(advertised(discovery, p))
            }
            ServerStartAction::AdvertiseOscQuery(p) => {
                ServerStartEvent::OscQueryAdvertised(advertised(discovery, p))
            }
            ServerStartAction::Return(outcome) => {
                assert_eq!(outcome, Ok(()));
                break;
            }
            other => panic!("{:?}", other),
        };
    }
}

/// A sidecar with its discovery, and a server that was started on the OSC port.
fn started(osc_port: u16) -> (State, MeaModDiscovery) {
    let mut discovery = MeaModDiscovery::new();
    let mut state = up();
    start_server(&mut state, &mut discovery, osc_port, 9001, "srv");
    (state, discovery)
}

/// Withdraws the profiles, and gives the full names that were unregistered.
fn withdrawn(discovery: &mut MeaModDiscovery, profiles: [OSCQueryServiceProfile; 2]) -> Vec<String> {
    let mut gone = Vec::new();
    for p in profiles {
        match discovery.unadvertise(UnadvertiseEvent::Begin(p)) {
            UnadvertiseAction::Unregister(fullname) => gone.push(fullname),
            UnadvertiseAction::Return(outcome) => assert_eq!(outcome, Ok(())),
        }
    }
    gone
}

fn both_full_names() -> Vec<String> {
    vec!["srv._oscjson._tcp.local.".to_string(), "srv._osc._udp.local.".to_string()]
}

#[test]
fn stopped_server_unregisters_both_services() {
    for osc_port in [9000, 0, 9001, 65535] {
        let (mut state, mut discovery) = started(osc_port);
        let profiles = match mark_server_stopped(&mut state, ServerStopEvent::Begin) {
            ServerStopAction::Unadvertise(first, second) => [first, second],
            other => panic!("{:?}", other),
        };
        assert_eq!(withdrawn(&mut discovery, profiles), both_full_names());
        assert_eq!(
            mark_server_stopped(&mut state, ServerStopEvent::Unadvertised(Ok(()), Ok(()))),
            ServerStopAction::Return(Ok(()))
        );
        assert!(!state.server_enabled);
        assert_eq!(state.server_profiles, None);
    }
}

#[test]
fn server_goes_with_the_sidecar() {
    for osc_port in [9000, 0, 9001, 65535] {
        let (mut state, mut discovery) = started(osc_port);
        assert_eq!(deinit(&mut state, DeinitEvent::Begin), DeinitAction::StopMonitor(Some(7)));
        let profiles = match deinit(&mut state, DeinitEvent::MonitorStopped) {
            DeinitAction::Unadvertise(first, second) => [first, second],
            other => panic!("{:?}", other),
        };
        assert_eq!(withdrawn(&mut discovery, profiles), both_full_names());
        assert_eq!(
            deinit(&mut state, DeinitEvent::Unadvertised(Ok(()), Ok(()))),
            DeinitAction::Return
        );
        assert_eq!(state.discovery, None);
    }
}

/// Takes the sidecar down, and gives the full names that were unregistered.
fn taken_down(state: &mut State, discovery: &mut MeaModDiscovery) -> Vec<String> {
    let mut gone = Vec::new();
    let mut event = DeinitEvent::Begin;
    loop {
        event = match deinit(state, event) {
            DeinitAction::StopMonitor(_) => DeinitEvent::MonitorStopped,
            DeinitAction::Unadvertise(first, second) => {
                gone.extend(withdrawn(discovery, [first, second]));
                DeinitEvent::Unadvertised(Ok(()), Err("no".to_string()))
            }
            DeinitAction::Return => return gone,
        };
    }
}

#[test]
fn all_servers_go_with_the_sidecar() {
    let (mut state, mut discovery) = started(9000);
    start_server(&mut state, &mut discovery, 9010, 9011, "T");
    start_server(&mut state, &mut discovery, 9020, 9021, "U");
    assert_eq!(state.earlier_servers.len(), 2);
    assert_eq!(state.earlier_servers[0], server());
    assert_eq!(
        taken_down(&mut state, &mut discovery),
        vec![
            "U._oscjson._tcp.local.",
            "U._osc._udp.local.",
            "T._oscjson._tcp.local.",
            "T._osc._udp.local.",
            "srv._oscjson._tcp.local.",
            "srv._osc._udp.local.",
        ]
    );
    assert_eq!(state.discovery, None);
    assert_eq!(state.server_profiles, None);
    assert!(state.earlier_servers.is_empty());
}

#[test]
fn earlier_server_stays_until_the_sidecar_goes() {
    let (mut state, mut discovery) = started(9000);
    start_server(&mut state, &mut discovery, 9010, 9011, "T");
    match mark_server_stopped(&mut state, ServerStopEvent::Begin) {
        ServerStopAction::Unadvertise(first, second) => assert_eq!(
            withdrawn(&mut discovery, [first, second]),
            vec!["T._oscjson._tcp.local.", "T._osc._udp.local."]
        ),
        other => panic!("{:?}", other),
    }
    assert_eq!(
        mark_server_stopped(&mut state, ServerStopEvent::Begin),
        ServerStopAction::Return(Ok(()))
    );
    assert_eq!(taken_down(&mut state, &mut discovery), both_full_names());
}

#[test]
fn restarted_server_leaves_nothing_registered() {
    let (mut state, mut discovery) = started(9000);
    start_server(&mut state, &mut discovery, 9000, 9001, "srv");
    start_server(&mut state, &mut discovery, 9002, 9003, "srv");
    let gone = taken_down(&mut state, &mut discovery);
    for name in both_full_names() {
        assert!(gone.contains(&name));
    }
    for p in [osc(), oscquery(), profile("srv", "127.0.0.1", 9002, OSCServiceType::OSC)] {
        assert_eq!(
            discovery.unadvertise(UnadvertiseEvent::Begin(p)),
            UnadvertiseAction::Return(Ok(()))
        );
    }
}
