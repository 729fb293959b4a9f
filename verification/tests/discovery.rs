use vrc_oscquery::ip::IpAddr;
use vrc_oscquery::mdns::{
    AdvertiseAction, AdvertiseEvent, Advertisement, HandlerTurn, MeaModDiscovery,
    OSCQueryServiceProfile, OSCServiceType, ResolvedService, ServiceEvent, ServiceNotification,
    UnadvertiseAction, UnadvertiseEvent,
};

const OSC: &str = "_osc._udp.local.";
const OSCQUERY: &str = "_oscjson._tcp.local.";

fn ip(text: &str) -> IpAddr {
    IpAddr::from_text(text).unwrap()
}

fn profile(name: &str, address: &str, port: u16, kind: OSCServiceType) -> OSCQueryServiceProfile {
    OSCQueryServiceProfile::new(name.to_string(), ip(address), port, kind)
}

fn resolved(ty: &str, name: &str, addresses: &[&str], port: u16) -> ServiceEvent {
    ServiceEvent::ServiceResolved(ResolvedService {
        ty_domain: ty.to_string(),
        fullname: name.to_string(),
        addresses: addresses.iter().map(|a| ip(a)).collect(),
        port,
    })
}

fn removed(ty: &str, name: &str) -> ServiceEvent {
    ServiceEvent::ServiceRemoved(ty.to_string(), name.to_string())
}

fn begin_advertising(d: &mut MeaModDiscovery, p: &OSCQueryServiceProfile) -> Advertisement {
    match d.advertise(AdvertiseEvent::Begin(p.clone())) {
        AdvertiseAction::Register(advertisement) => advertisement,
        AdvertiseAction::Return(outcome) => panic!("returned {:?}", outcome),
    }
}

fn advertise(
    d: &mut MeaModDiscovery,
    p: &OSCQueryServiceProfile,
    reply: Result<(), String>,
) -> Result<(), String> {
    let advertisement = begin_advertising(d, p);
    match d.advertise(AdvertiseEvent::Registered(advertisement, reply)) {
        AdvertiseAction::Return(outcome) => outcome,
        AdvertiseAction::Register(_) => panic!("registered twice"),
    }
}

#[test]
fn kinds_have_mdns_names() {
    assert_eq!(OSCServiceType::OSC.get_service_type_string(), "_osc._udp.local.");
    assert_eq!(OSCServiceType::OSCQuery.get_service_type_string(), "_oscjson._tcp.local.");
    assert_eq!(OSCServiceType::Unknown.get_service_type_string(), "UNKNOWN");
    assert_eq!(OSCServiceType::SERVICE_OSC_UDP, "_osc._udp.local.");
    assert_eq!(OSCServiceType::SERVICE_OSCJSON_TCP, "_oscjson._tcp.local.");
}

#[test]
fn kinds_are_read_from_names() {
    for kind in [OSCServiceType::OSC, OSCServiceType::OSCQuery, OSCServiceType::Unknown] {
        assert_eq!(OSCServiceType::from_service_string(kind.get_service_type_string()), kind);
    }
    assert_eq!(OSCServiceType::from_service_string("_http._tcp.local."), OSCServiceType::Unknown);
    assert_eq!(OSCServiceType::from_service_string("_osc._udp.local"), OSCServiceType::Unknown);
    assert_eq!(OSCServiceType::from_service_string(""), OSCServiceType::Unknown);
}

#[test]
fn addresses_are_taken_as_they_are_printed() {
    for text in ["127.0.0.1", "192.168.1.255", "::1", "fe80::1", "2001:db8::7334", "::ffff:10.0.0.1"] {
        assert_eq!(IpAddr::from_text(text).unwrap().to_text(), text);
    }
}

#[test]
fn other_texts_are_no_addresses() {
    for text in ["", "localhost", "127.0.0", "256.0.0.1", "127.0.0.1,127.0.0.2", " 127.0.0.1", "2001:0db8::7334", "127.0.0.1:80"] {
        assert!(IpAddr::from_text(text).is_none(), "{:?}", text);
    }
}

#[test]
fn localhost_is_the_loopback_address() {
    assert_eq!(IpAddr::localhost().to_text(), "127.0.0.1");
    assert_eq!(IpAddr::localhost(), ip("127.0.0.1"));
    assert_ne!(IpAddr::localhost(), ip("127.0.0.2"));
}

#[test]
fn profiles_are_equal_in_all_parts() {
    let p = profile("a", "10.0.0.1", 1, OSCServiceType::OSC);
    assert_eq!(p, p.clone());
    assert_ne!(p, profile("b", "10.0.0.1", 1, OSCServiceType::OSC));
    assert_ne!(p, profile("a", "10.0.0.2", 1, OSCServiceType::OSC));
    assert_ne!(p, profile("a", "10.0.0.1", 2, OSCServiceType::OSC));
    assert_ne!(p, profile("a", "10.0.0.1", 1, OSCServiceType::OSCQuery));
}

#[test]
fn service_info_describes_the_profile() {
    let record = profile("My-App", "10.0.0.1", 9000, OSCServiceType::OSC).to_service_info();
    let description = record.description();
    assert_eq!(description.ty_domain, "_osc._udp.local.");
    assert_eq!(description.fullname, "My-App._osc._udp.local.");
    assert_eq!(description.hostname, "My-App.osc.local.");
    assert_eq!(description.addresses, vec!["10.0.0.1".to_string()]);
    assert_eq!(description.port, 9000);
    assert_eq!(description.properties, vec![("txtvers".to_string(), "1".to_string())]);
    assert_eq!(record.get_fullname(), "My-App._osc._udp.local.");
}

#[test]
fn service_info_is_what_the_daemon_gets() {
    let record = profile("My-App", "fe80::1", 9001, OSCServiceType::OSCQuery).to_service_info();
    let info = record.info();
    assert_eq!(info.get_type(), "_oscjson._tcp.local.");
    assert_eq!(info.get_fullname(), "My-App._oscjson._tcp.local.");
    assert_eq!(info.get_hostname(), "My-App.osc.local.");
    assert_eq!(info.get_port(), 9001);
    assert_eq!(info.get_property_val_str("txtvers"), Some("1"));
    let addresses: Vec<String> = info.get_addresses().iter().map(|a| a.to_string()).collect();
    assert_eq!(addresses, vec!["fe80::1".to_string()]);
}

#[test]
fn service_info_keeps_odd_names() {
    let record = profile("a.local", "127.0.0.1", 0, OSCServiceType::Unknown).to_service_info();
    assert_eq!(record.description().hostname, "a.local.osc.local.");
    assert_eq!(record.get_fullname(), "a.local.UNKNOWN");
    let record = profile("x._sub.y", "127.0.0.1", 0, OSCServiceType::OSC).to_service_info();
    assert_eq!(record.get_fullname(), "x._sub.y._osc._udp.local.");
    let record = profile("", "127.0.0.1", 0, OSCServiceType::OSC).to_service_info();
    assert_eq!(record.get_fullname(), "._osc._udp.local.");
    assert_eq!(record.description().hostname, ".osc.local.");
}

#[test]
fn full_names_differ_by_kind_and_name() {
    let name = |n: &str, kind| profile(n, "127.0.0.1", 1, kind).to_service_info().get_fullname().to_string();
    assert_ne!(name("a", OSCServiceType::OSC), name("a", OSCServiceType::OSCQuery));
    assert_ne!(name("a", OSCServiceType::OSC), name("b", OSCServiceType::OSC));
    assert_eq!(
        name("a", OSCServiceType::OSC),
        profile("a", "10.0.0.9", 7, OSCServiceType::OSC).to_service_info().get_fullname()
    );
}

#[test]
fn both_kinds_are_browsed_for() {
    assert_eq!(MeaModDiscovery::new().refresh_services(), vec![OSC, OSCQUERY]);
}

#[test]
fn nothing_is_known_at_first() {
    let d = MeaModDiscovery::new();
    assert!(d.get_osc_services().is_empty());
    assert!(d.get_osc_query_services().is_empty());
}

#[test]
fn resolved_osc_service_is_news_once() {
    let mut d = MeaModDiscovery::new();
    let name = "VRChat-Client-1._osc._udp.local.";
    let p = profile(name, "10.0.0.2", 9000, OSCServiceType::OSC);
    let event = || resolved(OSC, name, &["10.0.0.2", "10.0.0.3"], 9000);
    assert_eq!(d.process_service_event(event()), Some(ServiceNotification::OscAdded(p.clone())));
    assert_eq!(d.process_service_event(event()), None);
    assert_eq!(d.get_osc_services(), vec![p]);
    assert!(d.get_osc_query_services().is_empty());
}

#[test]
fn resolved_oscquery_service_is_news_once() {
    let mut d = MeaModDiscovery::new();
    let p = profile("q", "10.0.0.2", 80, OSCServiceType::OSCQuery);
    let event = || resolved(OSCQUERY, "q", &["10.0.0.2"], 80);
    assert_eq!(d.process_service_event(event()), Some(ServiceNotification::OscQueryAdded(p.clone())));
    assert_eq!(d.process_service_event(event()), None);
    assert_eq!(d.get_osc_query_services(), vec![p]);
    assert!(d.get_osc_services().is_empty());
}

#[test]
fn a_service_that_moves_is_news_again() {
    let mut d = MeaModDiscovery::new();
    assert!(d.process_service_event(resolved(OSC, "a", &["10.0.0.2"], 1)).is_some());
    assert!(d.process_service_event(resolved(OSC, "a", &["10.0.0.2"], 2)).is_some());
    assert!(d.process_service_event(resolved(OSC, "a", &["10.0.0.3"], 2)).is_some());
    assert_eq!(d.get_osc_services().len(), 3);
}

#[test]
fn services_without_address_or_of_other_kinds_do_not_count() {
    let mut d = MeaModDiscovery::new();
    assert_eq!(d.process_service_event(resolved(OSC, "a", &[], 1)), None);
    assert_eq!(d.process_service_event(resolved("_http._tcp.local.", "a", &["10.0.0.1"], 1)), None);
    assert_eq!(d.process_service_event(removed("_http._tcp.local.", "a")), None);
    assert!(d.get_osc_services().is_empty());
    assert!(d.get_osc_query_services().is_empty());
}

#[test]
fn removed_service_takes_its_name_sakes_with_it() {
    let mut d = MeaModDiscovery::new();
    d.process_service_event(resolved(OSC, "a", &["10.0.0.1"], 1));
    d.process_service_event(resolved(OSC, "a", &["10.0.0.1"], 2));
    d.process_service_event(resolved(OSC, "b", &["10.0.0.1"], 3));
    d.process_service_event(resolved(OSC, "a", &["10.0.0.2"], 1));
    d.process_service_event(resolved(OSCQUERY, "a", &["10.0.0.1"], 1));
    assert_eq!(
        d.process_service_event(removed(OSC, "a")),
        Some(ServiceNotification::OscRemoved("a".to_string()))
    );
    assert_eq!(d.get_osc_services(), vec![profile("b", "10.0.0.1", 3, OSCServiceType::OSC)]);
    assert_eq!(d.get_osc_query_services().len(), 1);
    assert_eq!(
        d.process_service_event(removed(OSCQUERY, "a")),
        Some(ServiceNotification::OscQueryRemoved("a".to_string()))
    );
    assert!(d.get_osc_query_services().is_empty());
}

#[test]
fn removal_is_news_even_of_what_was_not_there() {
    let mut d = MeaModDiscovery::new();
    assert_eq!(
        d.process_service_event(removed(OSC, "z")),
        Some(ServiceNotification::OscRemoved("z".to_string()))
    );
}

#[test]
fn a_service_comes_and_goes() {
    let mut d = MeaModDiscovery::new();
    d.process_service_event(resolved(OSC, "a", &["10.0.0.1"], 1));
    let before = d.get_osc_services();
    d.process_service_event(resolved(OSC, "b", &["10.0.0.1"], 2));
    d.process_service_event(removed(OSC, "b"));
    assert_eq!(d.get_osc_services(), before);
}

#[test]
fn other_reports_change_nothing() {
    let mut d = MeaModDiscovery::new();
    let s = |t: &str| t.to_string();
    assert_eq!(d.process_service_event(ServiceEvent::ServiceFound(s(OSC), s("a"))), None);
    assert_eq!(d.process_service_event(ServiceEvent::SearchStarted(s(OSC))), None);
    assert_eq!(d.process_service_event(ServiceEvent::SearchStopped(s(OSC))), None);
    assert!(d.get_osc_services().is_empty());
}

#[test]
fn handler_goes_on_until_reports_end() {
    let mut d = MeaModDiscovery::new();
    let p = profile("a", "10.0.0.1", 1, OSCServiceType::OSC);
    assert_eq!(
        d.handle_service_events(Some(resolved(OSC, "a", &["10.0.0.1"], 1))),
        HandlerTurn::Continue(Some(ServiceNotification::OscAdded(p)))
    );
    assert_eq!(
        d.handle_service_events(Some(resolved(OSC, "a", &["10.0.0.1"], 1))),
        HandlerTurn::Continue(None)
    );
    assert_eq!(d.handle_service_events(None), HandlerTurn::Exit);
    assert_eq!(d.get_osc_services().len(), 1);
}

#[test]
fn advertised_service_counts_as_there() {
    let mut d = MeaModDiscovery::new();
    let osc = profile("srv", "127.0.0.1", 9000, OSCServiceType::OSC);
    let oscquery = profile("srv", "127.0.0.1", 9001, OSCServiceType::OSCQuery);
    let unknown = profile("srv", "127.0.0.1", 9002, OSCServiceType::Unknown);
    let advertisement = begin_advertising(&mut d, &osc);
    assert_eq!(advertisement.profile(), &osc);
    assert_eq!(advertisement.record().get_fullname(), "srv._osc._udp.local.");
    assert!(d.get_osc_services().is_empty());
    for p in [&osc, &oscquery, &unknown] {
        assert_eq!(advertise(&mut d, p, Ok(())), Ok(()));
    }
    assert_eq!(d.get_osc_services(), vec![osc]);
    assert_eq!(d.get_osc_query_services(), vec![oscquery]);
}

#[test]
fn refused_advertisement_changes_nothing() {
    let mut d = MeaModDiscovery::new();
    let osc = profile("srv", "127.0.0.1", 9000, OSCServiceType::OSC);
    assert_eq!(
        advertise(&mut d, &osc, Err("try again".to_string())),
        Err("Failed to advertise service: try again".to_string())
    );
    assert!(d.get_osc_services().is_empty());
    assert_eq!(
        d.unadvertise(UnadvertiseEvent::Begin(osc)),
        UnadvertiseAction::Return(Ok(()))
    );
}

#[test]
fn withdrawn_service_is_unregistered_once_and_stays_listed() {
    let mut d = MeaModDiscovery::new();
    let osc = profile("srv", "127.0.0.1", 9000, OSCServiceType::OSC);
    advertise(&mut d, &osc, Ok(())).unwrap();
    advertise(&mut d, &osc, Ok(())).unwrap();
    assert_eq!(
        d.unadvertise(UnadvertiseEvent::Begin(osc.clone())),
        UnadvertiseAction::Unregister("srv._osc._udp.local.".to_string())
    );
    assert_eq!(
        d.unadvertise(UnadvertiseEvent::Unregistered(Ok(()))),
        UnadvertiseAction::Return(Ok(()))
    );
    assert_eq!(
        d.unadvertise(UnadvertiseEvent::Begin(osc.clone())),
        UnadvertiseAction::Return(Ok(()))
    );
    assert_eq!(d.get_osc_services(), vec![osc]);
}

#[test]
fn withdrawal_goes_by_name_and_kind() {
    for (address, port) in [("127.0.0.1", 0), ("10.0.0.1", 9000), ("fe80::1", 1)] {
        let mut d = MeaModDiscovery::new();
        let osc = profile("srv", "127.0.0.1", 9000, OSCServiceType::OSC);
        advertise(&mut d, &osc, Ok(())).unwrap();
        assert_eq!(
            d.unadvertise(UnadvertiseEvent::Begin(profile("srv", address, port, OSCServiceType::OSC))),
            UnadvertiseAction::Unregister("srv._osc._udp.local.".to_string())
        );
        assert_eq!(d.unadvertise(UnadvertiseEvent::Begin(osc)), UnadvertiseAction::Return(Ok(())));
    }
}

#[test]
fn other_names_and_kinds_are_not_withdrawn() {
    let mut d = MeaModDiscovery::new();
    let osc = profile("srv", "127.0.0.1", 9000, OSCServiceType::OSC);
    advertise(&mut d, &osc, Ok(())).unwrap();
    for other in [
        profile("srv2", "127.0.0.1", 9000, OSCServiceType::OSC),
        profile("srv", "127.0.0.1", 9000, OSCServiceType::OSCQuery),
    ] {
        assert_eq!(d.unadvertise(UnadvertiseEvent::Begin(other)), UnadvertiseAction::Return(Ok(())));
    }
    assert_eq!(
        d.unadvertise(UnadvertiseEvent::Begin(osc)),
        UnadvertiseAction::Unregister("srv._osc._udp.local.".to_string())
    );
}

#[test]
fn one_registered_profile_is_withdrawn_by_itself() {
    let mut d = MeaModDiscovery::new();
    let name = || UnadvertiseAction::Unregister("srv._osc._udp.local.".to_string());
    let on = |port| profile("srv", "127.0.0.1", port, OSCServiceType::OSC);
    for port in [1, 2, 3] {
        advertise(&mut d, &on(port), Ok(())).unwrap();
    }
    assert_eq!(d.unadvertise(UnadvertiseEvent::Begin(on(1))), name());
    assert_eq!(d.unadvertise(UnadvertiseEvent::Begin(on(2))), name());
    advertise(&mut d, &on(2), Ok(())).unwrap();
    assert_eq!(d.unadvertise(UnadvertiseEvent::Begin(on(0))), name());
    for port in [1, 2, 3] {
        assert_eq!(
            d.unadvertise(UnadvertiseEvent::Begin(on(port))),
            UnadvertiseAction::Return(Ok(()))
        );
    }
}

#[test]
fn failed_withdrawal_is_reported() {
    let mut d = MeaModDiscovery::new();
    let osc = profile("srv", "127.0.0.1", 9000, OSCServiceType::OSC);
    advertise(&mut d, &osc, Ok(())).unwrap();
    d.unadvertise(UnadvertiseEvent::Begin(osc.clone()));
    assert_eq!(
        d.unadvertise(UnadvertiseEvent::Unregistered(Err("gone".to_string()))),
        UnadvertiseAction::Return(Err("Failed to unadvertise service: gone".to_string()))
    );
    assert_eq!(d.unadvertise(UnadvertiseEvent::Begin(osc)), UnadvertiseAction::Return(Ok(())));
}

#[test]
fn reports_leave_registrations_alone() {
    let mut d = MeaModDiscovery::new();
    let osc = profile("srv", "127.0.0.1", 9000, OSCServiceType::OSC);
    advertise(&mut d, &osc, Ok(())).unwrap();
    d.process_service_event(removed(OSC, "srv"));
    assert!(d.get_osc_services().is_empty());
    assert_eq!(
        d.unadvertise(UnadvertiseEvent::Begin(osc)),
        UnadvertiseAction::Unregister("srv._osc._udp.local.".to_string())
    );
}
