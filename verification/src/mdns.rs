//! Service profiles, and what is known of the services that are found or advertised.

use crate::ip::IpAddr;
use crate::profiles::has_service;
use crate::profiles::not_named;
use crate::profiles::other_services;
use crate::profiles::profile_views;
use crate::profiles::ProfileSet;
use crate::profiles::Registrations;
use crate::service_info::info_addresses;
use crate::service_info::info_fullname;
use crate::service_info::info_hostname;
use crate::service_info::info_port;
use crate::service_info::info_properties;
use crate::service_info::info_type;
use crate::service_info::new_service_info;
use crate::service_info::normalized_hostname;
use crate::service_info::read_back;
use crate::service_info::ServiceRecord;
use crate::service_info::ServiceView;
use crate::text::has_infix;
use crate::text::has_suffix;
use crate::text::join;
use crate::text::outcome_text;
use crate::text::same_text;
use vstd::prelude::*;

verus! {

/// The kinds of services that are looked for.
#[derive(Debug, Clone, Copy, PartialEq, Eq, Hash, Structural)]
pub enum OSCServiceType {
    Unknown,
    OSCQuery,
    OSC,
}

impl OSCServiceType {
    pub const SERVICE_OSCJSON_TCP: &'static str = "_oscjson._tcp.local.";

    pub const SERVICE_OSC_UDP: &'static str = "_osc._udp.local.";

    /// The mDNS name of the kind.
    pub open spec fn service_type_string(self) -> Seq<char> {
        match self {
            OSCServiceType::OSC => "_osc._udp.local."@,
            OSCServiceType::OSCQuery => "_oscjson._tcp.local."@,
            OSCServiceType::Unknown => "UNKNOWN"@,
        }
    }

    /// The kind that an mDNS name stands for.
    pub open spec fn of_service_string(s: Seq<char>) -> OSCServiceType {
        if s == "_osc._udp.local."@ {
            OSCServiceType::OSC
        } else if s == "_oscjson._tcp.local."@ {
            OSCServiceType::OSCQuery
        } else {
            OSCServiceType::Unknown
        }
    }

    /// The mDNS name of the kind.
    pub fn get_service_type_string(&self) -> (name: &'static str)
        ensures
            name@ == self.service_type_string(),
    {
        match self {
            OSCServiceType::OSC => OSCServiceType::SERVICE_OSC_UDP,
            OSCServiceType::OSCQuery => OSCServiceType::SERVICE_OSCJSON_TCP,
            OSCServiceType::Unknown => "UNKNOWN",
        }
    }

    /// The kind that an mDNS name stands for.
    pub fn from_service_string(s: &str) -> (kind: OSCServiceType)
        ensures
            kind == OSCServiceType::of_service_string(s@),
    {
        if same_text(s, OSCServiceType::SERVICE_OSC_UDP) {
            OSCServiceType::OSC
        } else if same_text(s, OSCServiceType::SERVICE_OSCJSON_TCP) {
            OSCServiceType::OSCQuery
        } else {
            OSCServiceType::Unknown
        }
    }
}

/// What identifies a service profile.
pub ghost struct ProfileView {
    pub port: u16,
    pub name: Seq<char>,
    pub address: Seq<char>,
    pub service_type: OSCServiceType,
}

impl ProfileView {
    /// Both are of the same name and kind, and so of the same full name.
    pub open spec fn same_service(self, other: ProfileView) -> bool {
        self.name == other.name && self.service_type == other.service_type
    }

    /// What the service is registered with: under its name and kind, on a host of its
    /// own in the `osc.local.` domain, with the version of its TXT record.
    pub open spec fn service_info(self) -> ServiceView {
        ServiceView {
            ty_domain: self.service_type.service_type_string(),
            fullname: self.name + "."@ + self.service_type.service_type_string(),
            hostname: self.name + ".osc.local."@,
            addresses: set![self.address],
            port: self.port,
            properties: seq![("txtvers"@, "1"@)],
        }
    }
}

/// A service: its name, where it is reached, and its kind.
#[derive(Debug, Hash)]
pub struct OSCQueryServiceProfile {
    pub port: u16,
    pub name: String,
    pub address: IpAddr,
    pub service_type: OSCServiceType,
}

impl View for OSCQueryServiceProfile {
    type V = ProfileView;

    open spec fn view(&self) -> ProfileView {
        ProfileView {
            port: self.port,
            name: self.name@,
            address: self.address@,
            service_type: self.service_type,
        }
    }
}

impl OSCQueryServiceProfile {
    /// The profile with these parts.
    pub fn new(name: String, address: IpAddr, port: u16, service_type: OSCServiceType) -> (profile:
        Self)
        ensures
            profile@ == (ProfileView { port, name: name@, address: address@, service_type }),
    {
        OSCQueryServiceProfile { name, address, port, service_type }
    }

    /// The service in the form in which it is registered.
    pub fn to_service_info(&self) -> (record: ServiceRecord)
        ensures
            info_type(record.spec_info()) == self.service_type.service_type_string(),
            info_fullname(record.spec_info()) == self.name@ + "."@
                + self.service_type.service_type_string(),
            info_hostname(record.spec_info()) == self.name@ + ".osc.local."@,
            info_addresses(record.spec_info()) == set![self.address@],
            info_port(record.spec_info()) == self.port,
            info_properties(record.spec_info()) == seq![("txtvers"@, "1"@)],
            record@ == self@.service_info(),
            read_back(record.spec_info()) == self@.service_info(),
    {
        let service_type_str = self.service_type.get_service_type_string();
        let host_name = join(self.name.as_str(), ".osc.local.");
        proof {
            use_type_invariant(&self.address);
            lemma_no_subtype(self.service_type);
            lemma_host_is_normal(self.name@);
            reveal_strlit("txtvers");
        }
        let address = self.address.to_text();
        let made = new_service_info(
            service_type_str,
            self.name.as_str(),
            host_name.as_str(),
            address.as_str(),
            self.port,
            "txtvers",
            "1",
        );
        made.unwrap()
    }
}

impl Clone for OSCQueryServiceProfile {
    fn clone(&self) -> (copy: OSCQueryServiceProfile)
        ensures
            copy == *self,
    {
        OSCQueryServiceProfile {
            port: self.port,
            name: self.name.clone(),
            address: self.address.clone(),
            service_type: self.service_type,
        }
    }
}

impl PartialEq for OSCQueryServiceProfile {
    fn eq(&self, other: &OSCQueryServiceProfile) -> (same: bool) {
        self.port == other.port && self.name == other.name && self.address == other.address
            && self.service_type == other.service_type
    }
}

impl vstd::std_specs::cmp::PartialEqSpecImpl for OSCQueryServiceProfile {
    open spec fn obeys_eq_spec() -> bool {
        true
    }

    open spec fn eq_spec(&self, other: &OSCQueryServiceProfile) -> bool {
        self@ == other@
    }
}

impl Eq for OSCQueryServiceProfile {
}

/// A service on its way to being advertised: its profile, and the form in which it is
/// registered.
#[derive(Debug)]
pub struct Advertisement {
    profile: OSCQueryServiceProfile,
    record: ServiceRecord,
}

impl View for Advertisement {
    type V = ProfileView;

    closed spec fn view(&self) -> ProfileView {
        self.profile@
    }
}

impl Advertisement {
    /// The service in the form in which it is registered.
    pub closed spec fn spec_record(self) -> ServiceRecord {
        self.record
    }

    /// What every advertisement keeps: the record is that of the profile.
    #[verifier::type_invariant]
    pub open spec fn well_formed(self) -> bool {
        &&& self.spec_record()@ == self@.service_info()
        &&& read_back(self.spec_record().spec_info()) == self@.service_info()
    }

    /// Readies a service for being advertised.
    pub fn new(profile: OSCQueryServiceProfile) -> (advertisement: Advertisement)
        ensures
            advertisement@ == profile@,
    {
        let record = profile.to_service_info();
        Advertisement { profile, record }
    }

    /// The service that is advertised.
    pub fn profile(&self) -> (profile: &OSCQueryServiceProfile)
        ensures
            profile@ == self@,
    {
        &self.profile
    }

    /// The form in which the service is registered.
    pub fn record(&self) -> (record: &ServiceRecord)
        ensures
            *record == self.spec_record(),
            record@ == self@.service_info(),
            read_back(record.spec_info()) == self@.service_info(),
    {
        proof {
            use_type_invariant(self);
        }
        &self.record
    }
}

/// What is known of the services: those that this side registered, and those of either
/// kind that are there.
#[verifier::ext_equal]
pub ghost struct DiscoveryView {
    pub registered: Set<ProfileView>,
    pub osc_query_services: Set<ProfileView>,
    pub osc_services: Set<ProfileView>,
}

/// News of a service that comes or goes.
pub ghost enum NotificationView {
    OscAdded(ProfileView),
    OscQueryAdded(ProfileView),
    OscRemoved(Seq<char>),
    OscQueryRemoved(Seq<char>),
}

/// What the mDNS daemon reports.
pub ghost enum ServiceEventView {
    SearchStarted(Seq<char>),
    ServiceFound(Seq<char>, Seq<char>),
    ServiceResolved { ty_domain: Seq<char>, fullname: Seq<char>, addresses: Seq<Seq<char>>, port: u16 },
    ServiceRemoved(Seq<char>, Seq<char>),
    SearchStopped(Seq<char>),
}

impl DiscoveryView {
    /// Nothing is known.
    pub open spec fn empty() -> DiscoveryView {
        DiscoveryView {
            registered: Set::empty(),
            osc_query_services: Set::empty(),
            osc_services: Set::empty(),
        }
    }

    /// The services of a kind.
    pub open spec fn services(self, kind: OSCServiceType) -> Set<ProfileView> {
        match kind {
            OSCServiceType::OSC => self.osc_services,
            OSCServiceType::OSCQuery => self.osc_query_services,
            OSCServiceType::Unknown => Set::empty(),
        }
    }

    /// The same with other services of a kind. Those of no known kind are not kept.
    pub open spec fn with_services(self, kind: OSCServiceType, services: Set<ProfileView>) -> DiscoveryView {
        match kind {
            OSCServiceType::OSC => DiscoveryView { osc_services: services, ..self },
            OSCServiceType::OSCQuery => DiscoveryView { osc_query_services: services, ..self },
            OSCServiceType::Unknown => self,
        }
    }

    /// The services of a kind are all of that kind.
    pub open spec fn typed(self) -> bool {
        &&& forall|p: ProfileView| #[trigger]
            self.osc_services.contains(p) ==> p.service_type == OSCServiceType::OSC
        &&& forall|p: ProfileView| #[trigger]
            self.osc_query_services.contains(p) ==> p.service_type == OSCServiceType::OSCQuery
    }
}

/// The news that a service is there.
pub open spec fn added(profile: ProfileView) -> Option<NotificationView> {
    match profile.service_type {
        OSCServiceType::OSC => Some(NotificationView::OscAdded(profile)),
        OSCServiceType::OSCQuery => Some(NotificationView::OscQueryAdded(profile)),
        OSCServiceType::Unknown => None,
    }
}

/// The news that a service of a kind is gone.
pub open spec fn removed(kind: OSCServiceType, name: Seq<char>) -> Option<NotificationView> {
    match kind {
        OSCServiceType::OSC => Some(NotificationView::OscRemoved(name)),
        OSCServiceType::OSCQuery => Some(NotificationView::OscQueryRemoved(name)),
        OSCServiceType::Unknown => None,
    }
}

/// The profile of a resolved service: it goes by its full name, at its first address.
pub open spec fn resolved_profile(
    ty_domain: Seq<char>,
    fullname: Seq<char>,
    addresses: Seq<Seq<char>>,
    port: u16,
) -> ProfileView {
    ProfileView {
        port,
        name: fullname,
        address: addresses[0],
        service_type: OSCServiceType::of_service_string(ty_domain),
    }
}

/// What a report changes, and the news that it makes. A resolved service that has an
/// address is added, and is news if it was not there; with a removed one go all of its
/// kind that bear its name, which is news in any case; nothing else matters.
pub open spec fn event_outcome(d: DiscoveryView, event: ServiceEventView) -> (
    DiscoveryView,
    Option<NotificationView>,
) {
    match event {
        ServiceEventView::ServiceResolved { ty_domain, fullname, addresses, port } => {
            let p = resolved_profile(ty_domain, fullname, addresses, port);
            let known = d.services(p.service_type);
            if addresses.len() == 0 || known.contains(p) {
                (d, None)
            } else {
                (d.with_services(p.service_type, known.insert(p)), added(p))
            }
        },
        ServiceEventView::ServiceRemoved(ty_domain, name) => {
            let kind = OSCServiceType::of_service_string(ty_domain);
            (d.with_services(kind, not_named(d.services(kind), name)), removed(kind, name))
        },
        _ => (d, None),
    }
}

/// What a resolved service was found to be.
#[derive(Debug)]
pub struct ResolvedService {
    pub ty_domain: String,
    pub fullname: String,
    pub addresses: Vec<IpAddr>,
    pub port: u16,
}

/// What the mDNS daemon reports.
#[derive(Debug)]
pub enum ServiceEvent {
    /// The search for a service type has started.
    SearchStarted(String),
    /// A service (type, full name) was found.
    ServiceFound(String, String),
    /// A service was resolved.
    ServiceResolved(ResolvedService),
    /// A service (type, full name) is gone.
    ServiceRemoved(String, String),
    /// The search for a service type has stopped.
    SearchStopped(String),
}

impl View for ServiceEvent {
    type V = ServiceEventView;

    open spec fn view(&self) -> ServiceEventView {
        match *self {
            ServiceEvent::SearchStarted(ty) => ServiceEventView::SearchStarted(ty@),
            ServiceEvent::ServiceFound(ty, name) => ServiceEventView::ServiceFound(ty@, name@),
            ServiceEvent::ServiceResolved(info) => ServiceEventView::ServiceResolved {
                ty_domain: info.ty_domain@,
                fullname: info.fullname@,
                addresses: info.addresses@.map_values(|a: IpAddr| a@),
                port: info.port,
            },
            ServiceEvent::ServiceRemoved(ty, name) => ServiceEventView::ServiceRemoved(ty@, name@),
            ServiceEvent::SearchStopped(ty) => ServiceEventView::SearchStopped(ty@),
        }
    }
}

/// News of a service that comes or goes: its profile, or the name that it had.
#[derive(Debug, PartialEq, Eq)]
pub enum ServiceNotification {
    OscAdded(OSCQueryServiceProfile),
    OscQueryAdded(OSCQueryServiceProfile),
    OscRemoved(String),
    OscQueryRemoved(String),
}

impl View for ServiceNotification {
    type V = NotificationView;

    open spec fn view(&self) -> NotificationView {
        match *self {
            ServiceNotification::OscAdded(profile) => NotificationView::OscAdded(profile@),
            ServiceNotification::OscQueryAdded(profile) => NotificationView::OscQueryAdded(profile@),
            ServiceNotification::OscRemoved(name) => NotificationView::OscRemoved(name@),
            ServiceNotification::OscQueryRemoved(name) => NotificationView::OscQueryRemoved(name@),
        }
    }
}

/// The news that there may be.
pub open spec fn news(n: Option<ServiceNotification>) -> Option<NotificationView> {
    match n {
        Some(n) => Some(n@),
        None => None,
    }
}

/// What the handler of the daemon's reports does next.
#[derive(Debug, PartialEq, Eq)]
pub enum HandlerTurn {
    /// It passes on the news, if there is any, and waits for the next report.
    Continue(Option<ServiceNotification>),
    /// It ends.
    Exit,
}

/// What happens while a service is advertised.
#[derive(Debug)]
pub enum AdvertiseEvent {
    /// The service is to be advertised.
    Begin(OSCQueryServiceProfile),
    /// The daemon was asked to register it; in the error case, with what it said.
    Registered(Advertisement, Result<(), String>),
}

/// What advertising a service takes next.
#[derive(Debug)]
pub enum AdvertiseAction {
    /// Ask the daemon to register the service.
    Register(Advertisement),
    /// Report the outcome.
    Return(Result<(), String>),
}

/// What happens while a service is withdrawn.
#[derive(Debug)]
pub enum UnadvertiseEvent {
    /// The service is to be withdrawn.
    Begin(OSCQueryServiceProfile),
    /// The daemon was asked to unregister it; in the error case, with what it said.
    Unregistered(Result<(), String>),
}

/// What withdrawing a service takes next.
#[derive(Debug, PartialEq, Eq)]
pub enum UnadvertiseAction {
    /// Ask the daemon to unregister the service with this full name.
    Unregister(String),
    /// Report the outcome.
    Return(Result<(), String>),
}

/// What happens while a service is advertised.
pub ghost enum AdvertiseEventView {
    Begin(ProfileView),
    Registered(ProfileView, Result<(), Seq<char>>),
}

/// What advertising a service takes next.
pub ghost enum AdvertiseActionView {
    Register(ProfileView),
    Return(Result<(), Seq<char>>),
}

/// What happens while a service is withdrawn.
pub ghost enum UnadvertiseEventView {
    Begin(ProfileView),
    Unregistered(Result<(), Seq<char>>),
}

/// What withdrawing a service takes next.
pub ghost enum UnadvertiseActionView {
    Unregister(Seq<char>),
    Return(Result<(), Seq<char>>),
}

impl View for AdvertiseEvent {
    type V = AdvertiseEventView;

    open spec fn view(&self) -> AdvertiseEventView {
        match *self {
            AdvertiseEvent::Begin(profile) => AdvertiseEventView::Begin(profile@),
            AdvertiseEvent::Registered(advertisement, outcome) => AdvertiseEventView::Registered(
                advertisement@,
                outcome_text(outcome),
            ),
        }
    }
}

impl View for AdvertiseAction {
    type V = AdvertiseActionView;

    open spec fn view(&self) -> AdvertiseActionView {
        match *self {
            AdvertiseAction::Register(advertisement) => AdvertiseActionView::Register(
                advertisement@,
            ),
            AdvertiseAction::Return(outcome) => AdvertiseActionView::Return(outcome_text(outcome)),
        }
    }
}

impl View for UnadvertiseEvent {
    type V = UnadvertiseEventView;

    open spec fn view(&self) -> UnadvertiseEventView {
        match *self {
            UnadvertiseEvent::Begin(profile) => UnadvertiseEventView::Begin(profile@),
            UnadvertiseEvent::Unregistered(outcome) => UnadvertiseEventView::Unregistered(
                outcome_text(outcome),
            ),
        }
    }
}

impl View for UnadvertiseAction {
    type V = UnadvertiseActionView;

    open spec fn view(&self) -> UnadvertiseActionView {
        match *self {
            UnadvertiseAction::Unregister(fullname) => UnadvertiseActionView::Unregister(fullname@),
            UnadvertiseAction::Return(outcome) => UnadvertiseActionView::Return(
                outcome_text(outcome),
            ),
        }
    }
}

/// What advertising a service comes to. Once the daemon has taken it, the service counts
/// as registered and as there; otherwise nothing changes.
pub open spec fn advertise_outcome(d: DiscoveryView, event: AdvertiseEventView) -> (
    DiscoveryView,
    AdvertiseActionView,
) {
    match event {
        AdvertiseEventView::Begin(p) => (d, AdvertiseActionView::Register(p)),
        AdvertiseEventView::Registered(p, Ok(())) => (
            (DiscoveryView { registered: d.registered.insert(p), ..d }).with_services(
                p.service_type,
                d.services(p.service_type).insert(p),
            ),
            AdvertiseActionView::Return(Ok(())),
        ),
        AdvertiseEventView::Registered(_, Err(e)) => (
            d,
            AdvertiseActionView::Return(Err("Failed to advertise service: "@ + e)),
        ),
    }
}

/// What withdrawing a service comes to. It stops counting as registered before the daemon
/// is asked, whatever comes of that. A profile that is not registered stands for those that
/// are under its name and kind, whatever their address and port; where there are none,
/// there is nothing to do.
pub open spec fn unadvertise_outcome(d: DiscoveryView, event: UnadvertiseEventView) -> (
    DiscoveryView,
    UnadvertiseActionView,
) {
    match event {
        UnadvertiseEventView::Begin(p) => if d.registered.contains(p) {
            (
                DiscoveryView { registered: d.registered.remove(p), ..d },
                UnadvertiseActionView::Unregister(p.service_info().fullname),
            )
        } else if has_service(d.registered, p) {
            (
                DiscoveryView { registered: other_services(d.registered, p), ..d },
                UnadvertiseActionView::Unregister(p.service_info().fullname),
            )
        } else {
            (d, UnadvertiseActionView::Return(Ok(())))
        },
        UnadvertiseEventView::Unregistered(Ok(())) => (d, UnadvertiseActionView::Return(Ok(()))),
        UnadvertiseEventView::Unregistered(Err(e)) => (
            d,
            UnadvertiseActionView::Return(Err("Failed to unadvertise service: "@ + e)),
        ),
    }
}

/// What is known of the services on the network, and which of them this side advertises.
#[derive(Debug)]
pub struct MeaModDiscovery {
    registered_services: Registrations,
    osc_query_services: ProfileSet,
    osc_services: ProfileSet,
}

impl View for MeaModDiscovery {
    type V = DiscoveryView;

    closed spec fn view(&self) -> DiscoveryView {
        DiscoveryView {
            registered: self.registered_services@,
            osc_query_services: self.osc_query_services@,
            osc_services: self.osc_services@,
        }
    }
}

impl MeaModDiscovery {
    /// No profile is listed twice.
    pub closed spec fn lists_wf(self) -> bool {
        self.registered_services.wf() && self.osc_query_services.wf() && self.osc_services.wf()
    }

    /// No profile is listed twice, and each is listed under its kind.
    pub open spec fn wf(self) -> bool {
        self.lists_wf() && self@.typed()
    }

    /// Nothing is known yet.
    pub fn new() -> (discovery: MeaModDiscovery)
        ensures
            discovery.wf(),
            discovery@ == DiscoveryView::empty(),
    {
        MeaModDiscovery {
            registered_services: Registrations::new(),
            osc_query_services: ProfileSet::new(),
            osc_services: ProfileSet::new(),
        }
    }

    /// One turn of the handler of the daemon's reports. It ends when no more can come.
    pub fn handle_service_events(&mut self, received: Option<ServiceEvent>) -> (turn: HandlerTurn)
        requires
            old(self).wf(),
        ensures
            final(self).wf(),
            match received {
                Some(event) => turn matches HandlerTurn::Continue(n) && (final(self)@, news(n))
                    == event_outcome(old(self)@, event@),
                None => turn is Exit && final(self)@ == old(self)@,
            },
    {
        match received {
            Some(event) => HandlerTurn::Continue(self.process_service_event(event)),
            None => HandlerTurn::Exit,
        }
    }

    /// Takes in one report of the daemon, and gives the news that it makes.
    pub fn process_service_event(&mut self, event: ServiceEvent) -> (n: Option<ServiceNotification>)
        requires
            old(self).wf(),
        ensures
            final(self).wf(),
            (final(self)@, news(n)) == event_outcome(old(self)@, event@),
    {
        match event {
            ServiceEvent::ServiceResolved(info) => {
                let service_type = OSCServiceType::from_service_string(info.ty_domain.as_str());
                if info.addresses.len() == 0 {
                    return None;
                }
                let profile = OSCQueryServiceProfile {
                    name: info.fullname,
                    address: info.addresses[0].clone(),
                    port: info.port,
                    service_type,
                };
                match service_type {
                    OSCServiceType::OSC => {
                        if self.osc_services.insert(profile.clone()) {
                            return Some(ServiceNotification::OscAdded(profile));
                        }
                        None
                    },
                    OSCServiceType::OSCQuery => {
                        if self.osc_query_services.insert(profile.clone()) {
                            return Some(ServiceNotification::OscQueryAdded(profile));
                        }
                        None
                    },
                    OSCServiceType::Unknown => None,
                }
            },
            ServiceEvent::ServiceRemoved(ty_domain, instance_name) => {
                match OSCServiceType::from_service_string(ty_domain.as_str()) {
                    OSCServiceType::OSC => {
                        self.osc_services.remove_named(instance_name.as_str());
                        Some(ServiceNotification::OscRemoved(instance_name))
                    },
                    OSCServiceType::OSCQuery => {
                        self.osc_query_services.remove_named(instance_name.as_str());
                        Some(ServiceNotification::OscQueryRemoved(instance_name))
                    },
                    OSCServiceType::Unknown => None,
                }
            },
            _ => None,
        }
    }

    /// The service types to browse for, in this order.
    pub fn refresh_services(&self) -> (types: Vec<&'static str>)
        ensures
            types@.len() == 2,
            types@[0]@ == OSCServiceType::OSC.service_type_string(),
            types@[1]@ == OSCServiceType::OSCQuery.service_type_string(),
            types@[0]@ == "_osc._udp.local."@,
            types@[1]@ == "_oscjson._tcp.local."@,
    {
        let mut types: Vec<&'static str> = Vec::new();
        types.push(OSCServiceType::SERVICE_OSC_UDP);
        types.push(OSCServiceType::SERVICE_OSCJSON_TCP);
        types
    }

    /// One step of advertising a service.
    pub fn advertise(&mut self, event: AdvertiseEvent) -> (action: AdvertiseAction)
        requires
            old(self).wf(),
        ensures
            final(self).wf(),
            (final(self)@, action@) == advertise_outcome(old(self)@, event@),
    {
        proof {
            crate::laws::law_advertising_keeps_kinds(self@, event@);
        }
        match event {
            AdvertiseEvent::Begin(profile) => AdvertiseAction::Register(Advertisement::new(profile)),
            AdvertiseEvent::Registered(advertisement, Ok(())) => {
                let profile = advertisement.profile().clone();
                let service_type = profile.service_type;
                match service_type {
                    OSCServiceType::OSC => {
                        self.osc_services.insert(profile);
                    },
                    OSCServiceType::OSCQuery => {
                        self.osc_query_services.insert(profile);
                    },
                    OSCServiceType::Unknown => {},
                }
                self.registered_services.insert(advertisement);
                AdvertiseAction::Return(Ok(()))
            },
            AdvertiseEvent::Registered(_, Err(e)) => {
                AdvertiseAction::Return(Err(join("Failed to advertise service: ", e.as_str())))
            },
        }
    }

    /// One step of withdrawing a service.
    pub fn unadvertise(&mut self, event: UnadvertiseEvent) -> (action: UnadvertiseAction)
        requires
            old(self).wf(),
        ensures
            final(self).wf(),
            (final(self)@, action@) == unadvertise_outcome(old(self)@, event@),
    {
        match event {
            UnadvertiseEvent::Begin(profile) => {
                let mut removed = self.registered_services.remove(&profile);
                if removed.is_none() {
                    assert(self@ =~= old(self)@);
                    removed = self.registered_services.remove_service(&profile);
                }
                match removed {
                    Some(advertisement) => UnadvertiseAction::Unregister(
                        advertisement.record().get_fullname().to_owned(),
                    ),
                    None => {
                        assert(self@ =~= old(self)@);
                        UnadvertiseAction::Return(Ok(()))
                    },
                }
            },
            UnadvertiseEvent::Unregistered(Ok(())) => UnadvertiseAction::Return(Ok(())),
            UnadvertiseEvent::Unregistered(Err(e)) => {
                UnadvertiseAction::Return(Err(join("Failed to unadvertise service: ", e.as_str())))
            },
        }
    }

    /// The OSCQuery services that are there, in no particular order and each one once.
    pub fn get_osc_query_services(&self) -> (services: Vec<OSCQueryServiceProfile>)
        requires
            self.wf(),
        ensures
            profile_views(services@).no_duplicates(),
            profile_views(services@).to_set() == self@.osc_query_services,
    {
        self.osc_query_services.to_vec()
    }

    /// The OSC services that are there, in no particular order and each one once.
    pub fn get_osc_services(&self) -> (services: Vec<OSCQueryServiceProfile>)
        requires
            self.wf(),
        ensures
            profile_views(services@).no_duplicates(),
            profile_views(services@).to_set() == self@.osc_services,
    {
        self.osc_services.to_vec()
    }
}

/// No kind is named with a subtype.
proof fn lemma_no_subtype(kind: OSCServiceType)
    ensures
        !has_infix(kind.service_type_string(), "._sub."@),
{
    reveal_strlit("_osc._udp.local.");
    reveal_strlit("_oscjson._tcp.local.");
    reveal_strlit("UNKNOWN");
    reveal_strlit("._sub.");
    let s = kind.service_type_string();
    assert forall|i: int| 0 <= i && i + 6 <= s.len() implies #[trigger] s.subrange(i, i + 6)
        != "._sub."@ by {
        let part = s.subrange(i, i + 6);
        assert(part[0] == s[i] && part[2] == s[i + 2]);
        assert("._sub."@[0] == '.' && "._sub."@[2] == 's');
    }
}

/// A host in `osc.local.` is not in `local.local.`.
proof fn lemma_host_is_normal(name: Seq<char>)
    ensures
        normalized_hostname(name + ".osc.local."@) == name + ".osc.local."@,
{
    reveal_strlit(".osc.local.");
    reveal_strlit(".local.local.");
    let host = name + ".osc.local."@;
    if has_suffix(host, ".local.local."@) {
        let end = host.subrange(host.len() - 13, host.len() as int);
        assert(end[5] == host[host.len() - 8]);
        assert(host[host.len() - 8] == ".osc.local."@[3]);
        assert(".local.local."@[5] == 'l');
    }
}

} // verus!
