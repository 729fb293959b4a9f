//! The part that runs beside the client and the server: it owns the discovery, hands the
//! addresses of VRChat to the client, and advertises the server.

use crate::ip::IpAddr;
use crate::mdns::NotificationView;
use crate::mdns::OSCQueryServiceProfile;
use crate::mdns::OSCServiceType;
use crate::mdns::ProfileView;
use crate::mdns::ServiceNotification;
use crate::models::OSCQueryInitError;
use crate::text::has_prefix;
use crate::text::join;
use crate::text::outcome_text;
use crate::text::starts_with;
use vstd::prelude::*;

verus! {

/// The profiles that a server is advertised with.
pub ghost struct ServerProfilesView {
    pub oscquery: ProfileView,
    pub osc: ProfileView,
}

/// The profiles that a server is advertised with: that of its OSCQuery service, and that
/// of its OSC service.
#[derive(Debug, PartialEq, Eq)]
pub struct ServerProfiles {
    pub oscquery: OSCQueryServiceProfile,
    pub osc: OSCQueryServiceProfile,
}

impl View for ServerProfiles {
    type V = ServerProfilesView;

    open spec fn view(&self) -> ServerProfilesView {
        ServerProfilesView { oscquery: self.oscquery@, osc: self.osc@ }
    }
}

/// What the sidecar holds: the two ends of the channels on which it passes on VRChat's
/// OSC and OSCQuery addresses, the discovery, the task that watches it, the profiles that
/// the server is advertised with, those of earlier starts that were never withdrawn, and
/// whether client and server are in use.
#[verifier::ext_equal]
pub ghost struct SidecarView<D, Tx, Rx, Task> {
    pub osc_addr_tx: Option<Tx>,
    pub osc_addr_rx: Option<Rx>,
    pub oscquery_addr_tx: Option<Tx>,
    pub oscquery_addr_rx: Option<Rx>,
    pub discovery: Option<D>,
    pub monitor_task: Option<Task>,
    pub server_profiles: Option<ServerProfilesView>,
    pub earlier_servers: Seq<ServerProfilesView>,
    pub client_enabled: bool,
    pub server_enabled: bool,
}

impl<D, Tx, Rx, Task> SidecarView<D, Tx, Rx, Task> {
    /// Nothing has been set up.
    pub open spec fn empty() -> Self {
        SidecarView {
            osc_addr_tx: None,
            osc_addr_rx: None,
            oscquery_addr_tx: None,
            oscquery_addr_rx: None,
            discovery: None,
            monitor_task: None,
            server_profiles: None,
            earlier_servers: Seq::empty(),
            client_enabled: false,
            server_enabled: false,
        }
    }

    /// The profiles of all servers that are advertised, the latest one last.
    pub open spec fn kept(self) -> Seq<ServerProfilesView> {
        match self.server_profiles {
            Some(profiles) => self.earlier_servers.push(profiles),
            None => self.earlier_servers,
        }
    }

    /// The profile is one that a server is advertised with.
    pub open spec fn keeps(self, p: ProfileView) -> bool {
        exists|i: int|
            0 <= i < self.kept().len() && ((#[trigger] self.kept()[i]).oscquery == p
                || self.kept()[i].osc == p)
    }

    /// Each of the profiles is one that a server is advertised with.
    pub open spec fn keeps_all(self, profiles: Set<ProfileView>) -> bool {
        forall|p: ProfileView| #[trigger] profiles.contains(p) ==> self.keeps(p)
    }

    /// The same with everything taken down but for the flags.
    pub open spec fn down(self) -> Self {
        SidecarView {
            client_enabled: self.client_enabled,
            server_enabled: self.server_enabled,
            ..Self::empty()
        }
    }

    /// Without a discovery there is nothing that belongs to one; with one, its channels
    /// can be sent on.
    pub open spec fn consistent(self) -> bool {
        &&& self.discovery is None ==> self == self.down()
        &&& self.discovery is Some ==> self.osc_addr_tx is Some && self.oscquery_addr_tx is Some
    }
}

/// The sidecar's state. The types of the discovery, of the ends of the channels and of
/// the task are the caller's.
#[derive(Debug)]
pub struct SidecarState<D, Tx, Rx, Task> {
    pub osc_addr_tx: Option<Tx>,
    pub osc_addr_rx: Option<Rx>,
    pub oscquery_addr_tx: Option<Tx>,
    pub oscquery_addr_rx: Option<Rx>,
    pub discovery: Option<D>,
    pub monitor_task: Option<Task>,
    pub server_profiles: Option<ServerProfiles>,
    pub earlier_servers: Vec<ServerProfiles>,
    pub client_enabled: bool,
    pub server_enabled: bool,
}

impl<D, Tx, Rx, Task> View for SidecarState<D, Tx, Rx, Task> {
    type V = SidecarView<D, Tx, Rx, Task>;

    open spec fn view(&self) -> SidecarView<D, Tx, Rx, Task> {
        SidecarView {
            osc_addr_tx: self.osc_addr_tx,
            osc_addr_rx: self.osc_addr_rx,
            oscquery_addr_tx: self.oscquery_addr_tx,
            oscquery_addr_rx: self.oscquery_addr_rx,
            discovery: self.discovery,
            monitor_task: self.monitor_task,
            server_profiles: match self.server_profiles {
                Some(profiles) => Some(profiles@),
                None => None,
            },
            earlier_servers: self.earlier_servers@.map_values(|p: ServerProfiles| p@),
            client_enabled: self.client_enabled,
            server_enabled: self.server_enabled,
        }
    }
}

impl<D, Tx, Rx, Task> SidecarState<D, Tx, Rx, Task> {
    /// Nothing is set up.
    pub fn new() -> (state: Self)
        ensures
            state@ == SidecarView::<D, Tx, Rx, Task>::empty(),
    {
        SidecarState {
            osc_addr_tx: None,
            osc_addr_rx: None,
            oscquery_addr_tx: None,
            oscquery_addr_rx: None,
            discovery: None,
            monitor_task: None,
            server_profiles: None,
            earlier_servers: Vec::new(),
            client_enabled: false,
            server_enabled: false,
        }
    }
}

/// What happens while the client's channels are set up.
#[derive(Debug)]
pub enum ChannelsEvent<D, Tx, Rx, Task> {
    /// The channels are asked for.
    Begin,
    /// The discovery and the channels for the two kinds of addresses were made.
    Created { discovery: D, osc_tx: Tx, osc_rx: Rx, oscquery_tx: Tx, oscquery_rx: Rx },
    /// The task that watches the discovery was started.
    MonitorSpawned(Task),
}

/// What setting up the client's channels takes next.
#[derive(Debug, PartialEq, Eq)]
pub enum ChannelsAction<Rx> {
    /// Make a discovery and two channels.
    Create,
    /// Start the task that watches the discovery.
    SpawnMonitor,
    /// Give the receiving ends for OSC and OSCQuery addresses, in this order, or fail.
    Return(Result<(Rx, Rx), OSCQueryInitError>),
}

/// The receiving ends are given away. Where that of the OSC addresses is gone already,
/// nothing is given; where only the other one is gone, this one goes with it.
pub open spec fn receivers_taken<D, Tx, Rx, Task>(s: SidecarView<D, Tx, Rx, Task>) -> (
    SidecarView<D, Tx, Rx, Task>,
    Result<(Rx, Rx), OSCQueryInitError>,
) {
    let left = if s.osc_addr_rx is Some {
        SidecarView { osc_addr_rx: None, oscquery_addr_rx: None, ..s }
    } else {
        s
    };
    match (s.osc_addr_rx, s.oscquery_addr_rx) {
        (Some(osc_rx), Some(oscquery_rx)) => (left, Ok((osc_rx, oscquery_rx))),
        _ => (left, Err(OSCQueryInitError::MDNSInitFailed)),
    }
}

/// What setting up the client's channels comes to. They are made once; after that, what
/// is left of the receiving ends is given away.
pub open spec fn channels_outcome<D, Tx, Rx, Task>(
    s: SidecarView<D, Tx, Rx, Task>,
    event: ChannelsEvent<D, Tx, Rx, Task>,
) -> (SidecarView<D, Tx, Rx, Task>, ChannelsAction<Rx>) {
    match event {
        ChannelsEvent::Begin => if s.discovery is Some {
            (receivers_taken(s).0, ChannelsAction::Return(receivers_taken(s).1))
        } else {
            (s, ChannelsAction::Create)
        },
        ChannelsEvent::Created { discovery, osc_tx, osc_rx, oscquery_tx, oscquery_rx } => (
            SidecarView {
                discovery: Some(discovery),
                osc_addr_tx: Some(osc_tx),
                osc_addr_rx: Some(osc_rx),
                oscquery_addr_tx: Some(oscquery_tx),
                oscquery_addr_rx: Some(oscquery_rx),
                ..s
            },
            ChannelsAction::SpawnMonitor,
        ),
        ChannelsEvent::MonitorSpawned(task) => {
            let watched = SidecarView { monitor_task: Some(task), ..s };
            (receivers_taken(watched).0, ChannelsAction::Return(receivers_taken(watched).1))
        },
    }
}

/// Gives the receiving ends away.
fn take_receivers<D, Tx, Rx, Task>(state: &mut SidecarState<D, Tx, Rx, Task>) -> (taken: Result<
    (Rx, Rx),
    OSCQueryInitError,
>)
    ensures
        (final(state)@, taken) == receivers_taken(old(state)@),
{
    let osc_rx = match state.osc_addr_rx.take() {
        Some(rx) => rx,
        None => return Err(OSCQueryInitError::MDNSInitFailed),
    };
    let oscquery_rx = match state.oscquery_addr_rx.take() {
        Some(rx) => rx,
        None => return Err(OSCQueryInitError::MDNSInitFailed),
    };
    Ok((osc_rx, oscquery_rx))
}

/// One step of setting up the channels on which the client gets VRChat's addresses.
pub fn init_client_channels<D, Tx, Rx, Task>(
    state: &mut SidecarState<D, Tx, Rx, Task>,
    event: ChannelsEvent<D, Tx, Rx, Task>,
) -> (action: ChannelsAction<Rx>)
    ensures
        (final(state)@, action) == channels_outcome(old(state)@, event),
{
    match event {
        ChannelsEvent::Begin => {
            if state.discovery.is_some() {
                ChannelsAction::Return(take_receivers(state))
            } else {
                ChannelsAction::Create
            }
        },
        ChannelsEvent::Created { discovery, osc_tx, osc_rx, oscquery_tx, oscquery_rx } => {
            state.discovery = Some(discovery);
            state.osc_addr_tx = Some(osc_tx);
            state.osc_addr_rx = Some(osc_rx);
            state.oscquery_addr_tx = Some(oscquery_tx);
            state.oscquery_addr_rx = Some(oscquery_rx);
            ChannelsAction::SpawnMonitor
        },
        ChannelsEvent::MonitorSpawned(task) => {
            state.monitor_task = Some(task);
            ChannelsAction::Return(take_receivers(state))
        },
    }
}

/// What the task that watches the discovery does next.
#[derive(Debug, PartialEq, Eq)]
pub enum MonitorAction<'a, Tx> {
    /// It sends an address and a port on a channel.
    Send(&'a Tx, String, u16),
    /// It waits for further news.
    Wait,
    /// It ends.
    Exit,
}

/// What the task that watches the discovery does next: the channel, with the address and
/// the port that it sends on it.
pub ghost enum MonitorActionView<Tx> {
    Send(Tx, Seq<char>, u16),
    Wait,
    Exit,
}

impl<'a, Tx> View for MonitorAction<'a, Tx> {
    type V = MonitorActionView<Tx>;

    open spec fn view(&self) -> MonitorActionView<Tx> {
        match *self {
            MonitorAction::Send(tx, host, port) => MonitorActionView::Send(*tx, host@, port),
            MonitorAction::Wait => MonitorActionView::Wait,
            MonitorAction::Exit => MonitorActionView::Exit,
        }
    }
}

/// The name is one under which VRChat announces itself.
pub open spec fn is_vrchat(name: Seq<char>) -> bool {
    has_prefix(name, "VRChat-Client-"@)
}

/// The address of a service of VRChat goes out on the channel, where there is one.
pub open spec fn forwarded<Tx>(tx: Option<Tx>, profile: ProfileView) -> MonitorActionView<Tx> {
    match tx {
        Some(tx) if is_vrchat(profile.name) => MonitorActionView::Send(
            tx,
            profile.address,
            profile.port,
        ),
        _ => MonitorActionView::Wait,
    }
}

/// What news of a service lead to. Only where VRChat's services are matters: that they
/// are gone does not.
pub open spec fn monitor_outcome<D, Tx, Rx, Task>(
    s: SidecarView<D, Tx, Rx, Task>,
    received: Option<NotificationView>,
) -> MonitorActionView<Tx> {
    match received {
        Some(NotificationView::OscAdded(profile)) => forwarded(s.osc_addr_tx, profile),
        Some(NotificationView::OscQueryAdded(profile)) => forwarded(s.oscquery_addr_tx, profile),
        Some(_) => MonitorActionView::Wait,
        None => MonitorActionView::Exit,
    }
}

/// Where the address of an added service goes.
fn forward<'a, Tx>(tx: &'a Option<Tx>, profile: &OSCQueryServiceProfile) -> (action: MonitorAction<
    'a,
    Tx,
>)
    ensures
        action@ == forwarded(*tx, profile@),
{
    if starts_with(profile.name.as_str(), "VRChat-Client-") {
        if let Some(tx) = tx {
            return MonitorAction::Send(tx, profile.address.to_text(), profile.port);
        }
    }
    MonitorAction::Wait
}

/// One turn of the task that watches the discovery. It ends when no more news can come.
pub fn monitor_turn<'a, D, Tx, Rx, Task>(
    state: &'a SidecarState<D, Tx, Rx, Task>,
    received: Option<ServiceNotification>,
) -> (action: MonitorAction<'a, Tx>)
    ensures
        action@ == monitor_outcome(state@, crate::mdns::news(received)),
{
    match received {
        Some(ServiceNotification::OscAdded(profile)) => forward(&state.osc_addr_tx, &profile),
        Some(ServiceNotification::OscQueryAdded(profile)) => forward(
            &state.oscquery_addr_tx,
            &profile,
        ),
        Some(_) => MonitorAction::Wait,
        None => MonitorAction::Exit,
    }
}

/// What happens while the sidecar is taken down.
#[derive(Debug)]
pub enum DeinitEvent {
    /// It is to be taken down.
    Begin,
    /// The task that watches the discovery, if there was one, is no more.
    MonitorStopped,
    /// The discovery was asked to withdraw the two services of a server.
    Unadvertised(Result<(), String>, Result<(), String>),
}

/// What happens while the sidecar is taken down.
pub ghost enum DeinitEventView {
    Begin,
    MonitorStopped,
    Unadvertised(Result<(), Seq<char>>, Result<(), Seq<char>>),
}

impl View for DeinitEvent {
    type V = DeinitEventView;

    open spec fn view(&self) -> DeinitEventView {
        match *self {
            DeinitEvent::Begin => DeinitEventView::Begin,
            DeinitEvent::MonitorStopped => DeinitEventView::MonitorStopped,
            DeinitEvent::Unadvertised(r, q) => DeinitEventView::Unadvertised(
                outcome_text(r),
                outcome_text(q),
            ),
        }
    }
}

/// What taking the sidecar down takes next.
#[derive(Debug, PartialEq, Eq)]
pub enum DeinitAction<Task> {
    /// Stop the task, if there is one.
    StopMonitor(Option<Task>),
    /// Have the discovery withdraw the first service, then the second, whatever comes of it.
    Unadvertise(OSCQueryServiceProfile, OSCQueryServiceProfile),
    /// It is down.
    Return,
}

/// What taking the sidecar down takes next.
pub ghost enum DeinitActionView<Task> {
    StopMonitor(Option<Task>),
    Unadvertise(ProfileView, ProfileView),
    Return,
}

impl<Task> View for DeinitAction<Task> {
    type V = DeinitActionView<Task>;

    open spec fn view(&self) -> DeinitActionView<Task> {
        match *self {
            DeinitAction::StopMonitor(task) => DeinitActionView::StopMonitor(task),
            DeinitAction::Unadvertise(p, q) => DeinitActionView::Unadvertise(p@, q@),
            DeinitAction::Return => DeinitActionView::Return,
        }
    }
}

/// The discovery and its channels are dropped.
pub open spec fn cleared<D, Tx, Rx, Task>(s: SidecarView<D, Tx, Rx, Task>) -> SidecarView<
    D,
    Tx,
    Rx,
    Task,
> {
    SidecarView {
        discovery: None,
        osc_addr_tx: None,
        osc_addr_rx: None,
        oscquery_addr_tx: None,
        oscquery_addr_rx: None,
        ..s
    }
}

/// The server that is to be withdrawn next, the latest one first. Without one, or without a
/// discovery to withdraw it, the discovery and its channels are dropped.
pub open spec fn next_withdrawal<D, Tx, Rx, Task>(s: SidecarView<D, Tx, Rx, Task>) -> (
    SidecarView<D, Tx, Rx, Task>,
    DeinitActionView<Task>,
) {
    if s.discovery is Some && s.kept().len() > 0 {
        (
            SidecarView {
                server_profiles: None,
                earlier_servers: s.kept().drop_last(),
                ..s
            },
            DeinitActionView::Unadvertise(s.kept().last().oscquery, s.kept().last().osc),
        )
    } else {
        (cleared(s), DeinitActionView::Return)
    }
}

/// What taking the sidecar down comes to. Both profiles of each server that is advertised
/// are withdrawn before the discovery goes, and it goes whatever comes of that.
pub open spec fn deinit_outcome<D, Tx, Rx, Task>(
    s: SidecarView<D, Tx, Rx, Task>,
    event: DeinitEventView,
) -> (SidecarView<D, Tx, Rx, Task>, DeinitActionView<Task>) {
    match event {
        DeinitEventView::Begin => (
            SidecarView { monitor_task: None, ..s },
            DeinitActionView::StopMonitor(s.monitor_task),
        ),
        DeinitEventView::MonitorStopped | DeinitEventView::Unadvertised(_, _) => next_withdrawal(s),
    }
}

/// Turns to the server that is to be withdrawn next, the latest one first. Without one, or
/// without a discovery to withdraw it, the discovery and its channels are dropped.
fn withdraw_next<D, Tx, Rx, Task>(state: &mut SidecarState<D, Tx, Rx, Task>) -> (action:
    DeinitAction<Task>)
    ensures
        (final(state)@, action@) == next_withdrawal(old(state)@),
{
    if state.discovery.is_some() {
        let next = match state.server_profiles.take() {
            Some(profiles) => Some(profiles),
            None => state.earlier_servers.pop(),
        };
        assert(next is Some ==> state@.earlier_servers =~= old(state)@.kept().drop_last());
        if let Some(profiles) = next {
            return DeinitAction::Unadvertise(profiles.oscquery, profiles.osc);
        }
        assert(state@ =~= old(state)@);
    }
    clear(state);
    DeinitAction::Return
}

/// Drops the discovery and its channels.
fn clear<D, Tx, Rx, Task>(state: &mut SidecarState<D, Tx, Rx, Task>)
    ensures
        final(state)@ == cleared(old(state)@),
{
    state.discovery = None;
    state.osc_addr_tx = None;
    state.osc_addr_rx = None;
    state.oscquery_addr_tx = None;
    state.oscquery_addr_rx = None;
}

/// One step of taking the sidecar down.
pub fn deinit<D, Tx, Rx, Task>(
    state: &mut SidecarState<D, Tx, Rx, Task>,
    event: DeinitEvent,
) -> (action: DeinitAction<Task>)
    ensures
        (final(state)@, action@) == deinit_outcome(old(state)@, event@),
{
    match event {
        DeinitEvent::Begin => DeinitAction::StopMonitor(state.monitor_task.take()),
        DeinitEvent::MonitorStopped | DeinitEvent::Unadvertised(_, _) => withdraw_next(state),
    }
}

/// What happens while the server is being advertised.
#[derive(Debug)]
pub enum ServerStartEvent {
    /// The server has started.
    Begin,
    /// The client's channels, and with them the discovery, were set up.
    ChannelsReady(Result<(), OSCQueryInitError>),
    /// The discovery was asked to advertise the OSC service.
    OscAdvertised(Result<(), String>),
    /// The discovery was asked to advertise the OSCQuery service.
    OscQueryAdvertised(Result<(), String>),
    /// The OSC service was withdrawn again after the given failure.
    RolledBack(String),
}

/// What advertising the server takes next.
#[derive(Debug, PartialEq, Eq)]
pub enum ServerStartAction {
    /// Set the client's channels up.
    InitChannels,
    /// Have the discovery advertise the OSC service.
    AdvertiseOsc(OSCQueryServiceProfile),
    /// Have the discovery advertise the OSCQuery service.
    AdvertiseOscQuery(OSCQueryServiceProfile),
    /// Have the discovery withdraw the service because of the given failure.
    RollBack(OSCQueryServiceProfile, String),
    /// Report the outcome.
    Return(Result<(), String>),
}

/// What happens while the server is being advertised.
pub ghost enum ServerStartEventView {
    Begin,
    ChannelsReady(Result<(), OSCQueryInitError>),
    OscAdvertised(Result<(), Seq<char>>),
    OscQueryAdvertised(Result<(), Seq<char>>),
    RolledBack(Seq<char>),
}

/// What advertising the server takes next.
pub ghost enum ServerStartActionView {
    InitChannels,
    AdvertiseOsc(ProfileView),
    AdvertiseOscQuery(ProfileView),
    RollBack(ProfileView, Seq<char>),
    Return(Result<(), Seq<char>>),
}

impl View for ServerStartEvent {
    type V = ServerStartEventView;

    open spec fn view(&self) -> ServerStartEventView {
        match *self {
            ServerStartEvent::Begin => ServerStartEventView::Begin,
            ServerStartEvent::ChannelsReady(r) => ServerStartEventView::ChannelsReady(r),
            ServerStartEvent::OscAdvertised(r) => ServerStartEventView::OscAdvertised(
                outcome_text(r),
            ),
            ServerStartEvent::OscQueryAdvertised(r) => ServerStartEventView::OscQueryAdvertised(
                outcome_text(r),
            ),
            ServerStartEvent::RolledBack(e) => ServerStartEventView::RolledBack(e@),
        }
    }
}

impl View for ServerStartAction {
    type V = ServerStartActionView;

    open spec fn view(&self) -> ServerStartActionView {
        match *self {
            ServerStartAction::InitChannels => ServerStartActionView::InitChannels,
            ServerStartAction::AdvertiseOsc(p) => ServerStartActionView::AdvertiseOsc(p@),
            ServerStartAction::AdvertiseOscQuery(p) => ServerStartActionView::AdvertiseOscQuery(p@),
            ServerStartAction::RollBack(p, e) => ServerStartActionView::RollBack(p@, e@),
            ServerStartAction::Return(r) => ServerStartActionView::Return(outcome_text(r)),
        }
    }
}

/// The server's profile of a kind: under the server's name, on the loopback address.
pub open spec fn server_profile_of(kind: OSCServiceType, name: Seq<char>, port: u16) -> ProfileView {
    ProfileView { port, name, address: "127.0.0.1"@, service_type: kind }
}

/// The server counts as in use, and its OSC service is to be advertised by the discovery.
pub open spec fn server_enabled<D, Tx, Rx, Task>(
    s: SidecarView<D, Tx, Rx, Task>,
    osc_port: u16,
    service_name: Seq<char>,
) -> (SidecarView<D, Tx, Rx, Task>, ServerStartActionView) {
    (
        SidecarView { server_enabled: true, ..s },
        if s.discovery is Some {
            ServerStartActionView::AdvertiseOsc(
                server_profile_of(OSCServiceType::OSC, service_name, osc_port),
            )
        } else {
            ServerStartActionView::Return(Err("mDNS discovery not initialized."@))
        },
    )
}

/// What advertising the server comes to. Its OSC service is advertised, then its OSCQuery
/// service, and both profiles are kept, beside those of earlier starts; where the second
/// fails, the first is withdrawn.
pub open spec fn server_start_outcome<D, Tx, Rx, Task>(
    s: SidecarView<D, Tx, Rx, Task>,
    osc_port: u16,
    oscquery_port: u16,
    service_name: Seq<char>,
    event: ServerStartEventView,
) -> (SidecarView<D, Tx, Rx, Task>, ServerStartActionView) {
    let osc = server_profile_of(OSCServiceType::OSC, service_name, osc_port);
    let oscquery = server_profile_of(OSCServiceType::OSCQuery, service_name, oscquery_port);
    match event {
        ServerStartEventView::Begin => if s.discovery is None {
            (s, ServerStartActionView::InitChannels)
        } else {
            server_enabled(s, osc_port, service_name)
        },
        ServerStartEventView::ChannelsReady(Ok(())) => server_enabled(s, osc_port, service_name),
        ServerStartEventView::ChannelsReady(Err(e)) => (
            s,
            ServerStartActionView::Return(
                Err(
                    "mDNS discovery instance not initialized and failed to init: "@ + e.spec_name(),
                ),
            ),
        ),
        ServerStartEventView::OscAdvertised(Ok(())) => (
            s,
            ServerStartActionView::AdvertiseOscQuery(oscquery),
        ),
        ServerStartEventView::OscQueryAdvertised(Ok(())) => (
            SidecarView {
                server_profiles: Some(ServerProfilesView { oscquery, osc }),
                earlier_servers: s.kept(),
                ..s
            },
            ServerStartActionView::Return(Ok(())),
        ),
        ServerStartEventView::OscQueryAdvertised(Err(e)) => (
            s,
            ServerStartActionView::RollBack(osc, e),
        ),
        ServerStartEventView::OscAdvertised(Err(e)) | ServerStartEventView::RolledBack(e) => (
            s,
            ServerStartActionView::Return(Err(e)),
        ),
    }
}

/// The server's profile of a kind.
fn server_profile(kind: OSCServiceType, name: &String, port: u16) -> (profile:
    OSCQueryServiceProfile)
    ensures
        profile@ == server_profile_of(kind, name@, port),
{
    OSCQueryServiceProfile::new(name.clone(), IpAddr::localhost(), port, kind)
}

/// Marks the server as in use, and turns to its OSC service.
fn enable_server<D, Tx, Rx, Task>(
    state: &mut SidecarState<D, Tx, Rx, Task>,
    osc_port: u16,
    service_name: &String,
) -> (action: ServerStartAction)
    ensures
        (final(state)@, action@) == server_enabled(old(state)@, osc_port, service_name@),
{
    state.server_enabled = true;
    if state.discovery.is_some() {
        ServerStartAction::AdvertiseOsc(
            server_profile(OSCServiceType::OSC, service_name, osc_port),
        )
    } else {
        ServerStartAction::Return(Err("mDNS discovery not initialized.".to_owned()))
    }
}

/// One step of advertising a server that has started on the given ports.
pub fn mark_server_started<D, Tx, Rx, Task>(
    state: &mut SidecarState<D, Tx, Rx, Task>,
    osc_port: u16,
    oscquery_port: u16,
    service_name: &String,
    event: ServerStartEvent,
) -> (action: ServerStartAction)
    ensures
        (final(state)@, action@) == server_start_outcome(
            old(state)@,
            osc_port,
            oscquery_port,
            service_name@,
            event@,
        ),
{
    match event {
        ServerStartEvent::Begin => {
            if state.discovery.is_none() {
                ServerStartAction::InitChannels
            } else {
                enable_server(state, osc_port, service_name)
            }
        },
        ServerStartEvent::ChannelsReady(Ok(())) => enable_server(state, osc_port, service_name),
        ServerStartEvent::ChannelsReady(Err(e)) => {
            ServerStartAction::Return(
                Err(
                    join(
                        "mDNS discovery instance not initialized and failed to init: ",
                        e.name(),
                    ),
                ),
            )
        },
        ServerStartEvent::OscAdvertised(Ok(())) => {
            ServerStartAction::AdvertiseOscQuery(
                server_profile(OSCServiceType::OSCQuery, service_name, oscquery_port),
            )
        },
        ServerStartEvent::OscAdvertised(Err(e)) => ServerStartAction::Return(Err(e)),
        ServerStartEvent::OscQueryAdvertised(Ok(())) => {
            if let Some(earlier) = state.server_profiles.take() {
                state.earlier_servers.push(earlier);
            }
            assert(state@.earlier_servers =~= old(state)@.kept());
            state.server_profiles = Some(
                ServerProfiles {
                    oscquery: server_profile(OSCServiceType::OSCQuery, service_name, oscquery_port),
                    osc: server_profile(OSCServiceType::OSC, service_name, osc_port),
                },
            );
            ServerStartAction::Return(Ok(()))
        },
        ServerStartEvent::OscQueryAdvertised(Err(e)) => {
            ServerStartAction::RollBack(
                server_profile(OSCServiceType::OSC, service_name, osc_port),
                e,
            )
        },
        ServerStartEvent::RolledBack(e) => ServerStartAction::Return(Err(e)),
    }
}

/// What happens while the server is being withdrawn.
#[derive(Debug)]
pub enum ServerStopEvent {
    /// The server has stopped.
    Begin,
    /// The discovery was asked to withdraw the two services.
    Unadvertised(Result<(), String>, Result<(), String>),
}

/// What happens while the server is being withdrawn.
pub ghost enum ServerStopEventView {
    Begin,
    Unadvertised(Result<(), Seq<char>>, Result<(), Seq<char>>),
}

impl View for ServerStopEvent {
    type V = ServerStopEventView;

    open spec fn view(&self) -> ServerStopEventView {
        match *self {
            ServerStopEvent::Begin => ServerStopEventView::Begin,
            ServerStopEvent::Unadvertised(r, q) => ServerStopEventView::Unadvertised(
                outcome_text(r),
                outcome_text(q),
            ),
        }
    }
}

/// What withdrawing the server takes next.
#[derive(Debug, PartialEq, Eq)]
pub enum ServerStopAction {
    /// Have the discovery withdraw the first service, then the second, whatever comes of it.
    Unadvertise(OSCQueryServiceProfile, OSCQueryServiceProfile),
    /// Report the outcome.
    Return(Result<(), String>),
}

/// What withdrawing the server takes next.
pub ghost enum ServerStopActionView {
    Unadvertise(ProfileView, ProfileView),
    Return(Result<(), Seq<char>>),
}

impl View for ServerStopAction {
    type V = ServerStopActionView;

    open spec fn view(&self) -> ServerStopActionView {
        match *self {
            ServerStopAction::Unadvertise(p, q) => ServerStopActionView::Unadvertise(p@, q@),
            ServerStopAction::Return(r) => ServerStopActionView::Return(outcome_text(r)),
        }
    }
}

/// What withdrawing the server comes to. It stops counting as in use, and both profiles
/// that it is advertised with are withdrawn; it never fails. Servers of earlier starts stay
/// advertised.
pub open spec fn server_stop_outcome<D, Tx, Rx, Task>(
    s: SidecarView<D, Tx, Rx, Task>,
    event: ServerStopEventView,
) -> (SidecarView<D, Tx, Rx, Task>, ServerStopActionView) {
    match event {
        ServerStopEventView::Begin => match (s.discovery, s.server_profiles) {
            (Some(_), Some(profiles)) => (
                SidecarView { server_enabled: false, server_profiles: None, ..s },
                ServerStopActionView::Unadvertise(profiles.oscquery, profiles.osc),
            ),
            _ => (
                SidecarView { server_enabled: false, ..s },
                ServerStopActionView::Return(Ok(())),
            ),
        },
        ServerStopEventView::Unadvertised(_, _) => (s, ServerStopActionView::Return(Ok(()))),
    }
}

/// One step of withdrawing a server that has stopped.
pub fn mark_server_stopped<D, Tx, Rx, Task>(
    state: &mut SidecarState<D, Tx, Rx, Task>,
    event: ServerStopEvent,
) -> (action: ServerStopAction)
    ensures
        (final(state)@, action@) == server_stop_outcome(old(state)@, event@),
{
    match event {
        ServerStopEvent::Begin => {
            state.server_enabled = false;
            if state.discovery.is_some() {
                if let Some(profiles) = state.server_profiles.take() {
                    return ServerStopAction::Unadvertise(profiles.oscquery, profiles.osc);
                }
            }
            ServerStopAction::Return(Ok(()))
        },
        ServerStopEvent::Unadvertised(_, _) => ServerStopAction::Return(Ok(())),
    }
}

/// Marks the client as in use.
pub fn mark_client_started<D, Tx, Rx, Task>(state: &mut SidecarState<D, Tx, Rx, Task>) -> (outcome:
    Result<(), String>)
    ensures
        outcome == Ok::<(), String>(()),
        final(state)@ == (SidecarView { client_enabled: true, ..old(state)@ }),
{
    state.client_enabled = true;
    Ok(())
}

/// Marks the client as no longer in use.
pub fn mark_client_stopped<D, Tx, Rx, Task>(state: &mut SidecarState<D, Tx, Rx, Task>) -> (outcome:
    Result<(), String>)
    ensures
        outcome == Ok::<(), String>(()),
        final(state)@ == (SidecarView { client_enabled: false, ..old(state)@ }),
{
    state.client_enabled = false;
    Ok(())
}

} // verus!
