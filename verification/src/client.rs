//! The client: where VRChat's OSC and OSCQuery services are, as far as it was told.

use crate::models::Error;
use crate::models::OSCQueryInitError;
use crate::text::opt_text;
use vstd::prelude::*;

verus! {

/// What the client holds: whether it runs, where VRChat's two services were last found,
/// and the task that listens for their addresses.
pub ghost struct ClientView<Task> {
    pub initialized: bool,
    pub osc_host: Option<Seq<char>>,
    pub osc_port: Option<u16>,
    pub oscquery_host: Option<Seq<char>>,
    pub oscquery_port: Option<u16>,
    pub monitor_task: Option<Task>,
}

impl<Task> ClientView<Task> {
    /// It does not run and knows nothing.
    pub open spec fn empty() -> Self {
        ClientView {
            initialized: false,
            osc_host: None,
            osc_port: None,
            oscquery_host: None,
            oscquery_port: None,
            monitor_task: None,
        }
    }

    /// Of a service the host is known exactly when the port is.
    pub open spec fn paired(self) -> bool {
        &&& self.osc_host is Some <==> self.osc_port is Some
        &&& self.oscquery_host is Some <==> self.oscquery_port is Some
    }

    /// Where VRChat's OSC service is.
    pub open spec fn osc_address(self) -> Option<(Seq<char>, u16)> {
        both(self.osc_host, self.osc_port)
    }

    /// Where VRChat's OSCQuery service is.
    pub open spec fn oscquery_address(self) -> Option<(Seq<char>, u16)> {
        both(self.oscquery_host, self.oscquery_port)
    }
}

/// Host and port, where both are known.
pub open spec fn both(host: Option<Seq<char>>, port: Option<u16>) -> Option<(Seq<char>, u16)> {
    match (host, port) {
        (Some(host), Some(port)) => Some((host, port)),
        _ => None,
    }
}

/// The characters of the host in the address that may be there.
pub open spec fn opt_address(address: Option<(String, u16)>) -> Option<(Seq<char>, u16)> {
    match address {
        Some((host, port)) => Some((host@, port)),
        None => None,
    }
}

/// The client's state. The type of the task is the caller's.
#[derive(Debug)]
pub struct ClientState<Task> {
    initialized: bool,
    osc_host: Option<String>,
    osc_port: Option<u16>,
    oscquery_host: Option<String>,
    oscquery_port: Option<u16>,
    monitor_task: Option<Task>,
}

impl<Task> View for ClientState<Task> {
    type V = ClientView<Task>;

    closed spec fn view(&self) -> ClientView<Task> {
        ClientView {
            initialized: self.initialized,
            osc_host: opt_text(self.osc_host),
            osc_port: self.osc_port,
            oscquery_host: opt_text(self.oscquery_host),
            oscquery_port: self.oscquery_port,
            monitor_task: self.monitor_task,
        }
    }
}

impl<Task> ClientState<Task> {
    /// A client that does not run yet.
    pub fn new() -> (state: Self)
        ensures
            state@ == ClientView::<Task>::empty(),
    {
        ClientState {
            initialized: false,
            osc_host: None,
            osc_port: None,
            oscquery_host: None,
            oscquery_port: None,
            monitor_task: None,
        }
    }
}

/// A copy of the string that may be there.
fn copy_text(o: &Option<String>) -> (copy: Option<String>)
    ensures
        opt_text(copy) == opt_text(*o),
{
    match o {
        Some(s) => Some(s.clone()),
        None => None,
    }
}

/// A copy of host and port, where both are known.
fn pair(host: &Option<String>, port: &Option<u16>) -> (address: Option<(String, u16)>)
    ensures
        opt_address(address) == both(opt_text(*host), *port),
{
    match (host, port) {
        (Some(host), Some(port)) => Some((host.clone(), *port)),
        _ => None,
    }
}

/// The host of VRChat's OSC service, if it was found.
pub fn get_vrchat_osc_host<Task>(state: &ClientState<Task>) -> (host: Option<String>)
    ensures
        opt_text(host) == state@.osc_host,
{
    copy_text(&state.osc_host)
}

/// The port of VRChat's OSC service, if it was found.
pub fn get_vrchat_osc_port<Task>(state: &ClientState<Task>) -> (port: Option<u16>)
    ensures
        port == state@.osc_port,
{
    state.osc_port
}

/// Where VRChat's OSC service is, if it was found.
pub fn get_vrchat_osc_address<Task>(state: &ClientState<Task>) -> (address: Option<(String, u16)>)
    ensures
        opt_address(address) == state@.osc_address(),
{
    pair(&state.osc_host, &state.osc_port)
}

/// The host of VRChat's OSCQuery service, if it was found.
pub fn get_vrchat_oscquery_host<Task>(state: &ClientState<Task>) -> (host: Option<String>)
    ensures
        opt_text(host) == state@.oscquery_host,
{
    copy_text(&state.oscquery_host)
}

/// The port of VRChat's OSCQuery service, if it was found.
pub fn get_vrchat_oscquery_port<Task>(state: &ClientState<Task>) -> (port: Option<u16>)
    ensures
        port == state@.oscquery_port,
{
    state.oscquery_port
}

/// Where VRChat's OSCQuery service is, if it was found.
pub fn get_vrchat_oscquery_address<Task>(state: &ClientState<Task>) -> (address: Option<
    (String, u16),
>)
    ensures
        opt_address(address) == state@.oscquery_address(),
{
    pair(&state.oscquery_host, &state.oscquery_port)
}

/// What happens while the client starts.
#[derive(Debug)]
pub enum InitEvent<Rx, Task> {
    /// It is to start.
    Begin,
    /// The sidecar was asked for the channels with the OSC and the OSCQuery addresses.
    Channels(Result<(Rx, Rx), OSCQueryInitError>),
    /// The task that listens on them was started.
    MonitorSpawned(Task),
    /// The sidecar was told that the client is in use.
    ClientStarted(Result<(), String>),
}

/// What starting the client takes next.
#[derive(Debug, PartialEq, Eq)]
pub enum InitAction<Rx> {
    /// Ask the sidecar for the channels.
    InitChannels,
    /// Start a task that listens for OSC addresses on the first and for OSCQuery addresses
    /// on the second.
    SpawnMonitor(Rx, Rx),
    /// Tell the sidecar that the client is in use.
    MarkClientStarted,
    /// Report the outcome.
    Return(Result<(), Error>),
}

/// What starting the client comes to. Where it runs already there is nothing to do; and
/// where it cannot be brought up it does not count as running.
pub open spec fn init_outcome<Rx, Task>(
    s: ClientView<Task>,
    event: InitEvent<Rx, Task>,
) -> (ClientView<Task>, InitAction<Rx>) {
    let stopped = ClientView { initialized: false, ..s };
    match event {
        InitEvent::Begin => (
            ClientView { initialized: true, ..s },
            if s.initialized {
                InitAction::Return(Ok(()))
            } else {
                InitAction::InitChannels
            },
        ),
        InitEvent::Channels(Ok((osc_rx, oscquery_rx))) => (
            s,
            InitAction::SpawnMonitor(osc_rx, oscquery_rx),
        ),
        InitEvent::Channels(Err(e)) => (stopped, InitAction::Return(Err(Error::InitError(e)))),
        InitEvent::MonitorSpawned(task) => (
            ClientView { monitor_task: Some(task), ..s },
            InitAction::MarkClientStarted,
        ),
        InitEvent::ClientStarted(Ok(())) => (s, InitAction::Return(Ok(()))),
        InitEvent::ClientStarted(Err(_)) => (
            stopped,
            InitAction::Return(Err(Error::InitError(OSCQueryInitError::MDNSInitFailed))),
        ),
    }
}

/// One step of starting the client.
pub fn init<Rx, Task>(state: &mut ClientState<Task>, event: InitEvent<Rx, Task>) -> (action:
    InitAction<Rx>)
    ensures
        (final(state)@, action) == init_outcome(old(state)@, event),
{
    match event {
        InitEvent::Begin => {
            if state.initialized {
                return InitAction::Return(Ok(()));
            }
            state.initialized = true;
            InitAction::InitChannels
        },
        InitEvent::Channels(Ok((osc_rx, oscquery_rx))) => {
            InitAction::SpawnMonitor(osc_rx, oscquery_rx)
        },
        InitEvent::Channels(Err(e)) => {
            state.initialized = false;
            InitAction::Return(Err(Error::InitError(e)))
        },
        InitEvent::MonitorSpawned(task) => {
            state.monitor_task = Some(task);
            InitAction::MarkClientStarted
        },
        InitEvent::ClientStarted(Ok(())) => InitAction::Return(Ok(())),
        InitEvent::ClientStarted(Err(_)) => {
            state.initialized = false;
            InitAction::Return(Err(Error::InitError(OSCQueryInitError::MDNSInitFailed)))
        },
    }
}

/// An address of VRChat that the sidecar passed on.
#[derive(Debug)]
pub enum AddressFound {
    /// Where the OSC service is.
    Osc(String, u16),
    /// Where the OSCQuery service is.
    OscQuery(String, u16),
}

/// An address of VRChat that the sidecar passed on.
pub ghost enum AddressFoundView {
    Osc(Seq<char>, u16),
    OscQuery(Seq<char>, u16),
}

impl View for AddressFound {
    type V = AddressFoundView;

    open spec fn view(&self) -> AddressFoundView {
        match *self {
            AddressFound::Osc(host, port) => AddressFoundView::Osc(host@, port),
            AddressFound::OscQuery(host, port) => AddressFoundView::OscQuery(host@, port),
        }
    }
}

/// The client with the address that it was told last.
pub open spec fn told<Task>(s: ClientView<Task>, found: AddressFoundView) -> ClientView<Task> {
    match found {
        AddressFoundView::Osc(host, port) => ClientView {
            osc_host: Some(host),
            osc_port: Some(port),
            ..s
        },
        AddressFoundView::OscQuery(host, port) => ClientView {
            oscquery_host: Some(host),
            oscquery_port: Some(port),
            ..s
        },
    }
}

/// One turn of the task that listens for addresses. Tells whether there is another one:
/// the task ends when no more addresses can come.
pub fn monitor_turn<Task>(state: &mut ClientState<Task>, received: Option<AddressFound>) -> (goes_on:
    bool)
    ensures
        goes_on == received is Some,
        final(state)@ == match received {
            Some(found) => told(old(state)@, found@),
            None => old(state)@,
        },
{
    match received {
        Some(AddressFound::Osc(host, port)) => {
            state.osc_host = Some(host);
            state.osc_port = Some(port);
            true
        },
        Some(AddressFound::OscQuery(host, port)) => {
            state.oscquery_host = Some(host);
            state.oscquery_port = Some(port);
            true
        },
        None => false,
    }
}

/// What happens while the client stops.
#[derive(Debug)]
pub enum DeinitEvent {
    /// It is to stop.
    Begin,
    /// The sidecar was told that the client is no longer in use.
    ClientStopped(Result<(), String>),
    /// The task and the sidecar are down.
    TornDown,
}

/// What stopping the client takes next.
#[derive(Debug, PartialEq, Eq)]
pub enum DeinitAction<Task> {
    /// Tell the sidecar that the client is no longer in use.
    MarkClientStopped,
    /// Stop the task, if there is one, and take the sidecar down.
    TearDown(Option<Task>),
    /// Report the outcome.
    Return(Result<(), Error>),
}

/// What stopping the client comes to. A client that does not run cannot be stopped; one
/// that was stopped knows nothing any more.
pub open spec fn deinit_outcome<Task>(s: ClientView<Task>, event: DeinitEvent) -> (
    ClientView<Task>,
    DeinitAction<Task>,
) {
    match event {
        DeinitEvent::Begin => (
            s,
            if s.initialized {
                DeinitAction::MarkClientStopped
            } else {
                DeinitAction::Return(Err(Error::InitError(OSCQueryInitError::NotYetInitialized)))
            },
        ),
        DeinitEvent::ClientStopped(Ok(())) => (
            ClientView { monitor_task: None, ..s },
            DeinitAction::TearDown(s.monitor_task),
        ),
        DeinitEvent::ClientStopped(Err(_)) => (
            s,
            DeinitAction::Return(Err(Error::InitError(OSCQueryInitError::MDNSInitFailed))),
        ),
        DeinitEvent::TornDown => (
            ClientView { monitor_task: s.monitor_task, ..ClientView::empty() },
            DeinitAction::Return(Ok(())),
        ),
    }
}

/// One step of stopping the client.
pub fn deinit<Task>(state: &mut ClientState<Task>, event: DeinitEvent) -> (action: DeinitAction<
    Task,
>)
    ensures
        (final(state)@, action) == deinit_outcome(old(state)@, event),
{
    match event {
        DeinitEvent::Begin => {
            if !state.initialized {
                return DeinitAction::Return(
                    Err(Error::InitError(OSCQueryInitError::NotYetInitialized)),
                );
            }
            DeinitAction::MarkClientStopped
        },
        DeinitEvent::ClientStopped(Ok(())) => DeinitAction::TearDown(state.monitor_task.take()),
        DeinitEvent::ClientStopped(Err(_)) => {
            DeinitAction::Return(Err(Error::InitError(OSCQueryInitError::MDNSInitFailed)))
        },
        DeinitEvent::TornDown => {
            state.osc_host = None;
            state.osc_port = None;
            state.oscquery_host = None;
            state.oscquery_port = None;
            state.initialized = false;
            DeinitAction::Return(Ok(()))
        },
    }
}

} // verus!
