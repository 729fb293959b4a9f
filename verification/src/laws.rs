//! What holds of the library as a whole, and what its steps do, part by part.

use crate::client::AddressFoundView;
use crate::client::ClientView;
use crate::client::InitAction;
use crate::client::InitEvent;
use crate::client;
use crate::ip::ip_addrs_of;
use crate::ip::is_ip_text;
use crate::ip::texts;
use crate::mdns::AdvertiseAction;
use crate::mdns::AdvertiseActionView;
use crate::mdns::AdvertiseEvent;
use crate::mdns::AdvertiseEventView;
use crate::mdns::DiscoveryView;
use crate::mdns::NotificationView;
use crate::mdns::OSCQueryServiceProfile;
use crate::mdns::OSCServiceType;
use crate::mdns::ProfileView;
use crate::mdns::ServiceEvent;
use crate::mdns::ServiceEventView;
use crate::mdns::ServiceNotification;
use crate::mdns::UnadvertiseAction;
use crate::mdns::UnadvertiseActionView;
use crate::mdns::UnadvertiseEvent;
use crate::mdns::UnadvertiseEventView;
use crate::mdns;
use crate::mdns_sidecar::ChannelsAction;
use crate::mdns_sidecar::ChannelsEvent;
use crate::mdns_sidecar::DeinitActionView;
use crate::mdns_sidecar::DeinitEventView;
use crate::mdns_sidecar::MonitorAction;
use crate::mdns_sidecar::MonitorActionView;
use crate::mdns_sidecar::ServerProfilesView;
use crate::mdns_sidecar::ServerStartAction;
use crate::mdns_sidecar::ServerStartActionView;
use crate::mdns_sidecar::ServerStartEvent;
use crate::mdns_sidecar::ServerStartEventView;
use crate::mdns_sidecar::ServerStopAction;
use crate::mdns_sidecar::ServerStopActionView;
use crate::mdns_sidecar::ServerStopEvent;
use crate::mdns_sidecar::ServerStopEventView;
use crate::mdns_sidecar::SidecarState;
use crate::mdns_sidecar::SidecarView;
use crate::mdns_sidecar::server_profile_of;
use crate::mdns_sidecar;
use crate::models::Error;
use crate::models::OSCQueryInitError;
use crate::profiles::advertised_views;
use crate::profiles::has_service;
use crate::profiles::not_named;
use crate::profiles::other_services;
use crate::profiles::profile_views;
use crate::service_info::ServiceDescription;
use crate::service_info::described;
use crate::service_info::info_addresses;
use crate::service_info::info_fullname;
use crate::service_info::info_hostname;
use crate::service_info::info_port;
use crate::service_info::info_properties;
use crate::service_info::info_type;
use crate::service_info::is_txt_key;
use crate::service_info::normalized_hostname;
use crate::service_info::read_back;
use crate::text::has_infix;
use crate::text::has_prefix;
use crate::text::has_suffix;
use crate::text::opt_text;
use crate::text::outcome_text;
use vstd::prelude::*;
use vstd::std_specs::cmp::PartialEqSpec;

verus! {

// Kinds and names of services

/// Every kind is read back from its name.
pub proof fn law_kind_is_read_back(kind: OSCServiceType)
    ensures
        OSCServiceType::of_service_string(kind.service_type_string()) == kind,
{
    reveal_strlit("_osc._udp.local.");
    reveal_strlit("_oscjson._tcp.local.");
    reveal_strlit("UNKNOWN");
    assert("_osc._udp.local."@.len() == 16);
    assert("_oscjson._tcp.local."@.len() == 20);
    assert("UNKNOWN"@.len() == 7);
}

/// A text that stands for a known kind is the name of that kind.
pub proof fn law_known_name_is_the_kinds(s: Seq<char>)
    requires
        OSCServiceType::of_service_string(s) != OSCServiceType::Unknown,
    ensures
        OSCServiceType::of_service_string(s).service_type_string() == s,
{
}

/// The full name under which a service is registered tells its name and its kind: two
/// profiles are registered under one full name exactly when they agree in both.
pub proof fn law_full_name_tells_name_and_kind(p: ProfileView, q: ProfileView)
    ensures
        p.service_info().fullname == q.service_info().fullname <==> p.name == q.name
            && p.service_type == q.service_type,
{
    reveal_strlit("_osc._udp.local.");
    reveal_strlit("_oscjson._tcp.local.");
    reveal_strlit("UNKNOWN");
    reveal_strlit(".");
    let f = p.service_info().fullname;
    let g = q.service_info().fullname;
    let s = p.service_type.service_type_string();
    let t = q.service_type.service_type_string();
    if f == g {
        assert(f.len() == p.name.len() + 1 + s.len());
        assert(g.len() == q.name.len() + 1 + t.len());
        assert(f[f.len() - 1] == s[s.len() - 1]);
        assert(g[g.len() - 1] == t[t.len() - 1]);
        assert(s.len() >= 9 ==> f[f.len() - 9] == s[s.len() - 9]);
        assert(t.len() >= 9 ==> g[g.len() - 9] == t[t.len() - 9]);
        assert(p.service_type == q.service_type);
        assert(p.name =~= f.subrange(0, p.name.len() as int));
        assert(q.name =~= g.subrange(0, q.name.len() as int));
    }
}

// The discovery

/// Whatever the daemon says to an advertisement, services stay listed under their kind.
pub proof fn law_advertising_keeps_kinds(d: DiscoveryView, event: AdvertiseEventView)
    requires
        d.typed(),
    ensures
        mdns::advertise_outcome(d, event).0.typed(),
{
    let after = mdns::advertise_outcome(d, event).0;
    assert forall|p: ProfileView| #[trigger] after.osc_services.contains(p) implies p.service_type
        == OSCServiceType::OSC by {
        assert(d.osc_services.contains(p) || p.service_type == OSCServiceType::OSC);
    }
    assert forall|p: ProfileView| #[trigger]
        after.osc_query_services.contains(p) implies p.service_type == OSCServiceType::OSCQuery by {
        assert(d.osc_query_services.contains(p) || p.service_type == OSCServiceType::OSCQuery);
    }
}

/// Whatever is reported, services stay listed under their kind, and what this side has
/// registered stays as it is.
pub proof fn law_reports_keep_kinds_and_registrations(d: DiscoveryView, event: ServiceEventView)
    requires
        d.typed(),
    ensures
        mdns::event_outcome(d, event).0.typed(),
        mdns::event_outcome(d, event).0.registered == d.registered,
{
    let after = mdns::event_outcome(d, event).0;
    assert forall|p: ProfileView| #[trigger] after.osc_services.contains(p) implies p.service_type
        == OSCServiceType::OSC by {
        assert(d.osc_services.contains(p) || p.service_type == OSCServiceType::OSC);
    }
    assert forall|p: ProfileView| #[trigger]
        after.osc_query_services.contains(p) implies p.service_type == OSCServiceType::OSCQuery by {
        assert(d.osc_query_services.contains(p) || p.service_type == OSCServiceType::OSCQuery);
    }
}

/// A report about one kind of services does not touch those of another.
pub proof fn law_kinds_are_apart(d: DiscoveryView, ty_domain: Seq<char>, event: ServiceEventView, other:
    OSCServiceType)
    requires
        event matches ServiceEventView::ServiceResolved { ty_domain: t, .. } ==> t == ty_domain,
        event matches ServiceEventView::ServiceRemoved(t, _) ==> t == ty_domain,
        other != OSCServiceType::of_service_string(ty_domain),
    ensures
        mdns::event_outcome(d, event).0.services(other) == d.services(other),
{
}

/// A service of a known kind that is resolved with an address is there afterwards, and
/// resolving it once more changes nothing and is no news.
pub proof fn law_resolved_once(
    d: DiscoveryView,
    ty_domain: Seq<char>,
    fullname: Seq<char>,
    addresses: Seq<Seq<char>>,
    port: u16,
)
    requires
        addresses.len() > 0,
        OSCServiceType::of_service_string(ty_domain) != OSCServiceType::Unknown,
    ensures
        ({
            let event = ServiceEventView::ServiceResolved { ty_domain, fullname, addresses, port };
            let p = mdns::resolved_profile(ty_domain, fullname, addresses, port);
            let after = mdns::event_outcome(d, event).0;
            &&& after.services(p.service_type) == d.services(p.service_type).insert(p)
            &&& mdns::event_outcome(after, event) == (
                after,
                None::<mdns::NotificationView>,
            )
        }),
{
    let p = mdns::resolved_profile(ty_domain, fullname, addresses, port);
    let known = d.services(p.service_type);
    if known.contains(p) {
        assert(known.insert(p) =~= known);
    }
}

/// Once a service was removed, none of its kind bears its name; those that bear another
/// name are still there.
pub proof fn law_removed_is_gone(d: DiscoveryView, ty_domain: Seq<char>, name: Seq<char>)
    ensures
        ({
            let kind = OSCServiceType::of_service_string(ty_domain);
            let after = mdns::event_outcome(
                d,
                ServiceEventView::ServiceRemoved(ty_domain, name),
            ).0;
            forall|p: ProfileView| #[trigger]
                after.services(kind).contains(p) <==> d.services(kind).contains(p) && p.name != name
        }),
{
}

/// A service that comes and goes leaves everything as it was, if no other of its kind
/// bears its name.
pub proof fn law_comes_and_goes(
    d: DiscoveryView,
    ty_domain: Seq<char>,
    fullname: Seq<char>,
    addresses: Seq<Seq<char>>,
    port: u16,
)
    requires
        forall|p: ProfileView| #[trigger]
            d.services(OSCServiceType::of_service_string(ty_domain)).contains(p) ==> p.name
                != fullname,
    ensures
        mdns::event_outcome(
            mdns::event_outcome(
                d,
                ServiceEventView::ServiceResolved { ty_domain, fullname, addresses, port },
            ).0,
            ServiceEventView::ServiceRemoved(ty_domain, fullname),
        ).0 == d,
{
    let kind = OSCServiceType::of_service_string(ty_domain);
    let there = mdns::event_outcome(
        d,
        ServiceEventView::ServiceResolved { ty_domain, fullname, addresses, port },
    ).0;
    let after = mdns::event_outcome(
        there,
        ServiceEventView::ServiceRemoved(ty_domain, fullname),
    ).0;
    law_removed_is_gone(there, ty_domain, fullname);
    assert(after.services(kind) =~= d.services(kind));
    assert(after =~= d);
}

/// A service is advertised, and the daemon answers as given.
pub open spec fn advertise_run(d: DiscoveryView, p: ProfileView, reply: Result<(), Seq<char>>) -> (
    DiscoveryView,
    Result<(), Seq<char>>,
) {
    let (asked, action) = mdns::advertise_outcome(d, AdvertiseEventView::Begin(p));
    match action {
        AdvertiseActionView::Return(outcome) => (asked, outcome),
        AdvertiseActionView::Register(q) => {
            let (done, last) = mdns::advertise_outcome(
                asked,
                AdvertiseEventView::Registered(q, reply),
            );
            (done, last->Return_0)
        },
    }
}

/// A service is withdrawn, and the daemon, if it is asked, answers as given.
pub open spec fn unadvertise_run(d: DiscoveryView, p: ProfileView, reply: Result<(), Seq<char>>) -> (
    DiscoveryView,
    Result<(), Seq<char>>,
) {
    let (asked, action) = mdns::unadvertise_outcome(d, UnadvertiseEventView::Begin(p));
    match action {
        UnadvertiseActionView::Return(outcome) => (asked, outcome),
        UnadvertiseActionView::Unregister(_) => {
            let (done, last) = mdns::unadvertise_outcome(
                asked,
                UnadvertiseEventView::Unregistered(reply),
            );
            (done, last->Return_0)
        },
    }
}

/// An advertisement succeeds exactly when the daemon takes it: then the service is
/// registered, and otherwise nothing changes.
pub proof fn law_advertising_follows_the_daemon(
    d: DiscoveryView,
    p: ProfileView,
    reply: Result<(), Seq<char>>,
)
    ensures
        advertise_run(d, p, reply).1 is Ok <==> reply is Ok,
        reply is Ok ==> advertise_run(d, p, reply).0.registered == d.registered.insert(p),
        reply is Err ==> advertise_run(d, p, reply).0 == d,
{
}

/// Withdrawing what was advertised asks the daemon for the full name that it was registered
/// under. It undoes the registration, whatever the daemon says, and leaves the service
/// among those that are there.
pub proof fn law_withdrawing_undoes_the_registration(
    d: DiscoveryView,
    p: ProfileView,
    reply: Result<(), Seq<char>>,
)
    requires
        !d.registered.contains(p),
    ensures
        ({
            let on = advertise_run(d, p, Ok(())).0;
            let off = unadvertise_run(on, p, reply).0;
            &&& mdns::unadvertise_outcome(on, UnadvertiseEventView::Begin(p)).1
                == UnadvertiseActionView::Unregister(p.service_info().fullname)
            &&& off == (DiscoveryView { registered: d.registered, ..on })
            &&& p.service_type != OSCServiceType::Unknown ==> off.services(p.service_type).contains(
                p,
            )
        }),
{
    assert(d.registered.insert(p).remove(p) =~= d.registered);
}

/// Withdrawing a profile under whose name and kind something is registered asks the daemon
/// for that full name, whatever address and port the profile has. Where the profile itself
/// is not registered, nothing stays registered under its name and kind.
pub proof fn law_withdrawing_goes_by_name_and_kind(
    d: DiscoveryView,
    p: ProfileView,
    q: ProfileView,
    reply: Result<(), Seq<char>>,
)
    requires
        d.registered.contains(q),
        q.same_service(p),
    ensures
        mdns::unadvertise_outcome(d, UnadvertiseEventView::Begin(p)).1
            == UnadvertiseActionView::Unregister(q.service_info().fullname),
        !unadvertise_run(d, p, reply).0.registered.contains(p),
        !d.registered.contains(p) ==> !has_service(unadvertise_run(d, p, reply).0.registered, p),
{
}

/// Withdrawing a profile under whose name and kind nothing is registered succeeds and
/// changes nothing.
pub proof fn law_withdrawing_the_unknown_is_nothing(
    d: DiscoveryView,
    p: ProfileView,
    reply: Result<(), Seq<char>>,
)
    requires
        !has_service(d.registered, p),
    ensures
        unadvertise_run(d, p, reply) == (d, Ok::<(), Seq<char>>(())),
{
}

/// Withdrawing a service twice asks the daemon only once, if no other profile is registered
/// under its name and kind.
pub proof fn law_withdrawn_once(d: DiscoveryView, p: ProfileView)
    requires
        forall|q: ProfileView| #[trigger]
            d.registered.contains(q) && q.same_service(p) ==> q == p,
    ensures
        ({
            let off = mdns::unadvertise_outcome(d, UnadvertiseEventView::Begin(p)).0;
            mdns::unadvertise_outcome(off, UnadvertiseEventView::Begin(p)) == (
                off,
                UnadvertiseActionView::Return(Ok(())),
            )
        }),
{
}

// The sidecar

/// The channels are set up where there are none: the discovery, the ends of the channels
/// and the task are those given.
pub open spec fn channels_run<D, Tx, Rx, Task>(
    s: SidecarView<D, Tx, Rx, Task>,
    created: ChannelsEvent<D, Tx, Rx, Task>,
    task: Task,
) -> (SidecarView<D, Tx, Rx, Task>, ChannelsAction<Rx>) {
    let (asked, action) = mdns_sidecar::channels_outcome(s, ChannelsEvent::Begin);
    if action is Create {
        let (made, _) = mdns_sidecar::channels_outcome(asked, created);
        mdns_sidecar::channels_outcome(made, ChannelsEvent::MonitorSpawned(task))
    } else {
        (asked, action)
    }
}

/// The receiving ends are given away once: who asks first gets those that were made, that
/// of the OSC addresses first; whoever asks after that is refused, and nothing changes.
pub proof fn law_channels_are_given_once<D, Tx, Rx, Task>(
    s: SidecarView<D, Tx, Rx, Task>,
    discovery: D,
    osc_tx: Tx,
    osc_rx: Rx,
    oscquery_tx: Tx,
    oscquery_rx: Rx,
    task: Task,
)
    requires
        s.discovery is None,
    ensures
        ({
            let created = ChannelsEvent::Created {
                discovery,
                osc_tx,
                osc_rx,
                oscquery_tx,
                oscquery_rx,
            };
            let (up, action) = channels_run(s, created, task);
            &&& action == ChannelsAction::<Rx>::Return(Ok((osc_rx, oscquery_rx)))
            &&& up == (SidecarView {
                discovery: Some(discovery),
                osc_addr_tx: Some(osc_tx),
                osc_addr_rx: None,
                oscquery_addr_tx: Some(oscquery_tx),
                oscquery_addr_rx: None,
                monitor_task: Some(task),
                ..s
            })
            &&& mdns_sidecar::channels_outcome(up, ChannelsEvent::Begin) == (
                up,
                ChannelsAction::<Rx>::Return(Err(OSCQueryInitError::MDNSInitFailed)),
            )
        }),
{
}

/// What comes of withdrawing two services: what the discovery then knows, the full names
/// that the daemon was asked to unregister, and the two outcomes.
pub ghost struct Withdrawal {
    pub known: DiscoveryView,
    pub unregistered: Seq<Seq<char>>,
    pub first: Result<(), Seq<char>>,
    pub second: Result<(), Seq<char>>,
}

/// The full name that the daemon is asked to unregister when a service is withdrawn, if it
/// is asked.
pub open spec fn unregistered_for(d: DiscoveryView, p: ProfileView) -> Seq<Seq<char>> {
    match mdns::unadvertise_outcome(d, UnadvertiseEventView::Begin(p)).1 {
        UnadvertiseActionView::Unregister(fullname) => seq![fullname],
        UnadvertiseActionView::Return(_) => seq![],
    }
}

/// Two services are withdrawn, one after the other; the daemon answers as given.
pub open spec fn withdraw_run(
    d: DiscoveryView,
    p: ProfileView,
    q: ProfileView,
    first_reply: Result<(), Seq<char>>,
    second_reply: Result<(), Seq<char>>,
) -> Withdrawal {
    let (d1, first) = unadvertise_run(d, p, first_reply);
    let (d2, second) = unadvertise_run(d1, q, second_reply);
    Withdrawal {
        known: d2,
        unregistered: unregistered_for(d, p) + unregistered_for(d1, q),
        first,
        second,
    }
}

/// The sidecar withdraws one server after the other, beginning with the given action; the
/// daemon answers as given. Comes with what is left of the sidecar, what the discovery knows
/// at the end, and the full names that the daemon was asked to unregister.
pub open spec fn withdrawals_run<D, Tx, Rx, Task>(
    s: SidecarView<D, Tx, Rx, Task>,
    d: DiscoveryView,
    action: DeinitActionView<Task>,
    replies: Seq<(Result<(), Seq<char>>, Result<(), Seq<char>>)>,
) -> (SidecarView<D, Tx, Rx, Task>, DiscoveryView, Seq<Seq<char>>)
    decreases
            s.kept().len(),
            (if action is Unadvertise {
                1int
            } else {
                0int
            }),
{
    match action {
        DeinitActionView::Unadvertise(first, second) => {
            let w = withdraw_run(d, first, second, replies[0].0, replies[0].1);
            let (left, next) = mdns_sidecar::deinit_outcome(
                s,
                DeinitEventView::Unadvertised(w.first, w.second),
            );
            let (down, known, unregistered) = withdrawals_run(
                left,
                w.known,
                next,
                replies.drop_first(),
            );
            (down, known, w.unregistered + unregistered)
        },
        _ => (s, d, seq![]),
    }
}

/// The sidecar is taken down; the daemon answers as given, to one server after the other.
/// Comes with what is left of the sidecar, what the discovery knows at the end, and the full
/// names that the daemon was asked to unregister.
pub open spec fn deinit_run<D, Tx, Rx, Task>(
    s: SidecarView<D, Tx, Rx, Task>,
    d: DiscoveryView,
    replies: Seq<(Result<(), Seq<char>>, Result<(), Seq<char>>)>,
) -> (SidecarView<D, Tx, Rx, Task>, DiscoveryView, Seq<Seq<char>>) {
    let (stopped, _) = mdns_sidecar::deinit_outcome(s, DeinitEventView::Begin);
    let (asked, action) = mdns_sidecar::deinit_outcome(stopped, DeinitEventView::MonitorStopped);
    withdrawals_run(asked, d, action, replies)
}

/// From `before` to `after` nothing came to be registered, and of what no longer is, the
/// daemon was asked to unregister the full name; which services are there did not change.
pub open spec fn only_withdrawn(
    before: DiscoveryView,
    after: DiscoveryView,
    unregistered: Seq<Seq<char>>,
) -> bool {
    &&& after.registered.subset_of(before.registered)
    &&& forall|p: ProfileView| #[trigger]
        before.registered.contains(p) && !after.registered.contains(p) ==> unregistered.contains(
            p.service_info().fullname,
        )
    &&& after.osc_services == before.osc_services
    &&& after.osc_query_services == before.osc_query_services
}

/// Taking the sidecar down stops its task and has both profiles of every server that is
/// advertised withdrawn, the latest server first, so that none of them stays registered,
/// whatever the daemon says. It leaves nothing of the sidecar but the flags, and what had
/// been handed out once can be set up and handed out anew.
pub proof fn law_sidecar_goes_down<D, Tx, Rx, Task>(
    s: SidecarView<D, Tx, Rx, Task>,
    d: DiscoveryView,
    replies: Seq<(Result<(), Seq<char>>, Result<(), Seq<char>>)>,
)
    requires
        s.consistent(),
    ensures
        ({
            let (stopped, a1) = mdns_sidecar::deinit_outcome(s, DeinitEventView::Begin);
            let a2 = mdns_sidecar::deinit_outcome(stopped, DeinitEventView::MonitorStopped).1;
            let (down, known, unregistered) = deinit_run(s, d, replies);
            &&& a1 == DeinitActionView::StopMonitor(s.monitor_task)
            &&& a2 == if s.kept().len() > 0 {
                DeinitActionView::<Task>::Unadvertise(s.kept().last().oscquery, s.kept().last().osc)
            } else {
                DeinitActionView::<Task>::Return
            }
            &&& only_withdrawn(d, known, unregistered)
            &&& forall|p: ProfileView| #[trigger] s.keeps(p) ==> !known.registered.contains(p)
            &&& down == s.down()
            &&& down.consistent()
            &&& mdns_sidecar::channels_outcome(down, ChannelsEvent::Begin).1
                == ChannelsAction::<Rx>::Create
        }),
{
    let (stopped, _) = mdns_sidecar::deinit_outcome(s, DeinitEventView::Begin);
    assert(stopped.kept() =~= s.kept());
    lemma_all_withdrawn(stopped, d, replies);
    assert forall|p: ProfileView| #[trigger] s.keeps(p) implies stopped.keeps(p) by {}
    assert(deinit_run(s, d, replies).0 =~= s.down());
}

/// The servers that are advertised are withdrawn one after the other.
proof fn lemma_all_withdrawn<D, Tx, Rx, Task>(
    s: SidecarView<D, Tx, Rx, Task>,
    d: DiscoveryView,
    replies: Seq<(Result<(), Seq<char>>, Result<(), Seq<char>>)>,
)
    requires
        s.discovery is Some || s.kept().len() == 0,
    ensures
        ({
            let (left, action) = mdns_sidecar::next_withdrawal(s);
            let (down, known, unregistered) = withdrawals_run(left, d, action, replies);
            &&& only_withdrawn(d, known, unregistered)
            &&& forall|p: ProfileView| #[trigger] s.keeps(p) ==> !known.registered.contains(p)
            &&& down == mdns_sidecar::cleared(
                SidecarView { server_profiles: None, earlier_servers: Seq::empty(), ..s },
            )
        }),
    decreases s.kept().len(),
{
    let (left, action) = mdns_sidecar::next_withdrawal(s);
    let (down, known, unregistered) = withdrawals_run(left, d, action, replies);
    if s.kept().len() > 0 {
        let last = s.kept().last();
        let w = withdraw_run(d, last.oscquery, last.osc, replies[0].0, replies[0].1);
        lemma_withdrawn(d, last.oscquery, last.osc, replies[0].0, replies[0].1);
        assert(left.kept() =~= s.kept().drop_last());
        lemma_all_withdrawn(left, w.known, replies.drop_first());
        let (left2, next) = mdns_sidecar::next_withdrawal(left);
        let rest = withdrawals_run(left2, w.known, next, replies.drop_first());
        assert(known == rest.1);
        assert(unregistered == w.unregistered + rest.2);
        assert forall|p: ProfileView| #[trigger]
            d.registered.contains(p) && !known.registered.contains(p) implies unregistered.contains(
            p.service_info().fullname,
        ) by {
            let f = p.service_info().fullname;
            lemma_in_either(w.unregistered, rest.2, f);
        }
        assert forall|p: ProfileView| #[trigger] s.keeps(p) implies !known.registered.contains(
            p,
        ) by {
            let i = choose|i: int|
                0 <= i < s.kept().len() && ((#[trigger] s.kept()[i]).oscquery == p
                    || s.kept()[i].osc == p);
            if i < s.kept().len() - 1 {
                assert(left.kept()[i] == s.kept()[i]);
                assert(left.keeps(p));
            }
        }
    } else {
        assert(s.kept() =~= s.earlier_servers);
        assert(down =~= mdns_sidecar::cleared(
            SidecarView { server_profiles: None, earlier_servers: Seq::empty(), ..s },
        ));
    }
}

/// What is in one of two lists is in both together.
proof fn lemma_in_either(a: Seq<Seq<char>>, b: Seq<Seq<char>>, x: Seq<char>)
    requires
        a.contains(x) || b.contains(x),
    ensures
        (a + b).contains(x),
{
    if a.contains(x) {
        let i = choose|i: int| 0 <= i < a.len() && a[i] == x;
        assert((a + b)[i] == x);
    } else {
        let i = choose|i: int| 0 <= i < b.len() && b[i] == x;
        assert((a + b)[a.len() + i] == x);
    }
}

/// A service that is withdrawn does not stay registered.
proof fn lemma_one_withdrawn(d: DiscoveryView, p: ProfileView, reply: Result<(), Seq<char>>)
    ensures
        only_withdrawn(d, unadvertise_run(d, p, reply).0, unregistered_for(d, p)),
        !unadvertise_run(d, p, reply).0.registered.contains(p),
{
    let after = unadvertise_run(d, p, reply).0;
    assert forall|q: ProfileView| #[trigger]
        d.registered.contains(q) && !after.registered.contains(q) implies unregistered_for(
        d,
        p,
    ).contains(q.service_info().fullname) by {
        assert(q.same_service(p));
        assert(unregistered_for(d, p)[0] == q.service_info().fullname);
    }
}

/// Of two services that are withdrawn neither stays registered.
proof fn lemma_withdrawn(
    d: DiscoveryView,
    p: ProfileView,
    q: ProfileView,
    first_reply: Result<(), Seq<char>>,
    second_reply: Result<(), Seq<char>>,
)
    ensures
        ({
            let w = withdraw_run(d, p, q, first_reply, second_reply);
            &&& only_withdrawn(d, w.known, w.unregistered)
            &&& !w.known.registered.contains(p)
            &&& !w.known.registered.contains(q)
        }),
{
    let w = withdraw_run(d, p, q, first_reply, second_reply);
    let d1 = unadvertise_run(d, p, first_reply).0;
    lemma_one_withdrawn(d, p, first_reply);
    lemma_one_withdrawn(d1, q, second_reply);
    assert forall|r: ProfileView| #[trigger]
        d.registered.contains(r) && !w.known.registered.contains(r) implies w.unregistered.contains(
        r.service_info().fullname,
    ) by {
        lemma_in_either(
            unregistered_for(d, p),
            unregistered_for(d1, q),
            r.service_info().fullname,
        );
    }
}

/// The sidecar starts consistent, and setting up its channels, marking the client and
/// stopping the server keep it so.
pub proof fn law_sidecar_stays_consistent<D, Tx, Rx, Task>(
    s: SidecarView<D, Tx, Rx, Task>,
    discovery: D,
    osc_tx: Tx,
    osc_rx: Rx,
    oscquery_tx: Tx,
    oscquery_rx: Rx,
    task: Task,
    stop: ServerStopEventView,
    in_use: bool,
)
    requires
        s.consistent(),
    ensures
        SidecarView::<D, Tx, Rx, Task>::empty().consistent(),
        channels_run(
            s,
            ChannelsEvent::Created { discovery, osc_tx, osc_rx, oscquery_tx, oscquery_rx },
            task,
        ).0.consistent(),
        mdns_sidecar::server_stop_outcome(s, stop).0.consistent(),
        (SidecarView { client_enabled: in_use, ..s }).consistent(),
{
}

/// The sidecar with a discovery: as it is, or else with what is made for it.
pub open spec fn with_discovery<D, Tx, Rx, Task>(
    s: SidecarView<D, Tx, Rx, Task>,
    created: ChannelsEvent<D, Tx, Rx, Task>,
    task: Task,
) -> SidecarView<D, Tx, Rx, Task> {
    if s.discovery is Some {
        s
    } else {
        channels_run(s, created, task).0
    }
}

/// What the daemon answers while the server is advertised: to its OSC service, to its
/// OSCQuery service, and to the withdrawal of the first, should it come to that.
pub ghost struct StartReplies {
    pub osc: Result<(), Seq<char>>,
    pub oscquery: Result<(), Seq<char>>,
    pub undo: Result<(), Seq<char>>,
}

/// The server is advertised. Where there is no discovery, what is given is made for it.
pub open spec fn server_start_run<D, Tx, Rx, Task>(
    s: SidecarView<D, Tx, Rx, Task>,
    d: DiscoveryView,
    created: ChannelsEvent<D, Tx, Rx, Task>,
    task: Task,
    osc_port: u16,
    oscquery_port: u16,
    name: Seq<char>,
    replies: StartReplies,
) -> (SidecarView<D, Tx, Rx, Task>, DiscoveryView, Result<(), Seq<char>>) {
    let step = |s: SidecarView<D, Tx, Rx, Task>, e: ServerStartEventView|
        mdns_sidecar::server_start_outcome(s, osc_port, oscquery_port, name, e);
    let (begun, first) = step(s, ServerStartEventView::Begin);
    let (s1, a1) = if first is InitChannels {
        let (up, action) = channels_run(begun, created, task);
        let ready = match action->Return_0 {
            Ok(_) => Ok(()),
            Err(e) => Err(e),
        };
        step(up, ServerStartEventView::ChannelsReady(ready))
    } else {
        (begun, first)
    };
    let (d1, r1) = advertise_run(d, a1->AdvertiseOsc_0, replies.osc);
    let (s2, a2) = step(s1, ServerStartEventView::OscAdvertised(r1));
    match a2 {
        ServerStartActionView::AdvertiseOscQuery(oscquery) => {
            let (d2, r2) = advertise_run(d1, oscquery, replies.oscquery);
            let (s3, a3) = step(s2, ServerStartEventView::OscQueryAdvertised(r2));
            match a3 {
                ServerStartActionView::RollBack(osc, e) => {
                    let (d3, _) = unadvertise_run(d2, osc, replies.undo);
                    let (s4, a4) = step(s3, ServerStartEventView::RolledBack(e));
                    (s4, d3, a4->Return_0)
                },
                _ => (s3, d2, a3->Return_0),
            }
        },
        _ => (s2, d1, a2->Return_0),
    }
}

/// Starting the server succeeds exactly when the daemon takes both of its services: then
/// both are registered, and both of their profiles are kept, beside those that were. A start that fails leaves
/// neither of them registered that was not before, keeps neither profile, and reports what the daemon said. Either way the sidecar stays consistent.
pub proof fn law_server_starts_as_a_whole<D, Tx, Rx, Task>(
    s: SidecarView<D, Tx, Rx, Task>,
    d: DiscoveryView,
    created: ChannelsEvent<D, Tx, Rx, Task>,
    task: Task,
    osc_port: u16,
    oscquery_port: u16,
    name: Seq<char>,
    replies: StartReplies,
)
    requires
        s.consistent(),
        created is Created,
    ensures
        ({
            let osc = server_profile_of(OSCServiceType::OSC, name, osc_port);
            let oscquery = server_profile_of(OSCServiceType::OSCQuery, name, oscquery_port);
            let base = with_discovery(s, created, task);
            let (after, known, outcome) = server_start_run(
                s,
                d,
                created,
                task,
                osc_port,
                oscquery_port,
                name,
                replies,
            );
            &&& after.consistent()
            &&& outcome is Ok <==> replies.osc is Ok && replies.oscquery is Ok
            &&& outcome is Ok ==> {
                &&& known.registered == d.registered.insert(osc).insert(oscquery)
                &&& after == (SidecarView {
                    server_enabled: true,
                    server_profiles: Some(ServerProfilesView { oscquery, osc }),
                    earlier_servers: base.kept(),
                    ..base
                })
            }
            &&& outcome matches Err(text) ==> {
                &&& after == (SidecarView { server_enabled: true, ..base })
                &&& text == "Failed to advertise service: "@ + (if replies.osc is Err {
                    replies.osc->Err_0
                } else {
                    replies.oscquery->Err_0
                })
                &&& replies.osc is Err ==> known == d
                &&& replies.osc is Ok ==> known.registered == d.registered.remove(osc)
                &&& !d.registered.contains(osc) ==> known.registered == d.registered
            }
        }),
{
    let osc = server_profile_of(OSCServiceType::OSC, name, osc_port);
    assert(d.registered.insert(osc).remove(osc) =~= d.registered.remove(osc));
    if !d.registered.contains(osc) {
        assert(d.registered.remove(osc) =~= d.registered);
    }
}

/// The server is withdrawn; the daemon answers as given. Comes with the sidecar after it,
/// what the discovery knows then, the full names that the daemon was asked to unregister,
/// and the outcome.
pub open spec fn server_stop_run<D, Tx, Rx, Task>(
    s: SidecarView<D, Tx, Rx, Task>,
    d: DiscoveryView,
    first_reply: Result<(), Seq<char>>,
    second_reply: Result<(), Seq<char>>,
) -> (SidecarView<D, Tx, Rx, Task>, DiscoveryView, Seq<Seq<char>>, Result<(), Seq<char>>) {
    let (asked, action) = mdns_sidecar::server_stop_outcome(s, ServerStopEventView::Begin);
    match action {
        ServerStopActionView::Unadvertise(first, second) => {
            let w = withdraw_run(d, first, second, first_reply, second_reply);
            let (after, last) = mdns_sidecar::server_stop_outcome(
                asked,
                ServerStopEventView::Unadvertised(w.first, w.second),
            );
            (after, w.known, w.unregistered, last->Return_0)
        },
        ServerStopActionView::Return(outcome) => (asked, d, seq![], outcome),
    }
}

/// Stopping a server that was started succeeds, whatever the daemon says, and puts the
/// sidecar back as it was without that server. The daemon is asked to unregister the server's
/// OSCQuery service and then its OSC service, and neither stays registered.
pub proof fn law_start_then_stop<D, Tx, Rx, Task>(
    s: SidecarView<D, Tx, Rx, Task>,
    d: DiscoveryView,
    created: ChannelsEvent<D, Tx, Rx, Task>,
    task: Task,
    osc_port: u16,
    oscquery_port: u16,
    name: Seq<char>,
    replies: StartReplies,
    first_reply: Result<(), Seq<char>>,
    second_reply: Result<(), Seq<char>>,
)
    requires
        s.consistent(),
        created is Created,
        replies.osc is Ok,
        replies.oscquery is Ok,
    ensures
        ({
            let osc = server_profile_of(OSCServiceType::OSC, name, osc_port);
            let oscquery = server_profile_of(OSCServiceType::OSCQuery, name, oscquery_port);
            let (up, known, _) = server_start_run(
                s,
                d,
                created,
                task,
                osc_port,
                oscquery_port,
                name,
                replies,
            );
            let (down, left, unregistered, outcome) = server_stop_run(
                up,
                known,
                first_reply,
                second_reply,
            );
            &&& outcome == Ok::<(), Seq<char>>(())
            &&& down == (SidecarView {
                server_enabled: false,
                server_profiles: None,
                earlier_servers: with_discovery(s, created, task).kept(),
                ..with_discovery(s, created, task)
            })
            &&& unregistered == seq![
                oscquery.service_info().fullname,
                osc.service_info().fullname,
            ]
            &&& !left.registered.contains(oscquery)
            &&& !left.registered.contains(osc)
            &&& left.registered == d.registered.remove(oscquery).remove(osc)
            &&& left.osc_services == known.osc_services
            &&& left.osc_query_services == known.osc_query_services
        }),
{
    law_server_starts_as_a_whole(s, d, created, task, osc_port, oscquery_port, name, replies);
    let osc = server_profile_of(OSCServiceType::OSC, name, osc_port);
    let oscquery = server_profile_of(OSCServiceType::OSCQuery, name, oscquery_port);
    let known = server_start_run(s, d, created, task, osc_port, oscquery_port, name, replies).1;
    assert(known.registered.contains(oscquery) && known.registered.contains(osc));
    assert(known.registered.remove(oscquery).contains(osc));
    assert(known.registered.remove(oscquery).remove(osc) =~= d.registered.remove(oscquery).remove(
        osc,
    ));
    assert(seq![oscquery.service_info().fullname] + seq![osc.service_info().fullname]
        =~= seq![oscquery.service_info().fullname, osc.service_info().fullname]);
}

/// What the sidecar and its discovery are asked or told, with all that comes of it outside.
pub ghost enum SidecarCall<D, Tx, Rx, Task> {
    /// The client's channels are asked for.
    Channels { created: ChannelsEvent<D, Tx, Rx, Task>, task: Task },
    /// The client is marked as in use or not.
    Client { in_use: bool },
    /// A server has started.
    Start {
        created: ChannelsEvent<D, Tx, Rx, Task>,
        task: Task,
        osc_port: u16,
        oscquery_port: u16,
        name: Seq<char>,
        replies: StartReplies,
    },
    /// The server has stopped.
    Stop { first_reply: Result<(), Seq<char>>, second_reply: Result<(), Seq<char>> },
    /// The daemon reports something.
    Report { event: ServiceEventView },
    /// The sidecar is taken down.
    TakeDown { answers: Seq<(Result<(), Seq<char>>, Result<(), Seq<char>>)> },
}

impl<D, Tx, Rx, Task> SidecarCall<D, Tx, Rx, Task> {
    /// Where channels may have to be made, they are.
    pub open spec fn well_formed(self) -> bool {
        match self {
            SidecarCall::Channels { created, .. } => created is Created,
            SidecarCall::Start { created, .. } => created is Created,
            _ => true,
        }
    }
}

/// What one call comes to. A discovery that is made after the sidecar was taken down knows
/// nothing.
pub open spec fn call_run<D, Tx, Rx, Task>(
    s: SidecarView<D, Tx, Rx, Task>,
    d: DiscoveryView,
    call: SidecarCall<D, Tx, Rx, Task>,
) -> (SidecarView<D, Tx, Rx, Task>, DiscoveryView) {
    match call {
        SidecarCall::Channels { created, task } => (channels_run(s, created, task).0, d),
        SidecarCall::Client { in_use } => (SidecarView { client_enabled: in_use, ..s }, d),
        SidecarCall::Start { created, task, osc_port, oscquery_port, name, replies } => {
            let (after, known, _) = server_start_run(
                s,
                d,
                created,
                task,
                osc_port,
                oscquery_port,
                name,
                replies,
            );
            (after, known)
        },
        SidecarCall::Stop { first_reply, second_reply } => {
            let (after, known, _, _) = server_stop_run(s, d, first_reply, second_reply);
            (after, known)
        },
        SidecarCall::Report { event } => (s, mdns::event_outcome(d, event).0),
        SidecarCall::TakeDown { answers } => (deinit_run(s, d, answers).0, DiscoveryView::empty()),
    }
}

/// What calls in a row come to, from the beginning.
pub open spec fn calls_run<D, Tx, Rx, Task>(calls: Seq<SidecarCall<D, Tx, Rx, Task>>) -> (
    SidecarView<D, Tx, Rx, Task>,
    DiscoveryView,
)
    decreases calls.len(),
{
    if calls.len() == 0 {
        (SidecarView::empty(), DiscoveryView::empty())
    } else {
        let (s, d) = calls_run(calls.drop_last());
        call_run(s, d, calls.last())
    }
}

/// Whatever is done, every profile that is registered is kept as that of a server, and the
/// sidecar stays consistent.
pub proof fn law_registered_is_kept<D, Tx, Rx, Task>(
    s: SidecarView<D, Tx, Rx, Task>,
    d: DiscoveryView,
    call: SidecarCall<D, Tx, Rx, Task>,
)
    requires
        s.consistent(),
        s.keeps_all(d.registered),
        call.well_formed(),
    ensures
        call_run(s, d, call).0.consistent(),
        call_run(s, d, call).0.keeps_all(call_run(s, d, call).1.registered),
{
    let (after, known) = call_run(s, d, call);
    match call {
        SidecarCall::Channels { created, task } => {
            assert(after.kept() =~= s.kept());
            assert forall|p: ProfileView| #[trigger]
                known.registered.contains(p) implies after.keeps(p) by {
                lemma_kept_further(s, after, p);
            }
        },
        SidecarCall::Client { in_use } => {
            assert forall|p: ProfileView| #[trigger]
                known.registered.contains(p) implies after.keeps(p) by {
                lemma_kept_further(s, after, p);
            }
        },
        SidecarCall::Start { created, task, osc_port, oscquery_port, name, replies } => {
            law_server_starts_as_a_whole(
                s,
                d,
                created,
                task,
                osc_port,
                oscquery_port,
                name,
                replies,
            );
            let osc = server_profile_of(OSCServiceType::OSC, name, osc_port);
            let oscquery = server_profile_of(OSCServiceType::OSCQuery, name, oscquery_port);
            assert(with_discovery(s, created, task).kept() =~= s.kept());
            assert forall|p: ProfileView| #[trigger]
                known.registered.contains(p) implies after.keeps(p) by {
                if p == osc || p == oscquery {
                    if replies.osc is Ok && replies.oscquery is Ok {
                        assert(after.kept()[after.kept().len() - 1] == (ServerProfilesView {
                            oscquery,
                            osc,
                        }));
                    } else {
                        assert(d.registered.contains(p));
                        lemma_kept_further(s, after, p);
                    }
                } else {
                    assert(d.registered.contains(p));
                    lemma_kept_further(s, after, p);
                }
            }
        },
        SidecarCall::Stop { first_reply, second_reply } => {
            if s.discovery is Some && s.server_profiles is Some {
                let now = s.server_profiles->0;
                lemma_withdrawn(d, now.oscquery, now.osc, first_reply, second_reply);
                assert forall|p: ProfileView| #[trigger]
                    known.registered.contains(p) implies after.keeps(p) by {
                    assert(d.registered.contains(p));
                    assert(s.keeps(p));
                    let i = choose|i: int|
                        0 <= i < s.kept().len() && ((#[trigger] s.kept()[i]).oscquery == p
                            || s.kept()[i].osc == p);
                    assert(i < s.earlier_servers.len());
                    assert(after.kept()[i] == s.kept()[i]);
                }
            } else {
                assert forall|p: ProfileView| #[trigger]
                    known.registered.contains(p) implies after.keeps(p) by {
                    lemma_kept_further(s, after, p);
                }
            }
        },
        SidecarCall::Report { event } => {
            assert(known.registered == d.registered);
        },
        SidecarCall::TakeDown { answers } => {
            law_sidecar_goes_down(s, d, answers);
        },
    }
}

/// What was kept is still kept where nothing was dropped.
proof fn lemma_kept_further<D, Tx, Rx, Task>(
    s: SidecarView<D, Tx, Rx, Task>,
    after: SidecarView<D, Tx, Rx, Task>,
    p: ProfileView,
)
    requires
        s.keeps(p),
        s.kept().len() <= after.kept().len(),
        forall|i: int| 0 <= i < s.kept().len() ==> #[trigger] after.kept()[i] == s.kept()[i],
    ensures
        after.keeps(p),
{
    let i = choose|i: int|
        0 <= i < s.kept().len() && ((#[trigger] s.kept()[i]).oscquery == p || s.kept()[i].osc
            == p);
    assert(after.kept()[i] == s.kept()[i]);
}

/// From the beginning on, every profile that is registered is kept as that of a server.
proof fn lemma_calls_keep<D, Tx, Rx, Task>(calls: Seq<SidecarCall<D, Tx, Rx, Task>>)
    requires
        forall|i: int| 0 <= i < calls.len() ==> (#[trigger] calls[i]).well_formed(),
    ensures
        calls_run(calls).0.consistent(),
        calls_run(calls).0.keeps_all(calls_run(calls).1.registered),
    decreases calls.len(),
{
    if calls.len() > 0 {
        lemma_calls_keep(calls.drop_last());
        let (s, d) = calls_run(calls.drop_last());
        assert(calls[calls.len() - 1].well_formed());
        law_registered_is_kept(s, d, calls.last());
    } else {
        assert(SidecarView::<D, Tx, Rx, Task>::empty().consistent());
    }
}

/// Whatever went before, nothing is registered any more when the sidecar was taken down:
/// the daemon was asked to unregister every service that was, of whichever start.
pub proof fn law_nothing_stays_registered<D, Tx, Rx, Task>(
    calls: Seq<SidecarCall<D, Tx, Rx, Task>>,
    replies: Seq<(Result<(), Seq<char>>, Result<(), Seq<char>>)>,
)
    requires
        forall|i: int| 0 <= i < calls.len() ==> (#[trigger] calls[i]).well_formed(),
    ensures
        ({
            let (s, d) = calls_run(calls);
            let (down, known, unregistered) = deinit_run(s, d, replies);
            &&& known.registered == Set::<ProfileView>::empty()
            &&& forall|p: ProfileView| #[trigger]
                d.registered.contains(p) ==> unregistered.contains(p.service_info().fullname)
            &&& down == s.down()
        }),
{
    lemma_calls_keep(calls);
    let (s, d) = calls_run(calls);
    law_sidecar_goes_down(s, d, replies);
    let known = deinit_run(s, d, replies).1;
    assert forall|p: ProfileView| !known.registered.contains(p) by {
        if known.registered.contains(p) {
            assert(d.registered.contains(p));
            assert(s.keeps(p));
        }
    }
    assert(known.registered =~= Set::<ProfileView>::empty());
}

/// A sidecar that is taken down while a server is advertised takes the server with it: the
/// daemon is asked to unregister the server's OSCQuery service and its OSC service, and
/// neither stays registered, whatever the daemon says.
pub proof fn law_server_goes_with_the_sidecar<D, Tx, Rx, Task>(
    s: SidecarView<D, Tx, Rx, Task>,
    d: DiscoveryView,
    created: ChannelsEvent<D, Tx, Rx, Task>,
    task: Task,
    osc_port: u16,
    oscquery_port: u16,
    name: Seq<char>,
    start_replies: StartReplies,
    replies: Seq<(Result<(), Seq<char>>, Result<(), Seq<char>>)>,
)
    requires
        s.consistent(),
        created is Created,
        start_replies.osc is Ok,
        start_replies.oscquery is Ok,
    ensures
        ({
            let osc = server_profile_of(OSCServiceType::OSC, name, osc_port);
            let oscquery = server_profile_of(OSCServiceType::OSCQuery, name, oscquery_port);
            let (up, known, _) = server_start_run(
                s,
                d,
                created,
                task,
                osc_port,
                oscquery_port,
                name,
                start_replies,
            );
            let (down, left, unregistered) = deinit_run(up, known, replies);
            &&& down == up.down()
            &&& unregistered.contains(oscquery.service_info().fullname)
            &&& unregistered.contains(osc.service_info().fullname)
            &&& !left.registered.contains(oscquery)
            &&& !left.registered.contains(osc)
        }),
{
    law_server_starts_as_a_whole(s, d, created, task, osc_port, oscquery_port, name, start_replies);
    let osc = server_profile_of(OSCServiceType::OSC, name, osc_port);
    let oscquery = server_profile_of(OSCServiceType::OSCQuery, name, oscquery_port);
    let (up, known, _) = server_start_run(
        s,
        d,
        created,
        task,
        osc_port,
        oscquery_port,
        name,
        start_replies,
    );
    law_sidecar_goes_down(up, known, replies);
    assert(up.kept()[up.kept().len() - 1] == (ServerProfilesView { oscquery, osc }));
    assert(up.keeps(oscquery) && up.keeps(osc));
    assert(known.registered.contains(oscquery) && known.registered.contains(osc));
}

// The client

/// The client starts without addresses, and whatever it is told or asked to do, it knows
/// the host of a service exactly when it knows the port.
pub proof fn law_host_and_port_come_together<Rx, Task>(
    s: ClientView<Task>,
    found: AddressFoundView,
    init: InitEvent<Rx, Task>,
    deinit: client::DeinitEvent,
)
    requires
        s.paired(),
    ensures
        ClientView::<Task>::empty().paired(),
        client::told(s, found).paired(),
        client::init_outcome(s, init).0.paired(),
        client::deinit_outcome(s, deinit).0.paired(),
{
}

/// The address that was told last is the one that is read, and where the other service is
/// does not change by it.
pub proof fn law_last_address_is_read<Task>(s: ClientView<Task>, host: Seq<char>, port: u16)
    ensures
        ({
            let osc = client::told(s, AddressFoundView::Osc(host, port));
            &&& osc.osc_address() == Some((host, port))
            &&& osc.oscquery_address() == s.oscquery_address()
        }),
        ({
            let oscquery = client::told(
                s,
                AddressFoundView::OscQuery(host, port),
            );
            &&& oscquery.oscquery_address() == Some((host, port))
            &&& oscquery.osc_address() == s.osc_address()
        }),
{
}

/// Starting a client that runs succeeds at once and changes nothing.
pub proof fn law_started_once<Rx, Task>(s: ClientView<Task>)
    requires
        s.initialized,
    ensures
        client::init_outcome(s, InitEvent::<Rx, Task>::Begin) == (
            s,
            InitAction::<Rx>::Return(Ok(())),
        ),
{
}

/// A client that cannot get its channels is as it was before it was started, and fails
/// with what the sidecar said.
pub proof fn law_failed_start_changes_nothing<Rx, Task>(s: ClientView<Task>, e: OSCQueryInitError)
    requires
        !s.initialized,
    ensures
        client::init_outcome(
            client::init_outcome(s, InitEvent::<Rx, Task>::Begin).0,
            InitEvent::<Rx, Task>::Channels(Err(e)),
        ) == (s, InitAction::<Rx>::Return(Err(Error::InitError(e)))),
{
}

/// A client is started, and everything goes well.
pub open spec fn init_run<Rx, Task>(s: ClientView<Task>, osc_rx: Rx, oscquery_rx: Rx, task: Task) -> (
    ClientView<Task>,
    InitAction<Rx>,
) {
    let (asked, action) = client::init_outcome(s, InitEvent::<Rx, Task>::Begin);
    if action is InitChannels {
        let (ready, _) = client::init_outcome(
            asked,
            InitEvent::<Rx, Task>::Channels(Ok((osc_rx, oscquery_rx))),
        );
        let (listening, _) = client::init_outcome(
            ready,
            InitEvent::<Rx, Task>::MonitorSpawned(task),
        );
        client::init_outcome(listening, InitEvent::<Rx, Task>::ClientStarted(Ok(())))
    } else {
        (asked, action)
    }
}

/// A client that was started stops with the task that it was given, and knows nothing
/// after that, wherever it was told that VRChat is; it can then be started again, and
/// stopping it once more is refused.
pub proof fn law_start_then_stop_of_the_client<Rx, Task>(
    s: ClientView<Task>,
    osc_rx: Rx,
    oscquery_rx: Rx,
    task: Task,
    found: AddressFoundView,
)
    requires
        !s.initialized,
    ensures
        ({
            let (up, action) = init_run(s, osc_rx, oscquery_rx, task);
            let running = client::told(up, found);
            let (asked, a1) = client::deinit_outcome(
                running,
                client::DeinitEvent::Begin,
            );
            let (stopped, a2) = client::deinit_outcome(
                asked,
                client::DeinitEvent::ClientStopped(Ok(())),
            );
            let (down, a3) = client::deinit_outcome(
                stopped,
                client::DeinitEvent::TornDown,
            );
            &&& action == InitAction::<Rx>::Return(Ok(()))
            &&& a1 is MarkClientStopped
            &&& a2 == client::DeinitAction::TearDown(Some(task))
            &&& a3 == client::DeinitAction::<Task>::Return(Ok(()))
            &&& down == ClientView::<Task>::empty()
            &&& client::init_outcome(down, InitEvent::<Rx, Task>::Begin).1 is InitChannels
            &&& client::deinit_outcome(down, client::DeinitEvent::Begin) == (
                down,
                client::DeinitAction::<Task>::Return(
                    Err(Error::InitError(OSCQueryInitError::NotYetInitialized)),
                ),
            )
        }),
{
}

// From the network to the client

/// What the client is told when the sidecar sends on one of its channels.
pub open spec fn received<D, Tx, Rx, Task>(
    s: SidecarView<D, Tx, Rx, Task>,
    kind: OSCServiceType,
    action: MonitorActionView<Tx>,
) -> Option<AddressFoundView> {
    match action {
        MonitorActionView::Send(tx, host, port) => if kind == OSCServiceType::OSC && s.osc_addr_tx
            == Some(tx) {
            Some(AddressFoundView::Osc(host, port))
        } else if kind == OSCServiceType::OSCQuery && s.oscquery_addr_tx == Some(tx) {
            Some(AddressFoundView::OscQuery(host, port))
        } else {
            None
        },
        _ => None,
    }
}

/// When a service of VRChat is resolved that was not there, its first address and its port
/// are sent on the channel of its kind, and are what the client then reads for that kind.
pub proof fn law_vrchat_is_found<D, Tx, Rx, Task, ClientTask>(
    d: DiscoveryView,
    s: SidecarView<D, Tx, Rx, Task>,
    c: ClientView<ClientTask>,
    ty_domain: Seq<char>,
    fullname: Seq<char>,
    addresses: Seq<Seq<char>>,
    port: u16,
)
    requires
        s.discovery is Some,
        s.consistent(),
        OSCServiceType::of_service_string(ty_domain) != OSCServiceType::Unknown,
        addresses.len() > 0,
        mdns_sidecar::is_vrchat(fullname),
        !d.services(OSCServiceType::of_service_string(ty_domain)).contains(
            mdns::resolved_profile(ty_domain, fullname, addresses, port),
        ),
    ensures
        ({
            let kind = OSCServiceType::of_service_string(ty_domain);
            let news = mdns::event_outcome(
                d,
                ServiceEventView::ServiceResolved { ty_domain, fullname, addresses, port },
            ).1;
            let action = mdns_sidecar::monitor_outcome(s, news);
            let found = received(s, kind, action);
            &&& news is Some
            &&& found is Some
            &&& kind == OSCServiceType::OSC ==> client::told(c, found->0).osc_address()
                == Some((addresses[0], port))
            &&& kind == OSCServiceType::OSCQuery ==> client::told(
                c,
                found->0,
            ).oscquery_address() == Some((addresses[0], port))
        }),
{
}

/// Nothing is sent on to the client but the addresses of services of VRChat: no report on
/// a service of another name makes the sidecar send anything, nor does one that a service
/// is gone.
pub proof fn law_only_vrchat_is_sent_on<D, Tx, Rx, Task>(
    d: DiscoveryView,
    s: SidecarView<D, Tx, Rx, Task>,
    event: ServiceEventView,
)
    requires
        event matches ServiceEventView::ServiceResolved { fullname, .. }
            ==> !mdns_sidecar::is_vrchat(fullname),
    ensures
        mdns::event_outcome(d, event).1 matches Some(news)
            ==> mdns_sidecar::monitor_outcome(s, Some(news)) is Wait,
{
}

// What the values show

/// What a profile shows is its port, its name, its address and its kind, and two profiles
/// are the same exactly when they agree in all four.
pub proof fn law_profile_shows_its_parts(p: OSCQueryServiceProfile, q: OSCQueryServiceProfile)
    ensures
        p@.port == p.port,
        p@.name == p.name@,
        p@.address == p.address@,
        p@.service_type == p.service_type,
        p.eq_spec(&q) <==> p.port == q.port && p.name@ == q.name@ && p.address@ == q.address@
            && p.service_type == q.service_type,
        p.address.eq_spec(&q.address) <==> p.address@ == q.address@,
{
}

/// A list of profiles shows each of them in its place.
pub proof fn law_lists_show_their_profiles(
    profiles: Seq<OSCQueryServiceProfile>,
    advertised: Seq<mdns::Advertisement>,
    strings: Seq<String>,
)
    ensures
        profile_views(profiles).len() == profiles.len(),
        forall|i: int|
            0 <= i < profiles.len() ==> #[trigger] profile_views(profiles)[i] == profiles[i]@,
        advertised_views(advertised).len() == advertised.len(),
        forall|i: int|
            0 <= i < advertised.len() ==> #[trigger] advertised_views(advertised)[i]
                == advertised[i]@,
        texts(strings).len() == strings.len(),
        forall|i: int| 0 <= i < strings.len() ==> #[trigger] texts(strings)[i] == strings[i]@,
{
}

/// What a description shows is all that it holds.
pub proof fn law_description_shows_its_parts(description: ServiceDescription)
    ensures
        description@.ty_domain == description.ty_domain@,
        description@.fullname == description.fullname@,
        description@.hostname == description.hostname@,
        description@.port == description.port,
        forall|a: Seq<char>| #[trigger]
            description@.addresses.contains(a) <==> exists|i: int|
                0 <= i < description.addresses@.len() && (#[trigger] description.addresses@[i])@
                    == a,
        description@.properties.len() == description.properties@.len(),
        forall|i: int|
            0 <= i < description.properties@.len() ==> #[trigger] description@.properties[i] == (
                description.properties@[i].0@,
                description.properties@[i].1@,
            ),
{
    assert forall|a: Seq<char>| #[trigger]
        description@.addresses.contains(a) <==> exists|i: int|
            0 <= i < description.addresses@.len() && (#[trigger] description.addresses@[i])@
                == a by {
        let shown = texts(description.addresses@);
        if shown.contains(a) {
            let i = choose|i: int| 0 <= i < shown.len() && shown[i] == a;
            assert(description.addresses@[i]@ == a);
        }
        if exists|i: int|
            0 <= i < description.addresses@.len() && (#[trigger] description.addresses@[i])@ == a {
            let i = choose|i: int|
                0 <= i < description.addresses@.len() && (#[trigger] description.addresses@[i])@
                    == a;
            assert(shown[i] == a);
        }
    }
}

/// What a report shows is all that it holds, the addresses in their order.
pub proof fn law_report_shows_its_parts(event: ServiceEvent)
    ensures
        match event {
            ServiceEvent::SearchStarted(ty) => event@ == ServiceEventView::SearchStarted(ty@),
            ServiceEvent::ServiceFound(ty, name) => event@ == ServiceEventView::ServiceFound(
                ty@,
                name@,
            ),
            ServiceEvent::ServiceResolved(info) => event@ matches ServiceEventView::ServiceResolved {
                ty_domain,
                fullname,
                addresses,
                port,
            } && {
                &&& ty_domain == info.ty_domain@
                &&& fullname == info.fullname@
                &&& port == info.port
                &&& addresses.len() == info.addresses@.len()
                &&& forall|i: int|
                    0 <= i < info.addresses@.len() ==> #[trigger] addresses[i]
                        == info.addresses@[i]@
            },
            ServiceEvent::ServiceRemoved(ty, name) => event@ == ServiceEventView::ServiceRemoved(
                ty@,
                name@,
            ),
            ServiceEvent::SearchStopped(ty) => event@ == ServiceEventView::SearchStopped(ty@),
        },
{
}

/// What news show is the profile or the name that they bear.
pub proof fn law_news_show_their_parts(n: ServiceNotification)
    ensures
        mdns::news(None) == None::<NotificationView>,
        mdns::news(Some(n)) == Some(n@),
        n@ == match n {
            ServiceNotification::OscAdded(p) => NotificationView::OscAdded(p@),
            ServiceNotification::OscQueryAdded(p) => NotificationView::OscQueryAdded(p@),
            ServiceNotification::OscRemoved(name) => NotificationView::OscRemoved(name@),
            ServiceNotification::OscQueryRemoved(name) => NotificationView::OscQueryRemoved(name@),
        },
{
}

/// What an outcome shows is whether it is a success, and otherwise the text of the error;
/// what may be there shows as it is.
pub proof fn law_outcomes_show_their_texts(e: String, port: u16)
    ensures
        outcome_text(Ok(())) == Ok::<(), Seq<char>>(()),
        outcome_text(Err(e)) == Err::<(), Seq<char>>(e@),
        opt_text(None) == None::<Seq<char>>,
        opt_text(Some(e)) == Some(e@),
        client::opt_address(None) == None::<(Seq<char>, u16)>,
        client::opt_address(Some((e, port))) == Some((e@, port)),
{
}

/// The steps of advertising and withdrawing show all that they hold.
pub proof fn law_discovery_steps_show_their_parts(
    ae: AdvertiseEvent,
    aa: AdvertiseAction,
    ue: UnadvertiseEvent,
    ua: UnadvertiseAction,
)
    ensures
        ae@ == match ae {
            AdvertiseEvent::Begin(p) => AdvertiseEventView::Begin(p@),
            AdvertiseEvent::Registered(a, Ok(())) => AdvertiseEventView::Registered(a@, Ok(())),
            AdvertiseEvent::Registered(a, Err(e)) => AdvertiseEventView::Registered(a@, Err(e@)),
        },
        aa@ == match aa {
            AdvertiseAction::Register(a) => AdvertiseActionView::Register(a@),
            AdvertiseAction::Return(Ok(())) => AdvertiseActionView::Return(Ok(())),
            AdvertiseAction::Return(Err(e)) => AdvertiseActionView::Return(Err(e@)),
        },
        ue@ == match ue {
            UnadvertiseEvent::Begin(p) => UnadvertiseEventView::Begin(p@),
            UnadvertiseEvent::Unregistered(Ok(())) => UnadvertiseEventView::Unregistered(Ok(())),
            UnadvertiseEvent::Unregistered(Err(e)) => UnadvertiseEventView::Unregistered(Err(e@)),
        },
        ua@ == match ua {
            UnadvertiseAction::Unregister(name) => UnadvertiseActionView::Unregister(name@),
            UnadvertiseAction::Return(Ok(())) => UnadvertiseActionView::Return(Ok(())),
            UnadvertiseAction::Return(Err(e)) => UnadvertiseActionView::Return(Err(e@)),
        },
{
}

/// The sidecar's state shows all that it holds.
pub proof fn law_sidecar_shows_its_parts<D, Tx, Rx, Task>(state: SidecarState<D, Tx, Rx, Task>)
    ensures
        state@.osc_addr_tx == state.osc_addr_tx,
        state@.osc_addr_rx == state.osc_addr_rx,
        state@.oscquery_addr_tx == state.oscquery_addr_tx,
        state@.oscquery_addr_rx == state.oscquery_addr_rx,
        state@.discovery == state.discovery,
        state@.monitor_task == state.monitor_task,
        state@.client_enabled == state.client_enabled,
        state@.server_enabled == state.server_enabled,
        match state.server_profiles {
            Some(p) => state@.server_profiles matches Some(shown) && shown.oscquery == p.oscquery@
                && shown.osc == p.osc@,
            None => state@.server_profiles is None,
        },
        state@.earlier_servers.len() == state.earlier_servers@.len(),
        forall|i: int|
            0 <= i < state.earlier_servers@.len() ==> {
                &&& (#[trigger] state@.earlier_servers[i]).oscquery
                    == state.earlier_servers@[i].oscquery@
                &&& state@.earlier_servers[i].osc == state.earlier_servers@[i].osc@
            },
{
}

/// The steps of the sidecar show all that they hold.
pub proof fn law_sidecar_steps_show_their_parts<'a, Tx, Task>(
    m: MonitorAction<'a, Tx>,
    de: mdns_sidecar::DeinitEvent,
    da: mdns_sidecar::DeinitAction<Task>,
    se: ServerStartEvent,
    sa: ServerStartAction,
    te: ServerStopEvent,
    ta: ServerStopAction,
)
    ensures
        m@ == match m {
            MonitorAction::Send(tx, host, port) => MonitorActionView::Send(*tx, host@, port),
            MonitorAction::Wait => MonitorActionView::Wait,
            MonitorAction::Exit => MonitorActionView::Exit,
        },
        match de {
            mdns_sidecar::DeinitEvent::Begin => de@ is Begin,
            mdns_sidecar::DeinitEvent::MonitorStopped => de@ is MonitorStopped,
            mdns_sidecar::DeinitEvent::Unadvertised(_, _) => de@ is Unadvertised,
        },
        da@ == match da {
            mdns_sidecar::DeinitAction::StopMonitor(task) => DeinitActionView::StopMonitor(task),
            mdns_sidecar::DeinitAction::Unadvertise(p, q) => DeinitActionView::Unadvertise(p@, q@),
            mdns_sidecar::DeinitAction::Return => DeinitActionView::Return,
        },
        se@ == match se {
            ServerStartEvent::Begin => ServerStartEventView::Begin,
            ServerStartEvent::ChannelsReady(r) => ServerStartEventView::ChannelsReady(r),
            ServerStartEvent::OscAdvertised(Ok(())) => ServerStartEventView::OscAdvertised(Ok(())),
            ServerStartEvent::OscAdvertised(Err(e)) => ServerStartEventView::OscAdvertised(Err(e@)),
            ServerStartEvent::OscQueryAdvertised(Ok(())) =>
                ServerStartEventView::OscQueryAdvertised(Ok(())),
            ServerStartEvent::OscQueryAdvertised(Err(e)) =>
                ServerStartEventView::OscQueryAdvertised(Err(e@)),
            ServerStartEvent::RolledBack(e) => ServerStartEventView::RolledBack(e@),
        },
        sa@ == match sa {
            ServerStartAction::InitChannels => ServerStartActionView::InitChannels,
            ServerStartAction::AdvertiseOsc(p) => ServerStartActionView::AdvertiseOsc(p@),
            ServerStartAction::AdvertiseOscQuery(p) => ServerStartActionView::AdvertiseOscQuery(p@),
            ServerStartAction::RollBack(p, e) => ServerStartActionView::RollBack(p@, e@),
            ServerStartAction::Return(Ok(())) => ServerStartActionView::Return(Ok(())),
            ServerStartAction::Return(Err(e)) => ServerStartActionView::Return(Err(e@)),
        },
        match te {
            ServerStopEvent::Begin => te@ is Begin,
            ServerStopEvent::Unadvertised(_, _) => te@ is Unadvertised,
        },
        ta@ == match ta {
            ServerStopAction::Unadvertise(p, q) => ServerStopActionView::Unadvertise(p@, q@),
            ServerStopAction::Return(Ok(())) => ServerStopActionView::Return(Ok(())),
            ServerStopAction::Return(Err(e)) => ServerStopActionView::Return(Err(e@)),
        },
{
}

/// An address that the client is told shows its host and its port.
pub proof fn law_address_shows_its_parts(found: client::AddressFound)
    ensures
        found@ == match found {
            client::AddressFound::Osc(host, port) => AddressFoundView::Osc(host@, port),
            client::AddressFound::OscQuery(host, port) => AddressFoundView::OscQuery(host@, port),
        },
{
}

// What the words mean

/// A text begins with a prefix exactly when it is the prefix with something behind it, ends
/// in a suffix exactly when it is the suffix with something before it, and holds a part
/// exactly when it is the part with something on either side.
pub proof fn law_parts_of_texts(
    text: Seq<char>,
    part: Seq<char>,
    before: Seq<char>,
    behind: Seq<char>,
)
    ensures
        has_prefix(part + behind, part),
        has_prefix(text, part) ==> text == part + text.subrange(
            part.len() as int,
            text.len() as int,
        ),
        has_suffix(before + part, part),
        has_suffix(text, part) ==> text == text.subrange(0, text.len() - part.len()) + part,
        has_infix(before + part + behind, part),
        has_infix(text, part) ==> exists|i: int|
            #![trigger text.subrange(0, i)]
            0 <= i <= text.len() - part.len() && text == text.subrange(0, i) + part
                + text.subrange(i + part.len(), text.len() as int),
{
    assert((part + behind).subrange(0, part.len() as int) =~= part);
    let ending = before + part;
    assert(ending.subrange(ending.len() - part.len(), ending.len() as int) =~= part);
    let around = before + part + behind;
    let at: int = before.len() as int;
    assert(around.subrange(at, at + part.len()) =~= part);
    if has_prefix(text, part) {
        assert(text =~= text.subrange(0, part.len() as int) + text.subrange(
            part.len() as int,
            text.len() as int,
        ));
    }
    if has_suffix(text, part) {
        assert(text =~= text.subrange(0, text.len() - part.len()) + text.subrange(
            text.len() - part.len(),
            text.len() as int,
        ));
    }
    if has_infix(text, part) {
        let i = choose|i: int|
            0 <= i && i + part.len() <= text.len() && #[trigger] text.subrange(i, i + part.len())
                == part;
        assert(text =~= text.subrange(0, i) + text.subrange(i, i + part.len()) + text.subrange(
            i + part.len(),
            text.len() as int,
        ));
    }
}

/// A name is VRChat's exactly when it is `VRChat-Client-` with something behind it.
pub proof fn law_vrchat_goes_by_its_prefix(name: Seq<char>, rest: Seq<char>)
    ensures
        mdns_sidecar::is_vrchat("VRChat-Client-"@ + rest),
        mdns_sidecar::is_vrchat(name) ==> exists|r: Seq<char>|
            name == #[trigger] ("VRChat-Client-"@ + r),
{
    let prefix = "VRChat-Client-"@;
    law_parts_of_texts(name, prefix, seq![], rest);
    if mdns_sidecar::is_vrchat(name) {
        assert(name == prefix + name.subrange(prefix.len() as int, name.len() as int));
    }
}

/// The two known kinds have these names and no other; what has another name is of no known
/// kind.
pub proof fn law_names_of_the_kinds(s: Seq<char>)
    ensures
        OSCServiceType::OSC.service_type_string() == "_osc._udp.local."@,
        OSCServiceType::OSCQuery.service_type_string() == "_oscjson._tcp.local."@,
        OSCServiceType::Unknown.service_type_string() == "UNKNOWN"@,
        OSCServiceType::of_service_string(s) == OSCServiceType::OSC <==> s == "_osc._udp.local."@,
        OSCServiceType::of_service_string(s) == OSCServiceType::OSCQuery <==> s
            == "_oscjson._tcp.local."@,
{
    lemma_kinds_differ();
}

/// The names of the known kinds are two.
proof fn lemma_kinds_differ()
    ensures
        "_osc._udp.local."@ != "_oscjson._tcp.local."@,
{
    reveal_strlit("_osc._udp.local.");
    reveal_strlit("_oscjson._tcp.local.");
    assert("_osc._udp.local."@.len() == 16);
    assert("_oscjson._tcp.local."@.len() == 20);
}

/// The errors bear their names.
pub proof fn law_errors_bear_their_names()
    ensures
        OSCQueryInitError::NotYetInitialized.spec_name() == "NotYetInitialized"@,
        OSCQueryInitError::MDNSInitFailed.spec_name() == "MDNSInitFailed"@,
{
}

/// A text is that of an address exactly when it reads as that one address alone.
pub proof fn law_address_reads_as_itself(text: Seq<char>)
    ensures
        is_ip_text(text) <==> ip_addrs_of(text) == Some(set![text]),
{
}

/// Of a set of profiles, those not named so, those of another service, and whether there is
/// one of the service, member by member.
pub proof fn law_members_of_profile_sets(
    profiles: Set<ProfileView>,
    name: Seq<char>,
    p: ProfileView,
    q: ProfileView,
)
    ensures
        not_named(profiles, name).contains(q) <==> profiles.contains(q) && q.name != name,
        other_services(profiles, p).contains(q) <==> profiles.contains(q) && (q.name != p.name
            || q.service_type != p.service_type),
        profiles.contains(q) && q.name == p.name && q.service_type == p.service_type
            ==> has_service(profiles, p),
        has_service(profiles, p) ==> exists|r: ProfileView| #[trigger]
            profiles.contains(r) && r.name == p.name && r.service_type == p.service_type,
{
}

// What is registered

/// A service is registered on its own port and its own address, with its own name in front
/// of its type and of `.osc.local.`, and with version 1 of its TXT record: this is what is
/// read from the value that the daemon gets, for every profile.
pub proof fn law_daemon_gets_the_profile(p: ProfileView, info: mdns_sd::ServiceInfo)
    requires
        read_back(info) == p.service_info(),
    ensures
        info_port(info) == p.port,
        info_addresses(info).contains(p.address),
        forall|a: Seq<char>| #[trigger] info_addresses(info).contains(a) ==> a == p.address,
        info_hostname(info) == p.name + ".osc.local."@,
        info_properties(info) == seq![("txtvers"@, "1"@)],
        p.service_type == OSCServiceType::OSC ==> {
            &&& info_type(info) == "_osc._udp.local."@
            &&& info_fullname(info) == p.name + "."@ + "_osc._udp.local."@
        },
        p.service_type == OSCServiceType::OSCQuery ==> {
            &&& info_type(info) == "_oscjson._tcp.local."@
            &&& info_fullname(info) == p.name + "."@ + "_oscjson._tcp.local."@
        },
        p.service_type == OSCServiceType::Unknown ==> {
            &&& info_type(info) == "UNKNOWN"@
            &&& info_fullname(info) == p.name + "."@ + "UNKNOWN"@
        },
{
}

/// No two profiles are registered with the same values: what is registered tells the profile.
pub proof fn law_registration_tells_the_profile(p: ProfileView, q: ProfileView)
    requires
        p.service_info() == q.service_info(),
    ensures
        p == q,
{
    law_full_name_tells_name_and_kind(p, q);
    assert(p.service_info().addresses.contains(p.address));
    assert(q.service_info().addresses.contains(p.address));
}

/// What is told to `mdns_sd` of a service is what the service is described with.
pub proof fn law_described_as_told(
    ty_domain: Seq<char>,
    my_name: Seq<char>,
    host: Seq<char>,
    ip: Seq<char>,
    port: u16,
    key: Seq<char>,
    value: Seq<char>,
)
    ensures
        ({
            let told = described(ty_domain, my_name, host, ip, port, key, value);
            &&& told.ty_domain == ty_domain
            &&& told.fullname == my_name + "."@ + ty_domain
            &&& told.hostname == normalized_hostname(host)
            &&& told.addresses == set![ip]
            &&& told.port == port
            &&& told.properties == seq![(key, value)]
        }),
        is_txt_key(key) <==> forall|i: int|
            0 <= i < key.len() ==> (#[trigger] key[i] as u32) < 128 && key[i] != '=',
{
}

/// Of two `local.` at the end of a host's name one is dropped, and no other host's name
/// changes.
pub proof fn law_hosts_are_in_local_once(host: Seq<char>, front: Seq<char>)
    ensures
        normalized_hostname(front + ".local.local."@) == front + ".local."@,
        (forall|f: Seq<char>| host != #[trigger] (f + ".local.local."@)) ==> normalized_hostname(
            host,
        ) == host,
{
    lemma_local_is_dropped(front);
    if has_suffix(host, ".local.local."@) {
        let f = host.subrange(0, host.len() - ".local.local."@.len());
        assert(host =~= f + host.subrange(
            host.len() - ".local.local."@.len(),
            host.len() as int,
        ));
        assert(host == f + ".local.local."@);
    }
}

/// Of two `local.` at the end of a host's name one is dropped.
proof fn lemma_local_is_dropped(front: Seq<char>)
    ensures
        normalized_hostname(front + ".local.local."@) == front + ".local."@,
{
    let twice = ".local.local."@;
    let once = ".local."@;
    let long = front + twice;
    assert(twice.len() == 13 && "local."@.len() == 6 && twice.subrange(0, 7) == once) by {
        reveal_strlit(".local.local.");
        reveal_strlit(".local.");
        reveal_strlit("local.");
        assert(twice.subrange(0, 7) =~= once);
    }
    assert(long.subrange(long.len() - 13, long.len() as int) =~= twice);
    assert(long.subrange(0, long.len() - 6) =~= front + twice.subrange(0, 7));
}

// What the daemon's reports do

/// A service that is resolved with an address is listed under its kind with the port and
/// the full name that were reported, at the first address; all others stay as they were.
/// It is news, with that profile, exactly when it was not listed.
pub proof fn law_resolved_is_listed_as_reported(
    d: DiscoveryView,
    fullname: Seq<char>,
    addresses: Seq<Seq<char>>,
    port: u16,
)
    requires
        addresses.len() > 0,
    ensures
        ({
            let ty_domain = "_osc._udp.local."@;
            let p = ProfileView {
                port,
                name: fullname,
                address: addresses[0],
                service_type: OSCServiceType::OSC,
            };
            let (after, news) = mdns::event_outcome(
                d,
                ServiceEventView::ServiceResolved { ty_domain, fullname, addresses, port },
            );
            &&& after.osc_services == d.osc_services.insert(p)
            &&& after.osc_query_services == d.osc_query_services
            &&& after.registered == d.registered
            &&& d.osc_services.contains(p) ==> news is None
            &&& !d.osc_services.contains(p) ==> news == Some(NotificationView::OscAdded(p))
        }),
        ({
            let ty_domain = "_oscjson._tcp.local."@;
            let p = ProfileView {
                port,
                name: fullname,
                address: addresses[0],
                service_type: OSCServiceType::OSCQuery,
            };
            let (after, news) = mdns::event_outcome(
                d,
                ServiceEventView::ServiceResolved { ty_domain, fullname, addresses, port },
            );
            &&& after.osc_query_services == d.osc_query_services.insert(p)
            &&& after.osc_services == d.osc_services
            &&& after.registered == d.registered
            &&& d.osc_query_services.contains(p) ==> news is None
            &&& !d.osc_query_services.contains(p) ==> news == Some(
                NotificationView::OscQueryAdded(p),
            )
        }),
{
    lemma_kinds_differ();
    let osc = ProfileView {
        port,
        name: fullname,
        address: addresses[0],
        service_type: OSCServiceType::OSC,
    };
    let oscquery = ProfileView {
        port,
        name: fullname,
        address: addresses[0],
        service_type: OSCServiceType::OSCQuery,
    };
    if d.osc_services.contains(osc) {
        assert(d.osc_services.insert(osc) =~= d.osc_services);
    }
    if d.osc_query_services.contains(oscquery) {
        assert(d.osc_query_services.insert(oscquery) =~= d.osc_query_services);
    }
}

/// A service that is resolved without an address, or of another type, changes nothing and
/// is no news; nor is a report that is none of a service resolved or removed.
pub proof fn law_other_reports_do_nothing(
    d: DiscoveryView,
    ty_domain: Seq<char>,
    fullname: Seq<char>,
    addresses: Seq<Seq<char>>,
    port: u16,
)
    ensures
        ({
            let nothing = (d, None::<NotificationView>);
            let other = ty_domain != "_osc._udp.local."@ && ty_domain != "_oscjson._tcp.local."@;
            &&& addresses.len() == 0 || other ==> mdns::event_outcome(
                d,
                ServiceEventView::ServiceResolved { ty_domain, fullname, addresses, port },
            ) == nothing
            &&& other ==> mdns::event_outcome(
                d,
                ServiceEventView::ServiceRemoved(ty_domain, fullname),
            ) == nothing
            &&& mdns::event_outcome(d, ServiceEventView::SearchStarted(ty_domain)) == nothing
            &&& mdns::event_outcome(d, ServiceEventView::ServiceFound(ty_domain, fullname))
                == nothing
            &&& mdns::event_outcome(d, ServiceEventView::SearchStopped(ty_domain)) == nothing
        }),
{
}

/// With a service that is gone go all of its kind that bear its name, and nothing else; it
/// is news in any case, with that name.
pub proof fn law_removed_is_taken_off(d: DiscoveryView, name: Seq<char>, p: ProfileView)
    ensures
        ({
            let (after, news) = mdns::event_outcome(
                d,
                ServiceEventView::ServiceRemoved("_osc._udp.local."@, name),
            );
            &&& after.osc_services.contains(p) <==> d.osc_services.contains(p) && p.name != name
            &&& after.osc_query_services == d.osc_query_services
            &&& after.registered == d.registered
            &&& news == Some(NotificationView::OscRemoved(name))
        }),
        ({
            let (after, news) = mdns::event_outcome(
                d,
                ServiceEventView::ServiceRemoved("_oscjson._tcp.local."@, name),
            );
            &&& after.osc_query_services.contains(p) <==> d.osc_query_services.contains(p)
                && p.name != name
            &&& after.osc_services == d.osc_services
            &&& after.registered == d.registered
            &&& news == Some(NotificationView::OscQueryRemoved(name))
        }),
{
    lemma_kinds_differ();
}

// What advertising and withdrawing do

/// The daemon is asked to register the very profile that is to be advertised, and nothing
/// changes until it answers.
pub proof fn law_daemon_is_asked_for_the_profile(d: DiscoveryView, p: ProfileView)
    ensures
        mdns::advertise_outcome(d, AdvertiseEventView::Begin(p)) == (
            d,
            AdvertiseActionView::Register(p),
        ),
{
}

/// A profile that the daemon took is registered and listed under its kind, beside all that
/// were; those of the other kind are as they were, and the advertisement succeeded. One of
/// no known kind is registered and not listed.
pub proof fn law_advertised_comes_on_top(d: DiscoveryView, p: ProfileView)
    ensures
        ({
            let (after, action) = mdns::advertise_outcome(
                d,
                AdvertiseEventView::Registered(p, Ok(())),
            );
            &&& action == AdvertiseActionView::Return(Ok(()))
            &&& after.registered == d.registered.insert(p)
            &&& after.osc_services == if p.service_type == OSCServiceType::OSC {
                d.osc_services.insert(p)
            } else {
                d.osc_services
            }
            &&& after.osc_query_services == if p.service_type == OSCServiceType::OSCQuery {
                d.osc_query_services.insert(p)
            } else {
                d.osc_query_services
            }
        }),
{
}

/// Where the daemon refuses a profile, nothing changes and what it said is reported.
pub proof fn law_refusal_is_reported(d: DiscoveryView, p: ProfileView, said: Seq<char>)
    ensures
        mdns::advertise_outcome(d, AdvertiseEventView::Registered(p, Err(said))) == (
            d,
            AdvertiseActionView::Return(Err("Failed to advertise service: "@ + said)),
        ),
        mdns::unadvertise_outcome(d, UnadvertiseEventView::Unregistered(Err(said))) == (
            d,
            UnadvertiseActionView::Return(Err("Failed to unadvertise service: "@ + said)),
        ),
        mdns::unadvertise_outcome(d, UnadvertiseEventView::Unregistered(Ok(()))) == (
            d,
            UnadvertiseActionView::Return(Ok(())),
        ),
{
}

/// Withdrawing a registered profile takes just that profile off the registered ones.
/// Withdrawing another takes off those of its name and kind. Either way the daemon is asked
/// for the full name, which is the name, a dot and the type. Where there are none, nothing
/// is asked, and it succeeded. What is there does not change.
pub proof fn law_what_withdrawing_takes_off(d: DiscoveryView, p: ProfileView, q: ProfileView)
    ensures
        ({
            let (after, action) = mdns::unadvertise_outcome(d, UnadvertiseEventView::Begin(p));
            let alike = q.name == p.name && q.service_type == p.service_type;
            &&& after.osc_services == d.osc_services
            &&& after.osc_query_services == d.osc_query_services
            &&& d.registered.contains(p) ==> (after.registered.contains(q)
                <==> d.registered.contains(q) && q != p)
            &&& !d.registered.contains(p) ==> (after.registered.contains(q)
                <==> d.registered.contains(q) && !alike)
            &&& d.registered.contains(q) && alike ==> action == UnadvertiseActionView::Unregister(
                p.name + "."@ + match p.service_type {
                    OSCServiceType::OSC => "_osc._udp.local."@,
                    OSCServiceType::OSCQuery => "_oscjson._tcp.local."@,
                    OSCServiceType::Unknown => "UNKNOWN"@,
                },
            )
            &&& (forall|r: ProfileView| #[trigger]
                d.registered.contains(r) ==> r.name != p.name || r.service_type != p.service_type)
                ==> after == d && action == UnadvertiseActionView::Return(Ok(()))
        }),
{
    if !d.registered.contains(p) {
        if has_service(d.registered, p) {
            let r = choose|r: ProfileView| #[trigger]
                d.registered.contains(r) && r.same_service(p);
            assert(d.registered.contains(r));
        }
    }
}

/// Nothing is known at first.
pub proof fn law_nothing_is_known_at_first(p: ProfileView)
    ensures
        !DiscoveryView::empty().registered.contains(p),
        !DiscoveryView::empty().osc_services.contains(p),
        !DiscoveryView::empty().osc_query_services.contains(p),
{
}

// What the sidecar does

/// Nothing is set up at first, and nobody counts as in use; a sidecar that is down differs
/// from that in the flags alone.
pub proof fn law_nothing_is_set_up_at_first<D, Tx, Rx, Task>(s: SidecarView<D, Tx, Rx, Task>)
    ensures
        ({
            let e = SidecarView::<D, Tx, Rx, Task>::empty();
            &&& e.osc_addr_tx is None && e.osc_addr_rx is None
            &&& e.oscquery_addr_tx is None && e.oscquery_addr_rx is None
            &&& e.discovery is None && e.monitor_task is None
            &&& e.server_profiles is None && e.earlier_servers.len() == 0
            &&& !e.client_enabled && !e.server_enabled
        }),
        ({
            let e = s.down();
            &&& e.osc_addr_tx is None && e.osc_addr_rx is None
            &&& e.oscquery_addr_tx is None && e.oscquery_addr_rx is None
            &&& e.discovery is None && e.monitor_task is None
            &&& e.server_profiles is None && e.earlier_servers.len() == 0
            &&& e.client_enabled == s.client_enabled && e.server_enabled == s.server_enabled
        }),
{
}

/// Where there is no discovery, one is to be made with its channels; what was made is kept
/// as it was given, each end in its place, and its task after that.
pub proof fn law_channels_are_made_as_given<D, Tx, Rx, Task>(
    s: SidecarView<D, Tx, Rx, Task>,
    discovery: D,
    osc_tx: Tx,
    osc_rx: Rx,
    oscquery_tx: Tx,
    oscquery_rx: Rx,
)
    ensures
        s.discovery is None ==> mdns_sidecar::channels_outcome(
            s,
            ChannelsEvent::<D, Tx, Rx, Task>::Begin,
        ) == (s, ChannelsAction::<Rx>::Create),
        mdns_sidecar::channels_outcome(
            s,
            ChannelsEvent::Created { discovery, osc_tx, osc_rx, oscquery_tx, oscquery_rx },
        ) == (
            SidecarView {
                osc_addr_tx: Some(osc_tx),
                osc_addr_rx: Some(osc_rx),
                oscquery_addr_tx: Some(oscquery_tx),
                oscquery_addr_rx: Some(oscquery_rx),
                discovery: Some(discovery),
                monitor_task: s.monitor_task,
                server_profiles: s.server_profiles,
                earlier_servers: s.earlier_servers,
                client_enabled: s.client_enabled,
                server_enabled: s.server_enabled,
            },
            ChannelsAction::<Rx>::SpawnMonitor,
        ),
{
}

/// Who asks where there is a discovery, or has just had its task started, gets both
/// receiving ends if both are there, that of the OSC addresses first, and they are gone
/// then. Without the first one nothing more goes; without the second the first goes too. A
/// failure says that mDNS could not be set up.
pub proof fn law_receivers_are_handed_over<D, Tx, Rx, Task>(
    s: SidecarView<D, Tx, Rx, Task>,
    task: Task,
)
    ensures
        ({
            let (begun, answer) = mdns_sidecar::channels_outcome(
                s,
                ChannelsEvent::<D, Tx, Rx, Task>::Begin,
            );
            let (watched, last) = mdns_sidecar::channels_outcome(
                s,
                ChannelsEvent::MonitorSpawned(task),
            );
            let given = match (s.osc_addr_rx, s.oscquery_addr_rx) {
                (Some(a), Some(b)) => ChannelsAction::Return(Ok((a, b))),
                _ => ChannelsAction::Return(Err(OSCQueryInitError::MDNSInitFailed)),
            };
            let second = if s.osc_addr_rx is Some {
                None
            } else {
                s.oscquery_addr_rx
            };
            &&& s.discovery is Some ==> answer == given
            &&& s.discovery is Some ==> begun == (SidecarView {
                osc_addr_rx: None,
                oscquery_addr_rx: second,
                osc_addr_tx: s.osc_addr_tx,
                oscquery_addr_tx: s.oscquery_addr_tx,
                discovery: s.discovery,
                monitor_task: s.monitor_task,
                server_profiles: s.server_profiles,
                earlier_servers: s.earlier_servers,
                client_enabled: s.client_enabled,
                server_enabled: s.server_enabled,
            })
            &&& last == given
            &&& watched == (SidecarView {
                osc_addr_rx: None,
                oscquery_addr_rx: second,
                osc_addr_tx: s.osc_addr_tx,
                oscquery_addr_tx: s.oscquery_addr_tx,
                discovery: s.discovery,
                monitor_task: Some(task),
                server_profiles: s.server_profiles,
                earlier_servers: s.earlier_servers,
                client_enabled: s.client_enabled,
                server_enabled: s.server_enabled,
            })
        }),
{
}

/// Of a service that came, the address and the port go out on the channel of its kind
/// whenever its name is `VRChat-Client-` with something behind it, whatever that is.
pub proof fn law_every_vrchat_is_sent_on<D, Tx, Rx, Task>(
    s: SidecarView<D, Tx, Rx, Task>,
    osc_tx: Tx,
    oscquery_tx: Tx,
    p: ProfileView,
    rest: Seq<char>,
)
    requires
        s.osc_addr_tx == Some(osc_tx),
        s.oscquery_addr_tx == Some(oscquery_tx),
        p.name == "VRChat-Client-"@ + rest,
    ensures
        mdns_sidecar::monitor_outcome(s, Some(NotificationView::OscAdded(p)))
            == MonitorActionView::Send(osc_tx, p.address, p.port),
        mdns_sidecar::monitor_outcome(s, Some(NotificationView::OscQueryAdded(p)))
            == MonitorActionView::Send(oscquery_tx, p.address, p.port),
{
    law_vrchat_goes_by_its_prefix(p.name, rest);
}

/// Nothing else goes out: not of a service of a name that does not begin so, not where there
/// is no channel of the kind, and not when a service is gone. The task goes on waiting, and
/// ends exactly when there is nothing more to wait for.
pub proof fn law_nothing_else_is_sent_on<D, Tx, Rx, Task>(
    s: SidecarView<D, Tx, Rx, Task>,
    p: ProfileView,
    name: Seq<char>,
    news: NotificationView,
)
    ensures
        (forall|rest: Seq<char>| p.name != #[trigger] ("VRChat-Client-"@ + rest)) ==> {
            &&& mdns_sidecar::monitor_outcome(s, Some(NotificationView::OscAdded(p))) is Wait
            &&& mdns_sidecar::monitor_outcome(s, Some(NotificationView::OscQueryAdded(p))) is Wait
        },
        s.osc_addr_tx is None ==> mdns_sidecar::monitor_outcome(
            s,
            Some(NotificationView::OscAdded(p)),
        ) is Wait,
        s.oscquery_addr_tx is None ==> mdns_sidecar::monitor_outcome(
            s,
            Some(NotificationView::OscQueryAdded(p)),
        ) is Wait,
        mdns_sidecar::monitor_outcome(s, Some(NotificationView::OscRemoved(name))) is Wait,
        mdns_sidecar::monitor_outcome(s, Some(NotificationView::OscQueryRemoved(name))) is Wait,
        mdns_sidecar::monitor_outcome(s, None) is Exit,
        !(mdns_sidecar::monitor_outcome(s, Some(news)) is Exit),
{
    law_vrchat_goes_by_its_prefix(p.name, seq![]);
}

/// A service of the OSC type that is resolved for the first time goes out on the OSC channel
/// with its first address and its port, and one of the OSCQuery type on the OSCQuery channel,
/// exactly when its full name is `VRChat-Client-` with something behind it; and what goes
/// out is what the client then reads.
pub proof fn law_from_the_network_to_the_client<D, Tx, Rx, Task, ClientTask>(
    d: DiscoveryView,
    s: SidecarView<D, Tx, Rx, Task>,
    c: ClientView<ClientTask>,
    osc_tx: Tx,
    oscquery_tx: Tx,
    fullname: Seq<char>,
    addresses: Seq<Seq<char>>,
    port: u16,
)
    requires
        s.osc_addr_tx == Some(osc_tx),
        s.oscquery_addr_tx == Some(oscquery_tx),
        addresses.len() > 0,
        forall|p: ProfileView| #[trigger] d.osc_services.contains(p) ==> p.name != fullname,
        forall|p: ProfileView| #[trigger] d.osc_query_services.contains(p) ==> p.name != fullname,
    ensures
        ({
            let osc_news = mdns::event_outcome(
                d,
                ServiceEventView::ServiceResolved {
                    ty_domain: "_osc._udp.local."@,
                    fullname,
                    addresses,
                    port,
                },
            ).1;
            let oscquery_news = mdns::event_outcome(
                d,
                ServiceEventView::ServiceResolved {
                    ty_domain: "_oscjson._tcp.local."@,
                    fullname,
                    addresses,
                    port,
                },
            ).1;
            let osc = mdns_sidecar::monitor_outcome(s, osc_news);
            let oscquery = mdns_sidecar::monitor_outcome(s, oscquery_news);
            &&& osc_news is Some && oscquery_news is Some
            &&& (exists|rest: Seq<char>| fullname == #[trigger] ("VRChat-Client-"@ + rest)) ==> {
                &&& osc == MonitorActionView::Send(osc_tx, addresses[0], port)
                &&& oscquery == MonitorActionView::Send(oscquery_tx, addresses[0], port)
            }
            &&& (forall|rest: Seq<char>| fullname != #[trigger] ("VRChat-Client-"@ + rest)) ==> {
                &&& osc is Wait
                &&& oscquery is Wait
            }
        }),
        ({
            let told = client::told(c, AddressFoundView::Osc(addresses[0], port));
            &&& told.osc_host == Some(addresses[0])
            &&& told.osc_port == Some(port)
            &&& told.osc_address() == Some((addresses[0], port))
        }),
        ({
            let told = client::told(c, AddressFoundView::OscQuery(addresses[0], port));
            &&& told.oscquery_host == Some(addresses[0])
            &&& told.oscquery_port == Some(port)
            &&& told.oscquery_address() == Some((addresses[0], port))
        }),
{
    law_resolved_is_listed_as_reported(d, fullname, addresses, port);
    let p = ProfileView {
        port,
        name: fullname,
        address: addresses[0],
        service_type: OSCServiceType::OSC,
    };
    let q = ProfileView { service_type: OSCServiceType::OSCQuery, ..p };
    if exists|rest: Seq<char>| fullname == #[trigger] ("VRChat-Client-"@ + rest) {
        let rest = choose|rest: Seq<char>| fullname == #[trigger] ("VRChat-Client-"@ + rest);
        law_every_vrchat_is_sent_on(s, osc_tx, oscquery_tx, p, rest);
        law_every_vrchat_is_sent_on(s, osc_tx, oscquery_tx, q, rest);
    }
    law_nothing_else_is_sent_on(s, p, fullname, NotificationView::OscAdded(p));
    law_nothing_else_is_sent_on(s, q, fullname, NotificationView::OscQueryAdded(q));
}

/// Taking the sidecar down begins with its task. Then the server that is advertised is
/// withdrawn, the OSCQuery service first, then those of earlier starts, the last one first;
/// where none is left, or no discovery is there to withdraw them, the discovery and all four
/// ends of the channels are dropped and it is down. Nothing else changes on the way.
pub proof fn law_how_the_sidecar_goes_down<D, Tx, Rx, Task>(
    s: SidecarView<D, Tx, Rx, Task>,
    first: Result<(), Seq<char>>,
    second: Result<(), Seq<char>>,
)
    ensures
        ({
            let (begun, action) = mdns_sidecar::deinit_outcome(s, DeinitEventView::Begin);
            &&& action == DeinitActionView::StopMonitor(s.monitor_task)
            &&& begun == (SidecarView { monitor_task: None, ..s })
        }),
        ({
            let (next, action) = mdns_sidecar::deinit_outcome(s, DeinitEventView::MonitorStopped);
            &&& s.discovery is Some && s.server_profiles is Some ==> {
                &&& action == DeinitActionView::<Task>::Unadvertise(
                    s.server_profiles->0.oscquery,
                    s.server_profiles->0.osc,
                )
                &&& next == (SidecarView { server_profiles: None, ..s })
            }
            &&& s.discovery is Some && s.server_profiles is None && s.earlier_servers.len() > 0
                ==> {
                let last = s.earlier_servers[s.earlier_servers.len() - 1];
                &&& action == DeinitActionView::<Task>::Unadvertise(last.oscquery, last.osc)
                &&& next == (SidecarView {
                    earlier_servers: s.earlier_servers.subrange(0, s.earlier_servers.len() - 1),
                    ..s
                })
            }
            &&& s.discovery is None || (s.server_profiles is None && s.earlier_servers.len() == 0)
                ==> {
                &&& action == DeinitActionView::<Task>::Return
                &&& next == (SidecarView {
                    osc_addr_tx: None,
                    osc_addr_rx: None,
                    oscquery_addr_tx: None,
                    oscquery_addr_rx: None,
                    discovery: None,
                    ..s
                })
            }
            &&& mdns_sidecar::deinit_outcome(s, DeinitEventView::Unadvertised(first, second)) == (
                next,
                action,
            )
        }),
{
    if s.server_profiles is Some {
        assert(s.kept().drop_last() =~= s.earlier_servers);
    } else if s.earlier_servers.len() > 0 {
        assert(s.kept().drop_last() =~= s.earlier_servers.subrange(
            0,
            s.earlier_servers.len() - 1,
        ));
    }
}

/// A server is advertised on the ports and under the name that were given, on the loopback
/// address: first its OSC service, then its OSCQuery service, and both are kept. Whatever
/// was kept before is kept further.
pub proof fn law_server_is_advertised_as_given<D, Tx, Rx, Task>(
    s: SidecarView<D, Tx, Rx, Task>,
    osc_port: u16,
    oscquery_port: u16,
    name: Seq<char>,
    said: Seq<char>,
)
    ensures
        ({
            let osc = ProfileView {
                port: osc_port,
                name,
                address: "127.0.0.1"@,
                service_type: OSCServiceType::OSC,
            };
            let oscquery = ProfileView {
                port: oscquery_port,
                name,
                address: "127.0.0.1"@,
                service_type: OSCServiceType::OSCQuery,
            };
            let step = |e: ServerStartEventView|
                mdns_sidecar::server_start_outcome(s, osc_port, oscquery_port, name, e);
            let in_use = SidecarView { server_enabled: true, ..s };
            &&& s.discovery is Some ==> step(ServerStartEventView::Begin) == (
                in_use,
                ServerStartActionView::AdvertiseOsc(osc),
            )
            &&& s.discovery is None ==> step(ServerStartEventView::Begin) == (
                s,
                ServerStartActionView::InitChannels,
            )
            &&& s.discovery is Some ==> step(ServerStartEventView::ChannelsReady(Ok(()))) == (
                in_use,
                ServerStartActionView::AdvertiseOsc(osc),
            )
            &&& s.discovery is None ==> step(ServerStartEventView::ChannelsReady(Ok(()))) == (
                in_use,
                ServerStartActionView::Return(Err("mDNS discovery not initialized."@)),
            )
            &&& step(
                ServerStartEventView::ChannelsReady(Err(OSCQueryInitError::MDNSInitFailed)),
            ) == (
                s,
                ServerStartActionView::Return(
                    Err(
                        "mDNS discovery instance not initialized and failed to init: "@
                            + "MDNSInitFailed"@,
                    ),
                ),
            )
            &&& step(
                ServerStartEventView::ChannelsReady(Err(OSCQueryInitError::NotYetInitialized)),
            ) == (
                s,
                ServerStartActionView::Return(
                    Err(
                        "mDNS discovery instance not initialized and failed to init: "@
                            + "NotYetInitialized"@,
                    ),
                ),
            )
            &&& step(ServerStartEventView::OscAdvertised(Ok(()))) == (
                s,
                ServerStartActionView::AdvertiseOscQuery(oscquery),
            )
            &&& step(ServerStartEventView::OscAdvertised(Err(said))) == (
                s,
                ServerStartActionView::Return(Err(said)),
            )
            &&& step(ServerStartEventView::OscQueryAdvertised(Ok(()))) == (
                SidecarView {
                    server_profiles: Some(ServerProfilesView { oscquery, osc }),
                    earlier_servers: match s.server_profiles {
                        Some(earlier) => s.earlier_servers.push(earlier),
                        None => s.earlier_servers,
                    },
                    ..s
                },
                ServerStartActionView::Return(Ok(())),
            )
            &&& step(ServerStartEventView::OscQueryAdvertised(Err(said))) == (
                s,
                ServerStartActionView::RollBack(osc, said),
            )
            &&& step(ServerStartEventView::RolledBack(said)) == (
                s,
                ServerStartActionView::Return(Err(said)),
            )
        }),
{
}

/// After a server was started with success, what is registered is what was before and two
/// profiles more: on the OSC port that was given and on the OSCQuery port that was given,
/// both under the given name on the loopback address. Both are also there, each among those
/// of its kind, beside all that were.
pub proof fn law_started_server_is_registered<D, Tx, Rx, Task>(
    s: SidecarView<D, Tx, Rx, Task>,
    d: DiscoveryView,
    created: ChannelsEvent<D, Tx, Rx, Task>,
    task: Task,
    osc_port: u16,
    oscquery_port: u16,
    name: Seq<char>,
    replies: StartReplies,
)
    requires
        s.consistent(),
        created is Created,
        replies.osc is Ok,
        replies.oscquery is Ok,
    ensures
        ({
            let osc = ProfileView {
                port: osc_port,
                name,
                address: "127.0.0.1"@,
                service_type: OSCServiceType::OSC,
            };
            let oscquery = ProfileView {
                port: oscquery_port,
                name,
                address: "127.0.0.1"@,
                service_type: OSCServiceType::OSCQuery,
            };
            let (after, known, outcome) = server_start_run(
                s,
                d,
                created,
                task,
                osc_port,
                oscquery_port,
                name,
                replies,
            );
            &&& outcome == Ok::<(), Seq<char>>(())
            &&& known.registered == d.registered.insert(osc).insert(oscquery)
            &&& known.osc_services == d.osc_services.insert(osc)
            &&& known.osc_query_services == d.osc_query_services.insert(oscquery)
            &&& after.server_profiles == Some(ServerProfilesView { oscquery, osc })
            &&& after.server_enabled
        }),
{
}

/// A server that stops no longer counts as in use, and the two profiles that it was kept
/// with are to be withdrawn, that of the OSCQuery service first; without any, or without a
/// discovery, it is done at once. It never fails, and nothing else changes.
pub proof fn law_how_a_server_stops<D, Tx, Rx, Task>(
    s: SidecarView<D, Tx, Rx, Task>,
    first: Result<(), Seq<char>>,
    second: Result<(), Seq<char>>,
)
    ensures
        s.discovery is Some && s.server_profiles is Some ==> mdns_sidecar::server_stop_outcome(
            s,
            ServerStopEventView::Begin,
        ) == (
            SidecarView { server_enabled: false, server_profiles: None, ..s },
            ServerStopActionView::Unadvertise(
                s.server_profiles->0.oscquery,
                s.server_profiles->0.osc,
            ),
        ),
        s.discovery is None || s.server_profiles is None ==> mdns_sidecar::server_stop_outcome(
            s,
            ServerStopEventView::Begin,
        ) == (
            SidecarView { server_enabled: false, ..s },
            ServerStopActionView::Return(Ok(())),
        ),
        mdns_sidecar::server_stop_outcome(s, ServerStopEventView::Unadvertised(first, second)) == (
            s,
            ServerStopActionView::Return(Ok(())),
        ),
{
}

// What the client does

/// The client does not run at first and knows nothing.
pub proof fn law_client_knows_nothing_at_first<Task>()
    ensures
        ({
            let e = ClientView::<Task>::empty();
            &&& !e.initialized && e.monitor_task is None
            &&& e.osc_host is None && e.osc_port is None
            &&& e.oscquery_host is None && e.oscquery_port is None
        }),
{
}

/// An address is known exactly when host and port are, and is made of the two.
pub proof fn law_address_is_host_and_port<Task>(s: ClientView<Task>, host: Seq<char>, port: u16)
    ensures
        s.osc_address() == Some((host, port)) <==> s.osc_host == Some(host) && s.osc_port == Some(
            port,
        ),
        s.osc_address() is None <==> s.osc_host is None || s.osc_port is None,
        s.oscquery_address() == Some((host, port)) <==> s.oscquery_host == Some(host)
            && s.oscquery_port == Some(port),
        s.oscquery_address() is None <==> s.oscquery_host is None || s.oscquery_port is None,
{
}

/// The host and the port that the client is told are known then for that service, and
/// nothing else changes.
pub proof fn law_told_is_known<Task>(s: ClientView<Task>, host: Seq<char>, port: u16)
    ensures
        client::told(s, AddressFoundView::Osc(host, port)) == (ClientView {
            initialized: s.initialized,
            osc_host: Some(host),
            osc_port: Some(port),
            oscquery_host: s.oscquery_host,
            oscquery_port: s.oscquery_port,
            monitor_task: s.monitor_task,
        }),
        client::told(s, AddressFoundView::OscQuery(host, port)) == (ClientView {
            initialized: s.initialized,
            osc_host: s.osc_host,
            osc_port: s.osc_port,
            oscquery_host: Some(host),
            oscquery_port: Some(port),
            monitor_task: s.monitor_task,
        }),
{
}

/// A client starts by asking for its channels, listens on those that it is given, that of
/// the OSC addresses first, keeps the task that does, and has the sidecar told. It counts as
/// running from the beginning on, and no longer when a step fails; of what it knows nothing
/// changes.
pub proof fn law_how_a_client_starts<Rx, Task>(
    s: ClientView<Task>,
    osc_rx: Rx,
    oscquery_rx: Rx,
    e: OSCQueryInitError,
    task: Task,
    said: String,
)
    ensures
        client::init_outcome(s, InitEvent::<Rx, Task>::Begin) == (
            ClientView { initialized: true, ..s },
            if s.initialized {
                InitAction::<Rx>::Return(Ok(()))
            } else {
                InitAction::<Rx>::InitChannels
            },
        ),
        client::init_outcome(s, InitEvent::<Rx, Task>::Channels(Ok((osc_rx, oscquery_rx)))) == (
            s,
            InitAction::SpawnMonitor(osc_rx, oscquery_rx),
        ),
        client::init_outcome(s, InitEvent::<Rx, Task>::Channels(Err(e))) == (
            ClientView { initialized: false, ..s },
            InitAction::<Rx>::Return(Err(Error::InitError(e))),
        ),
        client::init_outcome(s, InitEvent::<Rx, Task>::MonitorSpawned(task)) == (
            ClientView { monitor_task: Some(task), ..s },
            InitAction::<Rx>::MarkClientStarted,
        ),
        client::init_outcome(s, InitEvent::<Rx, Task>::ClientStarted(Ok(()))) == (
            s,
            InitAction::<Rx>::Return(Ok(())),
        ),
        client::init_outcome(s, InitEvent::<Rx, Task>::ClientStarted(Err(said))) == (
            ClientView { initialized: false, ..s },
            InitAction::<Rx>::Return(Err(Error::InitError(OSCQueryInitError::MDNSInitFailed))),
        ),
{
}

/// A client that does not run cannot be stopped. One that runs has the sidecar told first;
/// where that fails, all stays as it is. Then its task goes with the sidecar, and after that
/// it neither runs nor knows any address.
pub proof fn law_how_a_client_stops<Task>(s: ClientView<Task>, said: String)
    ensures
        !s.initialized ==> client::deinit_outcome(s, client::DeinitEvent::Begin) == (
            s,
            client::DeinitAction::<Task>::Return(
                Err(Error::InitError(OSCQueryInitError::NotYetInitialized)),
            ),
        ),
        s.initialized ==> client::deinit_outcome(s, client::DeinitEvent::Begin) == (
            s,
            client::DeinitAction::<Task>::MarkClientStopped,
        ),
        client::deinit_outcome(s, client::DeinitEvent::ClientStopped(Err(said))) == (
            s,
            client::DeinitAction::<Task>::Return(
                Err(Error::InitError(OSCQueryInitError::MDNSInitFailed)),
            ),
        ),
        client::deinit_outcome(s, client::DeinitEvent::ClientStopped(Ok(()))) == (
            ClientView { monitor_task: None, ..s },
            client::DeinitAction::TearDown(s.monitor_task),
        ),
        client::deinit_outcome(s, client::DeinitEvent::TornDown) == (
            ClientView {
                initialized: false,
                osc_host: None,
                osc_port: None,
                oscquery_host: None,
                oscquery_port: None,
                monitor_task: s.monitor_task,
            },
            client::DeinitAction::<Task>::Return(Ok(())),
        ),
{
}

} // verus!
