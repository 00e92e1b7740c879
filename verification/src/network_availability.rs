//! Whether the machine has a route to the network, and waiting until it has one.
//!
//! A route is probed by binding a datagram socket, connecting it to a well-known public
//! address and reading the local address that the system chose; nothing is sent.

use crate::duration::Duration;
use vstd::prelude::*;

verus! {

/// Seconds between two looks at the network while it is unavailable.
pub const NETWORK_POLL_INTERVAL_SECS: u64 = 2;

/// The port that the probes connect to.
pub const PROBE_PORT: u16 = 443;

/// Whether the network can be reached.
#[derive(Debug, Clone, Copy, PartialEq, Eq, Structural)]
pub enum NetworkAvailability {
    Available,
    Unavailable,
    Unknown,
}

/// How a wait for the network ended.
#[derive(Debug, Clone, Copy, PartialEq, Eq, Structural)]
pub struct NetworkAvailabilityWait {
    /// What the last look at the network showed.
    pub availability: NetworkAvailability,
    /// Whether the network was found unavailable before that.
    pub waited: bool,
}

/// What the probe of one route showed.
#[derive(Debug, Clone, Copy, PartialEq, Eq, Structural)]
pub enum RouteProbe {
    Available,
    Unavailable,
    Unknown,
}

/// An IP address: the octets of version 4, or the segments of version 6.
#[derive(Debug, Clone, Copy, PartialEq, Eq)]
pub enum IpAddress {
    V4([u8; 4]),
    V6([u16; 8]),
}

impl IpAddress {
    /// Whether every part of the address is zero.
    pub open spec fn all_zero(self) -> bool {
        match self {
            IpAddress::V4(octets) => forall|i: int| 0 <= i < 4 ==> octets@[i] == 0,
            IpAddress::V6(segments) => forall|i: int| 0 <= i < 8 ==> segments@[i] == 0,
        }
    }

    /// Whether this is the unspecified address, which stands for no particular one.
    pub fn is_unspecified(&self) -> (unspecified: bool)
        ensures
            unspecified == self.all_zero(),
    {
        match self {
            IpAddress::V4(octets) => octets[0] == 0 && octets[1] == 0 && octets[2] == 0 && octets[3]
                == 0,
            IpAddress::V6(segments) => segments[0] == 0 && segments[1] == 0 && segments[2] == 0
                && segments[3] == 0 && segments[4] == 0 && segments[5] == 0 && segments[6] == 0
                && segments[7] == 0,
        }
    }
}

/// An IP address and a port.
#[derive(Debug, Clone, Copy, PartialEq, Eq)]
pub struct SocketAddress {
    pub ip: IpAddress,
    pub port: u16,
}

/// The two ends of a route that is probed.
#[derive(Debug, Clone, Copy, PartialEq, Eq)]
pub struct ProbedRoute {
    /// Where the probing socket is bound.
    pub bind_addr: SocketAddress,
    /// What the probing socket is connected to.
    pub target_addr: SocketAddress,
}

/// The kinds of failure that a socket call may report.
#[derive(Debug, Clone, Copy, PartialEq, Eq, Structural)]
pub enum IoErrorKind {
    AddrInUse,
    AddrNotAvailable,
    ConnectionRefused,
    HostUnreachable,
    Interrupted,
    InvalidInput,
    NetworkDown,
    NetworkUnreachable,
    PermissionDenied,
    TimedOut,
    Unsupported,
    /// Any other kind.
    Other,
}

/// The route of IP version 4 that is probed: from any local address and port to the public
/// resolver at 1.1.1.1.
pub fn ipv4_route() -> (route: ProbedRoute)
    ensures
        route.bind_addr.ip matches IpAddress::V4(octets) && octets@ == seq![0u8, 0, 0, 0],
        route.bind_addr.ip.all_zero(),
        route.bind_addr.port == 0,
        route.target_addr.ip matches IpAddress::V4(octets) && octets@ == seq![1u8, 1, 1, 1],
        route.target_addr.port == PROBE_PORT,
{
    ProbedRoute {
        bind_addr: SocketAddress { ip: IpAddress::V4([0, 0, 0, 0]), port: 0 },
        target_addr: SocketAddress { ip: IpAddress::V4([1, 1, 1, 1]), port: PROBE_PORT },
    }
}

/// The route of IP version 6 that is probed: from any local address and port to the public
/// resolver at 2606:4700:4700::1111.
pub fn ipv6_route() -> (route: ProbedRoute)
    ensures
        route.bind_addr.ip matches IpAddress::V6(segments) && segments@ == seq![
            0u16,
            0,
            0,
            0,
            0,
            0,
            0,
            0,
        ],
        route.bind_addr.ip.all_zero(),
        route.bind_addr.port == 0,
        route.target_addr.ip matches IpAddress::V6(segments) && segments@ == seq![
            0x2606u16,
            0x4700,
            0x4700,
            0,
            0,
            0,
            0,
            0x1111,
        ],
        route.target_addr.port == PROBE_PORT,
{
    ProbedRoute {
        bind_addr: SocketAddress { ip: IpAddress::V6([0, 0, 0, 0, 0, 0, 0, 0]), port: 0 },
        target_addr: SocketAddress {
            ip: IpAddress::V6([0x2606, 0x4700, 0x4700, 0, 0, 0, 0, 0x1111]),
            port: PROBE_PORT,
        },
    }
}

/// Whether a failure of kind `kind` says that there is no route.
pub open spec fn means_no_route(kind: IoErrorKind) -> bool {
    kind is AddrNotAvailable || kind is HostUnreachable || kind is NetworkUnreachable
}

/// Whether a failure of kind `kind` says that there is no route.
pub fn is_unavailable_route_error(kind: IoErrorKind) -> (no_route: bool)
    ensures
        no_route == means_no_route(kind),
{
    matches!(
        kind,
        IoErrorKind::AddrNotAvailable | IoErrorKind::HostUnreachable
            | IoErrorKind::NetworkUnreachable
    )
}

/// What the probe of a route shows when one of its socket calls fails with `kind`.
pub open spec fn failed_probe(kind: IoErrorKind) -> RouteProbe {
    if means_no_route(kind) {
        RouteProbe::Unavailable
    } else {
        RouteProbe::Unknown
    }
}

/// What the probe of a route shows when its socket got the local address `local`.
pub open spec fn connected_probe(local: Result<SocketAddress, IoErrorKind>) -> RouteProbe {
    match local {
        Ok(addr) => if addr.ip.all_zero() {
            RouteProbe::Unknown
        } else {
            RouteProbe::Available
        },
        Err(_) => RouteProbe::Unknown,
    }
}

/// How far the probe of a route has come.
#[derive(Debug, Clone, Copy, PartialEq, Eq, Structural)]
pub enum ProbePhase {
    Binding,
    Connecting,
    ReadingLocalAddr,
    Finished,
}

/// What the probe of a route asks for next.
#[derive(Debug, Clone, Copy, PartialEq, Eq)]
pub enum ProbeAction {
    /// Bind a datagram socket to this address.
    Bind(SocketAddress),
    /// Connect the socket to this address.
    Connect(SocketAddress),
    /// Read the local address of the socket.
    ReadLocalAddr,
    /// The probe is over, with this result.
    Return(RouteProbe),
}

/// What came of an action of a probe.
#[derive(Debug, Clone, Copy, PartialEq, Eq)]
pub enum ProbeEvent {
    Bound(Result<(), IoErrorKind>),
    Connected(Result<(), IoErrorKind>),
    LocalAddr(Result<SocketAddress, IoErrorKind>),
}

/// The probe of one route, while it runs.
#[derive(Debug, Clone, Copy, PartialEq, Eq)]
pub struct RouteProbing {
    pub target_addr: SocketAddress,
    pub phase: ProbePhase,
}

impl RouteProbing {
    /// Whether `event` is an answer to the action that was asked for last.
    pub open spec fn expects(self, event: ProbeEvent) -> bool {
        match event {
            ProbeEvent::Bound(_) => self.phase is Binding,
            ProbeEvent::Connected(_) => self.phase is Connecting,
            ProbeEvent::LocalAddr(_) => self.phase is ReadingLocalAddr,
        }
    }

    /// The probe in phase `phase`.
    pub open spec fn at(self, phase: ProbePhase) -> RouteProbing {
        RouteProbing { phase, ..self }
    }

    /// What the probe becomes after `event`, and what it asks for then.
    pub open spec fn next(self, event: ProbeEvent) -> (RouteProbing, ProbeAction) {
        match event {
            ProbeEvent::Bound(Ok(_)) => (
                self.at(ProbePhase::Connecting),
                ProbeAction::Connect(self.target_addr),
            ),
            ProbeEvent::Connected(Ok(_)) => (
                self.at(ProbePhase::ReadingLocalAddr),
                ProbeAction::ReadLocalAddr,
            ),
            ProbeEvent::Bound(Err(kind)) => (
                self.at(ProbePhase::Finished),
                ProbeAction::Return(failed_probe(kind)),
            ),
            ProbeEvent::Connected(Err(kind)) => (
                self.at(ProbePhase::Finished),
                ProbeAction::Return(failed_probe(kind)),
            ),
            ProbeEvent::LocalAddr(local) => (
                self.at(ProbePhase::Finished),
                ProbeAction::Return(connected_probe(local)),
            ),
        }
    }

    /// Takes what came of the last action and says what to do next.
    pub fn step(&mut self, event: ProbeEvent) -> (action: ProbeAction)
        requires
            old(self).expects(event),
        ensures
            (*final(self), action) == old(self).next(event),
    {
        match event {
            ProbeEvent::Bound(Ok(_)) => {
                self.phase = ProbePhase::Connecting;
                ProbeAction::Connect(self.target_addr)
            },
            ProbeEvent::Connected(Ok(_)) => {
                self.phase = ProbePhase::ReadingLocalAddr;
                ProbeAction::ReadLocalAddr
            },
            ProbeEvent::Bound(Err(kind)) | ProbeEvent::Connected(Err(kind)) => {
                self.phase = ProbePhase::Finished;
                if is_unavailable_route_error(kind) {
                    ProbeAction::Return(RouteProbe::Unavailable)
                } else {
                    ProbeAction::Return(RouteProbe::Unknown)
                }
            },
            ProbeEvent::LocalAddr(local) => {
                self.phase = ProbePhase::Finished;
                match local {
                    Ok(addr) => if !addr.ip.is_unspecified() {
                        ProbeAction::Return(RouteProbe::Available)
                    } else {
                        ProbeAction::Return(RouteProbe::Unknown)
                    },
                    Err(_) => ProbeAction::Return(RouteProbe::Unknown),
                }
            },
        }
    }
}

/// The probe of a route to `target_addr`, before its socket was bound.
pub open spec fn started_probe(target_addr: SocketAddress) -> RouteProbing {
    RouteProbing { target_addr, phase: ProbePhase::Binding }
}

/// Starts the probe of the route from `bind_addr` to `target_addr`.
pub fn probe_udp_route(bind_addr: SocketAddress, target_addr: SocketAddress) -> (started: (
    RouteProbing,
    ProbeAction,
))
    ensures
        started.0 == started_probe(target_addr),
        started.1 == ProbeAction::Bind(bind_addr),
{
    (RouteProbing { target_addr, phase: ProbePhase::Binding }, ProbeAction::Bind(bind_addr))
}

/// What probes of several routes show of the network: one route is enough, and only where
/// every route is known to be missing is the network known to be unavailable.
pub open spec fn availability_of(probes: Seq<RouteProbe>) -> NetworkAvailability {
    if probes.contains(RouteProbe::Available) {
        NetworkAvailability::Available
    } else if probes.contains(RouteProbe::Unknown) {
        NetworkAvailability::Unknown
    } else {
        NetworkAvailability::Unavailable
    }
}

/// Whether one of `probes` is `wanted`.
fn contains_probe(probes: &[RouteProbe], wanted: RouteProbe) -> (found: bool)
    ensures
        found == probes@.contains(wanted),
{
    let mut i: usize = 0;
    while i < probes.len()
        invariant
            i <= probes@.len(),
            forall|j: int| 0 <= j < i ==> probes@[j] != wanted,
        decreases probes@.len() - i,
    {
        if probes[i] == wanted {
            return true;
        }
        i += 1;
    }
    false
}

/// What probes of several routes show of the network.
pub fn availability_from_route_probes(probes: &[RouteProbe]) -> (availability: NetworkAvailability)
    ensures
        availability == availability_of(probes@),
{
    if contains_probe(probes, RouteProbe::Available) {
        return NetworkAvailability::Available;
    }
    if contains_probe(probes, RouteProbe::Unknown) {
        return NetworkAvailability::Unknown;
    }
    NetworkAvailability::Unavailable
}

/// Whether the network can be reached, from what the probes of `ipv4_route` and of
/// `ipv6_route` showed.
pub fn current_network_availability(ipv4: RouteProbe, ipv6: RouteProbe) -> (availability:
    NetworkAvailability)
    ensures
        availability == availability_of(seq![ipv4, ipv6]),
{
    let probes: [RouteProbe; 2] = [ipv4, ipv6];
    proof {
        assert(probes@ =~= seq![ipv4, ipv6]);
    }
    availability_from_route_probes(&probes)
}

/// What a wait for the network asks for next.
#[derive(Debug, Clone, Copy, PartialEq, Eq)]
pub enum NetworkWaitAction {
    /// Sleep that long, then look at the network again.
    Sleep(Duration),
    /// The wait is over.
    Return(NetworkAvailabilityWait),
}

/// A wait for the network, while it lasts. It begins with a look at the network.
#[derive(Debug, Clone, Copy, PartialEq, Eq)]
pub struct NetworkWait {
    pub poll_interval: Duration,
    /// Whether the network was found unavailable so far.
    pub waited: bool,
}

impl NetworkWait {
    /// What the wait becomes after a look that showed `availability`, and what it asks for
    /// then.
    pub open spec fn next(self, availability: NetworkAvailability) -> (
        NetworkWait,
        NetworkWaitAction,
    ) {
        if availability is Unavailable {
            (
                NetworkWait { waited: true, ..self },
                NetworkWaitAction::Sleep(self.poll_interval),
            )
        } else {
            (
                self,
                NetworkWaitAction::Return(
                    NetworkAvailabilityWait { availability, waited: self.waited },
                ),
            )
        }
    }

    /// Takes what a look at the network showed and says what to do next. Only a network that
    /// is known to be unavailable is waited for.
    pub fn step(&mut self, availability: NetworkAvailability) -> (action: NetworkWaitAction)
        ensures
            (*final(self), action) == old(self).next(availability),
    {
        match availability {
            NetworkAvailability::Available | NetworkAvailability::Unknown => {
                NetworkWaitAction::Return(
                    NetworkAvailabilityWait { availability, waited: self.waited },
                )
            },
            NetworkAvailability::Unavailable => {
                self.waited = true;
                NetworkWaitAction::Sleep(self.poll_interval)
            },
        }
    }
}

/// A wait for the network that sleeps `poll_interval` between two looks, before the first look.
pub open spec fn started_wait(poll_interval: Duration) -> NetworkWait {
    NetworkWait { poll_interval, waited: false }
}

/// Starts a wait for the network that sleeps `poll_interval` between two looks.
pub fn wait_for_network_availability_with(poll_interval: Duration) -> (wait: NetworkWait)
    ensures
        wait == started_wait(poll_interval),
{
    NetworkWait { poll_interval, waited: false }
}

/// Starts a wait for the network that looks again every `NETWORK_POLL_INTERVAL_SECS` seconds.
pub fn wait_for_network_availability() -> (wait: NetworkWait)
    ensures
        wait.poll_interval@ == NETWORK_POLL_INTERVAL_SECS * 1_000_000_000,
        !wait.waited,
{
    wait_for_network_availability_with(Duration::from_secs(NETWORK_POLL_INTERVAL_SECS))
}

/// One route is enough for the network to be available; it is unavailable exactly where every
/// route is, and unknown where no route is known to exist and one is not known to be missing.
pub proof fn law_availability_of_routes(probes: Seq<RouteProbe>)
    ensures
        availability_of(probes) is Available <==> exists|i: int|
            0 <= i < probes.len() && #[trigger] probes[i] is Available,
        availability_of(probes) is Unavailable <==> forall|i: int|
            0 <= i < probes.len() ==> #[trigger] probes[i] is Unavailable,
        availability_of(probes) is Unknown <==> {
            &&& forall|i: int| 0 <= i < probes.len() ==> !(#[trigger] probes[i] is Available)
            &&& exists|i: int| 0 <= i < probes.len() && #[trigger] probes[i] is Unknown
        },
{
    if availability_of(probes) is Unavailable {
        assert forall|i: int| 0 <= i < probes.len() implies #[trigger] probes[i]
            is Unavailable by {
            assert(probes.contains(probes[i]));
        }
    }
    if exists|i: int| 0 <= i < probes.len() && #[trigger] probes[i] is Available {
        let i = choose|i: int| 0 <= i < probes.len() && #[trigger] probes[i] is Available;
        assert(probes.contains(probes[i]));
    }
    if exists|i: int| 0 <= i < probes.len() && #[trigger] probes[i] is Unknown {
        let i = choose|i: int| 0 <= i < probes.len() && #[trigger] probes[i] is Unknown;
        assert(probes.contains(probes[i]));
    }
}

/// Neither the order of the probes nor how often a result occurs makes a difference.
pub proof fn law_order_of_routes_is_irrelevant(one: Seq<RouteProbe>, other: Seq<RouteProbe>)
    requires
        one.to_set() == other.to_set(),
    ensures
        availability_of(one) == availability_of(other),
{
    assert forall|probe: RouteProbe| #[trigger] one.contains(probe) == other.contains(probe) by {
        assert(one.to_set().contains(probe) == one.contains(probe));
        assert(other.to_set().contains(probe) == other.contains(probe));
    }
}

/// What the probe of a route to `target_addr` returns where its calls would end with `bound`,
/// `connected` and `local`, in this order; it makes no call after one that failed.
pub open spec fn probed(
    target_addr: SocketAddress,
    bound: Result<(), IoErrorKind>,
    connected: Result<(), IoErrorKind>,
    local: Result<SocketAddress, IoErrorKind>,
) -> ProbeAction {
    let (after_bind, first) = started_probe(target_addr).next(ProbeEvent::Bound(bound));
    let (after_connect, second) = after_bind.next(ProbeEvent::Connected(connected));
    let (_, third) = after_connect.next(ProbeEvent::LocalAddr(local));
    if first is Return {
        first
    } else if second is Return {
        second
    } else {
        third
    }
}

/// A route is available exactly where a socket could be bound and connected and got a local
/// address of its own, and it is unavailable exactly where binding or connecting failed for
/// want of a route. Everything else leaves the route unknown. The socket is connected to the
/// target and to nothing else.
pub proof fn law_route_probe(
    target_addr: SocketAddress,
    bound: Result<(), IoErrorKind>,
    connected: Result<(), IoErrorKind>,
    local: Result<SocketAddress, IoErrorKind>,
)
    ensures
        probed(target_addr, bound, connected, local) is Return,
        probed(target_addr, bound, connected, local) == ProbeAction::Return(RouteProbe::Available)
            <==> {
            &&& bound is Ok
            &&& connected is Ok
            &&& local matches Ok(addr) && !addr.ip.all_zero()
        },
        probed(target_addr, bound, connected, local) == ProbeAction::Return(
            RouteProbe::Unavailable,
        ) <==> {
            ||| bound matches Err(kind) && means_no_route(kind)
            ||| bound is Ok && (connected matches Err(kind) && means_no_route(kind))
        },
        bound is Ok ==> started_probe(target_addr).next(ProbeEvent::Bound(bound)).1
            == ProbeAction::Connect(target_addr),
{
}

/// A probe that asked for a call goes on with what came of that call, and one that returned
/// goes on with nothing.
pub proof fn law_probe_takes_its_answers(probe: RouteProbing, event: ProbeEvent)
    requires
        probe.expects(event),
    ensures
        forall|answer: ProbeEvent|
            #![trigger probe.next(event).0.expects(answer)]
            probe.next(event).0.expects(answer) <==> match probe.next(event).1 {
                ProbeAction::Bind(_) => answer is Bound,
                ProbeAction::Connect(_) => answer is Connected,
                ProbeAction::ReadLocalAddr => answer is LocalAddr,
                ProbeAction::Return(_) => false,
            },
{
}

/// A wait for the network after `looks` looks at it, of which number `i` showed `seen[i]`.
pub open spec fn after_looks(
    wait: NetworkWait,
    seen: Seq<NetworkAvailability>,
    looks: nat,
) -> NetworkWait
    decreases looks,
{
    if looks == 0 {
        wait
    } else {
        after_looks(wait, seen, (looks - 1) as nat).next(seen[looks - 1]).0
    }
}

/// A wait for the network sleeps for its interval after each look that shows the network
/// unavailable. The first look that does not ends the wait: what it showed is returned, and
/// whether there was one before it.
pub proof fn law_network_wait(
    poll_interval: Duration,
    seen: Seq<NetworkAvailability>,
    last: nat,
)
    requires
        last < seen.len(),
        forall|i: int| 0 <= i < last ==> #[trigger] seen[i] is Unavailable,
        !(seen[last as int] is Unavailable),
    ensures
        forall|i: int|
            0 <= i < last ==> after_looks(started_wait(poll_interval), seen, i as nat).next(
                #[trigger] seen[i],
            ).1 == NetworkWaitAction::Sleep(poll_interval),
        after_looks(started_wait(poll_interval), seen, last).next(
            seen[last as int],
        ).1 == NetworkWaitAction::Return(
            (NetworkAvailabilityWait { availability: seen[last as int], waited: last > 0 }),
        ),
{
    assert forall|i: int| 0 <= i < last implies after_looks(
        started_wait(poll_interval),
        seen,
        i as nat,
    ).next(#[trigger] seen[i]).1 == NetworkWaitAction::Sleep(poll_interval) by {
        lemma_after_unavailable_looks(poll_interval, seen, i as nat);
    }
    lemma_after_unavailable_looks(poll_interval, seen, last);
}

/// A wait that saw nothing but an unavailable network goes on with the interval it began with.
proof fn lemma_after_unavailable_looks(
    poll_interval: Duration,
    seen: Seq<NetworkAvailability>,
    looks: nat,
)
    requires
        looks <= seen.len(),
        forall|i: int| 0 <= i < looks ==> #[trigger] seen[i] is Unavailable,
    ensures
        after_looks(started_wait(poll_interval), seen, looks) == (NetworkWait {
            poll_interval,
            waited: looks > 0,
        }),
    decreases looks,
{
    if looks > 0 {
        lemma_after_unavailable_looks(poll_interval, seen, (looks - 1) as nat);
        assert(seen[looks - 1] is Unavailable);
    }
}

/// A wait never ends with an unavailable network, and a network of which nothing is known is
/// not waited for.
pub proof fn law_only_an_unavailable_network_is_waited_for(
    wait: NetworkWait,
    availability: NetworkAvailability,
)
    ensures
        wait.next(availability).1 is Sleep <==> availability is Unavailable,
        wait.next(availability).1 matches NetworkWaitAction::Return(ended)
            ==> !(ended.availability is Unavailable),
{
}

/// An address of IP version 4, octet by octet.
proof fn lemma_octets(octets: [u8; 4])
    ensures
        IpAddress::V4(octets).all_zero() <==> octets@[0] == 0 && octets@[1] == 0 && octets@[2] == 0
            && octets@[3] == 0,
        octets@.len() == 4,
{
    let address = IpAddress::V4(octets);
    if octets@[0] == 0 && octets@[1] == 0 && octets@[2] == 0 && octets@[3] == 0 {
        assert forall|i: int| 0 <= i < 4 implies octets@[i] == 0 by {
            assert(i == 0 || i == 1 || i == 2 || i == 3);
        }
        assert(address.all_zero());
    }
    if address.all_zero() {
        match address {
            IpAddress::V4(held) => {
                assert(held@[0] == 0 && held == octets);
            },
            IpAddress::V6(_) => {},
        }
    }
}

/// An address of IP version 6, as a sequence.
proof fn lemma_segments(segments: [u16; 8])
    ensures
        IpAddress::V6(segments).all_zero() <==> !(exists|i: int|
            0 <= i < 8 && #[trigger] segments@[i] != 0),
        segments@.len() == 8,
{
    let address = IpAddress::V6(segments);
    match address {
        IpAddress::V4(_) => {},
        IpAddress::V6(held) => {
            assert(held == segments);
            assert forall|i: int| 0 <= i < 8 implies held@[i] == #[trigger] segments@[i] by {}
        },
    }
}

/// An address of IP version 4 is unspecified exactly where none of its octets is other than zero.
pub proof fn law_unspecified_ipv4(octets: [u8; 4], unspecified: bool)
    requires
        call_ensures(IpAddress::is_unspecified, (&(IpAddress::V4(octets)),), unspecified),
    ensures
        unspecified <==> octets@ == seq![0u8, 0, 0, 0],
        octets@[0] != 0 || octets@[1] != 0 || octets@[2] != 0 || octets@[3] != 0
            <==> !unspecified,
{
    lemma_octets(octets);
    if unspecified {
        assert(octets@ =~= seq![0u8, 0, 0, 0]);
    }
}

/// An address of IP version 6 is unspecified exactly where none of its segments is other than
/// zero.
pub proof fn law_unspecified_ipv6(segments: [u16; 8], unspecified: bool)
    requires
        call_ensures(IpAddress::is_unspecified, (&(IpAddress::V6(segments)),), unspecified),
    ensures
        unspecified <==> segments@ == seq![0u16, 0, 0, 0, 0, 0, 0, 0],
        forall|i: int| 0 <= i < 8 && #[trigger] segments@[i] != 0 ==> !unspecified,
{
    lemma_segments(segments);
    let zeros = seq![0u16, 0, 0, 0, 0, 0, 0, 0];
    assert forall|i: int| 0 <= i < 8 implies #[trigger] zeros[i] == 0 by {
        assert(i == 0 || i == 1 || i == 2 || i == 3 || i == 4 || i == 5 || i == 6 || i == 7);
    }
    if unspecified {
        assert(segments@ =~= zeros);
    }
}

/// The routes that are probed lead from an unspecified address and any port to port 443 of a
/// resolver, 1.1.1.1 and 2606:4700:4700::1111.
pub proof fn law_probed_routes(ipv4: ProbedRoute, ipv6: ProbedRoute)
    requires
        call_ensures(ipv4_route, (), ipv4),
        call_ensures(ipv6_route, (), ipv6),
    ensures
        ipv4.bind_addr.port == 0,
        ipv4.bind_addr.ip matches IpAddress::V4(octets) && octets@ == seq![0u8, 0, 0, 0],
        ipv4.target_addr.port == 443,
        ipv4.target_addr.ip matches IpAddress::V4(octets) && octets@ == seq![1u8, 1, 1, 1],
        ipv6.bind_addr.port == 0,
        ipv6.bind_addr.ip matches IpAddress::V6(segments) && segments@ == seq![
            0u16,
            0,
            0,
            0,
            0,
            0,
            0,
            0,
        ],
        ipv6.target_addr.port == 443,
        ipv6.target_addr.ip matches IpAddress::V6(segments) && segments@ == seq![
            0x2606u16,
            0x4700,
            0x4700,
            0,
            0,
            0,
            0,
            0x1111,
        ],
{
}

/// Three kinds of failure say that there is no route, and no other does.
pub proof fn law_failures_for_want_of_a_route(kind: IoErrorKind, no_route: bool)
    requires
        call_ensures(is_unavailable_route_error, (kind,), no_route),
    ensures
        no_route <==> {
            ||| kind == IoErrorKind::AddrNotAvailable
            ||| kind == IoErrorKind::HostUnreachable
            ||| kind == IoErrorKind::NetworkUnreachable
        },
{
}

/// A probe binds, then connects to its target, then reads the local address. Where that has an
/// octet other than zero, the route is available.
pub proof fn law_open_ipv4_route_is_available(
    bind_addr: SocketAddress,
    target_addr: SocketAddress,
    started: (RouteProbing, ProbeAction),
    octets: [u8; 4],
    port: u16,
)
    requires
        call_ensures(probe_udp_route, (bind_addr, target_addr), started),
    ensures
        started.1 == ProbeAction::Bind(bind_addr),
        ({
            let (bound, connect) = started.0.next(ProbeEvent::Bound(Ok(())));
            let (connected, read) = bound.next(ProbeEvent::Connected(Ok(())));
            let local = SocketAddress { ip: IpAddress::V4(octets), port };
            let (_, result) = connected.next(ProbeEvent::LocalAddr(Ok(local)));
            &&& forall|answer: ProbeEvent| #[trigger]
                started.0.expects(answer) <==> answer is Bound
            &&& connect == ProbeAction::Connect(target_addr)
            &&& bound.expects(ProbeEvent::Connected(Ok(())))
            &&& read == ProbeAction::ReadLocalAddr
            &&& connected.expects(ProbeEvent::LocalAddr(Ok(local)))
            &&& result == ProbeAction::Return(
                if octets@[0] != 0 || octets@[1] != 0 || octets@[2] != 0 || octets@[3] != 0 {
                    RouteProbe::Available
                } else {
                    RouteProbe::Unknown
                },
            )
        }),
{
    lemma_octets(octets);
}

/// A probe binds, then connects to its target, then reads the local address. Where that has a
/// segment other than zero, the route is available.
pub proof fn law_open_ipv6_route_is_available(
    bind_addr: SocketAddress,
    target_addr: SocketAddress,
    started: (RouteProbing, ProbeAction),
    segments: [u16; 8],
    port: u16,
)
    requires
        call_ensures(probe_udp_route, (bind_addr, target_addr), started),
    ensures
        ({
            let (bound, connect) = started.0.next(ProbeEvent::Bound(Ok(())));
            let (connected, read) = bound.next(ProbeEvent::Connected(Ok(())));
            let local = SocketAddress { ip: IpAddress::V6(segments), port };
            let (_, result) = connected.next(ProbeEvent::LocalAddr(Ok(local)));
            &&& connect == ProbeAction::Connect(target_addr)
            &&& read == ProbeAction::ReadLocalAddr
            &&& result == ProbeAction::Return(
                if exists|i: int| 0 <= i < 8 && #[trigger] segments@[i] != 0 {
                    RouteProbe::Available
                } else {
                    RouteProbe::Unknown
                },
            )
        }),
{
    lemma_segments(segments);
}

/// A socket call that fails ends a probe: the route is unavailable where binding or connecting
/// failed for want of an address or a way to the network or the host, and unknown otherwise.
pub proof fn law_failed_call_ends_a_probe(probe: RouteProbing, kind: IoErrorKind)
    ensures
        ({
            let missing = kind == IoErrorKind::AddrNotAvailable || kind
                == IoErrorKind::HostUnreachable || kind == IoErrorKind::NetworkUnreachable;
            let result = ProbeAction::Return(
                if missing {
                    RouteProbe::Unavailable
                } else {
                    RouteProbe::Unknown
                },
            );
            &&& probe.next(ProbeEvent::Bound(Err(kind))).1 == result
            &&& probe.next(ProbeEvent::Connected(Err(kind))).1 == result
            &&& probe.next(ProbeEvent::LocalAddr(Err(kind))).1 == ProbeAction::Return(
                RouteProbe::Unknown,
            )
        }),
{
}

/// The network is available where some route is, unavailable where every route is, and unknown
/// otherwise.
pub proof fn law_availability_from_route_probes(
    probes: &[RouteProbe],
    availability: NetworkAvailability,
)
    requires
        call_ensures(availability_from_route_probes, (probes,), availability),
    ensures
        availability == NetworkAvailability::Available <==> exists|i: int|
            0 <= i < probes@.len() && #[trigger] probes@[i] == RouteProbe::Available,
        availability == NetworkAvailability::Unavailable <==> forall|i: int|
            0 <= i < probes@.len() ==> #[trigger] probes@[i] == RouteProbe::Unavailable,
{
    law_availability_of_routes(probes@);
}

/// The network is available where one of the two routes is, unavailable where both are, and
/// unknown otherwise.
pub proof fn law_current_network_availability(
    ipv4: RouteProbe,
    ipv6: RouteProbe,
    availability: NetworkAvailability,
)
    requires
        call_ensures(current_network_availability, (ipv4, ipv6), availability),
    ensures
        availability == NetworkAvailability::Available <==> ipv4 == RouteProbe::Available || ipv6
            == RouteProbe::Available,
        availability == NetworkAvailability::Unavailable <==> ipv4 == RouteProbe::Unavailable
            && ipv6 == RouteProbe::Unavailable,
{
    let probes = seq![ipv4, ipv6];
    law_availability_of_routes(probes);
    assert(probes[0] == ipv4 && probes[1] == ipv6);
}

/// A wait begins with nothing waited for yet, and looks every two seconds where no other interval
/// is given.
pub proof fn law_begin_of_a_network_wait(
    poll_interval: Duration,
    given: NetworkWait,
    usual: NetworkWait,
)
    requires
        call_ensures(wait_for_network_availability_with, (poll_interval,), given),
        call_ensures(wait_for_network_availability, (), usual),
    ensures
        given.poll_interval == poll_interval,
        !given.waited,
        usual.poll_interval@ == 2_000_000_000,
        !usual.waited,
{
}

/// A look that shows the network unavailable is remembered and followed by a sleep of the wait's
/// interval. Any other look ends the wait with what it showed and what is remembered.
pub proof fn law_look_at_the_network(wait: NetworkWait)
    ensures
        wait.next(NetworkAvailability::Unavailable).1 == NetworkWaitAction::Sleep(
            wait.poll_interval,
        ),
        wait.next(NetworkAvailability::Unavailable).0.waited,
        wait.next(NetworkAvailability::Unavailable).0.poll_interval == wait.poll_interval,
        forall|availability: NetworkAvailability|
            availability != NetworkAvailability::Unavailable ==> (
            #[trigger] wait.next(availability)).1 == NetworkWaitAction::Return(
                (NetworkAvailabilityWait { availability, waited: wait.waited }),
            ),
{
}

} // verus!
