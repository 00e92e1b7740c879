use codex_retry::duration::Duration;
use codex_retry::network_availability::{
    availability_from_route_probes, current_network_availability, ipv4_route, ipv6_route,
    is_unavailable_route_error, probe_udp_route, wait_for_network_availability,
    wait_for_network_availability_with, IoErrorKind, IpAddress, NetworkAvailability,
    NetworkAvailabilityWait, NetworkWait, NetworkWaitAction, ProbeAction, ProbeEvent, ProbedRoute,
    RouteProbe, RouteProbing, SocketAddress,
};

/// Runs a wait against `current_availability`, and says how it ended and what it slept.
fn run_wait(
    mut wait: NetworkWait,
    mut current_availability: impl FnMut() -> NetworkAvailability,
) -> (NetworkAvailabilityWait, Vec<Duration>) {
    let mut slept: Vec<Duration> = Vec::new();
    loop {
        match wait.step(current_availability()) {
            NetworkWaitAction::Return(outcome) => return (outcome, slept),
            NetworkWaitAction::Sleep(interval) => slept.push(interval),
        }
    }
}

/// Runs a probe whose calls end with `bound`, `connected` and `local`.
fn run_probe(
    route: ProbedRoute,
    bound: Result<(), IoErrorKind>,
    connected: Result<(), IoErrorKind>,
    local: Result<SocketAddress, IoErrorKind>,
) -> (RouteProbe, Vec<ProbeAction>) {
    let (mut probe, mut action): (RouteProbing, ProbeAction) =
        probe_udp_route(route.bind_addr, route.target_addr);
    let mut calls: Vec<ProbeAction> = Vec::new();
    loop {
        let event = match action {
            ProbeAction::Bind(_) => ProbeEvent::Bound(bound),
            ProbeAction::Connect(_) => ProbeEvent::Connected(connected),
            ProbeAction::ReadLocalAddr => ProbeEvent::LocalAddr(local),
            ProbeAction::Return(result) => return (result, calls),
        };
        calls.push(action);
        action = probe.step(event);
    }
}

fn local_v4(octets: [u8; 4]) -> Result<SocketAddress, IoErrorKind> {
    Ok(SocketAddress { ip: IpAddress::V4(octets), port: 50000 })
}

#[test]
fn availability_prefers_available_route() {
    assert_eq!(
        availability_from_route_probes(&[RouteProbe::Unavailable, RouteProbe::Available]),
        NetworkAvailability::Available
    );
}

#[test]
fn availability_treats_unknown_as_non_blocking() {
    assert_eq!(
        availability_from_route_probes(&[RouteProbe::Unavailable, RouteProbe::Unknown]),
        NetworkAvailability::Unknown
    );
}

#[test]
fn availability_is_unavailable_only_when_all_routes_are_unavailable() {
    assert_eq!(
        availability_from_route_probes(&[RouteProbe::Unavailable, RouteProbe::Unavailable]),
        NetworkAvailability::Unavailable
    );
}

#[test]
fn wait_for_network_availability_returns_unknown_without_waiting() {
    let (outcome, slept) = run_wait(
        wait_for_network_availability_with(Duration::from_millis(1)),
        || NetworkAvailability::Unknown,
    );

    assert_eq!(
        outcome,
        NetworkAvailabilityWait {
            availability: NetworkAvailability::Unknown,
            waited: false,
        }
    );
    assert!(slept.is_empty());
}

#[test]
fn wait_for_network_availability_waits_until_available() {
    let mut calls: usize = 0;
    let (outcome, slept) = run_wait(
        wait_for_network_availability_with(Duration::from_millis(1)),
        || {
            calls += 1;
            if calls <= 2 {
                NetworkAvailability::Unavailable
            } else {
                NetworkAvailability::Available
            }
        },
    );

    assert_eq!(
        outcome,
        NetworkAvailabilityWait {
            availability: NetworkAvailability::Available,
            waited: true,
        }
    );
    assert_eq!(calls, 3);
    assert_eq!(slept, vec![Duration::from_millis(1), Duration::from_millis(1)]);
}

#[test]
fn wait_that_ends_unknown_says_that_it_waited() {
    let mut calls: usize = 0;
    let (outcome, slept) = run_wait(wait_for_network_availability(), || {
        calls += 1;
        if calls == 1 {
            NetworkAvailability::Unavailable
        } else {
            NetworkAvailability::Unknown
        }
    });
    assert_eq!(
        outcome,
        NetworkAvailabilityWait {
            availability: NetworkAvailability::Unknown,
            waited: true,
        }
    );
    assert_eq!(slept, vec![Duration::from_secs(2)]);
}

#[test]
fn no_probe_leaves_the_network_unavailable() {
    assert_eq!(availability_from_route_probes(&[]), NetworkAvailability::Unavailable);
}

#[test]
fn available_route_beats_unknown_route_in_any_order() {
    assert_eq!(
        availability_from_route_probes(&[RouteProbe::Unknown, RouteProbe::Available]),
        NetworkAvailability::Available
    );
    assert_eq!(
        availability_from_route_probes(&[RouteProbe::Available, RouteProbe::Unknown]),
        NetworkAvailability::Available
    );
}

#[test]
fn either_route_makes_the_network_available() {
    assert_eq!(
        current_network_availability(RouteProbe::Available, RouteProbe::Unavailable),
        NetworkAvailability::Available
    );
    assert_eq!(
        current_network_availability(RouteProbe::Unavailable, RouteProbe::Available),
        NetworkAvailability::Available
    );
    assert_eq!(
        current_network_availability(RouteProbe::Unknown, RouteProbe::Unavailable),
        NetworkAvailability::Unknown
    );
    assert_eq!(
        current_network_availability(RouteProbe::Unavailable, RouteProbe::Unavailable),
        NetworkAvailability::Unavailable
    );
}

#[test]
fn three_kinds_of_failure_mean_that_there_is_no_route() {
    assert!(is_unavailable_route_error(IoErrorKind::AddrNotAvailable));
    assert!(is_unavailable_route_error(IoErrorKind::HostUnreachable));
    assert!(is_unavailable_route_error(IoErrorKind::NetworkUnreachable));
    for kind in [
        IoErrorKind::AddrInUse,
        IoErrorKind::ConnectionRefused,
        IoErrorKind::Interrupted,
        IoErrorKind::InvalidInput,
        IoErrorKind::NetworkDown,
        IoErrorKind::PermissionDenied,
        IoErrorKind::TimedOut,
        IoErrorKind::Unsupported,
        IoErrorKind::Other,
    ] {
        assert!(!is_unavailable_route_error(kind));
    }
}

#[test]
fn probe_with_a_local_address_finds_the_route() {
    let (result, calls) = run_probe(ipv4_route(), Ok(()), Ok(()), local_v4([192, 168, 0, 7]));
    assert_eq!(result, RouteProbe::Available);
    assert_eq!(
        calls,
        vec![
            ProbeAction::Bind(SocketAddress { ip: IpAddress::V4([0, 0, 0, 0]), port: 0 }),
            ProbeAction::Connect(SocketAddress { ip: IpAddress::V4([1, 1, 1, 1]), port: 443 }),
            ProbeAction::ReadLocalAddr,
        ]
    );
}

#[test]
fn probe_of_version_six_connects_to_the_public_resolver() {
    let local = SocketAddress { ip: IpAddress::V6([0xfe80, 0, 0, 0, 0, 0, 0, 1]), port: 50000 };
    let (result, calls) = run_probe(ipv6_route(), Ok(()), Ok(()), Ok(local));
    assert_eq!(result, RouteProbe::Available);
    assert_eq!(
        calls[0],
        ProbeAction::Bind(SocketAddress { ip: IpAddress::V6([0, 0, 0, 0, 0, 0, 0, 0]), port: 0 })
    );
    assert_eq!(
        calls[1],
        ProbeAction::Connect(SocketAddress {
            ip: IpAddress::V6([0x2606, 0x4700, 0x4700, 0, 0, 0, 0, 0x1111]),
            port: 443,
        })
    );
}

#[test]
fn probe_that_cannot_bind_makes_no_other_call() {
    let (result, calls) = run_probe(
        ipv6_route(),
        Err(IoErrorKind::AddrNotAvailable),
        Ok(()),
        local_v4([10, 0, 0, 1]),
    );
    assert_eq!(result, RouteProbe::Unavailable);
    assert_eq!(calls.len(), 1);

    let (result, _) =
        run_probe(ipv6_route(), Err(IoErrorKind::Unsupported), Ok(()), local_v4([10, 0, 0, 1]));
    assert_eq!(result, RouteProbe::Unknown);
}

#[test]
fn probe_that_cannot_connect_tells_a_missing_route_from_other_failures() {
    let (result, calls) = run_probe(
        ipv4_route(),
        Ok(()),
        Err(IoErrorKind::NetworkUnreachable),
        local_v4([10, 0, 0, 1]),
    );
    assert_eq!(result, RouteProbe::Unavailable);
    assert_eq!(calls.len(), 2);

    let (result, _) = run_probe(
        ipv4_route(),
        Ok(()),
        Err(IoErrorKind::PermissionDenied),
        local_v4([10, 0, 0, 1]),
    );
    assert_eq!(result, RouteProbe::Unknown);
}

#[test]
fn probe_without_a_local_address_of_its_own_shows_nothing() {
    let (result, _) = run_probe(ipv4_route(), Ok(()), Ok(()), local_v4([0, 0, 0, 0]));
    assert_eq!(result, RouteProbe::Unknown);
    let (result, _) = run_probe(ipv4_route(), Ok(()), Ok(()), Err(IoErrorKind::AddrNotAvailable));
    assert_eq!(result, RouteProbe::Unknown);
}

#[test]
fn unspecified_addresses_are_all_zero() {
    assert!(IpAddress::V4([0, 0, 0, 0]).is_unspecified());
    assert!(!IpAddress::V4([0, 0, 0, 1]).is_unspecified());
    assert!(!IpAddress::V4([127, 0, 0, 0]).is_unspecified());
    assert!(IpAddress::V6([0, 0, 0, 0, 0, 0, 0, 0]).is_unspecified());
    assert!(!IpAddress::V6([0, 0, 0, 0, 0, 0, 0, 1]).is_unspecified());
    assert!(!IpAddress::V6([0, 0, 0, 0, 0, 0xffff, 0, 0]).is_unspecified());
}
