use offline_monitor::connection::{NetlinkConnection, RequestOutcome};
use offline_monitor::link::{Address, Link, LinkLayerType};
use offline_monitor::monitor::{LinkMonitor, TunnelCommand};
use offline_monitor::Error;

fn eth0_running() -> Link {
    Link { index: 2, link_layer_type: LinkLayerType::Physical, running: true }
}

fn lo() -> Link {
    Link { index: 1, link_layer_type: LinkLayerType::Loopback, running: true }
}

fn addr(index: u32, octets: &[u8]) -> Address {
    Address { index, octets: octets.to_vec() }
}

#[test]
fn baseline_is_recorded_without_emitting() {
    // Monitor starts with no interfaces online at all: the baseline is
    // offline, and construction emits nothing by design (it returns no
    // command at all).
    let monitor = LinkMonitor::new(Ok(vec![]), Ok(vec![])).unwrap();
    assert!(monitor.is_offline());
}

#[test]
fn construction_fails_when_the_initial_evaluation_fails() {
    let err = LinkMonitor::new(Err(Error::NetlinkConnectionError), Ok(vec![]));
    assert_eq!(err.unwrap_err(), Error::NetlinkConnectionError);

    let err = LinkMonitor::new(Ok(vec![eth0_running()]), Err(Error::NetlinkError));
    assert_eq!(err.unwrap_err(), Error::NetlinkError);
}

#[test]
fn construction_succeeds_without_address_outcome_when_nothing_qualifies() {
    // No qualifying link: the verdict is settled without the address query.
    let monitor = LinkMonitor::new(Ok(vec![lo()]), Err(Error::NetlinkError)).unwrap();
    assert!(monitor.is_offline());
}

#[test]
fn unchanged_state_emits_nothing() {
    // First refresh with genuinely unchanged (still offline) state.
    let mut monitor = LinkMonitor::new(Ok(vec![]), Ok(vec![])).unwrap();
    assert_eq!(monitor.update(&Ok(vec![]), &Ok(vec![])), None);
    assert_eq!(monitor.update(&Ok(vec![]), &Ok(vec![])), None);
    assert!(monitor.is_offline());
}

#[test]
fn one_transition_emits_exactly_one_command() {
    // Host online: eth0 running with an IPv4 address; lo carries one too.
    let links = vec![eth0_running(), lo()];
    let addresses = vec![addr(2, &[10, 0, 0, 5]), addr(1, &[127, 0, 0, 1])];
    let mut monitor = LinkMonitor::new(Ok(links.clone()), Ok(addresses)).unwrap();
    assert!(!monitor.is_offline());

    // eth0 loses its address: exactly one IsOffline(true) command.
    let remaining = vec![addr(1, &[127, 0, 0, 1])];
    let command = monitor.update(&Ok(links.clone()), &Ok(remaining.clone()));
    assert_eq!(command, Some(TunnelCommand::IsOffline(true)));

    // The same kernel state again: no further command.
    assert_eq!(monitor.update(&Ok(links), &Ok(remaining)), None);
    assert!(monitor.is_offline());
}

#[test]
fn failed_refresh_is_abandoned_silently() {
    let links = vec![eth0_running()];
    let addresses = vec![addr(2, &[10, 0, 0, 5])];
    let mut monitor = LinkMonitor::new(Ok(links.clone()), Ok(addresses)).unwrap();
    assert!(!monitor.is_offline());

    // The refresh fails: the stored verdict is kept and nothing is emitted,
    // even though the links alone would now look offline.
    assert_eq!(monitor.update(&Ok(links), &Err(Error::GetLinksError)), None);
    assert_eq!(monitor.update(&Err(Error::NetlinkError), &Ok(vec![])), None);
    assert!(!monitor.is_offline());
}

#[test]
fn connection_settles_each_request_outcome() {
    let mut connection = NetlinkConnection::new();

    // A completed link query hands the records back.
    let outcome = RequestOutcome::Response(vec![eth0_running(), lo()]);
    assert_eq!(connection.links(outcome).unwrap(), vec![eth0_running(), lo()]);

    // A completed link query is reduced to the qualifying indices.
    let outcome = RequestOutcome::Response(vec![eth0_running(), lo()]);
    assert_eq!(connection.running_interfaces(outcome).unwrap(), vec![2]);

    // A rejected query surfaces the request error; the connection survives.
    let rejected: RequestOutcome<Vec<Address>> = RequestOutcome::RequestFailed;
    assert_eq!(connection.addresses(rejected).unwrap_err(), Error::GetLinksError);
    let outcome = RequestOutcome::Response(vec![addr(2, &[10, 0, 0, 5])]);
    assert!(connection.addresses(outcome).is_ok());

    // A transport failure consumes the connection ...
    let failed: RequestOutcome<Vec<Address>> = RequestOutcome::ConnectionFailed;
    assert_eq!(connection.addresses(failed).unwrap_err(), Error::NetlinkError);

    // ... and every later request on this instance fails fast.
    let outcome = RequestOutcome::Response(vec![addr(2, &[10, 0, 0, 5])]);
    assert_eq!(connection.addresses(outcome).unwrap_err(), Error::NetlinkDisconnected);
}

#[test]
fn closed_connection_driver_means_disconnected() {
    let mut connection = NetlinkConnection::new();
    let closed: RequestOutcome<Vec<Link>> = RequestOutcome::ConnectionClosed;
    assert_eq!(connection.running_interfaces(closed).unwrap_err(), Error::NetlinkDisconnected);
    let outcome = RequestOutcome::Response(vec![eth0_running()]);
    assert_eq!(connection.running_interfaces(outcome).unwrap_err(), Error::NetlinkDisconnected);
}
