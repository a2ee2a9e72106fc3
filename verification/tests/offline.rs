use offline_monitor::evaluator::{check_if_offline, is_offline};
use offline_monitor::link::{running_interfaces, Address, Link, LinkLayerType};
use offline_monitor::Error;

fn link(index: u32, link_layer_type: LinkLayerType, running: bool) -> Link {
    Link { index, link_layer_type, running }
}

fn addr(index: u32, octets: &[u8]) -> Address {
    Address { index, octets: octets.to_vec() }
}

#[test]
fn offline_with_no_links_at_all() {
    assert!(check_if_offline(&vec![], &vec![]));
    assert!(check_if_offline(&vec![], &vec![addr(1, &[127, 0, 0, 1]), addr(7, &[10, 0, 0, 1])]));
}

#[test]
fn evaluator_is_deterministic_on_identical_input() {
    let links = vec![
        link(2, LinkLayerType::Physical, true),
        link(1, LinkLayerType::Loopback, true),
    ];
    let addresses = vec![addr(2, &[10, 0, 0, 5])];
    let first = check_if_offline(&links, &addresses);
    let second = check_if_offline(&links, &addresses);
    assert_eq!(first, second);
    assert!(!first);
}

#[test]
fn qualifying_link_without_address_is_offline() {
    let links = vec![link(5, LinkLayerType::Physical, true)];
    assert!(check_if_offline(&links, &vec![]));
    // An address owned by the qualifying interface flips the verdict.
    assert!(!check_if_offline(&links, &vec![addr(5, &[192, 168, 1, 3])]));
}

#[test]
fn loopback_link_never_makes_the_host_online() {
    let links = vec![link(1, LinkLayerType::Loopback, true)];
    let addresses = vec![addr(1, &[127, 0, 0, 1])];
    assert!(check_if_offline(&links, &addresses));
}

#[test]
fn non_running_link_never_makes_the_host_online() {
    let links = vec![link(3, LinkLayerType::Physical, false)];
    let addresses = vec![addr(3, &[10, 0, 0, 9])];
    assert!(check_if_offline(&links, &addresses));
}

#[test]
fn no_link_layer_link_never_makes_the_host_online() {
    let links = vec![link(4, LinkLayerType::NoLinkLayer, true)];
    let addresses = vec![addr(4, &[10, 9, 0, 1])];
    assert!(check_if_offline(&links, &addresses));
}

#[test]
fn running_host_with_lo_and_eth0_is_online() {
    // eth0 is running and has an IPv4 address; lo is loopback.
    let links = vec![
        link(2, LinkLayerType::Physical, true),
        link(1, LinkLayerType::Loopback, true),
    ];
    let addresses = vec![addr(2, &[10, 0, 0, 5]), addr(1, &[127, 0, 0, 1])];
    assert!(!check_if_offline(&links, &addresses));
    // Removing eth0's address leaves only the loopback address: offline.
    let addresses = vec![addr(1, &[127, 0, 0, 1])];
    assert!(check_if_offline(&links, &addresses));
}

#[test]
fn running_interfaces_keeps_qualifying_indices_once() {
    let links = vec![
        link(2, LinkLayerType::Physical, true),
        link(1, LinkLayerType::Loopback, true),
        link(2, LinkLayerType::Tunnel, true),
        link(9, LinkLayerType::Physical, false),
        link(7, LinkLayerType::Tunnel, true),
    ];
    let indices = running_interfaces(&links);
    assert_eq!(indices, vec![2, 7]);
}

#[test]
fn query_failure_reports_online() {
    // Fail open: a failed link query is never reported as offline.
    let addresses = vec![addr(2, &[10, 0, 0, 5])];
    assert!(!is_offline(&Err(Error::GetLinksError), &Ok(addresses)));
    assert!(!is_offline(&Err(Error::NetlinkError), &Ok(vec![])));
}

#[test]
fn address_query_failure_reports_online_when_links_qualify() {
    let links = vec![link(2, LinkLayerType::Physical, true)];
    assert!(!is_offline(&Ok(links), &Err(Error::GetLinksError)));
}

#[test]
fn address_query_is_not_consulted_without_qualifying_links() {
    // With no qualifying link the verdict is settled as offline before the
    // address query matters.
    let links = vec![link(1, LinkLayerType::Loopback, true)];
    assert!(is_offline(&Ok(links), &Err(Error::NetlinkError)));
    assert!(is_offline(&Ok(vec![]), &Err(Error::NetlinkError)));
}

#[test]
fn successful_queries_give_the_evaluator_verdict() {
    let links = vec![link(2, LinkLayerType::Physical, true)];
    let addresses = vec![addr(2, &[10, 0, 0, 5])];
    assert!(!is_offline(&Ok(links.clone()), &Ok(addresses)));
    assert!(is_offline(&Ok(links), &Ok(vec![])));
}
