//! Computing the offline verdict from the interface and address records of
//! one kernel query cycle.

use vstd::prelude::*;

use crate::link::{
    Address, Link, any_qualifying, contains_index, is_qualifying_index, qualifying_link_with_index,
    qualifying_upto, running_interfaces, spec_link_provides_connectivity,
};
use crate::Error;

verus! {

/// The host is offline iff no address is assigned to an interface whose
/// link provides connectivity.  In particular, with no qualifying link at
/// all the host is offline.
pub open spec fn spec_is_offline(links: Seq<Link>, addresses: Seq<Address>) -> bool {
    forall|j: int|
        0 <= j < addresses.len() ==> !is_qualifying_index(links, #[trigger] addresses[j].index)
}

/// What one evaluation cycle concludes from the outcomes of the two kernel
/// queries: `None` when the evaluation failed and no verdict was reached.
/// The address query is not consulted when no link qualifies, because the
/// verdict is already settled as offline.
pub open spec fn spec_evaluation(
    links: &Result<Vec<Link>, Error>,
    addresses: &Result<Vec<Address>, Error>,
) -> Option<bool> {
    match links {
        Result::Ok(ls) => if !any_qualifying(ls@) {
            Some(true)
        } else {
            match addresses {
                Result::Ok(ads) => Some(spec_is_offline(ls@, ads@)),
                Result::Err(_) => None,
            }
        },
        Result::Err(_) => None,
    }
}

/// The verdict when failures must not propagate: a failed evaluation is
/// reported as online, never as offline.
pub open spec fn spec_fail_open(
    links: &Result<Vec<Link>, Error>,
    addresses: &Result<Vec<Address>, Error>,
) -> bool {
    match spec_evaluation(links, addresses) {
        Some(verdict) => verdict,
        None => false,
    }
}

/// No address in `addresses` is assigned to one of `interfaces`.
fn all_unassigned(interfaces: &Vec<u32>, addresses: &Vec<Address>) -> (r: bool)
    ensures
        r == forall|j: int|
            0 <= j < addresses@.len() ==> !interfaces@.contains(#[trigger] addresses@[j].index),
{
    let mut j: usize = 0;
    while j < addresses.len()
        invariant
            0 <= j <= addresses@.len(),
            forall|m: int| 0 <= m < j ==> !interfaces@.contains(#[trigger] addresses@[m].index),
        decreases addresses@.len() - j,
    {
        if contains_index(interfaces, addresses[j].index) {
            return false;
        }
        j = j + 1;
    }
    true
}

/// An empty index list means that no link qualifies, and then every address
/// check is vacuous.
proof fn lemma_interfaces_reflect_qualifying(links: Seq<Link>, interfaces: Seq<u32>)
    requires
        forall|i: u32| interfaces.contains(i) <==> is_qualifying_index(links, i),
    ensures
        interfaces.len() == 0 <==> !any_qualifying(links),
{
    if interfaces.len() > 0 {
        assert(interfaces.contains(interfaces[0]));
        let w = choose|w: int|
            0 <= w < links.len() && #[trigger] qualifying_link_with_index(links[w], interfaces[0]);
        assert(spec_link_provides_connectivity(links[w]));
    }
    if any_qualifying(links) {
        let w = choose|w: int|
            0 <= w < links.len() && #[trigger] spec_link_provides_connectivity(links[w]);
        assert(qualifying_link_with_index(links[w], links[w].index));
        assert(is_qualifying_index(links, links[w].index));
        assert(interfaces.contains(links[w].index));
    }
}

/// Checks if there are no running links, or none of the running links have
/// an IP address assigned to them.
pub fn check_if_offline(links: &Vec<Link>, addresses: &Vec<Address>) -> (r: bool)
    ensures
        r == spec_is_offline(links@, addresses@),
{
    let interfaces = running_interfaces(links);
    all_unassigned(&interfaces, addresses)
}

/// A snapshot query of the connectivity verdict from the outcomes of the
/// two kernel queries, for callers that have no recourse on failure: a
/// failed query is treated as online (fail open), since an incorrect
/// offline report would be more disruptive than a stale online one.  The
/// address outcome is not consulted when no link qualifies.
pub fn is_offline(
    links: &Result<Vec<Link>, Error>,
    addresses: &Result<Vec<Address>, Error>,
) -> (r: bool)
    ensures
        r == spec_fail_open(links, addresses),
{
    match links {
        Result::Ok(ls) => {
            let interfaces = running_interfaces(ls);
            proof {
                lemma_interfaces_reflect_qualifying(ls@, interfaces@);
            }
            if interfaces.len() == 0 {
                true
            } else {
                match addresses {
                    Result::Ok(ads) => all_unassigned(&interfaces, ads),
                    Result::Err(_) => false,
                }
            }
        },
        Result::Err(_) => false,
    }
}

/// The verdict is a pure function of the link and address sets: identical
/// inputs give identical output.
pub proof fn lemma_evaluator_deterministic(
    links1: Seq<Link>,
    addresses1: Seq<Address>,
    links2: Seq<Link>,
    addresses2: Seq<Address>,
)
    requires
        links1 == links2,
        addresses1 == addresses2,
    ensures
        spec_is_offline(links1, addresses1) == spec_is_offline(links2, addresses2),
{
}

/// With no links at all, the host is offline whatever addresses exist.
pub proof fn lemma_offline_when_no_links(addresses: Seq<Address>)
    ensures
        spec_is_offline(Seq::<Link>::empty(), addresses),
{
    assert forall|j: int| 0 <= j < addresses.len() implies !is_qualifying_index(
        Seq::<Link>::empty(),
        #[trigger] addresses[j].index,
    ) by {
        assert(!qualifying_upto(Seq::<Link>::empty(), 0, addresses[j].index));
    }
}

/// Links that cannot provide connectivity are ignored: appending one that
/// does not qualify (a loopback device, or one that is not running) leaves
/// the verdict unchanged, whatever addresses exist.
pub proof fn lemma_non_qualifying_links_excluded(
    links: Seq<Link>,
    addresses: Seq<Address>,
    link: Link,
)
    requires
        !spec_link_provides_connectivity(link),
    ensures
        spec_is_offline(links.push(link), addresses) == spec_is_offline(links, addresses),
{
    assert forall|i: u32|
        is_qualifying_index(links.push(link), i) <==> is_qualifying_index(links, i) by {
        if is_qualifying_index(links.push(link), i) {
            let w = choose|w: int|
                0 <= w < links.push(link).len() && #[trigger] qualifying_link_with_index(
                    links.push(link)[w],
                    i,
                );
            assert(w < links.len());
            assert(links.push(link)[w] == links[w]);
            assert(qualifying_link_with_index(links[w], i));
            assert(is_qualifying_index(links, i));
        }
        if is_qualifying_index(links, i) {
            let w = choose|w: int|
                0 <= w < links.len() && #[trigger] qualifying_link_with_index(links[w], i);
            assert(links.push(link)[w] == links[w]);
            assert(qualifying_link_with_index(links.push(link)[w], i));
            assert(is_qualifying_index(links.push(link), i));
        }
    }
}

/// An evaluation that fails is reported as online: whenever the query
/// outcomes yield no verdict, the fail-open answer is "not offline".
pub proof fn lemma_fail_open_on_error(
    links: &Result<Vec<Link>, Error>,
    addresses: &Result<Vec<Address>, Error>,
)
    requires
        spec_evaluation(links, addresses) is None,
    ensures
        !spec_fail_open(links, addresses),
{
}

} // verus!
