//! Kernel-reported interface records and the predicate that decides which
//! interfaces can provide connectivity.

use vstd::prelude::*;

verus! {

/// The link-layer kind of an interface, as the kernel reports it.
#[derive(Debug, Clone, Copy, PartialEq, Eq, Structural)]
pub enum LinkLayerType {
    /// An ordinary physical (ethernet-like) device.
    Physical,
    /// The loopback device.
    Loopback,
    /// No link layer at all; some tunnels report this sentinel.
    NoLinkLayer,
    /// A tunnel device with a real link layer.
    Tunnel,
}

/// A kernel-reported network interface record.
#[derive(Debug, Clone, PartialEq, Eq, Structural)]
pub struct Link {
    /// The interface index, stable for the interface's lifetime.
    pub index: u32,
    /// The link-layer kind.
    pub link_layer_type: LinkLayerType,
    /// Whether the interface is operationally running.
    pub running: bool,
}

/// A kernel-reported IP address assignment record.
#[derive(Debug, Clone, PartialEq, Eq)]
pub struct Address {
    /// The index of the interface that the address is assigned to.
    pub index: u32,
    /// The address value itself, as raw octets; it is carried through but
    /// never inspected by the verdict.
    pub octets: Vec<u8>,
}

/// A link provides connectivity iff it is neither loopback nor without a
/// link layer, and it is operationally running.
pub open spec fn spec_link_provides_connectivity(link: Link) -> bool {
    &&& link.link_layer_type != LinkLayerType::Loopback
    &&& link.link_layer_type != LinkLayerType::NoLinkLayer
    &&& link.running
}

/// `link` both provides connectivity and has interface index `index`.
pub open spec fn qualifying_link_with_index(link: Link, index: u32) -> bool {
    spec_link_provides_connectivity(link) && link.index == index
}

/// Some link among the first `n` provides connectivity under index `index`.
pub open spec fn qualifying_upto(links: Seq<Link>, n: int, index: u32) -> bool {
    exists|k: int| 0 <= k < n && #[trigger] qualifying_link_with_index(links[k], index)
}

/// Some link in `links` provides connectivity under index `index`.
pub open spec fn is_qualifying_index(links: Seq<Link>, index: u32) -> bool {
    qualifying_upto(links, links.len() as int, index)
}

/// Some link in `links` provides connectivity at all.
pub open spec fn any_qualifying(links: Seq<Link>) -> bool {
    exists|k: int| 0 <= k < links.len() && #[trigger] spec_link_provides_connectivity(links[k])
}

/// Decides whether a single link can provide connectivity: it must have a
/// real link layer other than loopback (some tunnels report none at all)
/// and be operationally running.
pub fn link_provides_connectivity(link: &Link) -> (r: bool)
    ensures
        r == spec_link_provides_connectivity(*link),
{
    link.link_layer_type != LinkLayerType::Loopback
        && link.link_layer_type != LinkLayerType::NoLinkLayer && link.running
}

/// Whether `v` holds the index `x`.
pub fn contains_index(v: &Vec<u32>, x: u32) -> (r: bool)
    ensures
        r == v@.contains(x),
{
    let mut i: usize = 0;
    while i < v.len()
        invariant
            0 <= i <= v@.len(),
            forall|k: int| 0 <= k < i ==> v@[k] != x,
        decreases v@.len() - i,
    {
        if v[i] == x {
            return true;
        }
        i = i + 1;
    }
    false
}

/// Extending the scanned prefix by one link adds exactly that link's
/// contribution to the qualifying indices.
proof fn lemma_qualifying_upto_extend(links: Seq<Link>, k: int, i: u32)
    requires
        0 <= k < links.len(),
    ensures
        qualifying_upto(links, k + 1, i) <==> (qualifying_upto(links, k, i)
            || qualifying_link_with_index(links[k], i)),
{
    if qualifying_upto(links, k + 1, i) && !qualifying_link_with_index(links[k], i) {
        let w = choose|w: int| 0 <= w < k + 1 && #[trigger] qualifying_link_with_index(links[w], i);
        assert(0 <= w < k);
        assert(qualifying_upto(links, k, i));
    }
    if qualifying_upto(links, k, i) {
        let w = choose|w: int| 0 <= w < k && #[trigger] qualifying_link_with_index(links[w], i);
        assert(0 <= w < k + 1);
        assert(qualifying_upto(links, k + 1, i));
    }
}

/// Membership in a sequence after a push.
proof fn lemma_push_contains(s: Seq<u32>, v: u32, x: u32)
    ensures
        s.push(v).contains(x) <==> (s.contains(x) || x == v),
{
    if s.push(v).contains(x) {
        let j = choose|j: int| 0 <= j < s.push(v).len() && s.push(v)[j] == x;
        if j < s.len() {
            assert(s[j] == x);
        }
    }
    if s.contains(x) {
        let j = choose|j: int| 0 <= j < s.len() && s[j] == x;
        assert(s.push(v)[j] == x);
    }
    assert(s.push(v)[s.len() as int] == v);
}

/// Collects the indices of all links that provide connectivity, without
/// duplicates: an index is in the result iff some qualifying link has it.
pub fn running_interfaces(links: &Vec<Link>) -> (r: Vec<u32>)
    ensures
        forall|i: u32| r@.contains(i) <==> is_qualifying_index(links@, i),
        r@.no_duplicates(),
{
    let mut out: Vec<u32> = Vec::new();
    let mut k: usize = 0;
    while k < links.len()
        invariant
            0 <= k <= links@.len(),
            forall|i: u32| out@.contains(i) <==> qualifying_upto(links@, k as int, i),
            out@.no_duplicates(),
        decreases links@.len() - k,
    {
        let ghost prev = out@;
        let link = &links[k];
        let idx = link.index;
        if link_provides_connectivity(link) {
            proof {
                assert(qualifying_link_with_index(links@[k as int], idx));
            }
            if !contains_index(&out, idx) {
                out.push(idx);
                proof {
                    assert forall|j1: int, j2: int|
                        0 <= j1 < out@.len() && 0 <= j2 < out@.len() && j1 != j2 implies out@[j1]
                        != out@[j2] by {
                        if j1 < prev.len() && j2 < prev.len() {
                            assert(prev[j1] != prev[j2]);
                        } else if j1 < prev.len() {
                            assert(prev[j1] == out@[j1]);
                            assert(!prev.contains(idx));
                        } else {
                            assert(prev[j2] == out@[j2]);
                            assert(!prev.contains(idx));
                        }
                    }
                    assert(out@.no_duplicates());
                }
            }
        }
        proof {
            assert forall|i: u32| out@.contains(i) <==> qualifying_upto(
                links@,
                k as int + 1,
                i,
            ) by {
                lemma_qualifying_upto_extend(links@, k as int, i);
                if out@ != prev {
                    lemma_push_contains(prev, idx, i);
                }
            }
        }
        k = k + 1;
    }
    out
}

} // verus!
