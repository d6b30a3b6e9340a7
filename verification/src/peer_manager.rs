//! The registry of a server's peers: how they are found, their addresses and
//! the state of the connection to each.

use vstd::prelude::*;
use std::collections::HashMap;
use vstd::std_specs::iter::IteratorSpec;
use crate::error::{Error, ErrorView, rview};
use crate::text::owned;
use crate::types::SocketAddress;

verus! {

broadcast use vstd::std_specs::hash::group_hash_axioms;

/// State of the connection to a peer.
#[derive(Clone, Copy, Debug, PartialEq, Eq, Structural)]
pub enum PeerState {
    Discovered,
    Connecting,
    Connected,
    Failed,
    Disconnected,
}

/// The display text of a peer state.
pub open spec fn peer_state_text(s: PeerState) -> Seq<char> {
    match s {
        PeerState::Discovered => "Discovered"@,
        PeerState::Connecting => "Connecting"@,
        PeerState::Connected => "Connected"@,
        PeerState::Failed => "Failed"@,
        PeerState::Disconnected => "Disconnected"@,
    }
}

impl PeerState {
    /// The display text of the state.
    pub fn to_text(&self) -> (s: String)
        ensures
            s@ == peer_state_text(*self),
    {
        match self {
            PeerState::Discovered => owned("Discovered"),
            PeerState::Connecting => owned("Connecting"),
            PeerState::Connected => owned("Connected"),
            PeerState::Failed => owned("Failed"),
            PeerState::Disconnected => owned("Disconnected"),
        }
    }
}

/// A peer: its party id, address and connection state.
#[derive(Clone, Copy, Debug, PartialEq, Eq, Structural)]
pub struct PeerInfo {
    pub party_id: usize,
    pub address: SocketAddress,
    pub state: PeerState,
}

impl PeerInfo {
    /// A peer just discovered.
    pub fn new(party_id: usize, address: SocketAddress) -> (p: Self)
        ensures
            p == (PeerInfo { party_id, address, state: PeerState::Discovered }),
    {
        PeerInfo { party_id, address, state: PeerState::Discovered }
    }
}

/// How a server finds its peers.
#[derive(Clone, Debug)]
pub enum DiscoveryMode {
    /// A fixed list of party ids and addresses.
    Explicit(Vec<(usize, SocketAddress)>),
    /// Through a signaling server, optionally with a STUN server.
    SignalingServer { address: String, stun: Option<String> },
}

/// The peers listed for explicit discovery, keyed by party id; the server's
/// own id is left out, and of two entries for one id the later one counts.
pub open spec fn explicit_peers(me: usize, list: Seq<(usize, SocketAddress)>) -> Map<usize, PeerInfo>
    decreases list.len(),
{
    if list.len() == 0 {
        Map::empty()
    } else {
        let rest = explicit_peers(me, list.drop_last());
        let (id, addr) = list.last();
        if id == me {
            rest
        } else {
            rest.insert(id, PeerInfo { party_id: id, address: addr, state: PeerState::Discovered })
        }
    }
}

/// An explicit peer list yields exactly the listed ids other than the
/// server's own, each stored under its id with the last address listed for
/// it, and discovered.
pub proof fn lemma_explicit_peers(me: usize, list: Seq<(usize, SocketAddress)>, id: usize)
    ensures
        explicit_peers(me, list).contains_key(id) <==> (id != me && exists|i: int|
            0 <= i < list.len() && list[i].0 == id),
        explicit_peers(me, list).contains_key(id) ==> {
            &&& explicit_peers(me, list)[id].party_id == id
            &&& explicit_peers(me, list)[id].state == PeerState::Discovered
            &&& exists|i: int| 0 <= i < list.len() && list[i] == (id, explicit_peers(me, list)[id].address)
                && forall|j: int| i < j < list.len() ==> list[j].0 != id
        },
    decreases list.len(),
{
    if list.len() > 0 {
        let rest = list.drop_last();
        lemma_explicit_peers(me, rest, id);
        let last = list.len() - 1;
        if exists|i: int| 0 <= i < rest.len() && rest[i].0 == id {
            let i = choose|i: int| 0 <= i < rest.len() && rest[i].0 == id;
            assert(list[i].0 == id);
        }
        if exists|i: int| 0 <= i < list.len() && list[i].0 == id {
            let i = choose|i: int| 0 <= i < list.len() && list[i].0 == id;
            if i < last {
                assert(rest[i].0 == id);
            }
        }
        if explicit_peers(me, list).contains_key(id) {
            if list[last].0 == id && id != me {
                assert(list[last] == (id, explicit_peers(me, list)[id].address));
            } else {
                let i = choose|i: int| 0 <= i < rest.len() && rest[i] == (id, explicit_peers(me, rest)[id].address)
                    && forall|j: int| i < j < rest.len() ==> rest[j].0 != id;
                assert(list[i] == rest[i]);
                assert forall|j: int| i < j < list.len() implies list[j].0 != id by {
                    if j < last {
                        assert(rest[j] == list[j]);
                    }
                }
            }
        }
    }
}

/// The registry of a server's peers.
pub struct PeerManager {
    party_id: usize,
    peers: HashMap<usize, PeerInfo>,
    discovery_mode: DiscoveryMode,
}

impl PeerManager {
    /// The peers, keyed by party id.
    pub closed spec fn peers_map(&self) -> Map<usize, PeerInfo> {
        self.peers@
    }

    /// The server's own party id.
    pub closed spec fn party_id_spec(&self) -> usize {
        self.party_id
    }

    /// How peers are found.
    pub closed spec fn discovery_spec(&self) -> DiscoveryMode {
        self.discovery_mode
    }

    /// Every peer is stored under its own party id.
    pub closed spec fn wf(&self) -> bool {
        forall|k: usize| #[trigger] self.peers@.contains_key(k) ==> self.peers@[k].party_id == k
    }

    /// A registry for party `party_id`; with explicit discovery it holds the
    /// listed peers, each discovered, without the server itself.
    pub fn new(party_id: usize, discovery_mode: DiscoveryMode) -> (m: Self)
        ensures
            m.wf(),
            m.party_id_spec() == party_id,
            m.discovery_spec() == discovery_mode,
            match discovery_mode {
                DiscoveryMode::Explicit(list) => m.peers_map() == explicit_peers(party_id, list@),
                DiscoveryMode::SignalingServer { .. } => m.peers_map() == Map::<usize, PeerInfo>::empty(),
            },
    {
        let mut peers: HashMap<usize, PeerInfo> = HashMap::new();
        match &discovery_mode {
            DiscoveryMode::Explicit(list) => {
                let mut i: usize = 0;
                while i < list.len()
                    invariant
                        i <= list@.len(),
                        peers@ == explicit_peers(party_id, list@.take(i as int)),
                        forall|k: usize| #[trigger] peers@.contains_key(k) ==> peers@[k].party_id == k,
                    decreases list@.len() - i,
                {
                    let (id, addr) = list[i];
                    proof {
                        assert(list@.take(i + 1).drop_last() =~= list@.take(i as int));
                    }
                    if id != party_id {
                        peers.insert(id, PeerInfo::new(id, addr));
                    }
                    i = i + 1;
                }
                proof {
                    assert(list@.take(list@.len() as int) =~= list@);
                }
            },
            DiscoveryMode::SignalingServer { .. } => {},
        }
        PeerManager { party_id, peers, discovery_mode }
    }

    /// The server's own party id.
    pub fn party_id(&self) -> (p: usize)
        ensures
            p == self.party_id_spec(),
    {
        self.party_id
    }

    /// How peers are found.
    pub fn discovery_mode(&self) -> (d: &DiscoveryMode)
        ensures
            *d == self.discovery_spec(),
    {
        &self.discovery_mode
    }

    /// The number of peers.
    pub fn total_peer_count(&self) -> (n: usize)
        ensures
            n == self.peers_map().len(),
    {
        self.peers.len()
    }

    /// The peer with this party id, if known.
    pub fn get_peer(&self, party_id: usize) -> (p: Option<PeerInfo>)
        ensures
            match p {
                Some(info) => self.peers_map().contains_key(party_id) && self.peers_map()[party_id]
                    == info,
                None => !self.peers_map().contains_key(party_id),
            },
    {
        match self.peers.get(&party_id) {
            Some(info) => Some(*info),
            None => None,
        }
    }

    /// Adds a discovered peer, unless one with this id is known already.
    pub fn add_peer(&mut self, party_id: usize, address: SocketAddress)
        requires
            old(self).wf(),
        ensures
            final(self).wf(),
            final(self).party_id_spec() == old(self).party_id_spec(),
            final(self).discovery_spec() == old(self).discovery_spec(),
            final(self).peers_map() == (if old(self).peers_map().contains_key(party_id) {
                old(self).peers_map()
            } else {
                old(self).peers_map().insert(party_id, PeerInfo::new_spec(party_id, address))
            }),
    {
        if !self.peers.contains_key(&party_id) {
            self.peers.insert(party_id, PeerInfo::new(party_id, address));
        }
    }

    /// Forgets the peer with this id.
    pub fn remove_peer(&mut self, party_id: usize)
        requires
            old(self).wf(),
        ensures
            final(self).wf(),
            final(self).party_id_spec() == old(self).party_id_spec(),
            final(self).discovery_spec() == old(self).discovery_spec(),
            final(self).peers_map() == old(self).peers_map().remove(party_id),
    {
        let _ = self.peers.remove(&party_id);
    }

    /// Sets the state of a known peer; an unknown id changes nothing.
    pub fn set_state(&mut self, party_id: usize, state: PeerState)
        requires
            old(self).wf(),
        ensures
            final(self).wf(),
            final(self).party_id_spec() == old(self).party_id_spec(),
            final(self).discovery_spec() == old(self).discovery_spec(),
            final(self).peers_map() == (if old(self).peers_map().contains_key(party_id) {
                old(self).peers_map().insert(
                    party_id,
                    PeerInfo { state, ..old(self).peers_map()[party_id] },
                )
            } else {
                old(self).peers_map()
            }),
    {
        let current = match self.peers.get(&party_id) {
            Some(info) => Some(*info),
            None => None,
        };
        match current {
            Some(info) => {
                self.peers.insert(party_id, PeerInfo { state, ..info });
            },
            None => {},
        }
    }

    /// Records that the connection to a peer was lost; an unknown id changes
    /// nothing.
    pub fn handle_disconnection(&mut self, peer_id: usize) -> (r: Result<(), Error>)
        requires
            old(self).wf(),
        ensures
            r is Ok,
            final(self).wf(),
            final(self).party_id_spec() == old(self).party_id_spec(),
            final(self).discovery_spec() == old(self).discovery_spec(),
            final(self).peers_map() == (if old(self).peers_map().contains_key(peer_id) {
                old(self).peers_map().insert(
                    peer_id,
                    PeerInfo { state: PeerState::Disconnected, ..old(self).peers_map()[peer_id] },
                )
            } else {
                old(self).peers_map()
            }),
    {
        self.set_state(peer_id, PeerState::Disconnected);
        Ok(())
    }

    /// All peers, in no particular order.
    pub fn get_all_peers(&self) -> (v: Vec<PeerInfo>)
        requires
            self.wf(),
        ensures
            v@.len() == self.peers_map().len(),
            forall|i: int, j: int| 0 <= i < v@.len() && 0 <= j < v@.len() && i != j ==> #[trigger] v@[i].party_id
                != #[trigger] v@[j].party_id,
            forall|i: int| 0 <= i < v@.len() ==> self.peers_map().contains_key(#[trigger] v@[i].party_id)
                && self.peers_map()[v@[i].party_id] == v@[i],
            forall|k: usize| #[trigger] self.peers_map().contains_key(k) ==> v@.contains(self.peers_map()[k]),
    {
        let mut v: Vec<PeerInfo> = Vec::new();
        for (k, p) in it: self.peers.iter()
            invariant
                v@.len() == it.index(),
                forall|j: int| 0 <= j < it.index() ==> #[trigger] v@[j] == *it.seq()[j].1,
        {
            v.push(*p);
        }
        proof {
            let s = vstd::std_specs::hash::spec_hash_map_iter(&self.peers).remaining();
            assert forall|i: int, j: int| 0 <= i < v@.len() && 0 <= j < v@.len() && i != j implies #[trigger] v@[i].party_id
                != #[trigger] v@[j].party_id by {
                assert(self.peers@.contains_key(*s[i].0));
                assert(self.peers@.contains_key(*s[j].0));
                if v@[i].party_id == v@[j].party_id {
                    assert(*s[i].0 == v@[i].party_id);
                    assert(*s[j].0 == v@[j].party_id);
                    assert(s[i] == s[j]);
                }
            }
            assert forall|i: int| 0 <= i < v@.len() implies self.peers_map().contains_key(
                #[trigger] v@[i].party_id,
            ) && self.peers_map()[v@[i].party_id] == v@[i] by {
                assert(self.peers@.contains_key(*s[i].0));
            }
            assert forall|k: usize| #[trigger] self.peers_map().contains_key(k) implies v@.contains(
                self.peers_map()[k],
            ) by {
                assert(s.contains((&k, &self.peers@[k])));
                let j = choose|j: int| 0 <= j < s.len() && s[j] == (&k, &self.peers@[k]);
                assert(v@[j] == self.peers@[k]);
            }
        }
        v
    }
}

/// The peers with every connection state set to connected.
pub open spec fn all_connected(m: Map<usize, PeerInfo>) -> Map<usize, PeerInfo> {
    Map::new(|k: usize| m.contains_key(k), |k: usize| PeerInfo { state: PeerState::Connected, ..m[k] })
}

/// The party ids of the peers that are connected.
pub open spec fn connected_ids(m: Map<usize, PeerInfo>) -> Set<usize> {
    m.dom().filter(|k: usize| m[k].state == PeerState::Connected)
}

impl PeerManager {
    /// Connects to every peer. With explicit discovery every known peer ends
    /// up connected; discovery through a signaling server is not available
    /// and gives an error, leaving the peers as they were.
    pub fn connect_mesh(&mut self) -> (r: Result<(), Error>)
        requires
            old(self).wf(),
        ensures
            final(self).wf(),
            final(self).party_id_spec() == old(self).party_id_spec(),
            final(self).discovery_spec() == old(self).discovery_spec(),
            match old(self).discovery_spec() {
                DiscoveryMode::Explicit(_) => r is Ok && final(self).peers_map() == all_connected(
                    old(self).peers_map(),
                ),
                DiscoveryMode::SignalingServer { .. } => rview(r) == Err::<(), ErrorView>(
                    ErrorView::Runtime("Signaling server discovery not yet implemented"@),
                ) && final(self).peers_map() == old(self).peers_map(),
            },
    {
        match &self.discovery_mode {
            DiscoveryMode::Explicit(_) => {},
            DiscoveryMode::SignalingServer { .. } => {
                return Err(Error::Runtime(owned("Signaling server discovery not yet implemented")));
            },
        }
        let all = self.get_all_peers();
        let ghost m0 = self.peers@;
        let mut i: usize = 0;
        while i < all.len()
            invariant
                i <= all@.len(),
                all@.len() == m0.len(),
                forall|a: int, b: int| 0 <= a < all@.len() && 0 <= b < all@.len() && a != b ==> #[trigger] all@[a].party_id
                    != #[trigger] all@[b].party_id,
                forall|a: int| 0 <= a < all@.len() ==> m0.contains_key(#[trigger] all@[a].party_id)
                    && m0[all@[a].party_id] == all@[a],
                forall|k: usize| #[trigger] m0.contains_key(k) ==> all@.contains(m0[k]),
                forall|k: usize| #[trigger] m0.contains_key(k) ==> m0[k].party_id == k,
                self.peers@.dom() == m0.dom(),
                self.party_id == old(self).party_id,
                self.discovery_mode == old(self).discovery_mode,
                m0 == old(self).peers@,
                forall|k: usize| #[trigger] self.peers@.contains_key(k) ==> self.peers@[k].party_id == k,
                forall|k: usize| #[trigger] self.peers@.contains_key(k) ==> self.peers@[k] == (if (exists|a: int|
                    0 <= a < i && all@[a].party_id == k) {
                    PeerInfo { state: PeerState::Connected, ..m0[k] }
                } else {
                    m0[k]
                }),
            decreases all@.len() - i,
        {
            let id = all[i].party_id;
            self.set_state(id, PeerState::Connected);
            proof {
                assert forall|k: usize| #[trigger] self.peers@.contains_key(k) implies self.peers@[k] == (if (exists|a: int|
                    0 <= a < i + 1 && all@[a].party_id == k) {
                    PeerInfo { state: PeerState::Connected, ..m0[k] }
                } else {
                    m0[k]
                }) by {
                    if k == id {
                        assert(all@[i as int].party_id == k);
                    } else {
                        if exists|a: int| 0 <= a < i + 1 && all@[a].party_id == k {
                            let a = choose|a: int| 0 <= a < i + 1 && all@[a].party_id == k;
                            assert(a < i);
                        }
                    }
                }
                assert(self.peers@.dom() =~= m0.dom());
            }
            i = i + 1;
        }
        proof {
            assert forall|k: usize| #[trigger] m0.contains_key(k) implies exists|a: int|
                0 <= a < all@.len() && all@[a].party_id == k by {
                assert(all@.contains(m0[k]));
                let a = choose|a: int| 0 <= a < all@.len() && all@[a] == m0[k];
                assert(all@[a].party_id == k);
            }
            assert(self.peers@ =~= all_connected(m0));
        }
        Ok(())
    }

    /// Whether every peer is connected.
    pub fn is_mesh_complete(&self) -> (b: bool)
        requires
            self.wf(),
        ensures
            b == (forall|k: usize| #[trigger] self.peers_map().contains_key(k) ==> self.peers_map()[k].state
                == PeerState::Connected),
    {
        let all = self.get_all_peers();
        let mut i: usize = 0;
        while i < all.len()
            invariant
                i <= all@.len(),
                forall|a: int| 0 <= a < all@.len() ==> self.peers_map().contains_key(#[trigger] all@[a].party_id)
                    && self.peers_map()[all@[a].party_id] == all@[a],
                forall|a: int| 0 <= a < i ==> (#[trigger] all@[a]).state == PeerState::Connected,
            decreases all@.len() - i,
        {
            if all[i].state != PeerState::Connected {
                proof {
                    let k = all@[i as int].party_id;
                    assert(self.peers_map().contains_key(k));
                }
                return false;
            }
            i = i + 1;
        }
        proof {
            assert forall|k: usize| #[trigger] self.peers_map().contains_key(k) implies self.peers_map()[k].state
                == PeerState::Connected by {
                assert(all@.contains(self.peers_map()[k]));
                let a = choose|a: int| 0 <= a < all@.len() && all@[a] == self.peers_map()[k];
                assert(all@[a].state == PeerState::Connected);
            }
        }
        true
    }

    /// The number of connected peers.
    pub fn connected_peer_count(&self) -> (n: usize)
        requires
            self.wf(),
        ensures
            n == connected_ids(self.peers_map()).len(),
    {
        let all = self.get_all_peers();
        let ghost m = self.peers@;
        let ghost mut seen: Set<usize> = Set::empty();
        let ghost mut conn: Set<usize> = Set::empty();
        let mut c: usize = 0;
        let mut i: usize = 0;
        while i < all.len()
            invariant
                i <= all@.len(),
                all@.len() == m.len(),
                m == self.peers@,
                m.dom().finite(),
                forall|a: int, b: int| 0 <= a < all@.len() && 0 <= b < all@.len() && a != b ==> #[trigger] all@[a].party_id
                    != #[trigger] all@[b].party_id,
                forall|a: int| 0 <= a < all@.len() ==> m.contains_key(#[trigger] all@[a].party_id)
                    && m[all@[a].party_id] == all@[a],
                seen.finite(),
                conn.finite(),
                conn.subset_of(seen),
                c == conn.len(),
                c <= i,
                forall|k: usize| #[trigger] seen.contains(k) <==> exists|a: int| 0 <= a < i && all@[a].party_id == k,
                forall|k: usize| #[trigger] conn.contains(k) <==> (seen.contains(k) && m[k].state == PeerState::Connected),
            decreases all@.len() - i,
        {
            let p = all[i];
            proof {
                assert(!seen.contains(p.party_id)) by {
                    if seen.contains(p.party_id) {
                        let a = choose|a: int| 0 <= a < i && all@[a].party_id == p.party_id;
                        assert(all@[a].party_id != all@[i as int].party_id);
                    }
                }
            }
            if p.state == PeerState::Connected {
                c = c + 1;
                proof {
                    conn = conn.insert(p.party_id);
                }
            }
            proof {
                seen = seen.insert(p.party_id);
                assert forall|k: usize| #[trigger] seen.contains(k) <==> exists|a: int| 0 <= a < i + 1 && all@[a].party_id == k by {
                    if k == p.party_id {
                        assert(all@[i as int].party_id == k);
                    }
                }
            }
            i = i + 1;
        }
        proof {
            assert(conn =~= connected_ids(m)) by {
                assert forall|k: usize| #[trigger] m.contains_key(k) implies seen.contains(k) by {
                    let all_ids = all@.map_values(|p: PeerInfo| p.party_id);
                    if !seen.contains(k) {
                        assert forall|a: int| 0 <= a < all@.len() implies all@[a].party_id != k by {}
                        assert(seen.subset_of(m.dom().remove(k))) by {
                            assert forall|x: usize| seen.contains(x) implies m.dom().remove(k).contains(x) by {
                                let a = choose|a: int| 0 <= a < all@.len() && all@[a].party_id == x;
                            }
                        }
                        vstd::set_lib::lemma_len_subset(seen, m.dom().remove(k));
                        lemma_distinct_ids_len(all@, seen);
                        assert(false);
                    }
                }
            }
        }
        c
    }
}

/// A sequence of peers with distinct ids has as many ids as entries.
proof fn lemma_distinct_ids_len(v: Seq<PeerInfo>, ids: Set<usize>)
    requires
        forall|a: int, b: int| 0 <= a < v.len() && 0 <= b < v.len() && a != b ==> #[trigger] v[a].party_id
            != #[trigger] v[b].party_id,
        forall|k: usize| #[trigger] ids.contains(k) <==> exists|a: int| 0 <= a < v.len() && v[a].party_id == k,
    ensures
        ids.finite(),
        ids.len() == v.len(),
    decreases v.len(),
{
    if v.len() == 0 {
        assert(ids =~= Set::empty());
    } else {
        let last = v.last().party_id;
        let rest = ids.remove(last);
        assert forall|k: usize| #[trigger] rest.contains(k) <==> exists|a: int| 0 <= a < v.drop_last().len() && v.drop_last()[a].party_id == k by {
            if rest.contains(k) {
                let a = choose|a: int| 0 <= a < v.len() && v[a].party_id == k;
                assert(a != v.len() - 1);
                assert(v.drop_last()[a].party_id == k);
            }
            if exists|a: int| 0 <= a < v.drop_last().len() && v.drop_last()[a].party_id == k {
                let a = choose|a: int| 0 <= a < v.drop_last().len() && v.drop_last()[a].party_id == k;
                assert(v[a].party_id == k);
                assert(a != v.len() - 1);
                assert(k != last);
            }
        }
        lemma_distinct_ids_len(v.drop_last(), rest);
        assert(ids.contains(last)) by {
            assert(v[v.len() - 1].party_id == last);
        }
        assert(ids =~= rest.insert(last));
    }
}

impl PeerInfo {
    /// A peer just discovered.
    pub open spec fn new_spec(party_id: usize, address: SocketAddress) -> PeerInfo {
        PeerInfo { party_id, address, state: PeerState::Discovered }
    }
}

} // verus!
