//! The registry of a server's clients and the shares they sent or are owed.

use vstd::prelude::*;
use std::collections::HashMap;
use vstd::std_specs::iter::IteratorSpec;
use crate::error::{Error, ErrorView, rview};
use crate::text::{bytes_to_vec, concat_str, decimal, owned, usize_to_decimal};

verus! {

broadcast use vstd::std_specs::hash::group_hash_axioms;

#[verifier::external_type_specification]
#[verifier::external_body]
pub struct ExInstant(std::time::Instant);

/// Calls `std::time::Instant::now()`. Nothing is claimed: the value is the
/// time of the call.
#[verifier::external_body]
fn instant_now() -> (t: std::time::Instant)
{
    std::time::Instant::now()
}

/// What a server knows of one client.
#[derive(Clone, Copy, Debug)]
pub struct ClientState {
    /// The client's id.
    pub client_id: usize,
    /// When the client connected.
    pub connected_at: std::time::Instant,
    /// Whether its inputs arrived.
    pub inputs_received: bool,
    /// Whether its outputs were sent.
    pub outputs_sent: bool,
}

impl ClientState {
    /// A client that just connected: nothing received, nothing sent.
    pub fn new(client_id: usize) -> (s: Self)
        ensures
            s.client_id == client_id,
            !s.inputs_received,
            !s.outputs_sent,
    {
        ClientState { client_id, connected_at: instant_now(), inputs_received: false, outputs_sent: false }
    }
}

/// The plain view of a buffer of shares.
pub open spec fn shares_view(v: Seq<Vec<u8>>) -> Seq<Seq<u8>> {
    v.map_values(|s: Vec<u8>| s@)
}

/// The plain view of a share buffer map.
pub open spec fn buffer_view(m: Map<usize, Vec<Vec<u8>>>) -> Map<usize, Seq<Seq<u8>>> {
    m.map_values(|v: Vec<Vec<u8>>| shares_view(v@))
}

/// A buffer map with `shares` appended to the entry of `client_id` (a new
/// entry when there was none).
pub open spec fn appended(m: Map<usize, Seq<Seq<u8>>>, client_id: usize, shares: Seq<u8>) -> Map<usize, Seq<Seq<u8>>> {
    m.insert(
        client_id,
        (if m.contains_key(client_id) {
            m[client_id]
        } else {
            Seq::empty()
        }).push(shares),
    )
}

/// Storing shares for a client keeps what it sent before, adds the new
/// shares last, and leaves every other client's buffer as it was.
pub proof fn lemma_append_keeps_order(m: Map<usize, Seq<Seq<u8>>>, client_id: usize, shares: Seq<u8>, other: usize)
    ensures
        appended(m, client_id, shares).contains_key(client_id),
        appended(m, client_id, shares)[client_id].last() == shares,
        appended(m, client_id, shares)[client_id].drop_last() == (if m.contains_key(client_id) {
            m[client_id]
        } else {
            Seq::empty()
        }),
        other != client_id ==> appended(m, client_id, shares).contains_key(other) == m.contains_key(other),
        other != client_id && m.contains_key(other) ==> appended(m, client_id, shares)[other] == m[other],
{
    let prev = if m.contains_key(client_id) {
        m[client_id]
    } else {
        Seq::empty()
    };
    assert(prev.push(shares).drop_last() =~= prev);
}

/// The message for a client that registers twice.
pub open spec fn already_registered_text(client_id: usize) -> Seq<char> {
    "Client "@ + decimal(client_id as nat) + " is already registered"@
}

/// Registry of a server's clients, with the input shares each sent and the
/// output shares each is owed.
pub struct ClientHandler {
    registered_clients: HashMap<usize, ClientState>,
    input_buffer: HashMap<usize, Vec<Vec<u8>>>,
    output_buffer: HashMap<usize, Vec<Vec<u8>>>,
}

/// A copy of a list of byte strings.
fn copy_shares(v: &Vec<Vec<u8>>) -> (c: Vec<Vec<u8>>)
    ensures
        shares_view(c@) == shares_view(v@),
{
    let mut c: Vec<Vec<u8>> = Vec::new();
    let mut i: usize = 0;
    while i < v.len()
        invariant
            i <= v@.len(),
            c@.len() == i,
            forall|j: int| 0 <= j < i ==> #[trigger] c@[j]@ == v@[j]@,
        decreases v@.len() - i,
    {
        c.push(bytes_to_vec(v[i].as_slice()));
        i = i + 1;
    }
    assert(shares_view(c@) =~= shares_view(v@));
    c
}

impl ClientHandler {
    /// The registered clients, keyed by id.
    pub closed spec fn clients(&self) -> Map<usize, ClientState> {
        self.registered_clients@
    }

    /// The input shares received, per client.
    pub closed spec fn inputs(&self) -> Map<usize, Seq<Seq<u8>>> {
        buffer_view(self.input_buffer@)
    }

    /// The output shares stored, per client.
    pub closed spec fn outputs(&self) -> Map<usize, Seq<Seq<u8>>> {
        buffer_view(self.output_buffer@)
    }

    /// Every client is stored under its own id.
    pub closed spec fn wf(&self) -> bool {
        forall|k: usize| #[trigger] self.registered_clients@.contains_key(k) ==> self.registered_clients@[k].client_id == k
    }

    /// No clients and empty buffers.
    pub fn new() -> (h: Self)
        ensures
            h.wf(),
            h.clients() == Map::<usize, ClientState>::empty(),
            h.inputs() == Map::<usize, Seq<Seq<u8>>>::empty(),
            h.outputs() == Map::<usize, Seq<Seq<u8>>>::empty(),
    {
        let h = ClientHandler {
            registered_clients: HashMap::new(),
            input_buffer: HashMap::new(),
            output_buffer: HashMap::new(),
        };
        assert(h.inputs() =~= Map::<usize, Seq<Seq<u8>>>::empty());
        assert(h.outputs() =~= Map::<usize, Seq<Seq<u8>>>::empty());
        h
    }

    /// Registers a client; a client already registered is refused.
    pub fn accept_client(&mut self, client_id: usize) -> (r: Result<usize, Error>)
        requires
            old(self).wf(),
        ensures
            final(self).wf(),
            final(self).inputs() == old(self).inputs(),
            final(self).outputs() == old(self).outputs(),
            old(self).clients().contains_key(client_id) ==> {
                &&& rview(r) == Err::<usize, ErrorView>(
                    ErrorView::InvalidInput(already_registered_text(client_id)),
                )
                &&& final(self).clients() == old(self).clients()
            },
            !old(self).clients().contains_key(client_id) ==> {
                &&& r == Ok::<usize, Error>(client_id)
                &&& final(self).clients().dom() == old(self).clients().dom().insert(client_id)
                &&& final(self).clients()[client_id].client_id == client_id
                &&& !final(self).clients()[client_id].inputs_received
                &&& !final(self).clients()[client_id].outputs_sent
                &&& forall|k: usize| k != client_id && #[trigger] old(self).clients().contains_key(k)
                    ==> final(self).clients()[k] == old(self).clients()[k]
            },
    {
        if self.registered_clients.contains_key(&client_id) {
            let m = concat_str(owned("Client "), usize_to_decimal(client_id).as_str());
            let m = concat_str(m, " is already registered");
            assert(m@ =~= already_registered_text(client_id));
            return Err(Error::InvalidInput(m));
        }
        self.registered_clients.insert(client_id, ClientState::new(client_id));
        Ok(client_id)
    }

    /// Appends a client's input shares and records that its inputs arrived
    /// (when it is registered).
    pub fn store_inputs(&mut self, client_id: usize, shares: Vec<u8>) -> (r: Result<(), Error>)
        requires
            old(self).wf(),
        ensures
            r is Ok,
            final(self).wf(),
            final(self).inputs() == appended(old(self).inputs(), client_id, shares@),
            final(self).outputs() == old(self).outputs(),
            final(self).clients() == (if old(self).clients().contains_key(client_id) {
                old(self).clients().insert(
                    client_id,
                    ClientState { inputs_received: true, ..old(self).clients()[client_id] },
                )
            } else {
                old(self).clients()
            }),
    {
        let ghost before = self.input_buffer@;
        let removed = self.input_buffer.remove(&client_id);
        proof {
            if removed is Some {
                assert(before.contains_key(client_id) && before[client_id] == removed->Some_0);
            } else {
                assert(!before.contains_key(client_id));
            }
            assert(self.input_buffer@ == before.remove(client_id));
        }
        let mut current = match removed {
            Some(v) => v,
            None => Vec::new(),
        };
        let ghost prev = current@;
        proof {
            if before.contains_key(client_id) {
                assert(shares_view(prev) == buffer_view(before)[client_id]);
            } else {
                assert(shares_view(prev) =~= Seq::<Seq<u8>>::empty());
            }
        }
        current.push(shares);
        self.input_buffer.insert(client_id, current);
        proof {
            assert(shares_view(current@) =~= shares_view(prev).push(shares@));
            assert(buffer_view(self.input_buffer@) =~= buffer_view(before).insert(
                client_id,
                (if buffer_view(before).contains_key(client_id) {
                    buffer_view(before)[client_id]
                } else {
                    Seq::empty()
                }).push(shares@),
            ));
        }
        let state = match self.registered_clients.get(&client_id) {
            Some(s) => Some(*s),
            None => None,
        };
        match state {
            Some(s) => {
                self.registered_clients.insert(client_id, ClientState { inputs_received: true, ..s });
            },
            None => {},
        }
        Ok(())
    }

    /// The input shares of a client, if any arrived.
    pub fn get_inputs(&self, client_id: usize) -> (r: Option<Vec<Vec<u8>>>)
        ensures
            match r {
                Some(v) => self.inputs().contains_key(client_id) && shares_view(v@) == self.inputs()[client_id],
                None => !self.inputs().contains_key(client_id),
            },
    {
        match self.input_buffer.get(&client_id) {
            Some(v) => Some(copy_shares(v)),
            None => None,
        }
    }

    /// Appends output shares owed to a client.
    pub fn store_outputs(&mut self, client_id: usize, shares: Vec<u8>) -> (r: Result<(), Error>)
        requires
            old(self).wf(),
        ensures
            r is Ok,
            final(self).wf(),
            final(self).outputs() == appended(old(self).outputs(), client_id, shares@),
            final(self).inputs() == old(self).inputs(),
            final(self).clients() == old(self).clients(),
    {
        let ghost before = self.output_buffer@;
        let removed = self.output_buffer.remove(&client_id);
        proof {
            if removed is Some {
                assert(before.contains_key(client_id) && before[client_id] == removed->Some_0);
            } else {
                assert(!before.contains_key(client_id));
            }
            assert(self.output_buffer@ == before.remove(client_id));
        }
        let mut current = match removed {
            Some(v) => v,
            None => Vec::new(),
        };
        let ghost prev = current@;
        proof {
            if before.contains_key(client_id) {
                assert(shares_view(prev) == buffer_view(before)[client_id]);
            } else {
                assert(shares_view(prev) =~= Seq::<Seq<u8>>::empty());
            }
        }
        current.push(shares);
        self.output_buffer.insert(client_id, current);
        proof {
            assert(shares_view(current@) =~= shares_view(prev).push(shares@));
            assert(buffer_view(self.output_buffer@) =~= buffer_view(before).insert(
                client_id,
                (if buffer_view(before).contains_key(client_id) {
                    buffer_view(before)[client_id]
                } else {
                    Seq::empty()
                }).push(shares@),
            ));
        }
        Ok(())
    }

    /// The output shares owed to a client, if any.
    pub fn get_outputs(&self, client_id: usize) -> (r: Option<Vec<Vec<u8>>>)
        ensures
            match r {
                Some(v) => self.outputs().contains_key(client_id) && shares_view(v@) == self.outputs()[client_id],
                None => !self.outputs().contains_key(client_id),
            },
    {
        match self.output_buffer.get(&client_id) {
            Some(v) => Some(copy_shares(v)),
            None => None,
        }
    }

    /// Records that a registered client's outputs were sent.
    pub fn mark_outputs_sent(&mut self, client_id: usize)
        requires
            old(self).wf(),
        ensures
            final(self).wf(),
            final(self).inputs() == old(self).inputs(),
            final(self).outputs() == old(self).outputs(),
            final(self).clients() == (if old(self).clients().contains_key(client_id) {
                old(self).clients().insert(
                    client_id,
                    ClientState { outputs_sent: true, ..old(self).clients()[client_id] },
                )
            } else {
                old(self).clients()
            }),
    {
        let state = match self.registered_clients.get(&client_id) {
            Some(s) => Some(*s),
            None => None,
        };
        match state {
            Some(s) => {
                self.registered_clients.insert(client_id, ClientState { outputs_sent: true, ..s });
            },
            None => {},
        }
    }

    /// The ids of the registered clients, in no particular order.
    pub fn connected_clients(&self) -> (v: Vec<usize>)
        ensures
            v@.len() == self.clients().len(),
            v@.no_duplicates(),
            v@.to_set() == self.clients().dom(),
    {
        let mut v: Vec<usize> = Vec::new();
        for (k, s) in it: self.registered_clients.iter()
            invariant
                v@.len() == it.index(),
                forall|j: int| 0 <= j < it.index() ==> #[trigger] v@[j] == *it.seq()[j].0,
        {
            v.push(*k);
        }
        proof {
            let s = vstd::std_specs::hash::spec_hash_map_iter(&self.registered_clients).remaining();
            let m = self.registered_clients@;
            assert forall|i: int, j: int| 0 <= i < v@.len() && 0 <= j < v@.len() && i != j implies v@[i]
                != v@[j] by {
                assert(m.contains_key(*s[i].0));
                assert(m.contains_key(*s[j].0));
                if v@[i] == v@[j] {
                    assert(s[i] == s[j]);
                }
            }
            assert forall|k: usize| #[trigger] v@.to_set().contains(k) <==> m.dom().contains(k) by {
                if v@.to_set().contains(k) {
                    let j = choose|j: int| 0 <= j < v@.len() && v@[j] == k;
                    assert(m.contains_key(*s[j].0));
                }
                if m.dom().contains(k) {
                    assert(s.contains((&k, &m[k])));
                    let j = choose|j: int| 0 <= j < s.len() && s[j] == (&k, &m[k]);
                    assert(v@[j] == k);
                }
            }
            assert(v@.to_set() =~= m.dom());
        }
        v
    }

    /// Whether the client is registered.
    pub fn is_registered(&self, client_id: usize) -> (b: bool)
        ensures
            b == self.clients().contains_key(client_id),
    {
        self.registered_clients.contains_key(&client_id)
    }

    /// The number of registered clients.
    pub fn client_count(&self) -> (n: usize)
        ensures
            n == self.clients().len(),
    {
        self.registered_clients.len()
    }

    /// Forgets a client and its buffers.
    pub fn remove_client(&mut self, client_id: usize)
        requires
            old(self).wf(),
        ensures
            final(self).wf(),
            final(self).clients() == old(self).clients().remove(client_id),
            final(self).inputs() == old(self).inputs().remove(client_id),
            final(self).outputs() == old(self).outputs().remove(client_id),
    {
        let ghost bi = self.input_buffer@;
        let ghost bo = self.output_buffer@;
        let _ = self.registered_clients.remove(&client_id);
        let _ = self.input_buffer.remove(&client_id);
        let _ = self.output_buffer.remove(&client_id);
        proof {
            assert(buffer_view(self.input_buffer@) =~= buffer_view(bi).remove(client_id));
            assert(buffer_view(self.output_buffer@) =~= buffer_view(bo).remove(client_id));
        }
    }

    /// Empties both buffers and clears every client's flags; the clients
    /// stay registered.
    pub fn clear_buffers(&mut self)
        requires
            old(self).wf(),
        ensures
            final(self).wf(),
            final(self).inputs() == Map::<usize, Seq<Seq<u8>>>::empty(),
            final(self).outputs() == Map::<usize, Seq<Seq<u8>>>::empty(),
            final(self).clients() == reset_flags(old(self).clients()),
    {
        self.input_buffer.clear();
        self.output_buffer.clear();
        let ids = self.connected_clients();
        let ghost m0 = self.registered_clients@;
        let mut i: usize = 0;
        while i < ids.len()
            invariant
                i <= ids@.len(),
                ids@.no_duplicates(),
                ids@.to_set() == m0.dom(),
                self.registered_clients@.dom() == m0.dom(),
                m0 == old(self).registered_clients@,
                self.input_buffer@ == Map::<usize, Vec<Vec<u8>>>::empty(),
                self.output_buffer@ == Map::<usize, Vec<Vec<u8>>>::empty(),
                forall|k: usize| #[trigger] m0.contains_key(k) ==> m0[k].client_id == k,
                forall|k: usize| #[trigger] self.registered_clients@.contains_key(k) ==> self.registered_clients@[k] == (if (exists|a: int|
                    0 <= a < i && ids@[a] == k) {
                    ClientState { inputs_received: false, outputs_sent: false, ..m0[k] }
                } else {
                    m0[k]
                }),
            decreases ids@.len() - i,
        {
            let id = ids[i];
            proof {
                assert(ids@.to_set().contains(id));
            }
            let state = match self.registered_clients.get(&id) {
                Some(s) => Some(*s),
                None => None,
            };
            match state {
                Some(s) => {
                    self.registered_clients.insert(
                        id,
                        ClientState { inputs_received: false, outputs_sent: false, ..s },
                    );
                },
                None => {},
            }
            proof {
                assert forall|k: usize| #[trigger] self.registered_clients@.contains_key(k) implies self.registered_clients@[k] == (if (exists|a: int|
                    0 <= a < i + 1 && ids@[a] == k) {
                    ClientState { inputs_received: false, outputs_sent: false, ..m0[k] }
                } else {
                    m0[k]
                }) by {
                    if k == id {
                        assert(ids@[i as int] == k);
                        if exists|a: int| 0 <= a < i && ids@[a] == k {
                            let a = choose|a: int| 0 <= a < i && ids@[a] == k;
                            assert(ids@[a] == ids@[i as int]);
                        }
                    } else {
                        if exists|a: int| 0 <= a < i + 1 && ids@[a] == k {
                            let a = choose|a: int| 0 <= a < i + 1 && ids@[a] == k;
                            assert(a < i);
                        }
                    }
                }
                assert(self.registered_clients@.dom() =~= m0.dom());
            }
            i = i + 1;
        }
        proof {
            assert forall|k: usize| #[trigger] m0.contains_key(k) implies exists|a: int|
                0 <= a < ids@.len() && ids@[a] == k by {
                assert(ids@.to_set().contains(k));
            }
            assert(self.registered_clients@ =~= reset_flags(m0));
            assert(buffer_view(self.input_buffer@) =~= Map::<usize, Seq<Seq<u8>>>::empty());
            assert(buffer_view(self.output_buffer@) =~= Map::<usize, Seq<Seq<u8>>>::empty());
        }
    }
}

/// The clients with both flags cleared.
pub open spec fn reset_flags(m: Map<usize, ClientState>) -> Map<usize, ClientState> {
    Map::new(
        |k: usize| m.contains_key(k),
        |k: usize| ClientState { inputs_received: false, outputs_sent: false, ..m[k] },
    )
}

impl Default for ClientHandler {
    fn default() -> (h: Self)
        ensures
            h.wf(),
            h.clients() == Map::<usize, ClientState>::empty(),
            h.inputs() == Map::<usize, Seq<Seq<u8>>>::empty(),
            h.outputs() == Map::<usize, Seq<Seq<u8>>>::empty(),
    {
        ClientHandler::new()
    }
}

} // verus!
