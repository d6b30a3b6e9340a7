//! Agreement on the participants of a computation: the client-list digest,
//! the `ConsensusGate` that holds operations until all participants are present, and
//! the verified ordering of parties and clients.

use vstd::prelude::*;
use crate::error::{ConsensusError, Error, ErrorView, rview};
use crate::text::owned;
use crate::types::{ClientId, PartyId, SocketAddress};

verus! {

broadcast use vstd::seq_lib::group_to_multiset_ensures;

/// Thirty-two zero bytes.
pub open spec fn zero_digest() -> Seq<u8> {
    Seq::new(32, |j: int| 0u8)
}

/// The 32 columns of a key: column `j` is the XOR of the key's bytes at the
/// positions congruent to `j` modulo 32.
pub open spec fn key_columns(k: Seq<u8>) -> Seq<u8>
    decreases k.len(),
{
    if k.len() == 0 {
        zero_digest()
    } else {
        let c = key_columns(k.drop_last());
        let m = (k.len() - 1) % 32;
        c.update(m, c[m] ^ k.last())
    }
}

/// Byte-wise XOR of two 32-byte sequences.
pub open spec fn xor32(a: Seq<u8>, b: Seq<u8>) -> Seq<u8> {
    Seq::new(32, |j: int| a[j] ^ b[j])
}

/// The digest of a list of keys: the byte-wise XOR of their columns.
pub open spec fn digest_of(keys: Seq<Seq<u8>>) -> Seq<u8>
    decreases keys.len(),
{
    if keys.len() == 0 {
        zero_digest()
    } else {
        xor32(digest_of(keys.drop_last()), key_columns(keys.last()))
    }
}

/// The keys of a list of key vectors, as byte sequences.
pub open spec fn keys_view(keys: Seq<Vec<u8>>) -> Seq<Seq<u8>> {
    keys.map_values(|k: Vec<u8>| k@)
}

proof fn lemma_key_columns_len(k: Seq<u8>)
    ensures
        key_columns(k).len() == 32,
    decreases k.len(),
{
    if k.len() > 0 {
        lemma_key_columns_len(k.drop_last());
    }
}

proof fn lemma_digest_len(keys: Seq<Seq<u8>>)
    ensures
        digest_of(keys).len() == 32,
    decreases keys.len(),
{
}

proof fn lemma_xor_assoc(a: u8, b: u8, c: u8)
    ensures
        (a ^ b) ^ c == a ^ (b ^ c),
        a ^ b == b ^ a,
        a ^ 0 == a,
{
    assert((a ^ b) ^ c == a ^ (b ^ c)) by (bit_vector);
    assert(a ^ b == b ^ a) by (bit_vector);
    assert(a ^ 0 == a) by (bit_vector);
}

proof fn lemma_xor32_swap(a: Seq<u8>, b: Seq<u8>, c: Seq<u8>)
    requires
        a.len() == 32,
        b.len() == 32,
        c.len() == 32,
    ensures
        xor32(xor32(a, b), c) == xor32(xor32(a, c), b),
{
    assert forall|j: int| 0 <= j < 32 implies #[trigger] xor32(xor32(a, b), c)[j] == xor32(xor32(a, c), b)[j] by {
        lemma_xor_assoc(a[j], b[j], c[j]);
        lemma_xor_assoc(a[j], c[j], b[j]);
        lemma_xor_assoc(b[j], c[j], 0);
    }
    assert(xor32(xor32(a, b), c) =~= xor32(xor32(a, c), b));
}

proof fn lemma_digest_remove(t: Seq<Seq<u8>>, i: int)
    requires
        0 <= i < t.len(),
    ensures
        digest_of(t) == xor32(digest_of(t.remove(i)), key_columns(t[i])),
    decreases t.len(),
{
    if i == t.len() - 1 {
        assert(t.remove(i) =~= t.drop_last());
    } else {
        let u = t.drop_last();
        lemma_digest_remove(u, i);
        assert(t.remove(i).drop_last() =~= u.remove(i));
        assert(t.remove(i).last() == t.last());
        lemma_digest_len(u.remove(i));
        lemma_key_columns_len(t[i]);
        lemma_key_columns_len(t.last());
        lemma_xor32_swap(digest_of(u.remove(i)), key_columns(t[i]), key_columns(t.last()));
    }
}

/// The digest does not depend on the order of the keys: two lists that hold
/// the same keys, as many times each, have the same digest.
pub proof fn lemma_digest_order_independent(s: Seq<Seq<u8>>, t: Seq<Seq<u8>>)
    requires
        s.to_multiset() == t.to_multiset(),
    ensures
        digest_of(s) == digest_of(t),
    decreases s.len(),
{
    if s.len() == 0 {
        assert(s.to_multiset().len() == 0);
        assert(t.to_multiset().len() == t.len());
        assert(t =~= Seq::<Seq<u8>>::empty());
        assert(s =~= Seq::<Seq<u8>>::empty());
    } else {
        let x = s.last();
        assert(s.drop_last().push(x) =~= s);
        assert(s.to_multiset().count(x) > 0);
        assert(t.contains(x));
        let i = choose|i: int| 0 <= i < t.len() && t[i] == x;
        assert(t.remove(i).to_multiset() == s.drop_last().to_multiset());
        lemma_digest_order_independent(s.drop_last(), t.remove(i));
        lemma_digest_remove(t, i);
    }
}

proof fn lemma_key_columns_short(k: Seq<u8>)
    requires
        k.len() <= 32,
    ensures
        key_columns(k).len() == 32,
        forall|j: int| 0 <= j < 32 ==> #[trigger] key_columns(k)[j] == (if j < k.len() { k[j] } else { 0u8 }),
    decreases k.len(),
{
    if k.len() > 0 {
        let p = k.drop_last();
        lemma_key_columns_short(p);
        let m = (k.len() - 1) % 32;
        assert(m == k.len() - 1);
        let c = key_columns(p);
        assert(key_columns(k) == c.update(m, c[m] ^ k.last()));
        assert(c[m] == 0u8);
        lemma_xor_assoc(0u8, k.last(), 0u8);
        lemma_xor_assoc(k.last(), 0u8, 0u8);
        assert(c[m] ^ k.last() == k.last());
        assert forall|j: int| 0 <= j < 32 implies #[trigger] key_columns(k)[j] == (if j < k.len() {
            k[j]
        } else {
            0u8
        }) by {
            if j != m {
                assert(key_columns(k)[j] == c[j]);
                if j < p.len() {
                    assert(p[j] == k[j]);
                }
            }
        }
    }
}

/// The digest of one key of at most 32 bytes is the key itself, padded with
/// zero bytes to 32: byte `i` of a key lands in digest byte `i`.
pub proof fn lemma_single_short_key_digest(k: Seq<u8>)
    requires
        k.len() <= 32,
    ensures
        digest_of(seq![k]) == k + Seq::new((32 - k.len()) as nat, |j: int| 0u8),
{
    lemma_key_columns_short(k);
    assert(seq![k].drop_last() =~= Seq::<Seq<u8>>::empty());
    assert(seq![k].last() == k);
    let d = digest_of(seq![k]);
    let want = k + Seq::new((32 - k.len()) as nat, |j: int| 0u8);
    assert(seq![k].len() == 1);
    assert(digest_of(Seq::<Seq<u8>>::empty()) == zero_digest());
    assert(digest_of(seq![k].drop_last()) == zero_digest());
    assert(d == xor32(zero_digest(), key_columns(k)));
    assert forall|j: int| 0 <= j < 32 implies #[trigger] d[j] == want[j] by {
        let x = key_columns(k)[j];
        lemma_xor_assoc(0u8, x, 0u8);
        lemma_xor_assoc(x, 0u8, 0u8);
        assert(d[j] == zero_digest()[j] ^ x);
        assert(zero_digest()[j] == 0u8);
        if j < k.len() {
            assert(want[j] == k[j]);
        } else {
            assert(want[j] == 0u8);
        }
    }
    assert(d =~= want);
}

/// The digest of a list of client public keys, 32 bytes.
#[derive(Clone, Copy, Debug, PartialEq, Eq, Hash)]
pub struct ClientListDigest([u8; 32]);

impl ClientListDigest {
    /// The digest's bytes.
    pub closed spec fn bytes(&self) -> Seq<u8> {
        self.0@
    }

    /// A digest with the given bytes.
    pub fn from_bytes(bytes: [u8; 32]) -> (d: Self)
        ensures
            d.bytes() == bytes@,
    {
        ClientListDigest(bytes)
    }

    /// The digest's bytes.
    pub fn as_bytes(&self) -> (b: &[u8; 32])
        ensures
            b@ == self.bytes(),
    {
        &self.0
    }

    /// Whether two digests hold the same bytes.
    pub fn same_as(&self, other: &ClientListDigest) -> (r: bool)
        ensures
            r == (self.bytes() == other.bytes()),
    {
        let mut i: usize = 0;
        while i < 32
            invariant
                i <= 32,
                self.0@.len() == 32,
                other.0@.len() == 32,
                forall|k: int| 0 <= k < i ==> self.0@[k] == other.0@[k],
            decreases 32 - i,
        {
            if self.0[i] != other.0[i] {
                return false;
            }
            i = i + 1;
        }
        assert(self.0@ =~= other.0@);
        true
    }

    /// The digest of the client keys: byte `j` is the XOR of every key byte
    /// at a position congruent to `j` modulo 32. The keys are taken in sorted
    /// order; by [`lemma_digest_order_independent`] any order gives the same
    /// digest.
    pub fn compute(client_keys: &[Vec<u8>]) -> (d: Self)
        ensures
            d.bytes() == digest_of(keys_view(client_keys@)),
    {
        let mut digest: [u8; 32] = [0u8; 32];
        let ghost keys = keys_view(client_keys@);
        assert(digest@ =~= zero_digest());
        let mut n: usize = 0;
        while n < client_keys.len()
            invariant
                n <= client_keys@.len(),
                keys == keys_view(client_keys@),
                digest@ == digest_of(keys.take(n as int)),
            decreases client_keys@.len() - n,
        {
            let key = &client_keys[n];
            let ghost before = digest@;
            proof {
                lemma_digest_len(keys.take(n as int));
            }
            proof {
                assert(key@.take(0) =~= Seq::<u8>::empty());
                assert forall|j: int| 0 <= j < 32 implies #[trigger] xor32(before, zero_digest())[j] == before[j] by {
                    lemma_xor_assoc(before[j], 0, 0);
                }
                assert(xor32(before, key_columns(key@.take(0))) =~= before);
            }
            let mut i: usize = 0;
            while i < key.len()
                invariant
                    i <= key@.len(),
                    before.len() == 32,
                    digest@ == xor32(before, key_columns(key@.take(i as int))),
                decreases key@.len() - i,
            {
                let m = i % 32;
                let b = key[i];
                let ghost kc = key_columns(key@.take(i as int));
                proof {
                    lemma_key_columns_len(key@.take(i as int));
                    assert(key@.take(i as int + 1).drop_last() =~= key@.take(i as int));
                    assert(key@.take(i as int + 1).last() == b);
                    lemma_xor_assoc(before[m as int], kc[m as int], b);
                }
                digest[m] = digest[m] ^ b;
                proof {
                    let kc2 = key_columns(key@.take(i as int + 1));
                    lemma_key_columns_len(key@.take(i as int + 1));
                    assert(digest@ =~= xor32(before, kc2));
                }
                i = i + 1;
            }
            proof {
                assert(key@.take(key@.len() as int) =~= key@);
                assert(keys.take(n as int + 1).drop_last() =~= keys.take(n as int));
                assert(keys[n as int] == key@);
            }
            n = n + 1;
        }
        assert(keys.take(client_keys@.len() as int) =~= keys);
        ClientListDigest(digest)
    }
}


/// Whether two byte slices are equal.
pub fn bytes_eq(a: &[u8], b: &[u8]) -> (r: bool)
    ensures
        r == (a@ == b@),
{
    if a.len() != b.len() {
        return false;
    }
    let mut i: usize = 0;
    while i < a.len()
        invariant
            a@.len() == b@.len(),
            i <= a@.len(),
            forall|k: int| 0 <= k < i ==> a@[k] == b@[k],
        decreases a@.len() - i,
    {
        if a[i] != b[i] {
            return false;
        }
        i = i + 1;
    }
    assert(a@ =~= b@);
    true
}

// ---------------------------------------------------------------------------
// ConsensusGate
// ---------------------------------------------------------------------------

/// Holds operations until every expected participant is present.
#[derive(Clone, Debug, PartialEq, Eq)]
pub enum ConsensusGate {
    /// No consensus is needed.
    NotRequired,
    /// Waiting for participants.
    Pending {
        connected_parties: usize,
        expected_parties: usize,
        connected_clients: usize,
        expected_clients: usize,
    },
    /// Every participant is present.
    Ready,
    /// Consensus failed.
    Failed(ConsensusError),
}

/// The message for waiting on a pending gate.
pub open spec fn pending_text() -> Seq<char> {
    "ConsensusGate::await_ready: not yet implemented for Pending state"@
}

/// What waiting on a gate gives: success when ready or not required, a
/// consensus timeout (with the missing count of a timed-out failure, else 0)
/// when failed, and a computation error while pending.
pub open spec fn await_ready_result(g: ConsensusGate) -> Result<(), ErrorView> {
    match g {
        ConsensusGate::NotRequired | ConsensusGate::Ready => Ok(()),
        ConsensusGate::Failed(e) => Err(ErrorView::Consensus(ConsensusError::ConsensusTimeout {
            missing_count: match e {
                ConsensusError::ConsensusTimeout { missing_count } => missing_count,
                _ => 0,
            },
        })),
        ConsensusGate::Pending { .. } => Err(ErrorView::Computation(pending_text())),
    }
}

/// Waiting on a `ConsensusGate` succeeds exactly when `is_ready` holds of it.
pub proof fn lemma_await_ok_iff_ready(g: ConsensusGate)
    ensures
        await_ready_result(g) is Ok <==> (g is Ready || g is NotRequired),
{
}

impl ConsensusGate {
    /// Whether operations may proceed: ready or not required.
    pub fn is_ready(&self) -> (b: bool)
        ensures
            b == (*self is Ready || *self is NotRequired),
    {
        match self {
            ConsensusGate::Ready | ConsensusGate::NotRequired => true,
            _ => false,
        }
    }

    /// Waits until the `ConsensusGate` is ready (see [`await_ready_result`]).
    pub fn await_ready(&self) -> (r: Result<(), Error>)
        ensures
            rview(r) == await_ready_result(*self),
            r is Ok <==> (*self is Ready || *self is NotRequired),
    {
        match self {
            ConsensusGate::NotRequired | ConsensusGate::Ready => Ok(()),
            ConsensusGate::Failed(e) => Err(Error::Consensus(ConsensusError::ConsensusTimeout {
                missing_count: match e {
                    ConsensusError::ConsensusTimeout { missing_count } => *missing_count,
                    _ => 0,
                },
            })),
            ConsensusGate::Pending { .. } => Err(Error::Computation(owned(
                "ConsensusGate::await_ready: not yet implemented for Pending state",
            ))),
        }
    }
}

// ---------------------------------------------------------------------------
// Participants and the verified ordering
// ---------------------------------------------------------------------------

/// A server party after consensus.
#[derive(Clone, Debug)]
pub struct PartyInfo {
    /// The party's identifier.
    pub party_id: PartyId,
    /// The party's public key.
    pub public_key: Vec<u8>,
    /// The party's address.
    pub address: SocketAddress,
}

/// A client after consensus.
#[derive(Clone, Debug)]
pub struct ClientInfo {
    /// The client's identifier.
    pub client_id: ClientId,
    /// The client's public key.
    pub public_key: Vec<u8>,
}

/// The agreed order of parties and clients.
#[derive(Clone, Debug)]
pub struct VerifiedOrdering {
    /// Parties in order.
    pub parties: Vec<PartyInfo>,
    /// Clients in order.
    pub clients: Vec<ClientInfo>,
    /// Digest of the client keys.
    pub digest: ClientListDigest,
    /// When consensus was reached, as time since the Unix epoch.
    pub timestamp: crate::types::Duration,
}

/// Whether `r` is the first position of `key` in `keys`.
pub open spec fn is_first_position(keys: Seq<Seq<u8>>, key: Seq<u8>, r: Option<usize>) -> bool {
    match r {
        Some(i) => i < keys.len() && keys[i as int] == key && forall|j: int| 0 <= j < i ==> keys[j] != key,
        None => forall|j: int| 0 <= j < keys.len() ==> keys[j] != key,
    }
}

impl VerifiedOrdering {
    /// The parties' public keys in order.
    pub open spec fn party_keys(&self) -> Seq<Seq<u8>> {
        self.parties@.map_values(|p: PartyInfo| p.public_key@)
    }

    /// The clients' public keys in order.
    pub open spec fn client_keys(&self) -> Seq<Seq<u8>> {
        self.clients@.map_values(|c: ClientInfo| c.public_key@)
    }

    /// The position of the first party with public key `key`.
    pub fn party_index(&self, key: &[u8]) -> (r: Option<usize>)
        ensures
            is_first_position(self.party_keys(), key@, r),
    {
        let mut i: usize = 0;
        while i < self.parties.len()
            invariant
                i <= self.parties@.len(),
                forall|j: int| 0 <= j < i ==> self.party_keys()[j] != key@,
            decreases self.parties@.len() - i,
        {
            if bytes_eq(self.parties[i].public_key.as_slice(), key) {
                return Some(i);
            }
            i = i + 1;
        }
        None
    }

    /// The position of the first client with public key `key`.
    pub fn client_index(&self, key: &[u8]) -> (r: Option<usize>)
        ensures
            is_first_position(self.client_keys(), key@, r),
    {
        let mut i: usize = 0;
        while i < self.clients.len()
            invariant
                i <= self.clients@.len(),
                forall|j: int| 0 <= j < i ==> self.client_keys()[j] != key@,
            decreases self.clients@.len() - i,
        {
            if bytes_eq(self.clients[i].public_key.as_slice(), key) {
                return Some(i);
            }
            i = i + 1;
        }
        None
    }

    /// Whether `digest` equals this ordering's digest.
    pub fn verify_digest(&self, digest: &ClientListDigest) -> (r: bool)
        ensures
            r == (self.digest.bytes() == digest.bytes()),
    {
        self.digest.same_as(digest)
    }
}

} // verus!
