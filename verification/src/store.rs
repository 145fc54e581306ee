//! The visited-state store: an open-addressed hash table from
//! fingerprints to distances with robin-hood displacement, sized for very
//! large search spaces.
//!
//! Slot occupancy is read off the stored fingerprint itself (its sentinel
//! byte), so a slot needs no separate flag; the reserved all-zero
//! fingerprint means "empty". On collision the element displaced least
//! far gives up its slot, which keeps worst-case probe lengths short at
//! high load. The table's abstract view is the map from stored
//! fingerprints to their distances, and every operation is verified
//! against that view.

use vstd::prelude::*;
use vstd::pervasive::VecAdditionalExecFns;
use crate::state::{CompressedState, Dist, fnv1a};

verus! {

/// The store refuses to grow past this many entries; the driver prunes
/// instead. The bound keeps every capacity computation inside `usize`.
pub const MAX_STORE_SIZE: usize = usize::MAX / 16;

/// Keys of the open-addressed store: a key knows whether it marks an
/// occupied slot, and there is a reserved key for empty slots.
pub trait VecHashKey: Sized {
    spec fn spec_is_valid(&self) -> bool;

    fn is_valid(&self) -> (r: bool)
        ensures
            r == self.spec_is_valid(),
    ;

    fn invalid() -> (r: Self)
        ensures
            !r.spec_is_valid(),
    ;
}

impl VecHashKey for CompressedState {
    open spec fn spec_is_valid(&self) -> bool {
        CompressedState::spec_is_valid(*self)
    }

    fn is_valid(&self) -> (r: bool) {
        CompressedState::is_valid(self)
    }

    fn invalid() -> (r: Self) {
        CompressedState::invalid()
    }
}

impl VecHashKey for crate::state::StateDist {
    open spec fn spec_is_valid(&self) -> bool {
        CompressedState::spec_is_valid(self.s)
    }

    fn is_valid(&self) -> (r: bool) {
        CompressedState::is_valid(&self.s)
    }

    fn invalid() -> (r: Self) {
        crate::state::StateDist { s: CompressedState::invalid(), dist: 0 }
    }
}

/// The result of probing for a key: the slot where it sits (`Occupied`) or
/// the slot where it was just inserted with a default distance (`Vacant`).
pub enum VecHashMapEntry {
    Vacant(usize),
    Occupied(usize),
}

/// Fingerprint-to-distance map with open addressing, robin-hood probing
/// and doubling growth at ~90% load, backed by two parallel dense arrays.
pub struct VecHashMap {
    keys: Vec<CompressedState>,
    values: Vec<Dist>,
    size: usize,
    model: Ghost<Map<Seq<u8>, Dist>>,
    slots: Ghost<Map<Seq<u8>, int>>,
}

/// Slot of probe step `q` from home slot `h` in a table of `m` slots.
pub open spec fn pos_of(h: int, q: int, m: int) -> int {
    (h + q) % m
}

/// Probe distance of slot `i` from home slot `h` in a table of `m` slots.
pub open spec fn disp_of(h: int, i: int, m: int) -> int {
    (i - h + m) % m
}

/// Probe positions and probe distances are inverse to each other.
pub proof fn lemma_pos_disp(h: int, i: int, m: int)
    requires
        0 <= h < m,
        0 <= i < m,
    ensures
        0 <= disp_of(h, i, m) < m,
        pos_of(h, disp_of(h, i, m), m) == i,
        forall|q: int| 0 <= q < m && pos_of(h, q, m) == i ==> q == disp_of(h, i, m),
{
    assert forall|a: int| 0 <= a < m implies #[trigger] (a % m) == a by {
        vstd::arithmetic::div_mod::lemma_small_mod(a as nat, m as nat);
    }
    assert forall|a: int| m <= a < 2 * m implies #[trigger] (a % m) == a - m by {
        assert((a - m) + 1 * m == a);
        vstd::arithmetic::div_mod::lemma_mod_multiples_vanish(1, a - m, m);
        vstd::arithmetic::div_mod::lemma_small_mod((a - m) as nat, m as nat);
    }
    if i >= h {
        assert(disp_of(h, i, m) == i - h);
    } else {
        assert(disp_of(h, i, m) == i - h + m);
    }
}

/// The two cases of a reduced sum modulo `m`.
proof fn lemma_mod_cases(m: int)
    requires
        0 < m,
    ensures
        forall|a: int| 0 <= a < m ==> #[trigger] (a % m) == a,
        forall|a: int| m <= a < 2 * m ==> #[trigger] (a % m) == a - m,
{
    assert forall|a: int| 0 <= a < m implies #[trigger] (a % m) == a by {
        vstd::arithmetic::div_mod::lemma_small_mod(a as nat, m as nat);
    }
    assert forall|a: int| m <= a < 2 * m implies #[trigger] (a % m) == a - m by {
        assert((a - m) + 1 * m == a);
        vstd::arithmetic::div_mod::lemma_mod_multiples_vanish(1, a - m, m);
        vstd::arithmetic::div_mod::lemma_small_mod((a - m) as nat, m as nat);
    }
}

/// One more probe step moves the probe position one slot along the ring.
proof fn lemma_pos_step(h: int, q: int, m: int)
    requires
        0 <= h < m,
        0 <= q,
    ensures
        pos_of(h, q + 1, m) == (pos_of(h, q, m) + 1) % m,
{
    lemma_mod_cases(m);
    let a = h + q;
    vstd::arithmetic::div_mod::lemma_mod_bound(a, m);
    vstd::arithmetic::div_mod::lemma_fundamental_div_mod(a, m);
    if a % m + 1 < m {
        assert((a + 1) == m * (a / m) + (a % m + 1));
        vstd::arithmetic::div_mod::lemma_mod_multiples_vanish(a / m, a % m + 1, m);
    } else {
        assert(m * (a / m + 1) == m * (a / m) + m) by (nonlinear_arith);
        assert((a + 1) == m * (a / m + 1) + 0);
        vstd::arithmetic::div_mod::lemma_mod_multiples_vanish(a / m + 1, 0, m);
    }
}

/// The slot left of a probe position is the previous probe position.
proof fn lemma_prev_pos(h: int, q: int, m: int)
    requires
        0 <= h < m,
        0 <= q,
    ensures
        (pos_of(h, q + 1, m) + m - 1) % m == pos_of(h, q, m),
{
    lemma_pos_step(h, q, m);
    lemma_mod_cases(m);
    let p = pos_of(h, q, m);
    vstd::arithmetic::div_mod::lemma_mod_bound(h + q, m);
    if p + 1 < m {
        assert(pos_of(h, q + 1, m) == p + 1);
        assert((p + 1 + m - 1) % m == (p + m) % m);
        assert(p + 0 * m + m == p + m);
        vstd::arithmetic::div_mod::lemma_mod_multiples_vanish(1, p, m);
    } else {
        assert(pos_of(h, q + 1, m) == 0);
    }
}

/// Advancing the probe position shortens the ring distance to a fixed
/// slot by one, as long as that slot has not been reached.
proof fn lemma_disp_step(p: int, e: int, m: int)
    requires
        0 <= p < m,
        0 <= e < m,
        p != e,
    ensures
        disp_of((p + 1) % m, e, m) == disp_of(p, e, m) - 1,
{
    lemma_mod_cases(m);
    vstd::arithmetic::div_mod::lemma_mod_bound(p + 1, m);
    if p + 1 < m {
        assert((p + 1) % m == p + 1);
    } else {
        assert((p + 1) % m == 0);
    }
}

/// A slot is at ring distance zero from itself.
proof fn lemma_disp_self(p: int, m: int)
    requires
        0 <= p < m,
    ensures
        disp_of(p, p, m) == 0,
{
    lemma_mod_cases(m);
}

/// Advancing a slot by one grows its ring distance from a fixed start by
/// one, short of a full turn.
proof fn lemma_disp_fwd(fp: int, p: int, m: int)
    requires
        0 <= fp < m,
        0 <= p < m,
        disp_of(fp, p, m) + 1 < m,
    ensures
        disp_of(fp, (p + 1) % m, m) == disp_of(fp, p, m) + 1,
{
    lemma_mod_cases(m);
    vstd::arithmetic::div_mod::lemma_mod_bound(p + 1, m);
    if p + 1 < m {
        assert((p + 1) % m == p + 1);
    } else {
        assert((p + 1) % m == 0);
    }
}

impl View for VecHashMap {
    type V = Map<Seq<u8>, Dist>;

    closed spec fn view(&self) -> Map<Seq<u8>, Dist> {
        self.model@
    }
}

impl VecHashMap {
    pub closed spec fn spec_cap(self) -> int {
        self.keys@.len() as int
    }

    pub closed spec fn spec_len(self) -> int {
        self.size as int
    }

    pub closed spec fn spec_home(self, k: Seq<u8>) -> int {
        (fnv1a(k) as int) % self.spec_cap()
    }

    pub closed spec fn slot_valid(self, i: int) -> bool {
        self.keys@[i].spec_is_valid()
    }

    pub closed spec fn key_at(self, i: int) -> Seq<u8> {
        self.keys@[i]@
    }

    /// Number of occupied slots among the first `j`.
    pub closed spec fn num_valid(self, j: int) -> int
        decreases j,
    {
        if j <= 0 {
            0
        } else {
            self.num_valid(j - 1) + if self.slot_valid(j - 1) { 1int } else { 0int }
        }
    }

    /// A stored key's slot holds exactly that key and its distance.
    pub closed spec fn slot_ok(self, k: Seq<u8>) -> bool {
        let i = self.slots@[k];
        &&& 0 <= i < self.spec_cap()
        &&& self.slot_valid(i)
        &&& self.key_at(i) == k
        &&& self.values@[i] == self.model@[k]
    }

    /// Every slot on a stored key's probe path, short of its own slot,
    /// is occupied; this is what makes a probe that reaches an empty slot
    /// conclusive.
    pub closed spec fn path_ok(self, k: Seq<u8>) -> bool {
        let d = disp_of(self.spec_home(k), self.slots@[k], self.spec_cap());
        forall|q: int| 0 <= q < d ==> self.slot_valid(pos_of(self.spec_home(k), q, self.spec_cap()))
    }

    /// Probe distance of the occupant of slot `i` from its own home slot.
    pub closed spec fn occ_disp(self, i: int) -> int {
        disp_of(self.spec_home(self.key_at(i)), i, self.spec_cap())
    }

    /// The robin-hood ordering: along a run of occupied slots, an
    /// occupant's probe distance exceeds its left neighbour's by at most
    /// one. A probe may therefore stop as soon as it meets an occupant
    /// displaced less far than the probe has travelled.
    pub closed spec fn rh_ok(self) -> bool {
        forall|i: int|
            0 <= i < self.spec_cap() && #[trigger] self.slot_valid(i) && self.occ_disp(i) >= 1
                ==> self.slot_valid((i + self.spec_cap() - 1) % self.spec_cap()) && self.occ_disp(
                i,
            ) <= self.occ_disp((i + self.spec_cap() - 1) % self.spec_cap()) + 1
    }

    /// The ordering only reads the key array.
    proof fn lemma_rh_same_keys(m1: Self, m2: Self)
        requires
            m1.keys@ == m2.keys@,
            m1.rh_ok(),
        ensures
            m2.rh_ok(),
    {
        assert forall|i: int|
            0 <= i < m2.spec_cap() && #[trigger] m2.slot_valid(i) && m2.occ_disp(i) >= 1
            implies m2.slot_valid((i + m2.spec_cap() - 1) % m2.spec_cap()) && m2.occ_disp(i)
            <= m2.occ_disp((i + m2.spec_cap() - 1) % m2.spec_cap()) + 1 by {
            assert(m1.slot_valid(i) && m1.occ_disp(i) >= 1);
            assert(m1.slot_valid((i + m1.spec_cap() - 1) % m1.spec_cap()));
            assert(m1.occ_disp(i) <= m1.occ_disp((i + m1.spec_cap() - 1) % m1.spec_cap()) + 1);
        }
    }

    /// Walking a stored occupant's probe path backwards: every slot on it
    /// is occupied, by someone displaced at least as far as the walk.
    proof fn lemma_rh_chain(self, k: Seq<u8>, i: int, q: int)
        requires
            1 <= self.spec_cap(),
            self.rh_ok(),
            0 <= i < self.spec_cap(),
            self.slot_valid(i),
            self.key_at(i) == k,
            0 <= q <= self.occ_disp(i),
        ensures
            self.slot_valid(pos_of(self.spec_home(k), q, self.spec_cap())),
            self.occ_disp(pos_of(self.spec_home(k), q, self.spec_cap())) >= q,
        decreases self.occ_disp(i) - q,
    {
        let m = self.spec_cap();
        let hh = self.spec_home(k);
        vstd::arithmetic::div_mod::lemma_mod_bound(fnv1a(k) as int, m);
        lemma_pos_disp(hh, i, m);
        let d = self.occ_disp(i);
        if q == d {
            assert(pos_of(hh, d, m) == i);
        } else {
            self.lemma_rh_chain(k, i, q + 1);
            let j1 = pos_of(hh, q + 1, m);
            vstd::arithmetic::div_mod::lemma_mod_bound(hh + q + 1, m);
            lemma_prev_pos(hh, q, m);
            assert(self.slot_valid(j1) && self.occ_disp(j1) >= q + 1);
            assert(self.slot_valid((j1 + m - 1) % m));
            assert(self.occ_disp(j1) <= self.occ_disp((j1 + m - 1) % m) + 1);
        }
    }

    pub closed spec fn inv(self) -> bool {
        &&& self.keys@.len() == self.values@.len()
        &&& 1 <= self.spec_cap() <= usize::MAX / 4
        &&& self.spec_len() == self.num_valid(self.spec_cap())
        &&& self.model@.dom().finite()
        &&& self.model@.dom().len() == self.spec_len()
        &&& forall|k: Seq<u8>| #[trigger] self.model@.dom().contains(k) ==> self.slot_ok(k)
        &&& forall|k: Seq<u8>| #[trigger] self.model@.dom().contains(k) ==> self.path_ok(k)
        &&& forall|i: int|
            0 <= i < self.spec_cap() && #[trigger] self.slot_valid(i)
                ==> self.model@.dom().contains(self.key_at(i)) && self.slots@[self.key_at(i)] == i
        &&& self.rh_ok()
    }

    /// The table in the middle of a displacement chain: the final map's
    /// entries are all in the arrays except the one carried in hand.
    #[verifier::opaque]
    pub closed spec fn mid_ok(self, hand: CompressedState, hand_value: Dist) -> bool {
        &&& self.keys@.len() == self.values@.len()
        &&& 1 <= self.spec_cap() <= usize::MAX / 4
        &&& hand.spec_is_valid()
        &&& self.model@.dom().finite()
        &&& self.model@.dom().len() == self.spec_len() + 1
        &&& self.spec_len() == self.num_valid(self.spec_cap())
        &&& self.spec_len() < self.spec_cap()
        &&& self.model@.dom().contains(hand@)
        &&& self.model@[hand@] == hand_value
        &&& forall|k: Seq<u8>|
            #[trigger] self.model@.dom().contains(k) && k != hand@ ==> self.slot_ok(k)
                && self.path_ok(k)
        &&& forall|i: int|
            0 <= i < self.spec_cap() && #[trigger] self.slot_valid(i) ==> self.model@.dom().contains(
                self.key_at(i),
            ) && self.key_at(i) != hand@ && self.slots@[self.key_at(i)] == i
        &&& self.rh_ok()
    }

    /// The carried element's probe path so far: every slot on it is
    /// occupied by a different key, displaced at least as far as the walk
    /// has come.
    #[verifier::opaque]
    pub closed spec fn hand_path_ok(self, hk: Seq<u8>, h: int, probe: int) -> bool {
        forall|q: int|
            0 <= q < probe ==> self.slot_valid(#[trigger] pos_of(h, q, self.spec_cap()))
                && self.key_at(pos_of(h, q, self.spec_cap())) != hk && self.occ_disp(
                pos_of(h, q, self.spec_cap()),
            ) >= q
    }

    proof fn lemma_hand_path_empty(self, hk: Seq<u8>, h: int)
        ensures
            self.hand_path_ok(hk, h, 0),
    {
        reveal(VecHashMap::hand_path_ok);
    }

    proof fn lemma_hand_path_use(self, hk: Seq<u8>, h: int, probe: int, q: int)
        requires
            self.hand_path_ok(hk, h, probe),
            0 <= q < probe,
        ensures
            self.slot_valid(pos_of(h, q, self.spec_cap())),
            self.key_at(pos_of(h, q, self.spec_cap())) != hk,
            self.occ_disp(pos_of(h, q, self.spec_cap())) >= q,
    {
        reveal(VecHashMap::hand_path_ok);
    }

    proof fn lemma_hand_path_extend(self, hk: Seq<u8>, h: int, probe: int, pos: int)
        requires
            self.hand_path_ok(hk, h, probe),
            0 <= probe,
            pos == pos_of(h, probe, self.spec_cap()),
            self.slot_valid(pos),
            self.key_at(pos) != hk,
            self.occ_disp(pos) >= probe,
        ensures
            self.hand_path_ok(hk, h, probe + 1),
    {
        reveal(VecHashMap::hand_path_ok);
    }

    /// No occupied slot holds the key carried in hand.
    proof fn lemma_mid_key_ne(self, hand: CompressedState, hand_value: Dist, i: int)
        requires
            self.mid_ok(hand, hand_value),
            0 <= i < self.spec_cap(),
            self.slot_valid(i),
        ensures
            self.key_at(i) != hand@,
    {
        reveal(VecHashMap::mid_ok);
    }

    /// A table with fewer occupied slots than slots has an empty slot.
    proof fn lemma_exists_invalid(self, j: int)
        requires
            0 <= j,
            self.num_valid(j) < j,
        ensures
            exists|e: int| 0 <= e < j && !self.slot_valid(e),
        decreases j,
    {
        if j > 0 {
            if self.slot_valid(j - 1) {
                self.lemma_exists_invalid(j - 1);
            }
        }
    }

    proof fn lemma_num_valid_le(self, j: int)
        requires
            0 <= j,
        ensures
            self.num_valid(j) <= j,
            0 <= self.num_valid(j),
        decreases j,
    {
        if j > 0 {
            self.lemma_num_valid_le(j - 1);
        }
    }

    /// Writing one slot changes the occupied count by the change at that
    /// slot alone.
    proof fn lemma_num_valid_update(m1: Self, m2: Self, e: int, j: int)
        requires
            m1.spec_cap() == m2.spec_cap(),
            0 <= e < m1.spec_cap(),
            forall|i: int| 0 <= i < m1.spec_cap() && i != e ==> m1.keys@[i] == m2.keys@[i],
            0 <= j <= m1.spec_cap(),
        ensures
            m2.num_valid(j) == m1.num_valid(j) + if e < j {
                (if m2.slot_valid(e) { 1int } else { 0int }) - (if m1.slot_valid(e) { 1int } else { 0int })
            } else { 0int },
        decreases j,
    {
        if j > 0 {
            Self::lemma_num_valid_update(m1, m2, e, j - 1);
        }
    }

    /// An empty table sized for about `capacity` entries at 90% load:
    /// `capacity * 11 / 10 + 1` slots, so even a hint of zero leaves a
    /// viable one-slot table that can grow. The hint only pre-sizes;
    /// correctness never depends on it.
    pub fn with_capacity(capacity: usize) -> (r: VecHashMap)
        requires
            capacity <= MAX_STORE_SIZE,
        ensures
            r.inv(),
            r@ == Map::<Seq<u8>, Dist>::empty(),
            r.spec_len() == 0,
            r.spec_cap() == capacity * 11 / 10 + 1,
            r.spec_cap() >= 1,
    {
        let raw_capacity: usize = capacity * 11 / 10 + 1;
        VecHashMap::with_raw_capacity(raw_capacity)
    }

    proof fn lemma_all_invalid_num_valid(self, j: int)
        requires
            0 <= j <= self.spec_cap(),
            forall|i: int| 0 <= i < self.spec_cap() ==> !self.slot_valid(i),
        ensures
            self.num_valid(j) == 0,
        decreases j,
    {
        if j > 0 {
            self.lemma_all_invalid_num_valid(j - 1);
        }
    }

    /// Number of distinct fingerprints stored.
    pub fn len(&self) -> (r: usize)
        requires
            self.inv(),
        ensures
            r == self@.dom().len(),
            r == self.spec_len(),
    {
        self.size
    }

    /// Home slot of a fingerprint.
    fn hash_of(&self, key: &CompressedState) -> (r: usize)
        requires
            1 <= self.spec_cap(),
            self.spec_cap() <= usize::MAX / 4,
        ensures
            r == self.spec_home(key@),
            0 <= r < self.spec_cap(),
    {
        let h = key.hash64();
        let cap = self.keys.len();
        proof {
            vstd::arithmetic::div_mod::lemma_mod_bound(h as int, cap as int);
        }
        (h % (cap as u64)) as usize
    }

    /// Probes for `key`. If it is stored, returns its slot without any
    /// change; otherwise inserts it with distance 0 at the first empty
    /// slot of its probe sequence and returns that slot.
    pub fn entry(&mut self, key: CompressedState) -> (e: VecHashMapEntry)
        requires
            old(self).inv(),
            key.spec_is_valid(),
            old(self).spec_len() < MAX_STORE_SIZE,
        ensures
            final(self).inv(),
            match e {
                VecHashMapEntry::Occupied(i) => {
                    &&& old(self)@.dom().contains(key@)
                    &&& final(self)@ == old(self)@
                    &&& final(self).spec_len() == old(self).spec_len()
                    &&& i < final(self).spec_cap()
                    &&& final(self).slot_valid(i as int)
                    &&& final(self).key_at(i as int) == key@
                },
                VecHashMapEntry::Vacant(i) => {
                    &&& !old(self)@.dom().contains(key@)
                    &&& final(self)@ == old(self)@.insert(key@, 0)
                    &&& final(self).spec_len() == old(self).spec_len() + 1
                    &&& i < final(self).spec_cap()
                    &&& final(self).slot_valid(i as int)
                    &&& final(self).key_at(i as int) == key@
                },
            },
    {
        // Grow when the table is at roughly 90% load.
        if self.size >= self.keys.len() / 11 * 10 {
            proof {
                self.lemma_num_valid_le(self.spec_cap());
            }
            self.resize_and_rehash();
        }
        assert(self.spec_len() < self.spec_cap());
        self.insert_probe(key)
    }


    /// Lays the carried element into an empty slot, completing the
    /// insertion: in the first phase the hand is the new key itself,
    /// afterwards it is the last displaced occupant.
    #[verifier::rlimit(100)]
    #[verifier::spinoff_prover]
    fn place_hand(
        &mut self,
        cap: usize,
        pos: usize,
        hand: CompressedState,
        hand_value: Dist,
        Ghost(h): Ghost<int>,
        Ghost(probe): Ghost<int>,
        Ghost(inserted): Ghost<bool>,
        Ghost(keyv): Ghost<Seq<u8>>,
        Ghost(origin): Ghost<Map<Seq<u8>, Dist>>,
    )
        requires
            cap == old(self).spec_cap(),
            pos < cap,
            !old(self).slot_valid(pos as int),
            hand.spec_is_valid(),
            0 <= h < cap,
            h == old(self).spec_home(hand@),
            0 <= probe,
            pos_of(h, probe, cap as int) == pos as int,
            disp_of(h, pos as int, cap as int) == probe,
            old(self).hand_path_ok(hand@, h, probe),
            !inserted ==> old(self).inv() && old(self).spec_len() < cap && hand@ == keyv
                && hand_value == 0 && origin == old(self)@,
            inserted ==> old(self).mid_ok(hand, hand_value) && old(self)@ == origin.insert(
                keyv,
                0,
            ) && hand@ != keyv && !origin.dom().contains(keyv),
        ensures
            final(self).inv(),
            final(self).spec_cap() == cap,
            final(self).spec_len() == old(self).spec_len() + 1,
            final(self)@ == origin.insert(keyv, 0),
            !origin.dom().contains(keyv),
            final(self).slot_valid(pos as int),
            final(self).key_at(pos as int) == hand@,
            forall|i: int|
                0 <= i < cap && i != pos ==> final(self).keys@[i] == old(self).keys@[i],
    {
        proof {
            reveal(VecHashMap::mid_ok);
            reveal(VecHashMap::hand_path_ok);
            if !inserted && self@.dom().contains(keyv) {
                let i = self.slots@[keyv];
                let d = disp_of(h, i, cap as int);
                lemma_pos_disp(h, i, cap as int);
                if d < probe {
                    assert(self.key_at(pos_of(h, d, cap as int)) != keyv);
                    assert(false);
                } else if d == probe {
                    assert(false);
                } else {
                    assert(self.slot_valid(pos_of(h, probe, cap as int)));
                    assert(false);
                }
            }
        }
        let ghost m1 = *self;
        let ghost kview = hand@;
        self.keys.set(pos, hand);
        self.values.set(pos, hand_value);
        self.size = self.size + 1;
        proof {
            if !inserted {
                self.model@ = m1.model@.insert(kview, 0);
                self.slots@ = m1.slots@.insert(kview, pos as int);
                vstd::set::axiom_set_insert_len(m1.model@.dom(), kview);
                assert(self.model@.dom() =~= m1.model@.dom().insert(kview));
            } else {
                self.slots@ = m1.slots@.insert(kview, pos as int);
            }
            Self::lemma_num_valid_update(m1, *self, pos as int, cap as int);
            assert forall|k: Seq<u8>| #[trigger] self.model@.dom().contains(k)
                implies self.slot_ok(k) && self.path_ok(k) by {
                if k == kview {
                    assert(self.slots@[k] == pos as int);
                    assert forall|q: int| 0 <= q < probe implies self.slot_valid(
                        pos_of(h, q, cap as int)) by {
                        assert(m1.slot_valid(pos_of(h, q, cap as int)));
                    }
                } else {
                    assert(m1.model@.dom().contains(k));
                    assert(m1.slot_ok(k));
                    assert(m1.slots@[k] != pos as int);
                    assert(self.slot_ok(k));
                    assert(m1.path_ok(k));
                    assert(self.spec_home(k) == m1.spec_home(k));
                    assert(self.slots@[k] == m1.slots@[k]);
                    assert forall|q: int|
                        0 <= q < disp_of(self.spec_home(k), self.slots@[k], cap as int)
                        implies self.slot_valid(pos_of(self.spec_home(k), q, cap as int)) by {
                        assert(0 <= q < disp_of(m1.spec_home(k), m1.slots@[k], cap as int));
                        assert(m1.slot_valid(pos_of(m1.spec_home(k), q, cap as int)));
                    }
                }
            }
            assert forall|i2: int|
                0 <= i2 < cap && #[trigger] self.slot_valid(i2)
                implies self.model@.dom().contains(self.key_at(i2)) && self.slots@[self.key_at(
                i2,
            )] == i2 by {
                if i2 != pos as int {
                    assert(m1.slot_valid(i2));
                    assert(self.key_at(i2) == m1.key_at(i2));
                }
            }
            assert forall|i2: int|
                0 <= i2 < cap && #[trigger] self.slot_valid(i2) && self.occ_disp(i2) >= 1
                implies self.slot_valid((i2 + cap - 1) % (cap as int)) && self.occ_disp(i2)
                <= self.occ_disp((i2 + cap - 1) % (cap as int)) + 1 by {
                vstd::arithmetic::div_mod::lemma_mod_bound(i2 + cap - 1, cap as int);
                let prev = (i2 + cap - 1) % (cap as int);
                if i2 == pos as int {
                    assert(self.occ_disp(i2) == probe);
                    lemma_prev_pos(h, probe - 1, cap as int);
                    assert(prev == pos_of(h, probe - 1, cap as int));
                    assert(m1.slot_valid(prev) && m1.occ_disp(prev) >= probe - 1);
                    assert(self.occ_disp(prev) == m1.occ_disp(prev));
                } else {
                    assert(m1.slot_valid(i2) && m1.occ_disp(i2) == self.occ_disp(i2));
                    assert(m1.slot_valid(prev) && m1.occ_disp(i2) <= m1.occ_disp(prev) + 1);
                    if prev == pos as int {
                        assert(false);
                    }
                    assert(self.occ_disp(prev) == m1.occ_disp(prev));
                }
            }
            if !inserted {
                assert(self@ =~= origin.insert(keyv, 0));
            }
            assert(self.inv());
        }
    }


    /// Robin-hood displacement: the carried element takes the occupant's
    /// slot (the occupant is luckier, i.e. displaced less far than the
    /// probe has travelled), and the occupant is carried onward.
    #[verifier::rlimit(100)]
    #[verifier::spinoff_prover]
    fn displace_at(
        &mut self,
        cap: usize,
        pos: usize,
        hand: &mut CompressedState,
        hand_value: &mut Dist,
        Ghost(h): Ghost<int>,
        Ghost(probe): Ghost<int>,
        Ghost(inserted): Ghost<bool>,
        Ghost(keyv): Ghost<Seq<u8>>,
        Ghost(origin): Ghost<Map<Seq<u8>, Dist>>,
        Ghost(first_pos): Ghost<int>,
    )
        requires
            cap == old(self).spec_cap(),
            pos < cap,
            old(self).slot_valid(pos as int),
            old(hand).spec_is_valid(),
            0 <= h < cap,
            h == old(self).spec_home(old(hand)@),
            0 <= probe,
            pos_of(h, probe, cap as int) == pos as int,
            disp_of(h, pos as int, cap as int) == probe,
            old(self).occ_disp(pos as int) < probe,
            old(self).key_at(pos as int) != old(hand)@,
            old(self).hand_path_ok(old(hand)@, h, probe),
            !inserted ==> old(self).inv() && old(self).spec_len() < cap && old(hand)@ == keyv
                && *old(hand_value) == 0 && origin == old(self)@,
            inserted ==> old(self).mid_ok(*old(hand), *old(hand_value)) && old(self)@
                == origin.insert(keyv, 0) && old(hand)@ != keyv && !origin.dom().contains(keyv)
                && 0 <= first_pos < cap && old(self).slot_valid(first_pos) && old(self).key_at(
                first_pos,
            ) == keyv && pos as int != first_pos,
        ensures
            final(self).mid_ok(*final(hand), *final(hand_value)),
            final(self).spec_cap() == cap,
            final(self).spec_len() == old(self).spec_len(),
            final(self)@ == origin.insert(keyv, 0),
            !origin.dom().contains(keyv),
            final(hand)@ == old(self).key_at(pos as int),
            final(hand).spec_is_valid(),
            final(hand)@ != keyv,
            final(self).slot_valid(pos as int),
            final(self).key_at(pos as int) == old(hand)@,
            final(self).spec_home(final(hand)@) == old(self).spec_home(
                old(self).key_at(pos as int),
            ),
            forall|i: int|
                0 <= i < cap && i != pos ==> final(self).keys@[i] == old(self).keys@[i],
            final(self).hand_path_ok(
                final(hand)@,
                old(self).spec_home(old(self).key_at(pos as int)),
                old(self).occ_disp(pos as int),
            ),
    {
        proof {
            reveal(VecHashMap::mid_ok);
            reveal(VecHashMap::hand_path_ok);
            // The hand's key is provably absent: were it stored at probe
            // distance below the travel, an earlier slot would have
            // matched; at or beyond it, the ordering puts an occupant at
            // least as displaced as the probe here, where the occupant is
            // luckier.
            if !inserted && self@.dom().contains(keyv) {
                let i = self.slots@[keyv];
                let d = disp_of(h, i, cap as int);
                lemma_pos_disp(h, i, cap as int);
                if d < probe {
                    assert(self.key_at(pos_of(h, d, cap as int)) != keyv);
                    assert(false);
                } else {
                    self.lemma_rh_chain(keyv, i, probe);
                    assert(self.occ_disp(pos_of(h, probe, cap as int)) >= probe);
                    assert(false);
                }
            }
        }
        let ghost m1 = *self;
        let ghost in_key = old(hand)@;
        let ghost alt_dist = m1.occ_disp(pos as int);
        let ghost alt_h = m1.spec_home(m1.key_at(pos as int));
        self.keys.set_and_swap(pos, hand);
        self.values.set_and_swap(pos, hand_value);
        let ghost out_key = hand@;
        proof {
            assert(out_key == m1.key_at(pos as int));
            vstd::arithmetic::div_mod::lemma_mod_bound(fnv1a(out_key) as int, cap as int);
            lemma_pos_disp(alt_h, pos as int, cap as int);
            if !inserted {
                self.model@ = m1.model@.insert(in_key, 0);
                self.slots@ = m1.slots@.insert(in_key, pos as int);
                vstd::set::axiom_set_insert_len(m1.model@.dom(), in_key);
                assert(self.model@.dom() =~= m1.model@.dom().insert(in_key));
                assert(out_key != in_key);
            } else {
                self.slots@ = m1.slots@.insert(in_key, pos as int);
                if out_key == keyv {
                    assert(m1.slots@[keyv] == pos as int);
                    assert(m1.slots@[keyv] == first_pos);
                    assert(false);
                }
            }
            Self::lemma_num_valid_update(m1, *self, pos as int, cap as int);
            assert forall|k: Seq<u8>| #[trigger] self.model@.dom().contains(k) && k != out_key
                implies self.slot_ok(k) && self.path_ok(k) by {
                if k == in_key {
                    assert(self.slots@[k] == pos as int);
                    assert forall|q: int| 0 <= q < probe implies self.slot_valid(
                        pos_of(h, q, cap as int)) by {
                        assert(m1.slot_valid(pos_of(h, q, cap as int)));
                    }
                } else {
                    assert(m1.model@.dom().contains(k));
                    assert(m1.slot_ok(k));
                    assert(m1.slots@[k] != pos as int);
                    assert(self.slot_ok(k));
                    assert(m1.path_ok(k));
                    assert(self.spec_home(k) == m1.spec_home(k));
                    assert(self.slots@[k] == m1.slots@[k]);
                    assert forall|q: int|
                        0 <= q < disp_of(self.spec_home(k), self.slots@[k], cap as int)
                        implies self.slot_valid(pos_of(self.spec_home(k), q, cap as int)) by {
                        assert(0 <= q < disp_of(m1.spec_home(k), m1.slots@[k], cap as int));
                        assert(m1.slot_valid(pos_of(m1.spec_home(k), q, cap as int)));
                    }
                }
            }
            assert forall|i2: int|
                0 <= i2 < cap && #[trigger] self.slot_valid(i2)
                implies self.model@.dom().contains(self.key_at(i2)) && self.key_at(i2) != out_key
                    && self.slots@[self.key_at(i2)] == i2 by {
                if i2 != pos as int {
                    assert(m1.slot_valid(i2));
                    assert(self.key_at(i2) == m1.key_at(i2));
                    if self.key_at(i2) == out_key {
                        assert(m1.slots@[out_key] == i2);
                        assert(m1.slot_valid(pos as int) && m1.key_at(pos as int) == out_key);
                        assert(m1.slots@[out_key] == pos as int);
                        assert(false);
                    }
                }
            }
            assert forall|i2: int|
                0 <= i2 < cap && #[trigger] self.slot_valid(i2) && self.occ_disp(i2) >= 1
                implies self.slot_valid((i2 + cap - 1) % (cap as int)) && self.occ_disp(i2)
                <= self.occ_disp((i2 + cap - 1) % (cap as int)) + 1 by {
                vstd::arithmetic::div_mod::lemma_mod_bound(i2 + cap - 1, cap as int);
                let prev = (i2 + cap - 1) % (cap as int);
                if i2 == pos as int {
                    assert(self.occ_disp(i2) == probe);
                    lemma_prev_pos(h, probe - 1, cap as int);
                    assert(prev == pos_of(h, probe - 1, cap as int));
                    lemma_pos_disp(h, pos as int, cap as int);
                    vstd::arithmetic::div_mod::lemma_mod_bound(pos as int - h + cap, cap as int);
                    assert(probe < cap);
                    assert(prev != pos as int);
                    assert(m1.slot_valid(prev) && m1.occ_disp(prev) >= probe - 1);
                    assert(self.key_at(prev) == m1.key_at(prev));
                    assert(self.occ_disp(prev) == m1.occ_disp(prev));
                } else {
                    assert(m1.slot_valid(i2) && m1.occ_disp(i2) == self.occ_disp(i2));
                    assert(m1.slot_valid(prev) && m1.occ_disp(i2) <= m1.occ_disp(prev) + 1);
                    if prev == pos as int {
                        assert(m1.occ_disp(prev) == alt_dist);
                        assert(self.occ_disp(prev) == probe);
                    } else {
                        assert(self.occ_disp(prev) == m1.occ_disp(prev));
                    }
                }
            }
            // The displaced occupant's own probe path, walked in the
            // pre-swap table, carries over to the new table.
            assert forall|q: int| 0 <= q < alt_dist implies self.slot_valid(
                #[trigger] pos_of(alt_h, q, cap as int)) && self.key_at(
                pos_of(alt_h, q, cap as int)) != out_key && self.occ_disp(
                pos_of(alt_h, q, cap as int)) >= q by {
                m1.lemma_rh_chain(out_key, pos as int, q);
                let pq = pos_of(alt_h, q, cap as int);
                vstd::arithmetic::div_mod::lemma_mod_bound(alt_h + q, cap as int);
                assert(m1.slot_valid(pq) && m1.occ_disp(pq) >= q);
                if pq == pos as int {
                    lemma_pos_disp(alt_h, pos as int, cap as int);
                    assert(q == alt_dist);
                    assert(false);
                }
                assert(self.slot_valid(pq) && self.key_at(pq) == m1.key_at(pq));
                assert(self.occ_disp(pq) == m1.occ_disp(pq));
                if self.key_at(pq) == out_key {
                    assert(self.slots@[out_key] == pq);
                    assert(false);
                }
            }
            assert(self.mid_ok(*hand, *hand_value));
        }
    }

    /// The probe loop shared by `entry`: requires a free slot to exist.
    /// Probes forward from the key's home slot; on meeting an occupant
    /// displaced less far than the probe has travelled, the occupant is
    /// displaced (robin-hood) and re-inserted further along, bounding
    /// probe lengths. The returned `Vacant` slot is where the new key
    /// itself came to rest.
    #[verifier::rlimit(100)]
    #[verifier::spinoff_prover]
    fn insert_probe(&mut self, key: CompressedState) -> (e: VecHashMapEntry)
        requires
            old(self).inv(),
            key.spec_is_valid(),
            old(self).spec_len() < old(self).spec_cap(),
        ensures
            final(self).inv(),
            final(self).spec_cap() == old(self).spec_cap(),
            match e {
                VecHashMapEntry::Occupied(i) => {
                    &&& old(self)@.dom().contains(key@)
                    &&& final(self)@ == old(self)@
                    &&& final(self).spec_len() == old(self).spec_len()
                    &&& i < final(self).spec_cap()
                    &&& final(self).slot_valid(i as int)
                    &&& final(self).key_at(i as int) == key@
                },
                VecHashMapEntry::Vacant(i) => {
                    &&& !old(self)@.dom().contains(key@)
                    &&& final(self)@ == old(self)@.insert(key@, 0)
                    &&& final(self).spec_len() == old(self).spec_len() + 1
                    &&& i < final(self).spec_cap()
                    &&& final(self).slot_valid(i as int)
                    &&& final(self).key_at(i as int) == key@
                },
            },
    {
        let cap: usize = self.keys.len();
        proof {
            self.lemma_exists_invalid(cap as int);
        }
        let ghost e0: int = choose|e: int| 0 <= e < cap && !self.slot_valid(e);
        let mut hand: CompressedState = key;
        let mut hand_value: Dist = 0;
        let mut h: usize = self.hash_of(&hand);
        let mut probe: usize = 0;
        let mut inserted: bool = false;
        let mut first_pos: usize = 0;
        proof {
            self.lemma_hand_path_empty(hand@, h as int);
        }
        loop
            invariant
                old(self).inv(),
                old(self).spec_len() < old(self).spec_cap(),
                cap == self.spec_cap(),
                cap == old(self).spec_cap(),
                cap <= usize::MAX / 4,
                key.spec_is_valid(),
                hand.spec_is_valid(),
                0 <= h < cap,
                h as int == self.spec_home(hand@),
                0 <= e0 < cap,
                !self.slot_valid(e0),
                self.hand_path_ok(hand@, h as int, probe as int),
                !inserted ==> *self == *old(self) && hand == key && hand_value == 0,
                inserted ==> {
                    &&& self.mid_ok(hand, hand_value)
                    &&& !old(self)@.dom().contains(key@)
                    &&& self.model@ == old(self)@.insert(key@, 0)
                    &&& first_pos < cap
                    &&& self.slot_valid(first_pos as int)
                    &&& self.key_at(first_pos as int) == key@
                    &&& self.spec_len() == old(self).spec_len()
                    &&& hand@ != key@
                    &&& 1 <= disp_of(
                        first_pos as int,
                        pos_of(h as int, probe as int, cap as int),
                        cap as int,
                    ) <= disp_of(first_pos as int, e0, cap as int)
                },
            decreases disp_of(pos_of(h as int, probe as int, cap as int), e0, cap as int),
        {
            proof {
                if probe >= cap {
                    lemma_pos_disp(h as int, e0, cap as int);
                    self.lemma_hand_path_use(hand@, h as int, probe as int,
                        disp_of(h as int, e0, cap as int));
                    assert(false);
                }
                vstd::arithmetic::div_mod::lemma_mod_bound((h + probe) as int, cap as int);
            }
            let pos: usize = (h + probe) % cap;
            proof {
                lemma_pos_disp(h as int, pos as int, cap as int);
                assert(pos_of(h as int, probe as int, cap as int) == pos as int);
                assert(disp_of(h as int, pos as int, cap as int) == probe as int);
            }
            if !self.keys[pos].is_valid() {
                let fp: usize = if inserted {
                    first_pos
                } else {
                    pos
                };
                self.place_hand(
                    cap,
                    pos,
                    hand,
                    hand_value,
                    Ghost(h as int),
                    Ghost(probe as int),
                    Ghost(inserted),
                    Ghost(key@),
                    Ghost(old(self)@),
                );
                proof {
                    if !inserted {
                        assert(self@ =~= old(self)@.insert(key@, 0));
                    } else {
                        assert(fp != pos);
                        assert(self.slot_valid(fp as int) && self.key_at(fp as int) == key@);
                    }
                }
                return VecHashMapEntry::Vacant(fp);
            }
            if self.keys[pos].key_eq(&hand) {
                proof {
                    assert(self.slot_valid(pos as int));
                    if inserted {
                        self.lemma_mid_key_ne(hand, hand_value, pos as int);
                        assert(false);
                    }
                    assert(self@.dom().contains(key@));
                }
                return VecHashMapEntry::Occupied(pos);
            }
            let alt_h: usize = self.hash_of(&self.keys[pos]);
            let alt_dist: usize = (pos + cap - alt_h) % cap;
            proof {
                assert(alt_dist as int == disp_of(alt_h as int, pos as int, cap as int));
                assert(alt_dist as int == self.occ_disp(pos as int));
                vstd::arithmetic::div_mod::lemma_mod_bound((pos + cap - alt_h) as int, cap as int);
            }
            let ghost h_old: int = h as int;
            let ghost probe_old: int = probe as int;
            let ghost hand_in: Seq<u8> = hand@;
            let mut swapped: bool = false;
            if alt_dist < probe {
                proof {
                    if inserted {
                        // The cascade has not wrapped back to the slot
                        // where the new key came to rest: the ring
                        // distance from it is at least one.
                        lemma_disp_self(first_pos as int, cap as int);
                        if pos == first_pos {
                            assert(disp_of(first_pos as int, pos as int, cap as int) == 0);
                            assert(false);
                        }
                    }
                }
                let ghost pre = *self;
                self.displace_at(
                    cap,
                    pos,
                    &mut hand,
                    &mut hand_value,
                    Ghost(h as int),
                    Ghost(probe as int),
                    Ghost(inserted),
                    Ghost(key@),
                    Ghost(old(self)@),
                    Ghost(first_pos as int),
                );
                if !inserted {
                    inserted = true;
                    first_pos = pos;
                }
                swapped = true;
                h = alt_h;
                probe = alt_dist;
                proof {
                    lemma_pos_disp(h as int, pos as int, cap as int);
                    assert(pos_of(h as int, probe as int, cap as int) == pos as int);
                    lemma_pos_disp(first_pos as int, e0, cap as int);
                    if first_pos as int == e0 {
                        assert(false);
                    }
                    lemma_disp_self(first_pos as int, cap as int);
                    assert(self.slot_valid(first_pos as int) && self.key_at(first_pos as int)
                        == key@);
                    // The new hand's probe path is the displaced
                    // occupant's path in the pre-swap table.
                    assert(pre.spec_home(pre.key_at(pos as int)) == h as int);
                    assert(pre.occ_disp(pos as int) == probe as int);
                    assert(self.hand_path_ok(hand@, h as int, probe as int));
                    // The slot just written: the displaced occupant's old
                    // probe distance exceeds the new occupant's.
                    assert(self.key_at(pos as int) == hand_in);
                    assert(self.spec_home(hand_in) == h_old);
                    assert(self.occ_disp(pos as int) == disp_of(h_old, pos as int, cap as int));
                    assert(self.occ_disp(pos as int) == probe_old);
                }
            }
            proof {
                let pos_i = pos as int;
                let m = cap as int;
                if pos_i == e0 {
                    assert(self.slot_valid(e0));
                    assert(false);
                }
                lemma_pos_disp(h as int, pos_i, m);
                assert(pos_of(h as int, probe as int, m) == pos_i);
                lemma_pos_step(h as int, probe as int, m);
                lemma_disp_step(pos_i, e0, m);
                // Extend the hand's probe path over this slot.
                assert(self.slot_valid(pos_i));
                if swapped {
                    assert(self.occ_disp(pos_i) == probe_old);
                    assert(self.occ_disp(pos_i) >= probe as int);
                } else {
                    assert(self.occ_disp(pos_i) == alt_dist as int);
                    assert(self.occ_disp(pos_i) >= probe as int);
                }
                if inserted {
                    self.lemma_mid_key_ne(hand, hand_value, pos_i);
                } else {
                    assert(self.key_at(pos_i) != hand@);
                }
                self.lemma_hand_path_extend(hand@, h as int, probe as int, pos_i);
                if inserted {
                    let fp = first_pos as int;
                    let t = disp_of(fp, pos_i, m);
                    let te = disp_of(fp, e0, m);
                    lemma_pos_disp(fp, pos_i, m);
                    lemma_pos_disp(fp, e0, m);
                    if t == te {
                        assert(pos_of(fp, t, m) == pos_i && pos_of(fp, te, m) == e0);
                        assert(false);
                    }
                    lemma_disp_fwd(fp, pos_i, m);
                }
            }
            probe = probe + 1;
        }
    }

    /// Distance stored in an occupied slot.
    pub fn get_value(&self, i: usize) -> (v: Dist)
        requires
            self.inv(),
            i < self.spec_cap(),
            self.slot_valid(i as int),
        ensures
            v == self@[self.key_at(i as int)],
    {
        self.values[i]
    }

    /// Overwrites the distance stored in an occupied slot.
    pub fn set_value(&mut self, i: usize, v: Dist)
        requires
            old(self).inv(),
            i < old(self).spec_cap(),
            old(self).slot_valid(i as int),
        ensures
            final(self).inv(),
            final(self)@ == old(self)@.insert(old(self).key_at(i as int), v),
            final(self).spec_len() == old(self).spec_len(),
            final(self).spec_cap() == old(self).spec_cap(),
            forall|j: int| 0 <= j < final(self).spec_cap() ==> final(self).key_at(j)
                == old(self).key_at(j) && (final(self).slot_valid(j) == old(self).slot_valid(j)),
        decreases 0int,
    {
        let ghost m1 = *self;
        let ghost k = self.key_at(i as int);
        self.values[i] = v;
        proof {
            self.model@ = m1.model@.insert(k, v);
            assert(self.keys@ == m1.keys@);
            assert(m1.slot_valid(i as int));
            assert(m1.slots@[k] == i as int);
            assert(self.num_valid(self.spec_cap()) == m1.num_valid(m1.spec_cap())) by {
                Self::lemma_num_valid_same(m1, *self, self.spec_cap());
            }
            assert(self.model@.dom() =~= m1.model@.dom());
            assert forall|k2: Seq<u8>| #[trigger] self.model@.dom().contains(k2)
                implies self.slot_ok(k2) && self.path_ok(k2) by {
                assert(m1.model@.dom().contains(k2));
                assert(m1.slot_ok(k2));
                assert(m1.path_ok(k2));
                assert(self.spec_home(k2) == m1.spec_home(k2));
                let j = m1.slots@[k2];
                assert(self.slots@[k2] == j);
                if k2 == k {
                    assert(j == i as int);
                    assert(self.values@[j] == v);
                    assert(self.model@[k2] == v);
                } else {
                    assert(m1.key_at(j) == k2);
                    assert(j != i as int);
                    assert(self.values@[j] == m1.values@[j]);
                    assert(self.model@[k2] == m1.model@[k2]);
                }
                assert forall|q: int|
                    0 <= q < disp_of(self.spec_home(k2), self.slots@[k2], self.spec_cap())
                    implies self.slot_valid(pos_of(self.spec_home(k2), q, self.spec_cap())) by {
                    assert(m1.slot_valid(pos_of(m1.spec_home(k2), q, m1.spec_cap())));
                }
            }
            assert forall|i2: int|
                0 <= i2 < self.spec_cap() && #[trigger] self.slot_valid(i2)
                implies self.model@.dom().contains(self.key_at(i2))
                    && self.slots@[self.key_at(i2)] == i2 by {
                assert(m1.slot_valid(i2));
            }
        }
    }

    proof fn lemma_num_valid_same(m1: Self, m2: Self, j: int)
        requires
            m1.spec_cap() == m2.spec_cap(),
            m1.keys@ == m2.keys@,
            0 <= j,
        ensures
            m1.num_valid(j) == m2.num_valid(j),
        decreases j,
    {
        if j > 0 {
            Self::lemma_num_valid_same(m1, m2, j - 1);
        }
    }

    /// Doubles the slot count and re-places every stored fingerprint on
    /// its probe path in the larger table. The abstract map is unchanged.
    /// The rehash allocates the doubled arrays afresh and re-inserts each
    /// entry, rather than splitting the ring in place.
    fn resize_and_rehash(&mut self)
        requires
            old(self).inv(),
            old(self).spec_len() < MAX_STORE_SIZE,
            old(self).spec_len() >= old(self).spec_cap() / 11 * 10,
        ensures
            final(self).inv(),
            final(self)@ == old(self)@,
            final(self).spec_len() == old(self).spec_len(),
            final(self).spec_len() < final(self).spec_cap(),
            final(self).spec_cap() == 2 * old(self).spec_cap(),
    {
        proof {
            self.lemma_num_valid_le(self.spec_cap());
            // cap/11*10 <= size < MAX, so cap is well below the bound
            vstd::arithmetic::div_mod::lemma_fundamental_div_mod(self.spec_cap(), 11);
        }
        let new_cap: usize = self.keys.len() * 2;
        let mut nm = VecHashMap::with_raw_capacity(new_cap);
        let cap: usize = self.keys.len();
        let mut i: usize = 0;
        while i < cap
            invariant
                i <= cap,
                cap == self.spec_cap(),
                self.inv(),
                nm.inv(),
                nm.spec_cap() == 2 * cap,
                self.spec_len() < MAX_STORE_SIZE,
                forall|k: Seq<u8>| #[trigger] nm@.dom().contains(k) <==> (self@.dom().contains(k)
                    && 0 <= self.slots@[k] < i),
                forall|k: Seq<u8>| #[trigger] nm@.dom().contains(k) ==> nm@[k] == self@[k],
            decreases cap - i,
        {
            if self.keys[i].is_valid() {
                proof {
                    assert(self.slot_valid(i as int));
                    assert(self@.dom().contains(self.key_at(i as int)));
                    assert(self.slots@[self.key_at(i as int)] == i as int);
                    assert(!nm@.dom().contains(self.key_at(i as int)));
                    self.lemma_num_valid_le(self.spec_cap());
                    assert(nm@.dom().subset_of(self@.dom()));
                    vstd::set_lib::lemma_len_subset(nm@.dom(), self@.dom());
                }
                let k = self.keys[i].duplicate();
                let v = self.values[i];
                let ghost pre = nm@;
                let e = nm.insert_probe(k);
                match e {
                    VecHashMapEntry::Vacant(slot) => {
                        nm.set_value(slot, v);
                    },
                    VecHashMapEntry::Occupied(_) => {
                        proof {
                            assert(false);
                        }
                    },
                }
                proof {
                    assert forall|k2: Seq<u8>| #[trigger] nm@.dom().contains(k2) implies
                        (self@.dom().contains(k2) && 0 <= self.slots@[k2] < i + 1) by {
                        if k2 != self.key_at(i as int) {
                            assert(pre.contains_key(k2));
                        }
                    }
                }
            } else {
                proof {
                    assert forall|k2: Seq<u8>| #[trigger] nm@.dom().contains(k2) implies
                        (self@.dom().contains(k2) && 0 <= self.slots@[k2] < i + 1) by {
                    }
                }
            }
            i = i + 1;
        }
        proof {
            assert forall|k: Seq<u8>| #[trigger] self@.dom().contains(k) implies nm@.dom().contains(
                k) by {
                assert(self.slot_ok(k));
            }
            assert(nm@ =~= self@);
        }
        *self = nm;
    }

    /// Records that the state with fingerprint `key` was reached in `d`
    /// steps. Returns true exactly when this is the first visit, or a
    /// strictly shorter path than recorded; the stored distance is then
    /// `d`, and otherwise nothing changes.
    pub fn check_and_update_dist(&mut self, key: CompressedState, d: Dist) -> (r: bool)
        requires
            old(self).inv(),
            key.spec_is_valid(),
            old(self).spec_len() < MAX_STORE_SIZE,
        ensures
            final(self).inv(),
            r == (!old(self)@.dom().contains(key@) || old(self)@[key@] > d),
            final(self)@ == if r {
                old(self)@.insert(key@, d)
            } else {
                old(self)@
            },
            final(self)@.dom().len() <= old(self)@.dom().len() + 1,
    {
        let ghost kview = key@;
        let ghost pre = self@;
        match self.entry(key) {
            VecHashMapEntry::Vacant(i) => {
                self.set_value(i, d);
                proof {
                    assert(self@ =~= pre.insert(kview, d));
                    vstd::set::axiom_set_insert_len(pre.dom(), kview);
                    assert(self@.dom() =~= pre.dom().insert(kview));
                }
                true
            },
            VecHashMapEntry::Occupied(i) => {
                let cur = self.get_value(i);
                if cur > d {
                    self.set_value(i, d);
                    proof {
                        assert(self@ =~= pre.insert(kview, d));
                        assert(self@.dom() =~= pre.dom());
                    }
                    true
                } else {
                    false
                }
            },
        }
    }

    /// Raises `d` by one step, stopping at the largest representable
    /// distance.
    pub open spec fn spec_bump(d: Dist) -> Dist {
        if d < 0xffff {
            (d + 1) as u16
        } else {
            d
        }
    }

    /// Relaxes every recorded distance by one before the next, deeper
    /// search pass: a path recorded under the old bound counts as one step
    /// stale, so an equally long rediscovery is not treated as progress.
    pub fn increment_all_dists(&mut self)
        requires
            old(self).inv(),
        ensures
            final(self).inv(),
            final(self)@.dom() == old(self)@.dom(),
            forall|k: Seq<u8>| old(self)@.dom().contains(k) ==> final(self)@[k] == Self::spec_bump(
                #[trigger] old(self)@[k],
            ),
            final(self).spec_len() == old(self).spec_len(),
    {
        let cap: usize = self.keys.len();
        let mut i: usize = 0;
        while i < cap
            invariant
                i <= cap,
                self.inv(),
                cap == self.spec_cap(),
                self.keys@ == old(self).keys@,
                self.slots@ == old(self).slots@,
                self.size == old(self).size,
                self@.dom() == old(self)@.dom(),
                forall|k: Seq<u8>| #[trigger] old(self)@.dom().contains(k) ==> {
                    &&& self.slots@[k] < i ==> self@[k] == Self::spec_bump(old(self)@[k])
                    &&& self.slots@[k] >= i ==> self@[k] == old(self)@[k]
                },
            decreases cap - i,
        {
            if self.keys[i].is_valid() {
                let ghost m1 = *self;
                let ghost k = self.key_at(i as int);
                proof {
                    assert(m1.slot_valid(i as int));
                    assert(m1.slots@[k] == i as int);
                }
                let cur: Dist = self.values[i];
                let bumped: Dist = if cur < 0xffff {
                    cur + 1
                } else {
                    cur
                };
                self.values[i] = bumped;
                proof {
                    self.model@ = m1.model@.insert(k, bumped);
                    assert(self.keys@ == m1.keys@);
                    Self::lemma_num_valid_same(m1, *self, self.spec_cap());
                    assert(self.model@.dom() =~= m1.model@.dom());
                    assert forall|k2: Seq<u8>| #[trigger] self.model@.dom().contains(k2)
                        implies self.slot_ok(k2) && self.path_ok(k2) by {
                        assert(m1.model@.dom().contains(k2));
                        assert(m1.slot_ok(k2));
                        assert(m1.path_ok(k2));
                        assert(self.spec_home(k2) == m1.spec_home(k2));
                        let j = m1.slots@[k2];
                        assert(self.slots@[k2] == j);
                        if k2 != k {
                            assert(m1.key_at(j) == k2);
                            assert(j != i as int);
                        }
                        assert forall|q: int|
                            0 <= q < disp_of(self.spec_home(k2), self.slots@[k2], self.spec_cap())
                            implies self.slot_valid(
                                pos_of(self.spec_home(k2), q, self.spec_cap()),
                            ) by {
                            assert(m1.slot_valid(pos_of(m1.spec_home(k2), q, m1.spec_cap())));
                        }
                    }
                    assert forall|i2: int|
                        0 <= i2 < self.spec_cap() && #[trigger] self.slot_valid(i2)
                        implies self.model@.dom().contains(self.key_at(i2))
                            && self.slots@[self.key_at(i2)] == i2 by {
                        assert(m1.slot_valid(i2));
                    }
                    assert(self.inv());
                }
            } else {
                proof {
                    assert forall|k2: Seq<u8>| #[trigger] self@.dom().contains(k2)
                        implies self.slots@[k2] != i as int by {
                        assert(self.slot_ok(k2));
                    }
                }
            }
            i = i + 1;
        }
    }

    /// A snapshot of the table's fill state: stored entries, slots, and
    /// the longest probe distance of any stored entry (telemetry).
    pub fn debug_info(&self) -> (r: (usize, usize, usize))
        requires
            self.inv(),
        ensures
            r.0 == self@.dom().len(),
            r.1 == self.spec_cap(),
    {
        let cap: usize = self.keys.len();
        let mut max_disp: usize = 0;
        let mut i: usize = 0;
        while i < cap
            invariant
                i <= cap,
                self.inv(),
                cap == self.spec_cap(),
                cap <= usize::MAX / 4,
            decreases cap - i,
        {
            if self.keys[i].is_valid() {
                let kh: usize = self.hash_of(&self.keys[i]);
                let d: usize = (i + cap - kh) % cap;
                if d > max_disp {
                    max_disp = d;
                }
            }
            i = i + 1;
        }
        (self.size, cap, max_disp)
    }

    /// An empty table with exactly `raw_capacity` slots.
    fn with_raw_capacity(raw_capacity: usize) -> (r: VecHashMap)
        requires
            1 <= raw_capacity <= usize::MAX / 4,
        ensures
            r.inv(),
            r@ == Map::<Seq<u8>, Dist>::empty(),
            r.spec_len() == 0,
            r.spec_cap() == raw_capacity,
    {
        let mut keys: Vec<CompressedState> = Vec::new();
        let mut values: Vec<Dist> = Vec::new();
        let mut i: usize = 0;
        while i < raw_capacity
            invariant
                i <= raw_capacity,
                keys@.len() == i,
                values@.len() == i,
                forall|j: int| 0 <= j < i ==> !(#[trigger] keys@[j]).spec_is_valid(),
            decreases raw_capacity - i,
        {
            keys.push(CompressedState::invalid());
            values.push(0);
            i = i + 1;
        }
        let r = VecHashMap {
            keys,
            values,
            size: 0,
            model: Ghost(Map::empty()),
            slots: Ghost(Map::empty()),
        };
        proof {
            r.lemma_all_invalid_num_valid(raw_capacity as int);
        }
        r
    }
}

/// What the search driver needs of a visited-state store: a map from
/// fingerprints to best known distances with first-or-better insertion
/// and a uniform distance relaxation between passes.
pub trait StateStore: Sized {
    spec fn store_model(&self) -> Map<Seq<u8>, Dist>;

    spec fn store_inv(&self) -> bool;

    fn new_store(search_space_size_hint: usize) -> (r: Self)
        requires
            search_space_size_hint <= MAX_STORE_SIZE,
        ensures
            r.store_inv(),
            r.store_model() == Map::<Seq<u8>, Dist>::empty(),
    ;

    fn store_len(&self) -> (r: usize)
        requires
            self.store_inv(),
        ensures
            r == self.store_model().dom().len(),
    ;

    fn check_and_update_dist(&mut self, key: CompressedState, d: Dist) -> (r: bool)
        requires
            old(self).store_inv(),
            key.spec_is_valid(),
            old(self).store_model().dom().len() < MAX_STORE_SIZE,
        ensures
            final(self).store_inv(),
            r == (!old(self).store_model().dom().contains(key@) || old(self).store_model()[key@]
                > d),
            final(self).store_model() == if r {
                old(self).store_model().insert(key@, d)
            } else {
                old(self).store_model()
            },
    ;

    fn increment_all_dists(&mut self)
        requires
            old(self).store_inv(),
        ensures
            final(self).store_inv(),
            final(self).store_model().dom() == old(self).store_model().dom(),
            forall|k: Seq<u8>| old(self).store_model().dom().contains(k)
                ==> final(self).store_model()[k] == VecHashMap::spec_bump(
                #[trigger] old(self).store_model()[k],
            ),
    ;
}

impl StateStore for VecHashMap {
    closed spec fn store_model(&self) -> Map<Seq<u8>, Dist> {
        self@
    }

    closed spec fn store_inv(&self) -> bool {
        self.inv()
    }

    fn new_store(search_space_size_hint: usize) -> (r: Self) {
        VecHashMap::with_capacity(search_space_size_hint)
    }

    fn store_len(&self) -> (r: usize) {
        self.len()
    }

    fn check_and_update_dist(&mut self, key: CompressedState, d: Dist) -> (r: bool) {
        proof {
            assert(old(self).spec_len() == old(self)@.dom().len());
        }
        let r = VecHashMap::check_and_update_dist(self, key, d);
        r
    }

    fn increment_all_dists(&mut self) {
        VecHashMap::increment_all_dists(self)
    }
}

} // verus!
