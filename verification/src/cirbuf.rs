//! A buffer indexed by sequence number: `seq` lives in slot `seq mod capacity`,
//! where the capacity is a power of two.
use vstd::arithmetic::power2::pow2;
use vstd::bits::low_bits_mask;
use vstd::prelude::*;

verus! {

/// `n` is a power of two (and so not zero).
pub open spec fn is_power_of_two(n: u32) -> bool {
    exists|k: nat| k < 32 && n == #[trigger] pow2(k)
}

/// The slot that sequence number `seq` maps to in a buffer of `capacity` slots.
pub open spec fn slot_of(capacity: nat, seq: u32) -> int {
    (seq as int) % (capacity as int)
}

/// The value held for `seq`: whatever occupies `seq`'s slot.
pub open spec fn lookup<T>(slots: Seq<Option<T>>, seq: u32) -> Option<T> {
    slots[slot_of(slots.len(), seq)]
}

/// The slots after `val` is stored under `seq`.
pub open spec fn stored<T>(slots: Seq<Option<T>>, seq: u32, val: T) -> Seq<Option<T>> {
    slots.update(slot_of(slots.len(), seq), Some(val))
}

/// The slots after the value under `seq` is taken out.
pub open spec fn cleared<T>(slots: Seq<Option<T>>, seq: u32) -> Seq<Option<T>> {
    slots.update(slot_of(slots.len(), seq), None)
}

/// With a power-of-two capacity, masking with `capacity - 1` picks the slot.
proof fn lemma_mask_picks_slot(seq: u32, size: u32)
    requires
        is_power_of_two(size),
    ensures
        (seq & ((size - 1) as u32)) as int == slot_of(size as nat, seq),
        (seq & ((size - 1) as u32)) < size,
{
    let k = choose|k: nat| k < 32 && size == #[trigger] pow2(k);
    vstd::bits::lemma_u32_low_bits_mask_is_mod(seq, k);
    vstd::arithmetic::power2::lemma_pow2_pos(k);
    assert(low_bits_mask(k) == size - 1);
}

/// A power of two is not zero.
proof fn lemma_power_of_two_positive(n: u32)
    requires
        is_power_of_two(n),
    ensures
        n > 0,
{
    let k = choose|k: nat| k < 32 && n == #[trigger] pow2(k);
    vstd::arithmetic::power2::lemma_pow2_pos(k);
}

/// Values indexed by sequence number, one slot per residue of the sequence
/// number modulo the (power-of-two) capacity.
#[derive(Clone, Debug)]
pub struct CircularBuffer<T> {
    values: Vec<Option<T>>,
    size: u32,
    mask: u32,
}

impl<T> View for CircularBuffer<T> {
    type V = Seq<Option<T>>;

    /// The slots, in index order; their number is the capacity.
    closed spec fn view(&self) -> Seq<Option<T>> {
        self.values@
    }
}

impl<T> CircularBuffer<T> {
    /// The buffer is well formed: a power-of-two number of slots, addressed by mask.
    pub closed spec fn wf(&self) -> bool {
        &&& is_power_of_two(self.size)
        &&& self.mask == self.size - 1
        &&& self.values@.len() == self.size
    }

    /// A well-formed buffer has a power-of-two number of slots, at least one
    /// and at most `u32::MAX`.
    pub proof fn lemma_capacity(&self)
        requires
            self.wf(),
        ensures
            is_power_of_two(self@.len() as u32),
            0 < self@.len() <= u32::MAX,
    {
        lemma_power_of_two_positive(self.size);
    }

    /// A buffer of `initial_size` empty slots; `initial_size` must be a power of two.
    pub fn new(initial_size: u32) -> (buf: Self)
        requires
            is_power_of_two(initial_size),
        ensures
            buf.wf(),
            buf@ == Seq::new(initial_size as nat, |i: int| None::<T>),
    {
        let mut values: Vec<Option<T>> = Vec::new();
        let mut i: u32 = 0;
        while i < initial_size
            invariant
                i <= initial_size,
                values@ == Seq::new(i as nat, |j: int| None::<T>),
            decreases initial_size - i,
        {
            values.push(None);
            i = i + 1;
        }
        proof {
            lemma_power_of_two_positive(initial_size);
        }
        CircularBuffer { values, size: initial_size, mask: initial_size - 1 }
    }

    /// Stores `val` under `seq`. The slot that `seq` maps to must be empty:
    /// the buffer does not record the sequence numbers of its values, so it
    /// cannot grow to separate two sequence numbers that share a slot.
    pub fn set(&mut self, seq: u32, val: T)
        requires
            old(self).wf(),
            lookup(old(self)@, seq) is None,
        ensures
            final(self).wf(),
            final(self)@ == stored(old(self)@, seq, val),
            is_power_of_two(final(self)@.len() as u32),
    {
        proof {
            lemma_mask_picks_slot(seq, self.size);
        }
        let idx = (seq & self.mask) as usize;
        self.values.set(idx, Some(val));
    }

    /// The value held for `seq`, if its slot is occupied.
    pub fn get(&self, seq: u32) -> (r: Option<&T>)
        requires
            self.wf(),
        ensures
            r == (match lookup(self@, seq) {
                Some(v) => Some(&v),
                None => None,
            }),
    {
        proof {
            lemma_mask_picks_slot(seq, self.size);
        }
        self.values[(seq & self.mask) as usize].as_ref()
    }

    /// Takes the value held for `seq` out of its slot, leaving the slot empty.
    pub fn remove(&mut self, seq: u32) -> (r: Option<T>)
        requires
            old(self).wf(),
        ensures
            final(self).wf(),
            r == lookup(old(self)@, seq),
            final(self)@ == cleared(old(self)@, seq),
            is_power_of_two(final(self)@.len() as u32),
    {
        proof {
            lemma_mask_picks_slot(seq, self.size);
        }
        let idx = (seq & self.mask) as usize;
        self.values[idx].take()
    }
}

/// Looking `seq` up right after `val` was stored under it gives `val`.
pub proof fn law_get_after_set<T>(slots: Seq<Option<T>>, seq: u32, val: T)
    requires
        slots.len() > 0,
    ensures
        lookup(stored(slots, seq, val), seq) == Some(val),
{
}

/// Storing under `seq` leaves what every other slot holds as it was.
pub proof fn law_set_keeps_other_slots<T>(slots: Seq<Option<T>>, seq: u32, other: u32, val: T)
    requires
        slots.len() > 0,
        slot_of(slots.len(), seq) != slot_of(slots.len(), other),
    ensures
        lookup(stored(slots, seq, val), other) == lookup(slots, other),
{
}

/// Removing `seq` right after storing `val` under it gives `val` back and
/// restores the buffer as it was.
pub proof fn law_remove_after_set<T>(slots: Seq<Option<T>>, seq: u32, val: T)
    requires
        slots.len() > 0,
        lookup(slots, seq) is None,
    ensures
        lookup(stored(slots, seq, val), seq) == Some(val),
        cleared(stored(slots, seq, val), seq) == slots,
{
    assert(cleared(stored(slots, seq, val), seq) =~= slots);
}

/// Sequence numbers that differ by a multiple of the capacity share a slot.
pub proof fn law_wraparound(capacity: nat, seq: u32, laps: nat)
    requires
        capacity > 0,
        seq + laps * capacity <= u32::MAX,
    ensures
        slot_of(capacity, seq) == slot_of(capacity, (seq + laps * capacity) as u32),
{
    vstd::arithmetic::div_mod::lemma_mod_multiples_vanish(laps as int, seq as int, capacity as int);
    vstd::arithmetic::mul::lemma_mul_is_commutative(laps as int, capacity as int);
}

} // verus!
