use bitvec::array::BitArray;
use bitvec::order::LocalBits;
use core::sync::atomic::AtomicU64;
use vstd::prelude::*;

use crate::ordering::{RW_ORD, R_ORD};

verus! {

/// Control byte of a slot that never held anything.
pub const EMPTY: u8 = 128;

/// Control byte of a slot whose content was removed.
pub const DELETED: u8 = 254;

/// Slots in one block.
pub const BLOCKSIZE: usize = 8;

/// The word of a block whose slots are all empty.
pub const EMPTY_BLOCK: u64 = 0x8080_8080_8080_8080;

pub type Atomic = AtomicU64;

/// One bit per slot of a block, slot 0 first.
#[verifier::external_body]
pub struct BitMask {
    bits: BitArray<[u8; 1], LocalBits>,
}

/// The bits of a mask, slot 0 first.
pub uninterp spec fn mask_bits(m: BitMask) -> Seq<bool>;

/// Relies on bitvec's `BitArray::ZERO`: every bit clear; over one byte there are eight.
#[verifier::external_body]
fn zeroed_mask() -> (r: BitMask)
    ensures
        mask_bits(r) == Seq::new(BLOCKSIZE as nat, |i: int| false),
{
    BitMask { bits: BitArray::ZERO }
}

/// Relies on bitvec's `BitSlice::set`: writes the bit at `index` and no other.
#[verifier::external_body]
fn set_mask_bit(m: &mut BitMask, index: usize, value: bool)
    requires
        index < BLOCKSIZE,
        mask_bits(*old(m)).len() == BLOCKSIZE,
    ensures
        mask_bits(*final(m)) == mask_bits(*old(m)).update(index as int, value),
{
    m.bits.set(index, value)
}

impl BitMask {
    /// Relies on bitvec's `Index<usize>` for `BitSlice`: the bit at `index`, which is in bounds.
    #[verifier::external_body]
    pub fn get(&self, index: usize) -> (r: bool)
        requires
            index < BLOCKSIZE,
            mask_bits(*self).len() == BLOCKSIZE,
        ensures
            r == mask_bits(*self)[index as int],
    {
        self.bits[index]
    }
}

/// A control byte that holds a hash fragment.
pub open spec fn is_fragment(b: u8) -> bool {
    b < 128
}

/// Byte `i` of a word, least significant first.
pub open spec fn word_byte(w: u64, i: int) -> u8 {
    ((w >> ((8 * i) as u64)) & 0xff) as u8
}

/// The control bytes that one word packs.
pub open spec fn word_bytes(w: u64) -> Seq<u8> {
    Seq::new(BLOCKSIZE as nat, |i: int| word_byte(w, i))
}

/// The mask with a bit set exactly where `bytes` holds `target`.
pub open spec fn matching(bytes: Seq<u8>, target: u8) -> Seq<bool> {
    Seq::new(bytes.len(), |i: int| bytes[i] == target)
}

fn word_to_bytes(w: u64) -> (r: [u8; BLOCKSIZE])
    ensures
        r@ == word_bytes(w),
{
    let mut r: [u8; BLOCKSIZE] = [0u8; BLOCKSIZE];
    let mut i: usize = 0;
    while i < BLOCKSIZE
        invariant
            i <= BLOCKSIZE,
            forall|j: int| 0 <= j < i ==> r@[j] == word_byte(w, j),
        decreases BLOCKSIZE - i,
    {
        r[i] = ((w >> ((8 * i) as u64)) & 0xff) as u8;
        i += 1;
    }
    assert(r@ =~= word_bytes(w));
    r
}

fn bytes_to_word(b: &[u8; BLOCKSIZE]) -> (r: u64)
    ensures
        word_bytes(r) == b@,
{
    let b0 = b[0] as u64;
    let b1 = b[1] as u64;
    let b2 = b[2] as u64;
    let b3 = b[3] as u64;
    let b4 = b[4] as u64;
    let b5 = b[5] as u64;
    let b6 = b[6] as u64;
    let b7 = b[7] as u64;
    let r = b0 | (b1 << 8) | (b2 << 16) | (b3 << 24) | (b4 << 32) | (b5 << 40) | (b6 << 48) | (b7
        << 56);
    assert({
        &&& ((r >> 0u64) & 0xff) == b0
        &&& ((r >> 8) & 0xff) == b1
        &&& ((r >> 16) & 0xff) == b2
        &&& ((r >> 24) & 0xff) == b3
        &&& ((r >> 32) & 0xff) == b4
        &&& ((r >> 40) & 0xff) == b5
        &&& ((r >> 48) & 0xff) == b6
        &&& ((r >> 56) & 0xff) == b7
    }) by (bit_vector)
        requires
            b0 < 256,
            b1 < 256,
            b2 < 256,
            b3 < 256,
            b4 < 256,
            b5 < 256,
            b6 < 256,
            b7 < 256,
            r == b0 | (b1 << 8) | (b2 << 16) | (b3 << 24) | (b4 << 32) | (b5 << 40) | (b6 << 48)
                | (b7 << 56),
    ;
    assert forall|i: int| 0 <= i < BLOCKSIZE implies word_byte(r, i) == b@[i] by {
        if i == 0 {
        } else if i == 1 {
        } else if i == 2 {
        } else if i == 3 {
        } else if i == 4 {
        } else if i == 5 {
        } else if i == 6 {
        } else {
        }
    }
    assert(word_bytes(r) =~= b@);
    r
}

/// Two words that pack the same control bytes are the same word, so the exchange of
/// a snapshot compares against exactly the word it was loaded from.
pub proof fn lemma_word_bytes_injective(a: u64, b: u64)
    requires
        word_bytes(a) == word_bytes(b),
    ensures
        a == b,
{
    assert(word_bytes(a).len() == BLOCKSIZE && word_bytes(b).len() == BLOCKSIZE);
    assert(word_bytes(a)[0] == word_byte(a, 0));
    assert(word_bytes(b)[0] == word_byte(b, 0));
    assert(word_byte(a, 0) == word_byte(b, 0));
    assert(word_bytes(a)[1] == word_byte(a, 1));
    assert(word_bytes(b)[1] == word_byte(b, 1));
    assert(word_byte(a, 1) == word_byte(b, 1));
    assert(word_bytes(a)[2] == word_byte(a, 2));
    assert(word_bytes(b)[2] == word_byte(b, 2));
    assert(word_byte(a, 2) == word_byte(b, 2));
    assert(word_bytes(a)[3] == word_byte(a, 3));
    assert(word_bytes(b)[3] == word_byte(b, 3));
    assert(word_byte(a, 3) == word_byte(b, 3));
    assert(word_bytes(a)[4] == word_byte(a, 4));
    assert(word_bytes(b)[4] == word_byte(b, 4));
    assert(word_byte(a, 4) == word_byte(b, 4));
    assert(word_bytes(a)[5] == word_byte(a, 5));
    assert(word_bytes(b)[5] == word_byte(b, 5));
    assert(word_byte(a, 5) == word_byte(b, 5));
    assert(word_bytes(a)[6] == word_byte(a, 6));
    assert(word_bytes(b)[6] == word_byte(b, 6));
    assert(word_byte(a, 6) == word_byte(b, 6));
    assert(word_bytes(a)[7] == word_byte(a, 7));
    assert(word_bytes(b)[7] == word_byte(b, 7));
    assert(word_byte(a, 7) == word_byte(b, 7));
    assert(a == b) by (bit_vector)
        requires
            ((a >> 0u64) & 0xff) as u8 == ((b >> 0u64) & 0xff) as u8,
            ((a >> 8u64) & 0xff) as u8 == ((b >> 8u64) & 0xff) as u8,
            ((a >> 16u64) & 0xff) as u8 == ((b >> 16u64) & 0xff) as u8,
            ((a >> 24u64) & 0xff) as u8 == ((b >> 24u64) & 0xff) as u8,
            ((a >> 32u64) & 0xff) as u8 == ((b >> 32u64) & 0xff) as u8,
            ((a >> 40u64) & 0xff) as u8 == ((b >> 40u64) & 0xff) as u8,
            ((a >> 48u64) & 0xff) as u8 == ((b >> 48u64) & 0xff) as u8,
            ((a >> 56u64) & 0xff) as u8 == ((b >> 56u64) & 0xff) as u8,
    ;
}

/// The word of a fresh block holds EMPTY in every slot.
pub proof fn lemma_empty_block()
    ensures
        word_bytes(EMPTY_BLOCK) == Seq::new(BLOCKSIZE as nat, |i: int| EMPTY),
{
    let w = EMPTY_BLOCK;
    assert({
        &&& ((w >> 0u64) & 0xff) == 0x80
        &&& ((w >> 8u64) & 0xff) == 0x80
        &&& ((w >> 16u64) & 0xff) == 0x80
        &&& ((w >> 24u64) & 0xff) == 0x80
        &&& ((w >> 32u64) & 0xff) == 0x80
        &&& ((w >> 40u64) & 0xff) == 0x80
        &&& ((w >> 48u64) & 0xff) == 0x80
        &&& ((w >> 56u64) & 0xff) == 0x80
    }) by (bit_vector)
        requires
            w == 0x8080_8080_8080_8080u64,
    ;
    assert forall|i: int| 0 <= i < BLOCKSIZE implies word_byte(w, i) == EMPTY by {
        if i == 0 {
        } else if i == 1 {
        } else if i == 2 {
        } else if i == 3 {
        } else if i == 4 {
        } else if i == 5 {
        } else if i == 6 {
        } else {
        }
    }
    assert(word_bytes(w) =~= Seq::new(BLOCKSIZE as nat, |i: int| EMPTY));
}

/// The eight control bytes of one block, packed into one atomic word.
pub struct AtomicMetaBlock {
    inner: Atomic,
}

impl Default for AtomicMetaBlock {
    fn default() -> Self {
        Self::new()
    }
}

impl AtomicMetaBlock {
    /// A block whose slots are all EMPTY (see `lemma_empty_block`).
    pub fn new() -> Self {
        Self { inner: Atomic::new(EMPTY_BLOCK) }
    }

    /// A snapshot of the block's control bytes, not yet changed.
    pub fn load(&self) -> (r: MetaBlockValue)
        ensures
            r@ == r.loaded(),
    {
        MetaBlockValue::new(self.inner.load(R_ORD))
    }

    /// Publishes `value`'s changes if the block still holds what `value` was loaded
    /// from. May fail spuriously; on failure hands back a fresh snapshot.
    pub fn compare_exchange_weak(&self, value: MetaBlockValue) -> (r: Result<(), MetaBlockValue>)
        ensures
            r matches Err(fresh) ==> fresh@ == fresh.loaded(),
    {
        match self.inner.compare_exchange_weak(
            value.get_old_val(),
            value.get_new_val(),
            RW_ORD,
            R_ORD,
        ) {
            Ok(_) => Ok(()),
            Err(val) => Err(MetaBlockValue::new(val)),
        }
    }
}

/// A snapshot of a block's control bytes as loaded, with the changes proposed to them.
pub struct MetaBlockValue {
    bytes: [u8; BLOCKSIZE],
    old_bytes: [u8; BLOCKSIZE],
}

impl View for MetaBlockValue {
    type V = Seq<u8>;

    /// The control bytes with the proposed changes.
    closed spec fn view(&self) -> Seq<u8> {
        self.bytes@
    }
}

impl MetaBlockValue {
    /// The control bytes as they were loaded.
    pub closed spec fn loaded(&self) -> Seq<u8> {
        self.old_bytes@
    }

    fn new(val: u64) -> (r: Self)
        ensures
            r@ == word_bytes(val),
            r.loaded() == word_bytes(val),
    {
        let bytes = word_to_bytes(val);
        Self { bytes, old_bytes: bytes }
    }

    fn get_old_val(&self) -> (r: u64)
        ensures
            word_bytes(r) == self.loaded(),
    {
        bytes_to_word(&self.old_bytes)
    }

    fn get_new_val(&self) -> (r: u64)
        ensures
            word_bytes(r) == self@,
    {
        bytes_to_word(&self.bytes)
    }

    fn find_byte(&self, target: u8) -> (r: BitMask)
        ensures
            mask_bits(r) == matching(self@, target),
    {
        let mut bitmask = zeroed_mask();
        let mut i: usize = 0;
        while i < BLOCKSIZE
            invariant
                i <= BLOCKSIZE,
                mask_bits(bitmask).len() == BLOCKSIZE,
                forall|j: int| 0 <= j < i ==> mask_bits(bitmask)[j] == (self@[j] == target),
                forall|j: int| i <= j < BLOCKSIZE ==> !mask_bits(bitmask)[j],
            decreases BLOCKSIZE - i,
        {
            if self.bytes[i] == target {
                set_mask_bit(&mut bitmask, i, true);
            }
            i += 1;
        }
        assert(mask_bits(bitmask) =~= matching(self@, target));
        bitmask
    }

    /// A bit set exactly at the slots that hold EMPTY.
    pub fn find_empty(&self) -> (r: BitMask)
        ensures
            mask_bits(r) == matching(self@, EMPTY),
            mask_bits(r).len() == BLOCKSIZE,
    {
        self.find_byte(EMPTY)
    }

    /// A bit set exactly at the slots that hold the fragment `hash`.
    pub fn find_hash_matched(&self, hash: u8) -> (r: BitMask)
        requires
            is_fragment(hash),
        ensures
            mask_bits(r) == matching(self@, hash),
            mask_bits(r).len() == BLOCKSIZE,
    {
        self.find_byte(hash)
    }

    /// Claims the EMPTY slot `index` for the fragment `hash`.
    pub fn insert(&mut self, index: u8, hash: u8)
        requires
            index < BLOCKSIZE,
            is_fragment(hash),
            old(self)@[index as int] == EMPTY,
        ensures
            final(self)@ == old(self)@.update(index as int, hash),
            final(self).loaded() == old(self).loaded(),
    {
        self.bytes[index as usize] = hash;
    }

    /// Marks the slot `index` as a tombstone.
    pub fn remove(&mut self, index: u8)
        requires
            index < BLOCKSIZE,
        ensures
            final(self)@ == old(self)@.update(index as int, DELETED),
            final(self).loaded() == old(self).loaded(),
    {
        self.bytes[index as usize] = DELETED;
    }
}

} // verus!
