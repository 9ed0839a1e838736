use vstd::prelude::*;

verus! {

/// The word that encodes an empty slot.
pub const EMPTY_WORD: usize = 0;

/// The word that encodes a deleted slot.
pub const DELETED_WORD: usize = 1;

/// Smallest forward index.
pub const MIN_INDEX: u8 = 2;

/// Largest forward index.
pub const MAX_INDEX: u8 = 253;

/// The word that stands for a present handle whose own address is null.
pub const NULL_PAYLOAD_WORD: usize = 254;

/// Every word below this one is reserved for tags: no live allocation starts there.
pub const RESERVED_END: usize = 256;

/// A handle to a reference-counted value that can travel through one machine word.
///
/// `addr` is the word the handle stands for: the address of its payload, or 0 for a
/// handle without one.
pub trait RefCnt: Sized {
    spec fn addr(&self) -> usize;

    /// The handle's word, without touching the reference count.
    fn as_ptr(me: &Self) -> (r: usize)
        ensures
            r == me.addr(),
    ;

    /// The handle's word; the handle's count unit moves into the word.
    fn into_ptr(me: Self) -> (r: usize)
        ensures
            r == me.addr(),
    ;

    /// The handle's word, with one more count unit that the word now owns.
    fn inc(me: &Self) -> (r: usize)
        ensures
            r == me.addr(),
    ;

    /// Rebuilds the handle that a word owns, taking over its count unit.
    fn from_ptr(addr: usize) -> (r: Self)
        ensures
            r.addr() == addr,
    ;

    /// Releases the count unit that a word owns.
    fn dec(addr: usize);
}

/// Where a slot's content moved to while the table grew.
#[derive(Copy, Clone, Debug)]
pub struct SlotIndex(u8);

impl View for SlotIndex {
    type V = u8;

    closed spec fn view(&self) -> u8 {
        self.0
    }
}

/// A byte that names a forward index.
pub open spec fn is_forward_index(index: int) -> bool {
    MIN_INDEX <= index <= MAX_INDEX
}

impl SlotIndex {
    #[verifier::type_invariant]
    spec fn inv(&self) -> bool {
        is_forward_index(self.0 as int)
    }

    pub fn new(index: u8) -> (r: Option<Self>)
        ensures
            r is Some <==> is_forward_index(index as int),
            r matches Some(ix) ==> ix@ == index,
    {
        if index < MIN_INDEX || index > MAX_INDEX {
            None
        } else {
            Some(SlotIndex(index))
        }
    }

    /// For an index that the caller has already checked.
    pub fn new_unchecked(index: u8) -> (r: Self)
        requires
            is_forward_index(index as int),
        ensures
            r@ == index,
    {
        SlotIndex(index)
    }

    pub fn to_raw(self) -> (r: u8)
        ensures
            r == self@,
            is_forward_index(r as int),
    {
        proof {
            use_type_invariant(&self);
        }
        self.0
    }

    pub fn max() -> (r: usize)
        ensures
            r == MAX_INDEX,
            forall|i: u8| #[trigger] is_forward_index(i as int) ==> i <= r,
    {
        MAX_INDEX as usize
    }

    /// The word of a slot that moved to this index.
    pub fn to_ptr(self) -> (r: usize)
        ensures
            r == self@ as usize,
            is_forward_index(r as int),
    {
        proof {
            use_type_invariant(&self);
        }
        self.0 as usize
    }
}

/// What one slot word says, with a present handle taken as its address.
pub enum Tag {
    Empty,
    Deleted,
    Migrated(u8),
    Present(usize),
}

impl Tag {
    /// A value that the encoding can carry: forward indices in their range, and
    /// handle addresses null or outside the reserved words.
    pub open spec fn wf(self) -> bool {
        match self {
            Tag::Migrated(ix) => is_forward_index(ix as int),
            Tag::Present(a) => a == 0 || a >= RESERVED_END,
            _ => true,
        }
    }
}

/// Whether a handle at `addr` can travel through a slot word: null, or an address
/// outside the reserved words.
pub fn is_storable_addr(addr: usize) -> (r: bool)
    ensures
        r == Tag::Present(addr).wf(),
{
    addr == 0 || addr >= RESERVED_END
}

/// The word that holds a present handle's address.
pub open spec fn present_word(addr: usize) -> usize {
    if addr == 0 {
        NULL_PAYLOAD_WORD
    } else {
        addr
    }
}

/// The word that stands for a slot value.
pub open spec fn encode(t: Tag) -> usize {
    match t {
        Tag::Empty => EMPTY_WORD,
        Tag::Deleted => DELETED_WORD,
        Tag::Migrated(ix) => ix as usize,
        Tag::Present(a) => present_word(a),
    }
}

/// The slot value a word stands for; every word stands for one.
pub open spec fn decode(w: usize) -> Tag {
    if w == EMPTY_WORD {
        Tag::Empty
    } else if w == DELETED_WORD {
        Tag::Deleted
    } else if w <= MAX_INDEX {
        Tag::Migrated(w as u8)
    } else if w == NULL_PAYLOAD_WORD {
        Tag::Present(0)
    } else {
        Tag::Present(w)
    }
}

/// Decoding an encoded value gives the value back.
pub proof fn lemma_decode_encode(t: Tag)
    requires
        t.wf(),
    ensures
        decode(encode(t)) == t,
{
}

/// Every word is the encoding of what it decodes to.
pub proof fn lemma_encode_decode(w: usize)
    ensures
        encode(decode(w)) == w,
        decode(w).wf() || w == 255,
{
}

/// A value sent through its word and rebuilt from that word is the value it was:
/// the same tag, the same forward index, a handle to the same address.
pub proof fn lemma_value_round_trip<T: RefCnt>(v: Value<T>, r: Value<T>)
    requires
        v.wf(),
        r.tag() == decode(v.addr()),
    ensures
        r.tag() == v.tag(),
{
    lemma_decode_encode(v.tag());
}

/// The logical content of one data slot.
#[derive(Clone, Debug)]
pub enum Value<T> {
    Empty,
    Deleted,
    Migrated(SlotIndex),
    Present(T),
}

impl<T> Default for Value<T> {
    fn default() -> (r: Self)
        ensures
            r is Empty,
    {
        Value::Empty
    }
}

impl<T: RefCnt> Value<T> {
    pub open spec fn tag(&self) -> Tag {
        match self {
            Value::Empty => Tag::Empty,
            Value::Deleted => Tag::Deleted,
            Value::Migrated(ix) => Tag::Migrated(ix@),
            Value::Present(h) => Tag::Present(h.addr()),
        }
    }

    /// The value can travel through a word and come back as it was.
    pub open spec fn wf(&self) -> bool {
        self.tag().wf()
    }

    fn map_ptr(addr: usize) -> (r: usize)
        ensures
            r == present_word(addr),
    {
        if addr == 0 {
            NULL_PAYLOAD_WORD
        } else {
            addr
        }
    }
}

impl<T: RefCnt> RefCnt for Value<T> {
    open spec fn addr(&self) -> usize {
        encode(self.tag())
    }

    fn as_ptr(me: &Self) -> (r: usize) {
        match me {
            Value::Empty => EMPTY_WORD,
            Value::Deleted => DELETED_WORD,
            Value::Migrated(ix) => ix.to_ptr(),
            Value::Present(h) => Self::map_ptr(T::as_ptr(h)),
        }
    }

    fn into_ptr(me: Self) -> (r: usize) {
        match me {
            Value::Empty => EMPTY_WORD,
            Value::Deleted => DELETED_WORD,
            Value::Migrated(ix) => ix.to_ptr(),
            Value::Present(h) => Self::map_ptr(T::into_ptr(h)),
        }
    }

    fn inc(me: &Self) -> (r: usize) {
        match me {
            Value::Empty => EMPTY_WORD,
            Value::Deleted => DELETED_WORD,
            Value::Migrated(ix) => ix.to_ptr(),
            Value::Present(h) => Self::map_ptr(T::inc(h)),
        }
    }

    fn from_ptr(addr: usize) -> (r: Self)
        ensures
            r.tag() == decode(addr),
    {
        if addr == EMPTY_WORD {
            Value::Empty
        } else if addr == DELETED_WORD {
            Value::Deleted
        } else if addr <= MAX_INDEX as usize {
            Value::Migrated(SlotIndex::new_unchecked(addr as u8))
        } else if addr == NULL_PAYLOAD_WORD {
            Value::Present(T::from_ptr(0))
        } else {
            Value::Present(T::from_ptr(addr))
        }
    }

    fn dec(addr: usize) {
        if addr == NULL_PAYLOAD_WORD {
            T::dec(0);
        } else if addr > NULL_PAYLOAD_WORD {
            T::dec(addr);
        }
    }
}

} // verus!
