//! One block of the table: a metadata word and eight data slots.
//!
//! Insertion updates the metadata before the data: the control byte goes from EMPTY
//! to the fragment, then the slot from empty to the handle. Removal goes the other
//! way: the slot is cleared first, then the control byte becomes DELETED. A reader
//! that finds a matching control byte may therefore still find an empty slot, and
//! must then keep probing. DELETED slots are never reused within one table.
use vstd::prelude::*;

use crate::metadata::{is_fragment, matching, BLOCKSIZE, DELETED, EMPTY};
use crate::value::{is_forward_index, RefCnt, SlotIndex, Tag, Value};

verus! {

/// The part of a hash that selects a block.
#[allow(non_snake_case)]
pub fn H1(hash: usize) -> (r: usize)
    ensures
        r == hash / 128,
{
    assert(hash >> 7 == hash / 128) by (bit_vector);
    hash >> 7
}

/// The part of a hash that a control byte keeps: its low seven bits.
#[allow(non_snake_case)]
pub fn H2(hash: usize) -> (r: u8)
    ensures
        r == hash % 128,
        is_fragment(r),
        r != EMPTY,
        r != DELETED,
{
    (hash % 128) as u8
}

/// What a reader does with a slot whose control byte matched its fragment.
pub enum ProbeStep {
    /// The slot holds a handle: compare its key.
    Found,
    /// The content moved to the new table, at this index.
    Forward(SlotIndex),
    /// An insertion not yet published, or a removal under way: not a miss.
    KeepProbing,
}

/// Decides the reader's next step from the data slot it read.
pub fn probe_step<T: RefCnt>(value: &Value<T>) -> (r: ProbeStep)
    ensures
        value is Present <==> r is Found,
        value is Empty || value is Deleted <==> r is KeepProbing,
        *value matches Value::Migrated(ix) ==> r == ProbeStep::Forward(ix),
{
    match value {
        Value::Present(_) => ProbeStep::Found,
        Value::Migrated(ix) => ProbeStep::Forward(*ix),
        _ => ProbeStep::KeepProbing,
    }
}

/// A hash fragment is never one of the two reserved control bytes, so a query for
/// it never reports an empty or deleted slot.
pub proof fn lemma_fragment_not_reserved(bytes: Seq<u8>, hash: usize)
    ensures
        is_fragment((hash % 128) as u8),
        forall|i: int|
            0 <= i < bytes.len() && #[trigger] matching(bytes, (hash % 128) as u8)[i] ==> bytes[i]
                != EMPTY && bytes[i] != DELETED,
{
}

/// A tombstone is never offered for insertion, and an insertion or removal at any
/// slot that may take it leaves the tombstone in place.
pub proof fn lemma_tombstone_kept(bytes: Seq<u8>, i: int, j: int, b: u8)
    requires
        bytes.len() == BLOCKSIZE,
        0 <= i < BLOCKSIZE,
        0 <= j < BLOCKSIZE,
        bytes[i] == DELETED,
        bytes[j] == EMPTY,
    ensures
        !matching(bytes, EMPTY)[i],
        i != j,
        bytes.update(j, b)[i] == DELETED,
{
}

/// One step of the slot protocol, by a writer.
pub enum SlotStep {
    /// Insertion, first half: the EMPTY control byte takes the fragment.
    Claim(u8),
    /// Insertion, second half: the handle at this address is stored.
    Publish(usize),
    /// Removal, first half: the handle leaves the data slot.
    Clear(Tag),
    /// Removal, second half: the control byte becomes DELETED.
    Bury,
    /// Growth: the content moved to the new table, at this index.
    Forward(u8),
}

/// The pairs of control byte and data content that a reader may observe: a handle
/// only under a fragment, and nothing at all under EMPTY.
pub open spec fn slot_consistent(control: u8, data: Tag) -> bool {
    &&& control == EMPTY ==> data is Empty
    &&& data is Present ==> is_fragment(control)
    &&& control == EMPTY || control == DELETED || is_fragment(control)
}

/// When the protocol lets a writer take a step.
pub open spec fn step_enabled(control: u8, data: Tag, step: SlotStep) -> bool {
    match step {
        SlotStep::Claim(f) => control == EMPTY && is_fragment(f),
        SlotStep::Publish(a) => is_fragment(control) && data is Empty && Tag::Present(a).wf(),
        SlotStep::Clear(t) => data is Present && (t is Empty || t is Deleted),
        SlotStep::Bury => is_fragment(control) && !(data is Present),
        SlotStep::Forward(ix) => control != EMPTY && !(data is Migrated) && is_forward_index(
            ix as int,
        ),
    }
}

/// The control byte and data content after a step.
pub open spec fn apply_step(control: u8, data: Tag, step: SlotStep) -> (u8, Tag) {
    match step {
        SlotStep::Claim(f) => (f, data),
        SlotStep::Publish(a) => (control, Tag::Present(a)),
        SlotStep::Clear(t) => (control, t),
        SlotStep::Bury => (DELETED, data),
        SlotStep::Forward(ix) => (control, Tag::Migrated(ix)),
    }
}

/// Every step of the protocol keeps what a reader can observe consistent: metadata
/// before data on insertion, data before metadata on removal. A tombstone stays a
/// tombstone, and a forwarded slot never changes again.
pub proof fn lemma_protocol_step(control: u8, data: Tag, step: SlotStep)
    requires
        slot_consistent(control, data),
        step_enabled(control, data, step),
    ensures
        slot_consistent(apply_step(control, data, step).0, apply_step(control, data, step).1),
        control == DELETED ==> apply_step(control, data, step).0 == DELETED,
        data is Migrated ==> apply_step(control, data, step).1 == data,
{
}

/// A reader whose fragment matched may still find the data slot empty, while the
/// insertion is half done; so an empty slot there is no proof of absence.
pub proof fn lemma_matched_empty_is_reachable(f: u8, a: usize)
    requires
        is_fragment(f),
        Tag::Present(a).wf(),
    ensures
        step_enabled(EMPTY, Tag::Empty, SlotStep::Claim(f)),
        apply_step(EMPTY, Tag::Empty, SlotStep::Claim(f)) == (f, Tag::Empty),
        slot_consistent(f, Tag::Empty),
        step_enabled(f, Tag::Empty, SlotStep::Publish(a)),
        apply_step(f, Tag::Empty, SlotStep::Publish(a)).1 == Tag::Present(a),
{
}

} // verus!
