//! What an envelope owns on the heap, and hence what its destruction gives
//! back.
//!
//! An envelope is the sole owner of its message and of its fault array, where
//! it has them, and is itself a region of the heap. Destroying it gives back
//! each of these regions once, the nested ones first. An array's region is
//! described by its element count and the width of one element, never by a
//! byte count alone, so that it is given back at the size at which it was
//! taken.

use vstd::layout::layout_of_primitives;
use vstd::layout::size_of;
use vstd::prelude::*;

use crate::api::message::OwnedMessage;

verus! {

/// The width in bytes of one sector identifier, the element of a fault array.
pub const SECTOR_ID_BYTES: usize = 8;

/// One heap region that belongs to an envelope.
#[derive(Clone, Copy, Debug, PartialEq, Eq, Structural)]
pub enum Allocation {
    /// A buffer of `len` elements, each `elem_size` bytes wide.
    Array { len: usize, elem_size: usize },
    /// A terminated message of `len` bytes, the terminator among them.
    Message { len: usize },
    /// The envelope record itself.
    Envelope,
}

/// The region of an array of `len` sector identifiers: none for an empty
/// array, which has no buffer.
pub open spec fn array_allocation(len: usize) -> Seq<Allocation> {
    if len == 0 {
        Seq::empty()
    } else {
        seq![Allocation::Array { len, elem_size: SECTOR_ID_BYTES }]
    }
}

/// The region of an envelope's message: none where there is no message.
pub open spec fn message_allocation(msg: Option<OwnedMessage>) -> Seq<Allocation> {
    match msg {
        Some(m) => seq![Allocation::Message { len: (m@.len() + 1) as usize }],
        None => Seq::empty(),
    }
}

/// What an envelope with the message `msg` and a fault array of `faults_len`
/// elements owns, in the order in which destruction gives it back: the
/// array, the message, and last the envelope itself.
pub open spec fn allocations_of(faults_len: usize, msg: Option<OwnedMessage>) -> Seq<Allocation> {
    (array_allocation(faults_len) + message_allocation(msg)).push(Allocation::Envelope)
}

/// Lists what an envelope gives back when it is destroyed, from its message
/// and the length of its fault array (zero for an envelope that has none).
pub fn release(faults_len: usize, msg: &Option<OwnedMessage>) -> (released: Vec<Allocation>)
    ensures
        released@ == allocations_of(faults_len, *msg),
{
    let mut released: Vec<Allocation> = Vec::new();
    if faults_len != 0 {
        released.push(Allocation::Array { len: faults_len, elem_size: SECTOR_ID_BYTES });
    }
    match msg {
        Some(m) => {
            released.push(Allocation::Message { len: m.len_with_nul() });
        },
        None => {},
    }
    released.push(Allocation::Envelope);
    released
}

/// Every region that an envelope owns is given back, and none twice: the
/// list ends with the envelope, holds the message's region exactly when there
/// is a message, the array's region exactly when the array has elements, and
/// nothing else.
pub proof fn lemma_each_region_once(faults_len: usize, msg: Option<OwnedMessage>)
    ensures
        allocations_of(faults_len, msg).no_duplicates(),
        allocations_of(faults_len, msg).last() == Allocation::Envelope,
        allocations_of(faults_len, msg).len() == (if faults_len != 0 { 1int } else { 0 }) + (if msg is Some { 1int } else { 0 }) + 1,
        forall|a: Allocation| #[trigger]
            allocations_of(faults_len, msg).contains(a) <==> {
                ||| a == Allocation::Envelope
                ||| faults_len != 0 && a == Allocation::Array {
                    len: faults_len,
                    elem_size: SECTOR_ID_BYTES,
                }
                ||| msg is Some && a == Allocation::Message { len: (msg->0@.len() + 1) as usize }
            },
{
    let all = allocations_of(faults_len, msg);
    assert forall|a: Allocation| #[trigger] all.contains(a) <==> {
        ||| a == Allocation::Envelope
        ||| faults_len != 0 && a == Allocation::Array { len: faults_len, elem_size: SECTOR_ID_BYTES }
        ||| msg is Some && a == Allocation::Message { len: (msg->0@.len() + 1) as usize }
    } by {
        if all.contains(a) {
            let i = choose|i: int| 0 <= i < all.len() && all[i] == a;
            assert(all[i] == a);
        }
        if a == Allocation::Envelope {
            assert(all[all.len() - 1] == a);
        }
        if faults_len != 0 && a == (Allocation::Array { len: faults_len, elem_size: SECTOR_ID_BYTES }) {
            assert(all[0] == a);
        }
        if msg is Some && a == (Allocation::Message { len: (msg->0@.len() + 1) as usize }) {
            assert(all[all.len() - 2] == a);
        }
    }
}

/// A fault array is given back at its true size: as one region, first in
/// the list, of as many elements as it holds, each as wide as a sector
/// identifier is in memory.
pub proof fn lemma_array_region_is_true(faults_len: usize, msg: Option<OwnedMessage>)
    requires
        faults_len != 0,
    ensures
        allocations_of(faults_len, msg)[0] == (Allocation::Array {
            len: faults_len,
            elem_size: SECTOR_ID_BYTES,
        }),
        SECTOR_ID_BYTES == size_of::<u64>(),
{
    broadcast use layout_of_primitives;

}

} // verus!
