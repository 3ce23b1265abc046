//! The POP3 side of fetching: the pure decisions of the fetch and delete
//! cycles.
//!
//! The POP3 connection itself (TCP, TLS, login, LIST, UIDL, RETR, DELE)
//! lives in the runtime around the library. It feeds what the server
//! reported through the helpers here: the textual id of a message (its
//! UIDL, or its sequence number rendered in decimal when the server gives
//! no UIDL), and the scan that locates a message by id before deletion.

use vstd::prelude::*;
use crate::digits::spec_u32_string;
use crate::digits::u32_to_string;

verus! {

/// The textual id of a message: its unique id as reported by the server,
/// or its sequence number in decimal when the lookup failed.
pub fn message_uid(seq_num: u32, unique_id: Option<String>) -> (r: String)
    ensures
        (match unique_id {
            Some(u) => r == u,
            None => r@ == spec_u32_string(seq_num as nat),
        }),
{
    match unique_id {
        Some(u) => u,
        None => u32_to_string(seq_num),
    }
}

/// Whether one listed message, `(sequence number, optional unique id)`,
/// answers to the id `target`: by its unique id where the server reported
/// one, by its decimal sequence number otherwise.
pub open spec fn entry_matches(entry: (u32, Option<String>), target: Seq<char>) -> bool {
    match entry.1 {
        Some(u) => u@ == target,
        None => spec_u32_string(entry.0 as nat) == target,
    }
}

/// Finds the sequence number of the first listed message that answers to
/// `target`, scanning in listing order.
pub fn find_sequence_for_uid(entries: &Vec<(u32, Option<String>)>, target: &String) -> (r: Option<
    u32,
>)
    ensures
        (match r {
            Some(n) => exists|i: int|
                0 <= i < entries@.len() && (#[trigger] entries@[i]).0 == n && entry_matches(
                    entries@[i],
                    target@,
                ) && (forall|j: int| 0 <= j < i ==> !entry_matches(#[trigger] entries@[j], target@)),
            None => forall|j: int|
                0 <= j < entries@.len() ==> !entry_matches(#[trigger] entries@[j], target@),
        }),
{
    let mut i: usize = 0;
    while i < entries.len()
        invariant
            i <= entries@.len(),
            forall|j: int| 0 <= j < i ==> !entry_matches(#[trigger] entries@[j], target@),
        decreases entries@.len() - i,
    {
        let e = &entries[i];
        let hit = match &e.1 {
            Some(u) => *u == *target,
            None => {
                let d = u32_to_string(e.0);
                d == *target
            },
        };
        if hit {
            proof {
                assert(entry_matches(entries@[i as int], target@));
            }
            return Some(e.0);
        }
        i += 1;
    }
    None
}

} // verus!
