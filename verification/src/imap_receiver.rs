//! The IMAP side of fetching: the account handle and the pure decisions
//! of the fetch cycle.
//!
//! The IMAP session itself (TCP, TLS, login, SELECT, SEARCH, FETCH,
//! STORE, EXPUNGE) lives in the runtime around the library; it feeds the
//! search result and the fetched messages through the helpers here: the
//! sequence-set string for the one-command fetch, and the filter that
//! drops messages already seen this session.

use vstd::prelude::*;
use crate::config::ReceiverConfig;
use crate::digits::spec_u32_string;
use crate::digits::u32_to_string;
use crate::message::Email;
use crate::seen::SeenSet;

verus! {

/// The handle for one IMAP account: its configuration, immutable for the
/// lifetime of the account loop.
pub struct ImapReceiver {
    pub config: ReceiverConfig,
}

impl ImapReceiver {
    pub fn new(config: ReceiverConfig) -> (r: ImapReceiver)
        ensures
            r.config == config,
    {
        ImapReceiver { config }
    }
}

/// The IMAP sequence-set for a list of message sequence numbers: their
/// decimal renderings joined by commas.
pub open spec fn spec_sequence_set(nums: Seq<u32>) -> Seq<char>
    decreases nums.len(),
{
    if nums.len() == 0 {
        Seq::empty()
    } else if nums.len() == 1 {
        spec_u32_string(nums[0] as nat)
    } else {
        spec_sequence_set(nums.drop_last()) + seq![','] + spec_u32_string(nums.last() as nat)
    }
}

/// Renders the sequence-set string for one fetch command.
pub fn sequence_set(nums: &Vec<u32>) -> (r: String)
    ensures
        r@ == spec_sequence_set(nums@),
{
    let mut s = String::new();
    let mut i: usize = 0;
    while i < nums.len()
        invariant
            i <= nums@.len(),
            s@ == spec_sequence_set(nums@.take(i as int)),
        decreases nums@.len() - i,
    {
        if i > 0 {
            s.append(",");
        }
        let d = u32_to_string(nums[i]);
        s.append(d.as_str());
        proof {
            reveal_strlit(",");
            let pre = nums@.take(i as int + 1);
            assert(pre.drop_last() =~= nums@.take(i as int));
            assert(pre.last() == nums@[i as int]);
            if i == 0 {
                assert(s@ =~= spec_u32_string(nums@[0] as nat));
            } else {
                assert(","@ =~= seq![',']);
                assert(s@ =~= spec_sequence_set(nums@.take(i as int)) + seq![','] + d@);
            }
        }
        i += 1;
    }
    proof {
        assert(nums@.take(nums@.len() as int) =~= nums@);
    }
    s
}

/// Keeps, in arrival order, only the fetched messages whose id is not in
/// the session's seen set.
pub fn retain_unseen(emails: Vec<Email>, seen: &SeenSet) -> (r: Vec<Email>)
    ensures
        r@ == emails@.filter(|e: Email| !seen@.contains(e.id@)),
{
    let ghost orig = emails@;
    let ghost pred = |e: Email| !seen@.contains(e.id@);
    let mut rest = emails;
    let mut out: Vec<Email> = Vec::new();
    let ghost k: int = 0;
    while rest.len() > 0
        invariant
            0 <= k <= orig.len(),
            rest@ =~= orig.skip(k),
            out@ == orig.take(k).filter(pred),
            pred == (|e: Email| !seen@.contains(e.id@)),
        decreases rest@.len(),
    {
        let e = rest.remove(0);
        proof {
            assert(orig.skip(k).remove(0) =~= orig.skip(k + 1));
            assert(e == orig[k]);
        }
        if !seen.contains(&e.id) {
            out.push(e);
        }
        proof {
            assert(orig.take(k + 1) =~= orig.take(k) + seq![orig[k]]);
            Seq::filter_distributes_over_add(orig.take(k), seq![orig[k]], pred);
            reveal_with_fuel(Seq::filter, 2);
            assert(seq![orig[k]].drop_last() =~= Seq::<Email>::empty());
            assert(seq![orig[k]].filter(pred) == if pred(orig[k]) {
                Seq::<Email>::empty().push(orig[k])
            } else {
                Seq::<Email>::empty()
            });
            if pred(orig[k]) {
                assert(out@ =~= orig.take(k).filter(pred) + seq![orig[k]].filter(pred));
            } else {
                assert(out@ =~= orig.take(k).filter(pred) + seq![orig[k]].filter(pred));
            }
            k = k + 1;
        }
    }
    proof {
        assert(orig.skip(k).len() == 0);
        assert(k == orig.len());
        assert(orig.take(k) =~= orig);
    }
    out
}

} // verus!
