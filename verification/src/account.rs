//! The per-account polling loop as an explicit state machine.
//!
//! One `AccountLoop` drives one configured account. The surrounding runtime
//! owns the timers, the network connections and the shutdown broadcast; it
//! asks the machine what to do next and reports back each outcome. Every
//! decision — which message to deliver next, when to issue the batched
//! delete, which notifications to send, when to stop — is taken here.
//!
//! The cycle structure follows the forwarding pipeline: in the waiting
//! phase the loop races the interval timer against the shutdown signal;
//! a fetched batch is then processed message by message in arrival order
//! (skipping ids already seen this session), delivery successes are
//! recorded as deletion and notification candidates, an optional batched
//! delete follows, and notifications are only sent if the delete (when
//! enabled) succeeded. The shutdown signal is only observed at the waiting
//! phase: a cycle in progress always runs to completion.

use vstd::prelude::*;
use crate::config::DEFAULT_CHECK_INTERVAL_SECONDS;
use crate::message::Email;
use crate::seen::SeenSet;

verus! {

/// The poll interval an account actually runs with: the configured value,
/// or the default, floored to 10 seconds to prevent tight loops.
pub open spec fn spec_effective_interval(configured: Option<u64>) -> u64 {
    let base = match configured {
        Some(s) => s,
        None => DEFAULT_CHECK_INTERVAL_SECONDS,
    };
    if base < 10 {
        10
    } else {
        base
    }
}

/// Computes the effective poll interval for an account.
pub fn effective_interval(configured: Option<u64>) -> (r: u64)
    ensures
        r == spec_effective_interval(configured),
{
    let base = match configured {
        Some(s) => s,
        None => DEFAULT_CHECK_INTERVAL_SECONDS,
    };
    if base < 10 {
        10
    } else {
        base
    }
}

/// Where one account loop stands.
#[derive(Debug, Clone, Copy, PartialEq)]
pub enum LoopPhase {
    /// Between cycles: racing the interval timer against shutdown.
    Waiting,
    /// A fetch has been requested and its outcome is pending.
    Fetching,
    /// Delivery of `batch[index]` has been requested.
    Delivering { index: usize },
    /// The batched delete of the forwarded messages is pending.
    AwaitingDelete,
    /// Notifier `notifier` is being invoked for the forwarded message in
    /// slot `slot`.
    Notifying { slot: usize, notifier: usize },
    /// Terminal: the loop acknowledged shutdown.
    Stopped,
}

/// What the runtime must do next on behalf of the machine.
#[derive(Debug, PartialEq)]
pub enum Directive {
    /// Wait for the interval timer or the shutdown signal, whichever
    /// fires first, then report with `on_wake`.
    Wait { seconds: u64 },
    /// Fetch pending messages from the account's mail source.
    Fetch,
    /// Deliver the augmented payload of `batch[index]` to the forwarding
    /// destination, then report with `on_deliver_result`.
    Deliver { index: usize },
    /// Issue one batched delete for `ids` at the mail source, then report
    /// with `on_delete_result`.
    DeleteBatch { ids: Vec<String> },
    /// Invoke notifier `notifier` for `batch[index]`, then report with
    /// `on_notified`.
    Notify { index: usize, notifier: usize },
    /// Terminate the account task.
    Stop,
}

/// The first index at or after `from` whose message id is not in `seen`,
/// or `batch.len()` if every remaining id is already seen.
pub open spec fn first_unseen(batch: Seq<Email>, seen: Set<Seq<char>>, from: int) -> int
    decreases batch.len() - from,
{
    if from >= batch.len() {
        batch.len() as int
    } else if !seen.contains(batch[from].id@) {
        from
    } else {
        first_unseen(batch, seen, from + 1)
    }
}

/// Bounds and characterisation of `first_unseen`.
pub proof fn lemma_first_unseen(batch: Seq<Email>, seen: Set<Seq<char>>, from: int)
    requires
        0 <= from <= batch.len(),
    ensures
        from <= first_unseen(batch, seen, from) <= batch.len(),
        first_unseen(batch, seen, from) < batch.len() ==> !seen.contains(
            batch[first_unseen(batch, seen, from)].id@,
        ),
        forall|j: int|
            from <= j < first_unseen(batch, seen, from) ==> seen.contains(#[trigger] batch[j].id@),
    decreases batch.len() - from,
{
    if from < batch.len() && seen.contains(batch[from].id@) {
        lemma_first_unseen(batch, seen, from + 1);
    }
}

/// Scans `batch` from `from` for the first message not yet seen.
fn scan_unseen(batch: &Vec<Email>, seen: &SeenSet, from: usize) -> (r: usize)
    requires
        from <= batch@.len(),
    ensures
        r == first_unseen(batch@, seen@, from as int),
        from <= r <= batch@.len(),
{
    let mut k: usize = from;
    while k < batch.len()
        invariant
            from <= k <= batch@.len(),
            first_unseen(batch@, seen@, from as int) == first_unseen(batch@, seen@, k as int),
        decreases batch@.len() - k,
    {
        if !seen.contains(&batch[k].id) {
            return k;
        }
        k += 1;
    }
    k
}

/// One account's polling loop: the configuration it runs with, the
/// per-session deduplication set, and the state of the cycle in progress.
///
/// `history` is the ghost record of every message id whose delivery
/// succeeded in this session; the invariant ties the contents of `seen`
/// to it.
pub struct AccountLoop {
    /// Effective poll interval, at least 10 seconds.
    pub interval_seconds: u64,
    /// Whether forwarded messages are deleted from the source.
    pub delete_after_forward: bool,
    /// How many notifiers are configured (shared by all accounts).
    pub n_notifiers: usize,
    /// Ids already forwarded this session.
    pub seen: SeenSet,
    /// Set once the shutdown broadcast has been observed; only acted upon
    /// at the waiting phase.
    pub shutdown_requested: bool,
    /// The batch fetched by the cycle in progress.
    pub batch: Vec<Email>,
    /// Indices into `batch`, in arrival order, whose delivery succeeded
    /// this cycle: the deletion and notification candidates.
    pub forwarded: Vec<usize>,
    /// Where the loop stands.
    pub phase: LoopPhase,
    /// All ids ever delivered successfully in this session.
    pub history: Ghost<Set<Seq<char>>>,
}

impl AccountLoop {
    /// The ids of this cycle's forwarded messages, in arrival order.
    pub open spec fn forwarded_ids(self) -> Seq<Seq<char>> {
        self.forwarded@.map_values(|i: usize| self.batch@[i as int].id@)
    }

    /// The configuration fields never change after construction.
    pub open spec fn same_config(pre: AccountLoop, post: AccountLoop) -> bool {
        &&& post.interval_seconds == pre.interval_seconds
        &&& post.delete_after_forward == pre.delete_after_forward
        &&& post.n_notifiers == pre.n_notifiers
    }

    /// The machine's invariant. Beside well-formedness of the cycle
    /// bookkeeping it carries the session laws: every id in `seen` and
    /// every forwarded candidate was actually delivered (`history`).
    pub open spec fn wf(self) -> bool {
        &&& self.interval_seconds >= 10
        &&& self.seen.wf()
        &&& self.seen@.subset_of(self.history@)
        &&& forall|k: int|
            0 <= k < self.forwarded@.len() ==> (#[trigger] self.forwarded@[k]) < self.batch@.len()
        &&& forall|k: int, l: int|
            #![trigger self.forwarded@[k], self.forwarded@[l]]
            0 <= k < l < self.forwarded@.len() ==> self.forwarded@[k] < self.forwarded@[l]
        &&& forall|k: int|
            0 <= k < self.forwarded@.len() ==> self.history@.contains(
                #[trigger] self.batch@[self.forwarded@[k] as int].id@,
            )
        &&& match self.phase {
            LoopPhase::Waiting => true,
            LoopPhase::Fetching => true,
            LoopPhase::Stopped => true,
            LoopPhase::Delivering { index } => {
                &&& index < self.batch@.len()
                &&& !self.seen@.contains(self.batch@[index as int].id@)
                &&& forall|k: int|
                    0 <= k < self.forwarded@.len() ==> (#[trigger] self.forwarded@[k]) < index
            },
            LoopPhase::AwaitingDelete => self.delete_after_forward && self.forwarded@.len() >= 1,
            LoopPhase::Notifying { slot, notifier } => slot < self.forwarded@.len() && notifier
                < self.n_notifiers,
        }
    }

    /// Builds the machine for one account: empty session state, waiting
    /// phase, effective interval computed from the configured one.
    pub fn new(
        check_interval_seconds: Option<u64>,
        delete_after_forward: Option<bool>,
        n_notifiers: usize,
    ) -> (r: AccountLoop)
        ensures
            r.wf(),
            r.phase is Waiting,
            r.interval_seconds == spec_effective_interval(check_interval_seconds),
            r.delete_after_forward == (delete_after_forward == Some(true)),
            r.n_notifiers == n_notifiers,
            r.seen@ == Set::<Seq<char>>::empty(),
            !r.shutdown_requested,
            r.history@ == Set::<Seq<char>>::empty(),
            r.batch@.len() == 0,
            r.forwarded@.len() == 0,
    {
        AccountLoop {
            interval_seconds: effective_interval(check_interval_seconds),
            delete_after_forward: match delete_after_forward {
                Some(b) => b,
                None => false,
            },
            n_notifiers,
            seen: SeenSet::new(),
            shutdown_requested: false,
            batch: Vec::new(),
            forwarded: Vec::new(),
            phase: LoopPhase::Waiting,
            history: Ghost(Set::empty()),
        }
    }

    /// Records that the shutdown broadcast fired. Nothing else changes:
    /// in particular a cycle in progress keeps its batch and continues to
    /// completion; the flag is only acted upon at the next `on_wake`.
    pub fn on_shutdown(&mut self)
        ensures
            *final(self) == (AccountLoop { shutdown_requested: true, ..*old(self) }),
    {
        self.shutdown_requested = true;
    }

    /// The wait ended: either the interval elapsed or shutdown was
    /// requested. Shutdown wins; otherwise a fetch cycle begins.
    pub fn on_wake(&mut self) -> (d: Directive)
        requires
            old(self).wf(),
            old(self).phase is Waiting,
        ensures
            final(self).wf(),
            Self::same_config(*old(self), *final(self)),
            final(self).seen == old(self).seen,
            final(self).history == old(self).history,
            final(self).shutdown_requested == old(self).shutdown_requested,
            final(self).batch == old(self).batch,
            final(self).forwarded == old(self).forwarded,
            old(self).shutdown_requested ==> final(self).phase is Stopped && d is Stop,
            !old(self).shutdown_requested ==> final(self).phase is Fetching && d is Fetch,
    {
        if self.shutdown_requested {
            self.phase = LoopPhase::Stopped;
            Directive::Stop
        } else {
            self.phase = LoopPhase::Fetching;
            Directive::Fetch
        }
    }

    /// The fetch failed: the error is logged by the runtime and the cycle
    /// is skipped; fetch errors are not fatal.
    pub fn on_fetch_failed(&mut self) -> (d: Directive)
        requires
            old(self).wf(),
            old(self).phase is Fetching,
        ensures
            final(self).wf(),
            Self::same_config(*old(self), *final(self)),
            final(self).seen == old(self).seen,
            final(self).history == old(self).history,
            final(self).shutdown_requested == old(self).shutdown_requested,
            final(self).batch == old(self).batch,
            final(self).forwarded == old(self).forwarded,
            final(self).phase is Waiting,
            d == (Directive::Wait { seconds: old(self).interval_seconds }),
    {
        self.phase = LoopPhase::Waiting;
        Directive::Wait { seconds: self.interval_seconds }
    }

    /// A batch arrived. Processing starts at the first message whose id
    /// is not already seen; a batch of only-seen ids produces no delivery,
    /// no delete and no notification at all — the cycle ends at once.
    pub fn on_batch(&mut self, batch: Vec<Email>) -> (d: Directive)
        requires
            old(self).wf(),
            old(self).phase is Fetching,
        ensures
            final(self).wf(),
            Self::same_config(*old(self), *final(self)),
            final(self).seen == old(self).seen,
            final(self).history == old(self).history,
            final(self).shutdown_requested == old(self).shutdown_requested,
            final(self).batch == batch,
            final(self).forwarded@.len() == 0,
            ({
                let nxt = first_unseen(batch@, old(self).seen@, 0);
                &&& nxt < batch@.len() ==> final(self).phase == (LoopPhase::Delivering {
                    index: nxt as usize,
                }) && d == (Directive::Deliver { index: nxt as usize })
                &&& nxt == batch@.len() ==> final(self).phase is Waiting && d == (Directive::Wait {
                    seconds: old(self).interval_seconds,
                })
            }),
            (forall|j: int|
                0 <= j < batch@.len() ==> old(self).seen@.contains(#[trigger] batch@[j].id@))
                ==> d matches Directive::Wait { .. },
    {
        proof {
            lemma_first_unseen(batch@, self.seen@, 0);
        }
        self.batch = batch;
        self.forwarded = Vec::new();
        let nxt = scan_unseen(&self.batch, &self.seen, 0);
        if nxt < self.batch.len() {
            self.phase = LoopPhase::Delivering { index: nxt };
            Directive::Deliver { index: nxt }
        } else {
            self.phase = LoopPhase::Waiting;
            Directive::Wait { seconds: self.interval_seconds }
        }
    }

    /// Collects the ids of this cycle's forwarded messages, in order.
    fn collect_forwarded_ids(&self) -> (ids: Vec<String>)
        requires
            forall|k: int|
                0 <= k < self.forwarded@.len() ==> (#[trigger] self.forwarded@[k])
                    < self.batch@.len(),
        ensures
            ids@.map_values(|s: String| s@) == self.forwarded_ids(),
    {
        let mut ids: Vec<String> = Vec::new();
        let mut k: usize = 0;
        while k < self.forwarded.len()
            invariant
                k <= self.forwarded@.len(),
                forall|j: int|
                    0 <= j < self.forwarded@.len() ==> (#[trigger] self.forwarded@[j])
                        < self.batch@.len(),
                ids@.map_values(|s: String| s@) =~= self.forwarded_ids().take(k as int),
            decreases self.forwarded@.len() - k,
        {
            let idx = self.forwarded[k];
            let ghost pre = ids@;
            ids.push(self.batch[idx].id.clone());
            proof {
                assert(ids@.map_values(|s: String| s@) =~= pre.map_values(|s: String| s@).push(
                    self.batch@[idx as int].id@,
                ));
                assert(self.forwarded_ids().take(k as int + 1) =~= self.forwarded_ids().take(
                    k as int,
                ).push(self.forwarded_ids()[k as int]));
                assert(self.forwarded_ids()[k as int] == self.batch@[idx as int].id@);
                assert(ids@.map_values(|s: String| s@) =~= self.forwarded_ids().take(k as int + 1));
            }
            k += 1;
        }
        proof {
            assert(self.forwarded_ids().take(self.forwarded@.len() as int) =~= self.forwarded_ids());
        }
        ids
    }

    /// The delivery of `batch[index]` (the current `Delivering` phase)
    /// came back. On success the id is recorded as seen and the message
    /// becomes a deletion and notification candidate; on failure the
    /// message is left untouched and will be retried when the source
    /// reports it again. Either way processing advances to the next
    /// unseen message, and once the batch is exhausted either the batched
    /// delete is issued (if enabled and anything was forwarded), or
    /// notification begins, or the cycle ends.
    pub fn on_deliver_result(&mut self, ok: bool) -> (d: Directive)
        requires
            old(self).wf(),
            old(self).phase is Delivering,
        ensures
            final(self).wf(),
            Self::same_config(*old(self), *final(self)),
            final(self).shutdown_requested == old(self).shutdown_requested,
            final(self).batch == old(self).batch,
            ok ==> {
                let i = old(self).phase->index as int;
                &&& final(self).seen@ == old(self).seen@.insert(old(self).batch@[i].id@)
                &&& final(self).forwarded@ == old(self).forwarded@.push(old(self).phase->index)
                &&& final(self).history@ == old(self).history@.insert(old(self).batch@[i].id@)
            },
            !ok ==> final(self).seen@ == old(self).seen@ && final(self).forwarded == old(
                self,
            ).forwarded && final(self).history == old(self).history,
            ({
                let nxt = first_unseen(
                    old(self).batch@,
                    final(self).seen@,
                    old(self).phase->index + 1,
                );
                let n_fwd = final(self).forwarded@.len();
                &&& nxt < old(self).batch@.len() ==> final(self).phase == (LoopPhase::Delivering {
                    index: nxt as usize,
                }) && d == (Directive::Deliver { index: nxt as usize })
                &&& nxt == old(self).batch@.len() && old(self).delete_after_forward && n_fwd > 0
                    ==> final(self).phase is AwaitingDelete && (d matches Directive::DeleteBatch {
                    ids,
                } && ids@.map_values(|s: String| s@) == final(self).forwarded_ids())
                &&& nxt == old(self).batch@.len() && !(old(self).delete_after_forward && n_fwd > 0)
                    && n_fwd > 0 && old(self).n_notifiers > 0 ==> final(self).phase
                    == (LoopPhase::Notifying { slot: 0, notifier: 0 }) && d == (Directive::Notify {
                    index: final(self).forwarded@[0],
                    notifier: 0,
                })
                &&& nxt == old(self).batch@.len() && !(old(self).delete_after_forward && n_fwd > 0)
                    && !(n_fwd > 0 && old(self).n_notifiers > 0) ==> final(self).phase is Waiting
                    && d == (Directive::Wait { seconds: old(self).interval_seconds })
            }),
            (d matches Directive::Notify { index, .. } ==> final(self).forwarded@.contains(index)
                && final(self).history@.contains(final(self).batch@[index as int].id@)),
    {
        let index = match self.phase {
            LoopPhase::Delivering { index } => index,
            _ => {
                proof {
                    assert(false);
                }
                0
            },
        };
        let n = self.batch.len();
        proof {
            assert(index < n);
        }
        if ok {
            let id = self.batch[index].id.clone();
            proof {
                self.history@ = self.history@.insert(self.batch@[index as int].id@);
            }
            self.seen.insert(id);
            self.forwarded.push(index);
            proof {
                assert forall|x: Seq<char>| self.seen@.contains(x) implies self.history@.contains(
                    x,
                ) by {
                    if x != old(self).batch@[index as int].id@ {
                        assert(old(self).seen@.contains(x));
                    }
                }
            }
        }
        let nxt = scan_unseen(&self.batch, &self.seen, index + 1);
        proof {
            lemma_first_unseen(self.batch@, self.seen@, index as int + 1);
        }
        if nxt < self.batch.len() {
            self.phase = LoopPhase::Delivering { index: nxt };
            Directive::Deliver { index: nxt }
        } else if self.delete_after_forward && self.forwarded.len() > 0 {
            self.phase = LoopPhase::AwaitingDelete;
            let ids = self.collect_forwarded_ids();
            Directive::DeleteBatch { ids }
        } else if self.forwarded.len() > 0 && self.n_notifiers > 0 {
            self.phase = LoopPhase::Notifying { slot: 0, notifier: 0 };
            let first = self.forwarded[0];
            proof {
                assert(self.forwarded@.contains(self.forwarded@[0]));
            }
            Directive::Notify { index: first, notifier: 0 }
        } else {
            self.phase = LoopPhase::Waiting;
            Directive::Wait { seconds: self.interval_seconds }
        }
    }

    /// The batched delete came back. On success every deleted id is
    /// dropped from the seen set (bounding its growth) and notification
    /// begins; on failure the ids stay marked as seen — preventing a
    /// duplicate forward if the source reports them again — and no
    /// notification at all is sent this cycle.
    pub fn on_delete_result(&mut self, ok: bool) -> (d: Directive)
        requires
            old(self).wf(),
            old(self).phase is AwaitingDelete,
        ensures
            final(self).wf(),
            Self::same_config(*old(self), *final(self)),
            final(self).shutdown_requested == old(self).shutdown_requested,
            final(self).batch == old(self).batch,
            final(self).forwarded == old(self).forwarded,
            final(self).history == old(self).history,
            ok ==> final(self).seen@ == old(self).seen@.difference(
                old(self).forwarded_ids().to_set(),
            ),
            !ok ==> final(self).seen@ == old(self).seen@,
            !ok ==> final(self).phase is Waiting && d == (Directive::Wait {
                seconds: old(self).interval_seconds,
            }),
            ok && old(self).n_notifiers > 0 ==> final(self).phase == (LoopPhase::Notifying {
                slot: 0,
                notifier: 0,
            }) && d == (Directive::Notify { index: old(self).forwarded@[0], notifier: 0 }),
            ok && old(self).n_notifiers == 0 ==> final(self).phase is Waiting && d
                == (Directive::Wait { seconds: old(self).interval_seconds }),
            (d matches Directive::Notify { index, .. } ==> final(self).forwarded@.contains(index)
                && final(self).history@.contains(final(self).batch@[index as int].id@)),
    {
        if ok {
            let ghost old_seen = self.seen@;
            let ghost fwd_ids = self.forwarded_ids();
            let mut k: usize = 0;
            while k < self.forwarded.len()
                invariant
                    k <= self.forwarded@.len(),
                    self.batch == old(self).batch,
                    self.forwarded == old(self).forwarded,
                    self.phase == old(self).phase,
                    self.history == old(self).history,
                    self.shutdown_requested == old(self).shutdown_requested,
                    Self::same_config(*old(self), *self),
                    old(self).wf(),
                    self.seen.wf(),
                    old_seen == old(self).seen@,
                    fwd_ids == old(self).forwarded_ids(),
                    self.seen@ == old_seen.difference(fwd_ids.take(k as int).to_set()),
                decreases self.forwarded@.len() - k,
            {
                let idx = self.forwarded[k];
                proof {
                    assert(idx < self.batch@.len());
                }
                self.seen.remove(&self.batch[idx].id);
                proof {
                    assert(fwd_ids.take(k as int + 1) =~= fwd_ids.take(k as int) + seq![
                        fwd_ids[k as int],
                    ]);
                    Seq::lemma_to_set_insert_commutes(fwd_ids.take(k as int), fwd_ids[k as int]);
                    assert(fwd_ids.take(k as int + 1).to_set() =~= fwd_ids.take(
                        k as int,
                    ).to_set().insert(fwd_ids[k as int]));
                    assert(fwd_ids[k as int] == self.batch@[idx as int].id@);
                    assert(self.seen@ == old_seen.difference(fwd_ids.take(k as int).to_set()).remove(
                        fwd_ids[k as int],
                    ));
                    assert(self.seen@ =~= old_seen.difference(fwd_ids.take(k as int + 1).to_set()));
                }
                k += 1;
            }
            proof {
                assert(fwd_ids.take(fwd_ids.len() as int) =~= fwd_ids);
                assert forall|x: Seq<char>| self.seen@.contains(x) implies self.history@.contains(
                    x,
                ) by {
                    assert(old_seen.contains(x));
                }
            }
            if self.n_notifiers > 0 {
                self.phase = LoopPhase::Notifying { slot: 0, notifier: 0 };
                let first = self.forwarded[0];
                proof {
                    assert(self.forwarded@.contains(self.forwarded@[0]));
                }
                Directive::Notify { index: first, notifier: 0 }
            } else {
                self.phase = LoopPhase::Waiting;
                Directive::Wait { seconds: self.interval_seconds }
            }
        } else {
            self.phase = LoopPhase::Waiting;
            Directive::Wait { seconds: self.interval_seconds }
        }
    }

    /// One notifier call finished (its outcome is only logged: a failing
    /// notifier blocks neither the remaining notifiers nor the remaining
    /// messages). Advances to the next notifier, then to the next
    /// forwarded message, then ends the cycle.
    pub fn on_notified(&mut self) -> (d: Directive)
        requires
            old(self).wf(),
            old(self).phase is Notifying,
        ensures
            final(self).wf(),
            Self::same_config(*old(self), *final(self)),
            final(self).seen == old(self).seen,
            final(self).history == old(self).history,
            final(self).shutdown_requested == old(self).shutdown_requested,
            final(self).batch == old(self).batch,
            final(self).forwarded == old(self).forwarded,
            ({
                let slot = old(self).phase->slot;
                let k = old(self).phase->notifier;
                &&& k + 1 < old(self).n_notifiers ==> final(self).phase == (LoopPhase::Notifying {
                    slot,
                    notifier: (k + 1) as usize,
                }) && d == (Directive::Notify {
                    index: old(self).forwarded@[slot as int],
                    notifier: (k + 1) as usize,
                })
                &&& k + 1 == old(self).n_notifiers && slot + 1 < old(self).forwarded@.len()
                    ==> final(self).phase == (LoopPhase::Notifying {
                    slot: (slot + 1) as usize,
                    notifier: 0,
                }) && d == (Directive::Notify {
                    index: old(self).forwarded@[slot + 1],
                    notifier: 0,
                })
                &&& k + 1 == old(self).n_notifiers && slot + 1 == old(self).forwarded@.len()
                    ==> final(self).phase is Waiting && d == (Directive::Wait {
                    seconds: old(self).interval_seconds,
                })
            }),
            (d matches Directive::Notify { index, .. } ==> final(self).forwarded@.contains(index)
                && final(self).history@.contains(final(self).batch@[index as int].id@)),
    {
        let (slot, notifier) = match self.phase {
            LoopPhase::Notifying { slot, notifier } => (slot, notifier),
            _ => {
                proof {
                    assert(false);
                }
                (0, 0)
            },
        };
        let n_fwd = self.forwarded.len();
        proof {
            assert(slot < n_fwd);
            assert(notifier < self.n_notifiers);
        }
        if notifier + 1 < self.n_notifiers {
            self.phase = LoopPhase::Notifying { slot, notifier: notifier + 1 };
            let idx = self.forwarded[slot];
            proof {
                assert(self.forwarded@.contains(self.forwarded@[slot as int]));
            }
            Directive::Notify { index: idx, notifier: notifier + 1 }
        } else if slot + 1 < self.forwarded.len() {
            self.phase = LoopPhase::Notifying { slot: slot + 1, notifier: 0 };
            let idx = self.forwarded[slot + 1];
            proof {
                assert(self.forwarded@.contains(self.forwarded@[slot as int + 1]));
            }
            Directive::Notify { index: idx, notifier: 0 }
        } else {
            self.phase = LoopPhase::Waiting;
            Directive::Wait { seconds: self.interval_seconds }
        }
    }
}

/// Law: the deduplication set never contains an id that was never
/// successfully forwarded — every id in `seen` is in the session's
/// delivery history.
pub proof fn lemma_seen_only_forwarded(m: AccountLoop)
    requires
        m.wf(),
    ensures
        m.seen@.subset_of(m.history@),
{
}

/// Law: a notification is only ever directed at a message whose delivery
/// succeeded — in the notifying phase the current slot names a forwarded
/// message whose id is in the delivery history.
pub proof fn lemma_notify_only_forwarded(m: AccountLoop)
    requires
        m.wf(),
        m.phase is Notifying,
    ensures
        m.phase->slot < m.forwarded@.len(),
        m.history@.contains(m.batch@[m.forwarded@[m.phase->slot as int] as int].id@),
{
}

} // verus!
