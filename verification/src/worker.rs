//! The per-channel-direction relay worker.
//!
//! For a single channel direction, receive actions are emitted in
//! strictly increasing sequence order: out-of-order events are
//! buffered and drained only once every earlier sequence is resolved.
//! A sequence marked terminal (timed out) is never emitted again.

use vstd::prelude::*;

verus! {

broadcast use vstd::seq_lib::group_seq_properties;

/// Appending a fresh value keeps a sequence free of duplicates.
proof fn lemma_push_keeps_no_duplicates(s: Seq<u64>, e: u64)
    requires
        s.no_duplicates(),
        !s.contains(e),
    ensures
        s.push(e).no_duplicates(),
{
    let t = s.push(e);
    assert forall|p: int, q: int| 0 <= p < q < t.len() implies t[p] != t[q] by {
        if q == s.len() as int {
            assert(t[p] == s[p]);
            if s[p] == e {
                assert(s.contains(e));
            }
        } else {
            assert(t[p] == s[p] && t[q] == s[q]);
        }
    }
}

/// Whether a vector of sequence numbers holds a value.
fn seq_contains(v: &Vec<u64>, x: u64) -> (r: bool)
    ensures
        r == v@.contains(x),
{
    for i in 0..v.len()
        invariant
            forall|j: int| 0 <= j < i ==> v@[j] != x,
    {
        if v[i] == x {
            return true;
        }
    }
    false
}

/// Removes every occurrence of a value, keeping the rest in order.
fn remove_value(v: &mut Vec<u64>, x: u64)
    requires
        old(v)@.no_duplicates(),
    ensures
        final(v)@.no_duplicates(),
        forall|y: u64| final(v)@.contains(y) == (old(v)@.contains(y) && y != x),
        final(v)@.len() <= old(v)@.len(),
        old(v)@.contains(x) ==> final(v)@.len() < old(v)@.len(),
{
    let mut out: Vec<u64> = Vec::new();
    let n = v.len();
    for i in 0..n
        invariant
            n == v@.len(),
            v@.no_duplicates(),
            out@.no_duplicates(),
            out@.len() <= i,
            v@.subrange(0, i as int).contains(x) ==> out@.len() < i,
            forall|y: u64| out@.contains(y) == (v@.subrange(0, i as int).contains(y) && y != x),
    {
        proof {
            assert(v@.subrange(0, i + 1 as int) =~= v@.subrange(0, i as int).push(v@[i as int]));
            assert(forall|y: u64|
                v@.subrange(0, i + 1 as int).contains(y) == (v@.subrange(0, i as int).contains(y)
                    || y == v@[i as int]));
            assert(!v@.subrange(0, i as int).contains(v@[i as int])) by {
                if v@.subrange(0, i as int).contains(v@[i as int]) {
                    let k = choose|k: int|
                        0 <= k < i && v@.subrange(0, i as int)[k] == v@[i as int];
                    assert(v@[k] == v@[i as int]);
                }
            }
        }
        if v[i] != x {
            proof {
                lemma_push_keeps_no_duplicates(out@, v@[i as int]);
            }
            out.push(v[i]);
        }
    }
    proof {
        assert(v@.subrange(0, n as int) =~= v@);
    }
    *v = out;
}

/// Relay bookkeeping for one channel direction.
///
/// `next_seq` is the lowest sequence not yet resolved; everything
/// below it was either emitted as a receive, exactly once and in
/// increasing order, or skipped as terminal. `buffered` holds
/// sequences observed early; `terminal` holds sequences finished by a
/// timeout proof, which must never be received afterwards.
pub struct PacketWorker {
    pub next_seq: u64,
    pub buffered: Vec<u64>,
    pub terminal: Vec<u64>,
}

impl PacketWorker {
    /// Well-formedness: both books hold distinct, still-unresolved
    /// sequences and never the same one.
    pub open spec fn wf(&self) -> bool {
        &&& self.buffered@.no_duplicates()
        &&& self.terminal@.no_duplicates()
        &&& (forall|y: u64| #[trigger] self.buffered@.contains(y) ==> self.next_seq <= y
            < u64::MAX)
        &&& (forall|y: u64| #[trigger] self.terminal@.contains(y) ==> self.next_seq <= y
            < u64::MAX)
        &&& (forall|y: u64|
            !(#[trigger] self.buffered@.contains(y) && #[trigger] self.terminal@.contains(y)))
    }

    /// A fresh worker expecting `start_seq` first.
    pub fn new(start_seq: u64) -> (r: PacketWorker)
        ensures
            r.wf(),
            r.next_seq == start_seq,
            r.buffered@ == Seq::<u64>::empty(),
            r.terminal@ == Seq::<u64>::empty(),
    {
        PacketWorker { next_seq: start_seq, buffered: Vec::new(), terminal: Vec::new() }
    }

    /// Handles one observed send event for `seq` and returns the
    /// receive actions that became due, in the order they must be
    /// submitted.
    ///
    /// The returned sequences are strictly increasing, cover exactly
    /// the non-terminal part of the window the worker resolved by
    /// this call, and never include a sequence that was terminal.
    /// Events for already-resolved, already-buffered or terminal
    /// sequences change nothing — re-observation is idempotent.
    pub fn on_packet_event(&mut self, seq: u64) -> (out: Vec<u64>)
        requires
            old(self).wf(),
            seq < u64::MAX,
        ensures
            final(self).wf(),
            final(self).next_seq >= old(self).next_seq,
            forall|i: int, j: int| 0 <= i < j < out@.len() ==> out@[i] < out@[j],
            forall|s: u64|
                out@.contains(s) <==> (old(self).next_seq <= s < final(self).next_seq
                    && !old(self).terminal@.contains(s)),
            forall|s: u64|
                old(self).next_seq <= s < final(self).next_seq ==> (old(self).buffered@.contains(s)
                    || s == seq || old(self).terminal@.contains(s)),
            !final(self).buffered@.contains(final(self).next_seq),
            !final(self).terminal@.contains(final(self).next_seq),
            forall|y: u64|
                final(self).buffered@.contains(y) == ((old(self).buffered@.contains(y) || y == seq)
                    && y >= final(self).next_seq && !old(self).terminal@.contains(y)),
            forall|y: u64|
                final(self).terminal@.contains(y) == (old(self).terminal@.contains(y)
                    && y >= final(self).next_seq),
    {
        if seq >= self.next_seq && !seq_contains(&self.terminal, seq) && !seq_contains(
            &self.buffered,
            seq,
        ) {
            proof {
                lemma_push_keeps_no_duplicates(self.buffered@, seq);
            }
            self.buffered.push(seq);
        }
        let ghost b0 = self.buffered@;
        let ghost t0 = self.terminal@;
        let ghost ns0 = self.next_seq;
        let mut out: Vec<u64> = Vec::new();
        loop
            invariant
                self.wf(),
                self.next_seq >= ns0,
                seq < u64::MAX,
                t0 == old(self).terminal@,
                ns0 == old(self).next_seq,
                forall|y: u64| b0.contains(y) == (old(self).buffered@.contains(y) || (y == seq
                    && seq >= ns0 && !t0.contains(y) )),
                forall|y: u64| #[trigger] b0.contains(y) ==> ns0 <= y < u64::MAX,
                forall|y: u64| #[trigger] t0.contains(y) ==> ns0 <= y < u64::MAX,
                forall|y: u64|
                    self.buffered@.contains(y) == (b0.contains(y) && y >= self.next_seq),
                forall|y: u64| self.terminal@.contains(y) == (t0.contains(y) && y
                    >= self.next_seq),
                forall|i: int, j: int| 0 <= i < j < out@.len() ==> out@[i] < out@[j],
                forall|k: int|
                    0 <= k < out@.len() ==> ns0 <= #[trigger] out@[k] < self.next_seq
                        && !t0.contains(out@[k]),
                forall|s: u64|
                    ns0 <= s < self.next_seq && !(#[trigger] t0.contains(s)) ==> out@.contains(s),
                forall|s: u64| ns0 <= s < self.next_seq ==> b0.contains(s) || t0.contains(s),
            ensures
                !self.buffered@.contains(self.next_seq),
                !self.terminal@.contains(self.next_seq),
            decreases self.buffered@.len() + self.terminal@.len(),
        {
            let cur = self.next_seq;
            if seq_contains(&self.terminal, cur) {
                proof {
                    assert(self.terminal@.contains(cur));
                    assert(cur < u64::MAX);
                    assert(t0.contains(cur));
                }
                remove_value(&mut self.terminal, cur);
                self.next_seq = cur + 1;
            } else if seq_contains(&self.buffered, cur) {
                proof {
                    assert(self.buffered@.contains(cur));
                    assert(cur < u64::MAX);
                    assert(!t0.contains(cur));
                }
                remove_value(&mut self.buffered, cur);
                out.push(cur);
                self.next_seq = cur + 1;
            } else {
                break ;
            }
        }
        proof {
            assert forall|s: u64|
                ns0 <= s < self.next_seq implies (old(self).buffered@.contains(s) || s == seq || old(
                self,
            ).terminal@.contains(s)) by {
                assert(b0.contains(s) || t0.contains(s));
            }
            assert forall|s: u64|
                out@.contains(s) implies (ns0 <= s < self.next_seq && !t0.contains(s)) by {
                let k = choose|k: int| 0 <= k < out@.len() && out@[k] == s;
                assert(ns0 <= out@[k] < self.next_seq && !t0.contains(out@[k]));
            }
            assert forall|y: u64|
                self.buffered@.contains(y) == ((old(self).buffered@.contains(y) || y == seq) && y
                    >= self.next_seq && !old(self).terminal@.contains(y)) by {
                if self.buffered@.contains(y) {
                    assert(b0.contains(y) && y >= self.next_seq);
                    if old(self).buffered@.contains(y) {
                        assert(!old(self).terminal@.contains(y));
                    }
                } else {
                    if (old(self).buffered@.contains(y) || y == seq) && y >= self.next_seq && !old(
                        self,
                    ).terminal@.contains(y) {
                        if old(self).buffered@.contains(y) {
                            assert(b0.contains(y));
                        } else {
                            assert(y == seq && seq >= ns0);
                            assert(b0.contains(y));
                        }
                        assert(self.buffered@.contains(y));
                    }
                }
            }
        }
        out
    }

    /// Marks a sequence terminal: dropped from the buffer and, unless
    /// already resolved, remembered so it is never emitted again.
    fn mark_terminal(&mut self, seq: u64)
        requires
            old(self).wf(),
            seq < u64::MAX,
        ensures
            final(self).wf(),
            final(self).next_seq == old(self).next_seq,
            forall|y: u64|
                final(self).terminal@.contains(y) == (old(self).terminal@.contains(y) || (y == seq
                    && seq >= old(self).next_seq)),
            forall|y: u64|
                final(self).buffered@.contains(y) == (old(self).buffered@.contains(y) && y != seq),
    {
        if seq < self.next_seq {
            return ;
        }
        remove_value(&mut self.buffered, seq);
        if !seq_contains(&self.terminal, seq) {
            proof {
                lemma_push_keeps_no_duplicates(self.terminal@, seq);
            }
            self.terminal.push(seq);
        }
    }

    /// Records that `seq` was finished by a timeout proof: it is
    /// dropped from the buffer and, unless already resolved, remembered
    /// as terminal so it is never emitted as a receive afterwards.
    pub fn on_timeout(&mut self, seq: u64)
        requires
            old(self).wf(),
            seq < u64::MAX,
        ensures
            final(self).wf(),
            final(self).next_seq == old(self).next_seq,
            forall|y: u64|
                final(self).terminal@.contains(y) == (old(self).terminal@.contains(y) || (y == seq
                    && seq >= old(self).next_seq)),
            forall|y: u64|
                final(self).buffered@.contains(y) == (old(self).buffered@.contains(y) && y != seq),
    {
        self.mark_terminal(seq);
    }

    /// Records that `seq` was finished by a receive acknowledgement
    /// committed on the sending chain: terminal exactly like a
    /// timeout, so the sequence is never relayed again.
    pub fn on_ack(&mut self, seq: u64)
        requires
            old(self).wf(),
            seq < u64::MAX,
        ensures
            final(self).wf(),
            final(self).next_seq == old(self).next_seq,
            forall|y: u64|
                final(self).terminal@.contains(y) == (old(self).terminal@.contains(y) || (y == seq
                    && seq >= old(self).next_seq)),
            forall|y: u64|
                final(self).buffered@.contains(y) == (old(self).buffered@.contains(y) && y != seq),
    {
        self.mark_terminal(seq);
    }
}

/// Retry budget of a worker action: bounded attempts with exponential
/// backoff.
pub struct RetryPolicy {
    pub max_attempts: u32,
    pub base_delay_ms: u64,
}

/// The unbounded backoff value: the base delay doubled once per
/// attempt already made.
pub open spec fn spec_backoff(base: u64, attempt: nat) -> int
    decreases attempt,
{
    if attempt == 0 {
        base as int
    } else {
        2 * spec_backoff(base, (attempt - 1) as nat)
    }
}

/// The backoff value never sinks below the base delay.
pub proof fn lemma_backoff_at_least_base(base: u64, attempt: nat)
    ensures
        spec_backoff(base, attempt) >= base,
    decreases attempt,
{
    if attempt > 0 {
        lemma_backoff_at_least_base(base, (attempt - 1) as nat);
    }
}

impl RetryPolicy {
    /// The delay before the retry following `attempt` failures,
    /// saturating at the largest representable delay.
    pub fn backoff_delay(&self, attempt: u32) -> (r: u64)
        ensures
            r == if spec_backoff(self.base_delay_ms, attempt as nat) <= u64::MAX {
                spec_backoff(self.base_delay_ms, attempt as nat)
            } else {
                u64::MAX as int
            },
    {
        let mut d = self.base_delay_ms;
        let mut i: u32 = 0;
        while i < attempt
            invariant
                i <= attempt,
                d == if spec_backoff(self.base_delay_ms, i as nat) <= u64::MAX {
                    spec_backoff(self.base_delay_ms, i as nat)
                } else {
                    u64::MAX as int
                },
            decreases attempt - i,
        {
            proof {
                lemma_backoff_at_least_base(self.base_delay_ms, i as nat);
            }
            if d > u64::MAX / 2 {
                d = u64::MAX;
            } else {
                d = d * 2;
            }
            i = i + 1;
        }
        d
    }

    /// Whether another attempt is still within the budget.
    pub fn should_retry(&self, attempts_used: u32) -> (r: bool)
        ensures
            r == (attempts_used < self.max_attempts),
    {
        attempts_used < self.max_attempts
    }
}

} // verus!
