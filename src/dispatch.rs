use vstd::prelude::*;

verus! {

/// The requests that wait for an acknowledgment, by ticket, in the order in
/// which they began to wait. Each acknowledgment lets exactly one of them go
/// on: the one that has waited longest.
pub struct AckDispatcher {
    waiting: Vec<u64>,
}

/// Every ticket but `ticket`.
pub open spec fn other_than(ticket: u64) -> spec_fn(u64) -> bool {
    |t: u64| t != ticket
}

/// The request that an acknowledgment lets go on, when `waiting` wait.
pub open spec fn released(waiting: Seq<u64>) -> Option<u64> {
    if waiting.len() == 0 {
        None
    } else {
        Some(waiting[0])
    }
}

/// The requests that still wait once an acknowledgment has come.
pub open spec fn still_waiting(waiting: Seq<u64>) -> Seq<u64> {
    if waiting.len() == 0 {
        waiting
    } else {
        waiting.drop_first()
    }
}

/// One acknowledgment lets exactly one waiting request go on, and every other
/// request keeps waiting, none twice: the waiting requests are the one let go
/// followed by those that still wait. With nobody waiting, the
/// acknowledgment is lost and nothing changes.
pub proof fn one_ack_releases_one(waiting: Seq<u64>)
    ensures
        waiting.len() == 0 ==> released(waiting) is None && still_waiting(waiting) == waiting,
        waiting.len() > 0 ==> released(waiting) is Some && waiting == seq![
            released(waiting)->Some_0,
        ] + still_waiting(waiting),
{
    if waiting.len() > 0 {
        assert(waiting =~= seq![waiting[0]] + waiting.drop_first());
    }
}

impl AckDispatcher {
    pub closed spec fn waiting(&self) -> Seq<u64> {
        self.waiting@
    }

    /// A dispatcher with nobody waiting.
    pub fn new() -> (r: AckDispatcher)
        ensures
            r.waiting() == Seq::<u64>::empty(),
    {
        AckDispatcher { waiting: Vec::new() }
    }

    /// The request `ticket` begins to wait, after all that already wait.
    pub fn enter(&mut self, ticket: u64)
        ensures
            final(self).waiting() == old(self).waiting().push(ticket),
    {
        self.waiting.push(ticket);
    }

    /// An acknowledgment came: the request that has waited longest goes on.
    pub fn on_ack(&mut self) -> (r: Option<u64>)
        ensures
            r == released(old(self).waiting()),
            final(self).waiting() == still_waiting(old(self).waiting()),
    {
        if self.waiting.len() == 0 {
            None
        } else {
            Some(self.waiting.remove(0))
        }
    }

    /// The acknowledgment channel's reader fell behind and `missed`
    /// acknowledgments were lost to it: each of them lets one request go on,
    /// as if it had come, and those requests are handed back in order.
    pub fn on_missed(&mut self, missed: u64) -> (r: Vec<u64>)
        ensures
            r@ == old(self).waiting().take(vstd::math::min(missed as int, old(self).waiting().len() as int)),
            final(self).waiting() == old(self).waiting().skip(
                vstd::math::min(missed as int, old(self).waiting().len() as int),
            ),
    {
        let mut r: Vec<u64> = Vec::new();
        let mut left: u64 = missed;
        while left > 0 && self.waiting.len() > 0
            invariant
                r@ + self.waiting@ == old(self).waiting(),
                r@.len() + left == missed,
            decreases left,
        {
            let t = self.waiting.remove(0);
            r.push(t);
            left = left - 1;
        }
        proof {
            let k = vstd::math::min(missed as int, old(self).waiting().len() as int);
            assert(r@.len() == k);
            assert(r@ =~= old(self).waiting().take(k));
            assert(self.waiting@ =~= old(self).waiting().skip(k));
        }
        r
    }

    /// The request `ticket` stops waiting (its caller went away): it is taken
    /// out of the line, and the others keep their order.
    pub fn leave(&mut self, ticket: u64)
        ensures
            final(self).waiting() == old(self).waiting().filter(other_than(ticket)),
    {
        let mut kept: Vec<u64> = Vec::new();
        let mut i: usize = 0;
        while i < self.waiting.len()
            invariant
                self.waiting@ == old(self).waiting(),
                0 <= i <= self.waiting@.len(),
                kept@ == self.waiting@.take(i as int).filter(other_than(ticket)),
            decreases self.waiting@.len() - i,
        {
            let t = self.waiting[i];
            proof {
                let w = self.waiting@;
                assert(w.take(i + 1).drop_last() =~= w.take(i as int));
                assert(w.take(i + 1).last() == t);
                reveal_with_fuel(Seq::filter, 1);
                assert(other_than(ticket)(t) == (t != ticket));
                assert(w.take(i + 1).filter(other_than(ticket)) == if t != ticket {
                    w.take(i as int).filter(other_than(ticket)).push(t)
                } else {
                    w.take(i as int).filter(other_than(ticket))
                });
            }
            if t != ticket {
                kept.push(t);
            }
            i = i + 1;
        }
        proof {
            assert(self.waiting@.take(i as int) =~= self.waiting@);
        }
        self.waiting = kept;
    }

    /// The acknowledgment channel closed: none can come any more, and every
    /// waiting request is handed back, in order.
    pub fn on_closed(&mut self) -> (r: Vec<u64>)
        ensures
            r@ == old(self).waiting(),
            final(self).waiting() == Seq::<u64>::empty(),
    {
        let mut r: Vec<u64> = Vec::new();
        core::mem::swap(&mut r, &mut self.waiting);
        r
    }
}

} // verus!
