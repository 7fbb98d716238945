use vstd::prelude::*;

verus! {

/// Failures of the bounded queue. `Terminated` carries the rejected
/// payload so that the producer can recover it; `BatchTooLarge` reports a
/// bulk enqueue that exceeds the queue's capacity.
#[derive(Debug)]
pub enum Error<T> {
    Timeout,
    Terminated(Option<T>, Option<Vec<T>>),
    BatchTooLarge(Option<Vec<T>>),
}

/// A sample of the queue's counters.
#[derive(Clone, Copy, Debug, PartialEq, Eq, Structural)]
pub struct Counter {
    /// Items accepted by `send`, `send_all` or `send_in_batch`.
    pub input: u64,
    /// Items handed out by `recv` or `recv_n`.
    pub output: u64,
    /// Items discarded to make room under the overwrite policy.
    pub overwritten: u64,
}

/// One enqueue under the overwrite policy: a full buffer discards its
/// oldest element to make room. Returns the new contents and whether an
/// element was discarded.
pub open spec fn spec_enqueue<T>(s: Seq<T>, cap: nat, x: T) -> (Seq<T>, bool) {
    if s.len() >= cap {
        (s.subrange(1, s.len() as int).push(x), true)
    } else {
        (s.push(x), false)
    }
}

/// A whole batch enqueued element by element under the overwrite policy.
/// Returns the new contents and how many elements were discarded.
pub open spec fn spec_enqueue_all<T>(s: Seq<T>, cap: nat, xs: Seq<T>) -> (Seq<T>, nat)
    decreases xs.len(),
{
    if xs.len() == 0 {
        (s, 0)
    } else {
        let (s1, dropped) = spec_enqueue(s, cap, xs[0]);
        let (s2, n) = spec_enqueue_all(s1, cap, xs.skip(1));
        (s2, n + if dropped {
            1nat
        } else {
            0nat
        })
    }
}

/// A fixed-capacity first-in-first-out queue with an overwrite policy:
/// an enqueue that finds the buffer full discards the oldest element, so
/// a producer never waits. The counters record every accepted, delivered
/// and discarded item.
pub struct OverwriteQueue<T> {
    buf: Vec<T>,
    cap: usize,
    terminated: bool,
    total_in: u64,
    total_out: u64,
    overwritten: u64,
}

impl<T> View for OverwriteQueue<T> {
    type V = Seq<T>;

    /// The queued items, oldest first.
    closed spec fn view(&self) -> Seq<T> {
        self.buf@
    }
}

impl<T> OverwriteQueue<T> {
    pub closed spec fn spec_capacity(&self) -> nat {
        self.cap as nat
    }

    pub closed spec fn spec_terminated(&self) -> bool {
        self.terminated
    }

    pub closed spec fn spec_total_in(&self) -> u64 {
        self.total_in
    }

    pub closed spec fn spec_total_out(&self) -> u64 {
        self.total_out
    }

    pub closed spec fn spec_overwritten(&self) -> u64 {
        self.overwritten
    }

    /// The queue's invariant: the buffer never exceeds the capacity, and
    /// every item ever accepted was either delivered, discarded, or is
    /// still queued.
    pub open spec fn well_formed(&self) -> bool {
        &&& self.spec_capacity() >= 1
        &&& self@.len() <= self.spec_capacity()
        &&& self.spec_total_in() == self.spec_total_out() + self.spec_overwritten() + self@.len()
    }

    /// An accepted item is never lost silently: the counters of a
    /// well-formed queue balance exactly, and the queue never holds more
    /// than its capacity.
    pub proof fn lemma_conservation(&self)
        requires
            self.well_formed(),
        ensures
            self.spec_total_in() == self.spec_total_out() + self.spec_overwritten() + self@.len(),
            self@.len() <= self.spec_capacity(),
    {
    }

    /// Builds an empty queue of capacity `size`.
    pub fn with_capacity(size: usize) -> (r: Self)
        requires
            size >= 1,
        ensures
            r.well_formed(),
            r@ == Seq::<T>::empty(),
            r.spec_capacity() == size,
            !r.spec_terminated(),
            r.spec_total_in() == 0,
            r.spec_total_out() == 0,
            r.spec_overwritten() == 0,
    {
        OverwriteQueue {
            buf: Vec::new(),
            cap: size,
            terminated: false,
            total_in: 0,
            total_out: 0,
            overwritten: 0,
        }
    }

    /// Current queued count.
    pub fn size(&self) -> (r: usize)
        ensures
            r == self@.len(),
    {
        self.buf.len()
    }

    /// Capacity the queue was built with.
    pub fn capacity(&self) -> (r: usize)
        ensures
            r == self.spec_capacity(),
    {
        self.cap
    }

    /// A sample of the in/out/drop counters.
    pub fn counters(&self) -> (r: Counter)
        ensures
            r.input == self.spec_total_in(),
            r.output == self.spec_total_out(),
            r.overwritten == self.spec_overwritten(),
    {
        Counter { input: self.total_in, output: self.total_out, overwritten: self.overwritten }
    }

    /// Marks the consumer gone; all later enqueues fail with `Terminated`.
    pub fn terminate(&mut self)
        ensures
            final(self).spec_terminated(),
            final(self)@ == old(self)@,
            final(self).spec_capacity() == old(self).spec_capacity(),
            final(self).spec_total_in() == old(self).spec_total_in(),
            final(self).spec_total_out() == old(self).spec_total_out(),
            final(self).spec_overwritten() == old(self).spec_overwritten(),
            old(self).well_formed() ==> final(self).well_formed(),
    {
        self.terminated = true;
    }

    /// Enqueues one item. Never blocks: a full buffer discards its oldest
    /// element. Fails only when the consumer is gone, handing the item
    /// back.
    pub fn send(&mut self, msg: T) -> (r: Result<(), Error<T>>)
        requires
            old(self).well_formed(),
            old(self).spec_total_in() < u64::MAX,
        ensures
            final(self).well_formed(),
            final(self).spec_capacity() == old(self).spec_capacity(),
            final(self).spec_terminated() == old(self).spec_terminated(),
            final(self)@.len() <= old(self).spec_capacity(),
            old(self).spec_terminated() ==> {
                &&& *final(self) == *old(self)
                &&& r matches Err(Error::Terminated(m, b)) && m == Some(msg) && b matches
                    Option::<Vec<T>>::None
            },
            !old(self).spec_terminated() ==> {
                &&& r matches Ok(u) && u == ()
                &&& final(self)@ == spec_enqueue(old(self)@, old(self).spec_capacity(), msg).0
                &&& final(self).spec_total_in() == old(self).spec_total_in() + 1
                &&& final(self).spec_total_out() == old(self).spec_total_out()
                &&& final(self).spec_overwritten() == old(self).spec_overwritten() + (
                if spec_enqueue(old(self)@, old(self).spec_capacity(), msg).1 {
                    1int
                } else {
                    0int
                })
            },
    {
        if self.terminated {
            return Err(Error::Terminated(Some(msg), None));
        }
        if self.buf.len() >= self.cap {
            let _oldest = self.buf.remove(0);
            self.overwritten = self.overwritten + 1;
        }
        self.buf.push(msg);
        self.total_in = self.total_in + 1;
        Ok(())
    }

    /// Atomic bulk enqueue: the whole batch is accepted (discarding the
    /// oldest items as needed), or rejected whole when it exceeds the
    /// capacity or the consumer is gone.
    pub fn send_all(&mut self, msgs: Vec<T>) -> (r: Result<(), Error<T>>)
        requires
            old(self).well_formed(),
            old(self).spec_total_in() + msgs@.len() <= u64::MAX,
        ensures
            final(self).well_formed(),
            final(self).spec_capacity() == old(self).spec_capacity(),
            final(self).spec_terminated() == old(self).spec_terminated(),
            old(self).spec_terminated() ==> {
                &&& *final(self) == *old(self)
                &&& r matches Err(Error::Terminated(m, b)) && m matches Option::<T>::None && b
                    matches Some(v) && v@ == msgs@
            },
            !old(self).spec_terminated() && msgs@.len() > old(self).spec_capacity() ==> {
                &&& *final(self) == *old(self)
                &&& r matches Err(Error::BatchTooLarge(b)) && b matches Some(v) && v@ == msgs@
            },
            !old(self).spec_terminated() && msgs@.len() <= old(self).spec_capacity() ==> {
                &&& r matches Ok(u) && u == ()
                &&& final(self)@ == spec_enqueue_all(
                    old(self)@,
                    old(self).spec_capacity(),
                    msgs@,
                ).0
                &&& final(self).spec_total_in() == old(self).spec_total_in() + msgs@.len()
                &&& final(self).spec_total_out() == old(self).spec_total_out()
                &&& final(self).spec_overwritten() == old(self).spec_overwritten()
                    + spec_enqueue_all(old(self)@, old(self).spec_capacity(), msgs@).1
            },
    {
        if self.terminated {
            return Err(Error::Terminated(None, Some(msgs)));
        }
        if msgs.len() > self.cap {
            return Err(Error::BatchTooLarge(Some(msgs)));
        }
        self.enqueue_batch(msgs);
        Ok(())
    }

    /// Enqueues every element of `msgs` in order under the overwrite
    /// policy.
    fn enqueue_batch(&mut self, msgs: Vec<T>)
        requires
            old(self).well_formed(),
            !old(self).spec_terminated(),
            old(self).spec_total_in() + msgs@.len() <= u64::MAX,
        ensures
            final(self).well_formed(),
            final(self).spec_capacity() == old(self).spec_capacity(),
            final(self).spec_terminated() == old(self).spec_terminated(),
            final(self)@ == spec_enqueue_all(old(self)@, old(self).spec_capacity(), msgs@).0,
            final(self).spec_total_in() == old(self).spec_total_in() + msgs@.len(),
            final(self).spec_total_out() == old(self).spec_total_out(),
            final(self).spec_overwritten() == old(self).spec_overwritten() + spec_enqueue_all(
                old(self)@,
                old(self).spec_capacity(),
                msgs@,
            ).1,
    {
        let mut msgs = msgs;
        let ghost all = msgs@;
        while msgs.len() > 0
            invariant
                self.well_formed(),
                !self.spec_terminated(),
                self.spec_capacity() == old(self).spec_capacity(),
                msgs@.len() <= all.len(),
                self.spec_total_in() == old(self).spec_total_in() + all.len() - msgs@.len(),
                self.spec_total_out() == old(self).spec_total_out(),
                old(self).spec_total_in() + all.len() <= u64::MAX,
                spec_enqueue_all(old(self)@, old(self).spec_capacity(), all).0
                    == spec_enqueue_all(self@, self.spec_capacity(), msgs@).0,
                self.spec_overwritten() + spec_enqueue_all(self@, self.spec_capacity(), msgs@).1
                    == old(self).spec_overwritten() + spec_enqueue_all(
                    old(self)@,
                    old(self).spec_capacity(),
                    all,
                ).1,
            decreases msgs@.len(),
        {
            let ghost pre = self@;
            let ghost rest = msgs@;
            let x = msgs.remove(0);
            proof {
                assert(rest.remove(0) == rest.skip(1));
            }
            if self.buf.len() >= self.cap {
                let _oldest = self.buf.remove(0);
                self.overwritten = self.overwritten + 1;
            }
            self.buf.push(x);
            self.total_in = self.total_in + 1;
            proof {
                let cap = self.spec_capacity();
                assert(self@ =~= spec_enqueue(pre, cap, rest[0]).0);
                assert(spec_enqueue_all(pre, cap, rest).0 == spec_enqueue_all(
                    self@,
                    cap,
                    rest.skip(1),
                ).0);
                assert(spec_enqueue_all(pre, cap, rest).1 == spec_enqueue_all(
                    self@,
                    cap,
                    rest.skip(1),
                ).1 + (if spec_enqueue(pre, cap, rest[0]).1 {
                    1nat
                } else {
                    0nat
                }));
            }
        }
        proof {
            assert(msgs@ =~= Seq::<T>::empty());
        }
    }

    /// Splits `msgs` into chunks of at most `batch_size` and enqueues each
    /// as a bulk enqueue. With chunks that fit the capacity this enqueues
    /// everything; otherwise the whole batch is handed back.
    pub fn send_in_batch(&mut self, msgs: Vec<T>, batch_size: usize) -> (r: Result<
        (),
        Error<T>,
    >)
        requires
            old(self).well_formed(),
            batch_size >= 1,
            old(self).spec_total_in() + msgs@.len() <= u64::MAX,
        ensures
            final(self).well_formed(),
            final(self).spec_capacity() == old(self).spec_capacity(),
            final(self).spec_terminated() == old(self).spec_terminated(),
            old(self).spec_terminated() ==> {
                &&& *final(self) == *old(self)
                &&& r matches Err(Error::Terminated(m, b)) && m matches Option::<T>::None && b
                    matches Some(v) && v@ == msgs@
            },
            !old(self).spec_terminated() && vstd::math::min(
                batch_size as int,
                msgs@.len() as int,
            ) > old(self).spec_capacity() ==> {
                &&& *final(self) == *old(self)
                &&& r matches Err(Error::BatchTooLarge(b)) && b matches Some(v) && v@ == msgs@
            },
            !old(self).spec_terminated() && vstd::math::min(
                batch_size as int,
                msgs@.len() as int,
            ) <= old(self).spec_capacity() ==> {
                &&& r matches Ok(u) && u == ()
                &&& final(self)@ == spec_enqueue_all(
                    old(self)@,
                    old(self).spec_capacity(),
                    msgs@,
                ).0
                &&& final(self).spec_total_in() == old(self).spec_total_in() + msgs@.len()
                &&& final(self).spec_total_out() == old(self).spec_total_out()
                &&& final(self).spec_overwritten() == old(self).spec_overwritten()
                    + spec_enqueue_all(old(self)@, old(self).spec_capacity(), msgs@).1
            },
    {
        if self.terminated {
            return Err(Error::Terminated(None, Some(msgs)));
        }
        let first_chunk = if batch_size < msgs.len() {
            batch_size
        } else {
            msgs.len()
        };
        if first_chunk > self.cap {
            return Err(Error::BatchTooLarge(Some(msgs)));
        }
        self.enqueue_batch(msgs);
        Ok(())
    }

    /// Dequeues the oldest item. An empty queue reports `Terminated` when
    /// the consumer side was closed, else `Timeout` (nothing arrived
    /// within the caller's patience).
    pub fn recv(&mut self) -> (r: Result<T, Error<T>>)
        requires
            old(self).well_formed(),
        ensures
            final(self).well_formed(),
            final(self).spec_capacity() == old(self).spec_capacity(),
            final(self).spec_terminated() == old(self).spec_terminated(),
            old(self)@.len() > 0 ==> {
                &&& r matches Ok(x) && x == old(self)@[0]
                &&& final(self)@ == old(self)@.skip(1)
                &&& final(self).spec_total_out() == old(self).spec_total_out() + 1
                &&& final(self).spec_total_in() == old(self).spec_total_in()
                &&& final(self).spec_overwritten() == old(self).spec_overwritten()
            },
            old(self)@.len() == 0 && old(self).spec_terminated() ==> *final(self) == *old(self)
                && (r matches Err(Error::Terminated(m, b)) && m matches Option::<T>::None && b
                matches Option::<Vec<T>>::None),
            old(self)@.len() == 0 && !old(self).spec_terminated() ==> *final(self) == *old(self)
                && (r matches Err(e) && e matches Error::Timeout),
    {
        if self.buf.len() > 0 {
            let x = self.buf.remove(0);
            self.total_out = self.total_out + 1;
            proof {
                assert(old(self)@.remove(0) == old(self)@.skip(1));
            }
            Ok(x)
        } else if self.terminated {
            Err(Error::Terminated(None, None))
        } else {
            Err(Error::Timeout)
        }
    }

    /// Drains up to `max` items, oldest first. An empty queue fails as
    /// `recv` does.
    pub fn recv_n(&mut self, max: usize) -> (r: Result<Vec<T>, Error<T>>)
        requires
            old(self).well_formed(),
            max >= 1,
        ensures
            final(self).well_formed(),
            final(self).spec_capacity() == old(self).spec_capacity(),
            final(self).spec_terminated() == old(self).spec_terminated(),
            old(self)@.len() > 0 ==> {
                &&& r matches Ok(v) && v@ == old(self)@.take(
                    vstd::math::min(max as int, old(self)@.len() as int),
                )
                &&& final(self)@ == old(self)@.skip(
                    vstd::math::min(max as int, old(self)@.len() as int),
                )
                &&& final(self).spec_total_out() == old(self).spec_total_out() + vstd::math::min(
                    max as int,
                    old(self)@.len() as int,
                )
                &&& final(self).spec_total_in() == old(self).spec_total_in()
                &&& final(self).spec_overwritten() == old(self).spec_overwritten()
            },
            old(self)@.len() == 0 && old(self).spec_terminated() ==> *final(self) == *old(self)
                && (r matches Err(Error::Terminated(m, b)) && m matches Option::<T>::None && b
                matches Option::<Vec<T>>::None),
            old(self)@.len() == 0 && !old(self).spec_terminated() ==> *final(self) == *old(self)
                && (r matches Err(e) && e matches Error::Timeout),
    {
        if self.buf.len() == 0 {
            if self.terminated {
                return Err(Error::Terminated(None, None));
            }
            return Err(Error::Timeout);
        }
        let count = if max < self.buf.len() {
            max
        } else {
            self.buf.len()
        };
        let ghost c = count as int;
        let mut out: Vec<T> = Vec::new();
        let mut i: usize = 0;
        while i < count
            invariant
                i <= count,
                c == count,
                count <= old(self)@.len(),
                count >= 1,
                out@ == old(self)@.take(i as int),
                self@ == old(self)@.skip(i as int),
                self.spec_capacity() == old(self).spec_capacity(),
                self.spec_terminated() == old(self).spec_terminated(),
                self.spec_total_out() == old(self).spec_total_out() + i,
                self.spec_total_in() == old(self).spec_total_in(),
                self.spec_overwritten() == old(self).spec_overwritten(),
                self.well_formed(),
            decreases count - i,
        {
            let x = self.buf.remove(0);
            self.total_out = self.total_out + 1;
            out.push(x);
            proof {
                assert(old(self)@.skip(i as int).remove(0) == old(self)@.skip(i + 1));
                assert(old(self)@.skip(i as int)[0] == old(self)@[i as int]);
                assert(old(self)@.take(i as int).push(old(self)@[i as int]) == old(self)@.take(
                    i + 1,
                ));
            }
            i = i + 1;
        }
        Ok(out)
    }
}

/// Constructs a bounded queue of capacity `size` under the overwrite
/// policy.
pub fn bounded<T>(size: usize) -> (r: OverwriteQueue<T>)
    requires
        size >= 1,
    ensures
        r.well_formed(),
        r@ == Seq::<T>::empty(),
        r.spec_capacity() == size,
        !r.spec_terminated(),
        r.spec_total_in() == 0,
        r.spec_total_out() == 0,
        r.spec_overwritten() == 0,
{
    OverwriteQueue::with_capacity(size)
}

} // verus!
