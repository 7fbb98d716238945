use vstd::prelude::*;

use crate::queue::Error;
use crate::queue::OverwriteQueue;
use crate::queue::spec_enqueue;
use crate::queue::spec_enqueue_all;

verus! {

/// Capacity of a debug tap queue, and the chunk size of its bulk sends.
pub const QUEUE_LEN: usize = 1024;

/// Relies on the standard formatting machinery: renders a value through
/// its `Debug` implementation. Nothing is assumed of the text.
#[verifier::external_body]
fn render_debug<T: core::fmt::Debug>(msg: &T) -> String {
    format!("{:?}", msg)
}

/// A producer handle that mirrors everything it sends onto a secondary
/// queue of textual renderings while a debug flag is set. Failures on the
/// debug side never affect the primary send.
pub struct DebugSender<T> {
    /// The primary queue.
    pub sender: OverwriteQueue<T>,
    /// The debug tap: best-effort textual renderings of sent items.
    pub debug: OverwriteQueue<String>,
    /// While set, every send also feeds the debug tap.
    pub enabled: bool,
    /// The name the tap is registered under, for an operator to subscribe.
    pub name: &'static str,
}

impl<T: core::fmt::Debug> DebugSender<T> {
    /// Both queues hold their invariants.
    pub open spec fn well_formed(&self) -> bool {
        &&& self.sender.well_formed()
        &&& self.debug.well_formed()
    }

    /// Current queued count of the primary queue.
    pub fn size(&self) -> (r: usize)
        ensures
            r == self.sender@.len(),
    {
        self.sender.size()
    }

    /// Toggles the debug tap; models the operator flipping the runtime
    /// flag.
    pub fn set_debug_enabled(&mut self, on: bool)
        ensures
            final(self).enabled == on,
            final(self).sender == old(self).sender,
            final(self).debug == old(self).debug,
            final(self).name == old(self).name,
    {
        self.enabled = on;
    }

    /// Enqueues one item on the primary queue; while the debug flag is
    /// set, a rendering of the item is first offered to the debug tap,
    /// whose failure is swallowed.
    pub fn send(&mut self, msg: T) -> (r: Result<(), Error<T>>)
        requires
            old(self).well_formed(),
            old(self).sender.spec_total_in() < u64::MAX,
            old(self).debug.spec_total_in() < u64::MAX,
        ensures
            final(self).well_formed(),
            final(self).enabled == old(self).enabled,
            final(self).name == old(self).name,
            final(self).sender.spec_capacity() == old(self).sender.spec_capacity(),
            final(self).sender.spec_terminated() == old(self).sender.spec_terminated(),
            old(self).sender.spec_terminated() ==> {
                &&& final(self).sender == old(self).sender
                &&& r matches Err(Error::Terminated(m, b)) && m == Some(msg) && b matches
                    Option::<Vec<T>>::None
            },
            !old(self).sender.spec_terminated() ==> {
                &&& r matches Ok(u) && u == ()
                &&& final(self).sender@ == spec_enqueue(
                    old(self).sender@,
                    old(self).sender.spec_capacity(),
                    msg,
                ).0
                &&& final(self).sender.spec_total_in() == old(self).sender.spec_total_in() + 1
            },
            !old(self).enabled ==> final(self).debug == old(self).debug,
            old(self).enabled && !old(self).debug.spec_terminated() ==> exists|s: String|
                final(self).debug@ == #[trigger] spec_enqueue(
                    old(self).debug@,
                    old(self).debug.spec_capacity(),
                    s,
                ).0,
    {
        if self.enabled {
            let rendered = render_debug(&msg);
            let ghost pre = self.debug@;
            let ghost cap = self.debug.spec_capacity();
            let ghost r0 = rendered;
            let _outcome = self.debug.send(rendered);
            proof {
                if !old(self).debug.spec_terminated() {
                    assert(self.debug@ == spec_enqueue(pre, cap, r0).0);
                }
            }
        }
        self.sender.send(msg)
    }

    /// Offers renderings of `msgs` to the debug tap in chunks of at most
    /// `QUEUE_LEN`, swallowing failures; the primary queue is untouched.
    fn send_debug(&mut self, msgs: &Vec<T>)
        requires
            old(self).well_formed(),
            old(self).debug.spec_total_in() + msgs@.len() <= u64::MAX,
        ensures
            final(self).well_formed(),
            final(self).sender == old(self).sender,
            final(self).enabled == old(self).enabled,
            final(self).name == old(self).name,
            final(self).debug.spec_capacity() == old(self).debug.spec_capacity(),
            final(self).debug.spec_terminated() == old(self).debug.spec_terminated(),
            !old(self).enabled ==> final(self).debug == old(self).debug,
    {
        if !self.enabled {
            return ;
        }
        let mut i: usize = 0;
        let n = msgs.len();
        while i < n
            invariant
                i <= n,
                n == msgs@.len(),
                self.well_formed(),
                self.sender == old(self).sender,
                self.enabled == old(self).enabled,
                self.name == old(self).name,
                self.debug.spec_capacity() == old(self).debug.spec_capacity(),
                self.debug.spec_terminated() == old(self).debug.spec_terminated(),
                self.debug.spec_total_in() <= old(self).debug.spec_total_in() + i,
                old(self).debug.spec_total_in() + msgs@.len() <= u64::MAX,
            decreases n - i,
        {
            let end = if n - i > QUEUE_LEN {
                i + QUEUE_LEN
            } else {
                n
            };
            let mut chunk: Vec<String> = Vec::new();
            let mut j: usize = i;
            while j < end
                invariant
                    i <= j <= end <= n,
                    n == msgs@.len(),
                    chunk@.len() == j - i,
                decreases end - j,
            {
                chunk.push(render_debug(&msgs[j]));
                j = j + 1;
            }
            let ghost chunk_len = chunk@.len();
            let _outcome = self.debug.send_all(chunk);
            i = end;
        }
    }

    /// Bulk enqueue on the primary queue, mirrored to the debug tap while
    /// the flag is set.
    pub fn send_all(&mut self, msgs: Vec<T>) -> (r: Result<(), Error<T>>)
        requires
            old(self).well_formed(),
            old(self).sender.spec_total_in() + msgs@.len() <= u64::MAX,
            old(self).debug.spec_total_in() + msgs@.len() <= u64::MAX,
        ensures
            final(self).well_formed(),
            final(self).enabled == old(self).enabled,
            final(self).name == old(self).name,
            final(self).sender.spec_capacity() == old(self).sender.spec_capacity(),
            final(self).sender.spec_terminated() == old(self).sender.spec_terminated(),
            old(self).sender.spec_terminated() ==> {
                &&& final(self).sender == old(self).sender
                &&& r matches Err(Error::Terminated(m, b)) && m matches Option::<T>::None && b
                    matches Some(v) && v@ == msgs@
            },
            !old(self).sender.spec_terminated() && msgs@.len() > old(self).sender.spec_capacity()
                ==> {
                &&& final(self).sender == old(self).sender
                &&& r matches Err(Error::BatchTooLarge(b)) && b matches Some(v) && v@ == msgs@
            },
            !old(self).sender.spec_terminated() && msgs@.len() <= old(self).sender.spec_capacity()
                ==> {
                &&& r matches Ok(u) && u == ()
                &&& final(self).sender@ == spec_enqueue_all(
                    old(self).sender@,
                    old(self).sender.spec_capacity(),
                    msgs@,
                ).0
                &&& final(self).sender.spec_total_in() == old(self).sender.spec_total_in()
                    + msgs@.len()
            },
            !old(self).enabled ==> final(self).debug == old(self).debug,
    {
        self.send_debug(&msgs);
        self.sender.send_all(msgs)
    }

    /// Chunked enqueue on the primary queue, mirrored to the debug tap
    /// while the flag is set.
    pub fn send_in_batch(&mut self, msgs: Vec<T>, batch_size: usize) -> (r: Result<
        (),
        Error<T>,
    >)
        requires
            old(self).well_formed(),
            batch_size >= 1,
            old(self).sender.spec_total_in() + msgs@.len() <= u64::MAX,
            old(self).debug.spec_total_in() + msgs@.len() <= u64::MAX,
        ensures
            final(self).well_formed(),
            final(self).enabled == old(self).enabled,
            final(self).name == old(self).name,
            final(self).sender.spec_capacity() == old(self).sender.spec_capacity(),
            final(self).sender.spec_terminated() == old(self).sender.spec_terminated(),
            old(self).sender.spec_terminated() ==> {
                &&& final(self).sender == old(self).sender
                &&& r matches Err(Error::Terminated(m, b)) && m matches Option::<T>::None && b
                    matches Some(v) && v@ == msgs@
            },
            !old(self).sender.spec_terminated() && vstd::math::min(
                batch_size as int,
                msgs@.len() as int,
            ) > old(self).sender.spec_capacity() ==> {
                &&& final(self).sender == old(self).sender
                &&& r matches Err(Error::BatchTooLarge(b)) && b matches Some(v) && v@ == msgs@
            },
            !old(self).sender.spec_terminated() && vstd::math::min(
                batch_size as int,
                msgs@.len() as int,
            ) <= old(self).sender.spec_capacity() ==> {
                &&& r matches Ok(u) && u == ()
                &&& final(self).sender@ == spec_enqueue_all(
                    old(self).sender@,
                    old(self).sender.spec_capacity(),
                    msgs@,
                ).0
                &&& final(self).sender.spec_total_in() == old(self).sender.spec_total_in()
                    + msgs@.len()
            },
            !old(self).enabled ==> final(self).debug == old(self).debug,
    {
        self.send_debug(&msgs);
        self.sender.send_in_batch(msgs, batch_size)
    }
}

/// Builds a bounded queue of capacity `size` whose producer side carries a
/// debug tap of capacity `QUEUE_LEN`, registered under `name` and
/// initially disabled.
pub fn bounded_with_debug<T: core::fmt::Debug>(size: usize, name: &'static str) -> (r:
    DebugSender<T>)
    requires
        size >= 1,
    ensures
        r.well_formed(),
        r.sender@ == Seq::<T>::empty(),
        r.sender.spec_capacity() == size,
        !r.sender.spec_terminated(),
        r.sender.spec_total_in() == 0,
        r.sender.spec_total_out() == 0,
        r.sender.spec_overwritten() == 0,
        r.debug@ == Seq::<String>::empty(),
        r.debug.spec_capacity() == QUEUE_LEN,
        !r.enabled,
        r.name == name,
{
    let sender = OverwriteQueue::with_capacity(size);
    let debug = OverwriteQueue::with_capacity(QUEUE_LEN);
    DebugSender { sender, debug, enabled: false, name }
}

} // verus!
