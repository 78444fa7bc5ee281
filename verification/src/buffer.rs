//! Bounded single-producer/single-consumer store for one channel's samples.

use vstd::prelude::*;

use crate::errors::{AnalysisError, StreamError};
use crate::signal::{capture_ranged, MAX_WINDOW_LEN};
use crate::window::SignalWindow;

verus! {

/// Fixed-capacity, append-only sample store for one channel. `push` is
/// the only mutator and rejects whole chunks that would exceed the
/// capacity (samples are never silently overwritten and the writer is
/// never made to block); `snapshot` is read-only.
pub struct SampleBuffer {
    data: Vec<i64>,
    cap: usize,
}

impl View for SampleBuffer {
    type V = Seq<i64>;

    closed spec fn view(&self) -> Seq<i64> {
        self.data@
    }
}

impl SampleBuffer {
    /// Capacity fixed at construction.
    pub closed spec fn cap_spec(&self) -> int {
        self.cap as int
    }

    /// The written length never exceeds the capacity, and every stored
    /// sample lies in the capture amplitude range.
    pub open spec fn wf(&self) -> bool {
        self@.len() <= self.cap_spec() && self.cap_spec() <= MAX_WINDOW_LEN
            && capture_ranged(self@)
    }

    pub fn new(capacity: usize) -> (b: SampleBuffer)
        requires
            capacity <= MAX_WINDOW_LEN,
        ensures
            b.wf(),
            b@ == Seq::<i64>::empty(),
            b.cap_spec() == capacity,
    {
        SampleBuffer { data: Vec::new(), cap: capacity }
    }

    pub fn len(&self) -> (n: usize)
        ensures
            n == self@.len(),
    {
        self.data.len()
    }

    pub fn capacity(&self) -> (n: usize)
        ensures
            n == self.cap_spec(),
    {
        self.cap
    }

    /// Appends a whole chunk if it fits in the remaining space; rejects
    /// it with `Overflow`, leaving the buffer unchanged, if it does not.
    pub fn push(&mut self, chunk: &Vec<i64>) -> (r: Result<usize, StreamError>)
        requires
            old(self).wf(),
            capture_ranged(chunk@),
        ensures
            final(self).wf(),
            final(self).cap_spec() == old(self).cap_spec(),
            old(self)@.len() + chunk@.len() <= old(self).cap_spec() ==> {
                &&& r == Ok::<usize, StreamError>(chunk.len())
                &&& final(self)@ == old(self)@ + chunk@
            },
            old(self)@.len() + chunk@.len() > old(self).cap_spec() ==> {
                &&& r == Err::<usize, StreamError>(StreamError::Overflow)
                &&& *final(self) == *old(self)
            },
    {
        if chunk.len() <= self.cap - self.data.len() {
            let n = chunk.len();
            let mut i: usize = 0;
            while i < n
                invariant
                    i <= n,
                    n == chunk@.len(),
                    self.data@ == old(self)@ + chunk@.take(i as int),
                    self.cap == old(self).cap_spec(),
                    old(self)@.len() + n <= self.cap,
                    capture_ranged(chunk@),
                    capture_ranged(old(self)@),
                decreases n - i,
            {
                self.data.push(chunk[i]);
                proof {
                    assert(chunk@.take(i + 1) =~= chunk@.take(i as int).push(chunk@[i as int]));
                }
                i = i + 1;
            }
            proof {
                assert(chunk@.take(n as int) =~= chunk@);
                assert(capture_ranged(self.data@));
            }
            Ok(n)
        } else {
            Err(StreamError::Overflow)
        }
    }

    /// Immutable snapshot of `len` samples starting at `start`; fails
    /// with `OutOfRange` if the range exceeds the written length.
    pub fn snapshot(&self, start: usize, len: usize) -> (r: Result<SignalWindow, AnalysisError>)
        requires
            self.wf(),
        ensures
            start + len <= self@.len() ==> {
                &&& r is Ok
                &&& r->Ok_0@ == self@.subrange(start as int, start + len)
                &&& r->Ok_0.wf()
                &&& capture_ranged(r->Ok_0@)
            },
            start + len > self@.len() ==> r == Err::<SignalWindow, AnalysisError>(
                AnalysisError::OutOfRange,
            ),
    {
        if start <= self.data.len() && len <= self.data.len() - start {
            let mut out: Vec<i64> = Vec::new();
            let mut i: usize = 0;
            while i < len
                invariant
                    i <= len,
                    start + len <= self.data@.len(),
                    out@ == self@.subrange(start as int, start + i),
                    self.wf(),
                decreases len - i,
            {
                out.push(self.data[start + i]);
                proof {
                    assert(self@.subrange(start as int, start + i + 1) =~= self@.subrange(
                        start as int,
                        start + i,
                    ).push(self@[start + i]));
                }
                i = i + 1;
            }
            proof {
                assert(capture_ranged(out@));
                assert(out@.len() <= MAX_WINDOW_LEN);
            }
            Ok(SignalWindow::from_samples(out))
        } else {
            Err(AnalysisError::OutOfRange)
        }
    }

    /// Snapshot of everything written so far.
    pub fn snapshot_all(&self) -> (r: SignalWindow)
        requires
            self.wf(),
        ensures
            r@ == self@,
            r.wf(),
            capture_ranged(r@),
    {
        let n = self.data.len();
        let res = self.snapshot(0, n);
        proof {
            assert(self@.subrange(0, self@.len() as int) =~= self@);
        }
        match res {
            Ok(w) => w,
            Err(_) => SignalWindow::from_samples(Vec::new()),
        }
    }
}

} // verus!
