//! Capture session: the state machine behind the real-time callback.
//!
//! The hardware driver itself lives outside the core: a driver loop
//! forwards each delivered chunk to `handle_chunk` and reports hardware
//! failure through `fault`. The session validates, routes and records;
//! it never blocks and never panics, so the callback context is safe.

use vstd::prelude::*;

use crate::buffer::SampleBuffer;
use crate::errors::{AnalysisError, DeviceError, StreamError};
use crate::signal::{capture_ranged, MAX_WINDOW_LEN, SAMPLE_LIMIT};
use crate::window::SignalWindow;

verus! {

/// Lifecycle of a capture session. `Faulted` is terminal: a faulted
/// session is torn down and a new one created, never restarted.
#[derive(Clone, Copy, Debug, PartialEq, Eq, Structural)]
pub enum SessionState {
    Idle,
    Streaming,
    Stopped,
    Faulted,
}

/// Validated device configuration, supplied by an external
/// device-enumeration collaborator.
#[derive(Clone, Copy, Debug, PartialEq, Eq, Structural)]
pub struct CaptureConfig {
    /// Samples per second, positive.
    pub sample_rate: u32,
    /// Number of synchronized input channels, positive.
    pub channel_count: u16,
    /// Quantized sample width: 16 or 32 bits.
    pub bits_per_sample: u16,
}

impl CaptureConfig {
    /// A configuration the core accepts.
    pub open spec fn valid_spec(&self) -> bool {
        &&& self.sample_rate >= 1
        &&& self.channel_count >= 1
        &&& (self.bits_per_sample == 16 || self.bits_per_sample == 32)
    }

    pub fn valid(&self) -> (r: bool)
        ensures
            r == self.valid_spec(),
    {
        self.sample_rate >= 1 && self.channel_count >= 1 && (self.bits_per_sample == 16
            || self.bits_per_sample == 32)
    }
}

/// Owns one bounded buffer per channel and routes hardware-delivered
/// chunks into them. All error paths are fail-soft: a bad chunk or a
/// full buffer is recorded as a `StreamError` and the stream continues.
pub struct CaptureSession {
    state: SessionState,
    config: CaptureConfig,
    buffers: Vec<SampleBuffer>,
    errors: Vec<StreamError>,
}

impl CaptureSession {
    pub closed spec fn state_spec(&self) -> SessionState {
        self.state
    }

    pub closed spec fn config_spec(&self) -> CaptureConfig {
        self.config
    }

    pub closed spec fn buffers_spec(&self) -> Seq<SampleBuffer> {
        self.buffers@
    }

    /// The samples written so far to one channel.
    pub open spec fn channel_samples(&self, i: int) -> Seq<i64> {
        self.buffers_spec()[i]@
    }

    pub closed spec fn errors_spec(&self) -> Seq<StreamError> {
        self.errors@
    }

    pub open spec fn wf(&self) -> bool {
        &&& self.config_spec().valid_spec()
        &&& self.buffers_spec().len() == self.config_spec().channel_count
        &&& forall|i: int|
            0 <= i < self.buffers_spec().len() ==> (#[trigger] self.buffers_spec()[i]).wf()
    }

    /// Creates an idle session with one empty buffer of the given
    /// capacity per channel. Fails with `UnsupportedConfig` if the
    /// configuration is not one the core accepts. (The collaborator that
    /// enumerates devices reports a missing device as `NoInputDevice`
    /// before a session is ever created.)
    pub fn new(config: CaptureConfig, capacity_per_channel: usize) -> (r: Result<
        CaptureSession,
        DeviceError,
    >)
        requires
            capacity_per_channel <= MAX_WINDOW_LEN,
        ensures
            !config.valid_spec() ==> r == Err::<CaptureSession, DeviceError>(
                DeviceError::UnsupportedConfig,
            ),
            config.valid_spec() ==> {
                &&& r is Ok
                &&& r->Ok_0.wf()
                &&& r->Ok_0.state_spec() == SessionState::Idle
                &&& r->Ok_0.config_spec() == config
                &&& r->Ok_0.errors_spec() == Seq::<StreamError>::empty()
                &&& forall|i: int|
                    0 <= i < config.channel_count ==> r->Ok_0.channel_samples(i) == Seq::<
                        i64,
                    >::empty()
            },
    {
        if !config.valid() {
            return Err(DeviceError::UnsupportedConfig);
        }
        let count = config.channel_count as usize;
        let mut buffers: Vec<SampleBuffer> = Vec::new();
        let mut i: usize = 0;
        while i < count
            invariant
                i <= count,
                capacity_per_channel <= MAX_WINDOW_LEN,
                buffers@.len() == i,
                forall|j: int| 0 <= j < i ==> (#[trigger] buffers@[j]).wf(),
                forall|j: int| 0 <= j < i ==> (#[trigger] buffers@[j])@ == Seq::<i64>::empty(),
            decreases count - i,
        {
            buffers.push(SampleBuffer::new(capacity_per_channel));
            i = i + 1;
        }
        Ok(CaptureSession { state: SessionState::Idle, config, buffers, errors: Vec::new() })
    }

    /// Begins streaming. Only an idle session can start.
    pub fn start(&mut self) -> (r: Result<(), DeviceError>)
        requires
            old(self).wf(),
            old(self).state_spec() == SessionState::Idle,
        ensures
            final(self).wf(),
            r == Ok::<(), DeviceError>(()),
            final(self).state_spec() == SessionState::Streaming,
            final(self).config_spec() == old(self).config_spec(),
            final(self).buffers_spec() == old(self).buffers_spec(),
            final(self).errors_spec() == old(self).errors_spec(),
    {
        self.state = SessionState::Streaming;
        Ok(())
    }

    /// Accepts one hardware-delivered chunk for one channel. Returns
    /// whether the chunk was stored. Fail-soft on every path: a chunk
    /// arriving while not streaming is ignored; an unknown channel or an
    /// out-of-range sample records `MalformedChunk`; a chunk that does
    /// not fit records `Overflow`; the buffers are extended only by a
    /// stored chunk, and the state never changes.
    pub fn handle_chunk(&mut self, channel: usize, chunk: &Vec<i64>) -> (accepted: bool)
        requires
            old(self).wf(),
        ensures
            final(self).wf(),
            final(self).state_spec() == old(self).state_spec(),
            final(self).config_spec() == old(self).config_spec(),
            old(self).state_spec() != SessionState::Streaming ==> {
                &&& !accepted
                &&& final(self).buffers_spec() == old(self).buffers_spec()
                &&& final(self).errors_spec() == old(self).errors_spec()
            },
            old(self).state_spec() == SessionState::Streaming && (channel
                >= old(self).buffers_spec().len() || !capture_ranged(chunk@)) ==> {
                &&& !accepted
                &&& final(self).buffers_spec() == old(self).buffers_spec()
                &&& final(self).errors_spec() == old(self).errors_spec().push(
                    StreamError::MalformedChunk,
                )
            },
            old(self).state_spec() == SessionState::Streaming && channel < old(
                self,
            ).buffers_spec().len() && capture_ranged(chunk@) ==> {
                let buf = old(self).buffers_spec()[channel as int];
                &&& (buf@.len() + chunk@.len() <= buf.cap_spec() ==> {
                    &&& accepted
                    &&& final(self).channel_samples(channel as int) == buf@ + chunk@
                    &&& forall|j: int|
                        0 <= j < old(self).buffers_spec().len() && j != channel
                            ==> #[trigger] final(self).buffers_spec()[j]
                            == old(self).buffers_spec()[j]
                    &&& final(self).errors_spec() == old(self).errors_spec()
                })
                &&& (buf@.len() + chunk@.len() > buf.cap_spec() ==> {
                    &&& !accepted
                    &&& final(self).buffers_spec() == old(self).buffers_spec()
                    &&& final(self).errors_spec() == old(self).errors_spec().push(
                        StreamError::Overflow,
                    )
                })
            },
    {
        if !matches!(self.state, SessionState::Streaming) {
            return false;
        }
        if channel >= self.buffers.len() || !chunk_in_range(chunk) {
            self.errors.push(StreamError::MalformedChunk);
            return false;
        }
        let res = vec_mut(&mut self.buffers, channel).push(chunk);
        match res {
            Ok(_) => true,
            Err(_) => {
                proof {
                    assert(self.buffers@ =~= old(self).buffers_spec());
                }
                self.errors.push(StreamError::Overflow);
                false
            },
        }
    }

    /// Ends streaming, leaving all buffered samples intact for
    /// consumption. A faulted session stays faulted; any other session
    /// becomes stopped. After `stop` returns, `handle_chunk` stores
    /// nothing, so no further samples are observed in any channel.
    pub fn stop(&mut self)
        requires
            old(self).wf(),
        ensures
            final(self).wf(),
            old(self).state_spec() == SessionState::Faulted ==> final(self).state_spec()
                == SessionState::Faulted,
            old(self).state_spec() != SessionState::Faulted ==> final(self).state_spec()
                == SessionState::Stopped,
            final(self).config_spec() == old(self).config_spec(),
            final(self).buffers_spec() == old(self).buffers_spec(),
            final(self).errors_spec() == old(self).errors_spec(),
    {
        if !matches!(self.state, SessionState::Faulted) {
            self.state = SessionState::Stopped;
        }
    }

    /// Records an unrecoverable hardware-level failure reported by the
    /// driver. Terminal: the session must be recreated, never restarted.
    pub fn fault(&mut self)
        requires
            old(self).wf(),
        ensures
            final(self).wf(),
            final(self).state_spec() == SessionState::Faulted,
            final(self).config_spec() == old(self).config_spec(),
            final(self).buffers_spec() == old(self).buffers_spec(),
            final(self).errors_spec() == old(self).errors_spec().push(
                StreamError::DeviceDisconnected,
            ),
    {
        self.state = SessionState::Faulted;
        self.errors.push(StreamError::DeviceDisconnected);
    }

    pub fn state(&self) -> (s: SessionState)
        ensures
            s == self.state_spec(),
    {
        self.state
    }

    pub fn config(&self) -> (c: CaptureConfig)
        ensures
            c == self.config_spec(),
    {
        self.config
    }

    pub fn channel_count(&self) -> (n: usize)
        ensures
            n == self.buffers_spec().len(),
    {
        self.buffers.len()
    }

    /// The stream conditions recorded so far, oldest first.
    pub fn errors(&self) -> (v: &Vec<StreamError>)
        ensures
            v@ == self.errors_spec(),
    {
        &self.errors
    }

    /// Written length of one channel's buffer.
    pub fn channel_len(&self, channel: usize) -> (n: usize)
        requires
            self.wf(),
            channel < self.buffers_spec().len(),
        ensures
            n == self.channel_samples(channel as int).len(),
    {
        self.buffers[channel].len()
    }

    /// Immutable snapshot of part of one channel.
    pub fn snapshot_channel(&self, channel: usize, start: usize, len: usize) -> (r: Result<
        SignalWindow,
        AnalysisError,
    >)
        requires
            self.wf(),
            channel < self.buffers_spec().len(),
        ensures
            start + len <= self.channel_samples(channel as int).len() ==> {
                &&& r is Ok
                &&& r->Ok_0@ == self.channel_samples(channel as int).subrange(
                    start as int,
                    start + len,
                )
                &&& r->Ok_0.wf()
                &&& capture_ranged(r->Ok_0@)
            },
            start + len > self.channel_samples(channel as int).len() ==> r == Err::<
                SignalWindow,
                AnalysisError,
            >(AnalysisError::OutOfRange),
    {
        self.buffers[channel].snapshot(start, len)
    }

    /// Immutable snapshot of everything one channel holds.
    pub fn snapshot_channel_all(&self, channel: usize) -> (r: SignalWindow)
        requires
            self.wf(),
            channel < self.buffers_spec().len(),
        ensures
            r@ == self.channel_samples(channel as int),
            r.wf(),
            capture_ranged(r@),
    {
        self.buffers[channel].snapshot_all()
    }
}

/// Whether every sample of a chunk lies in the capture amplitude range.
fn chunk_in_range(chunk: &Vec<i64>) -> (r: bool)
    ensures
        r == capture_ranged(chunk@),
{
    let n = chunk.len();
    let mut i: usize = 0;
    while i < n
        invariant
            i <= n,
            n == chunk@.len(),
            forall|j: int| 0 <= j < i ==> -SAMPLE_LIMIT <= #[trigger] chunk@[j] <= SAMPLE_LIMIT,
        decreases n - i,
    {
        let s = chunk[i];
        if s < -SAMPLE_LIMIT || s > SAMPLE_LIMIT {
            return false;
        }
        i = i + 1;
    }
    true
}

/// Mutable access to one element of a vector.
fn vec_mut<T>(v: &mut Vec<T>, i: usize) -> (element: &mut T)
    requires
        i < old(v)@.len(),
    ensures
        *element == old(v)@[i as int],
        final(v)@ == old(v)@.update(i as int, *final(element)),
    {
    &mut v[i]
}

} // verus!
