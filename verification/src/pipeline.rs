//! Controller composing the pipeline: session -> buffers -> normalizer
//! -> correlation engine. The driver loop around it performs the
//! hardware work and hands chunks and failure events in; the controller
//! decides, stores and analyzes.

use vstd::prelude::*;

use crate::correlate::{heartbeats_for, result_matches, CorrelationEngine, CorrelationResult,
    Heartbeat};
use crate::errors::{AnalysisError, DeviceError, StreamError};
use crate::normalize::Normalizer;
use crate::session::{CaptureConfig, CaptureSession, SessionState};
use crate::signal::{capture_ranged, mean_removed, MAX_WINDOW_LEN};

verus! {

/// Drives one capture session and, once capture is done, snapshots a
/// pair of channels, removes their DC offset and cross-correlates them.
pub struct PipelineController {
    session: CaptureSession,
    engine: CorrelationEngine,
}

impl PipelineController {
    pub closed spec fn session_spec(&self) -> CaptureSession {
        self.session
    }

    pub closed spec fn engine_spec(&self) -> CorrelationEngine {
        self.engine
    }

    pub open spec fn wf(&self) -> bool {
        self.session_spec().wf() && self.engine_spec().wf()
    }

    /// Builds an idle pipeline. Fails with `UnsupportedConfig` if the
    /// configuration is not one the core accepts.
    pub fn new(config: CaptureConfig, capacity_per_channel: usize, heartbeat_interval: usize)
        -> (r: Result<PipelineController, DeviceError>)
        requires
            capacity_per_channel <= MAX_WINDOW_LEN,
            heartbeat_interval >= 1,
        ensures
            !config.valid_spec() ==> r == Err::<PipelineController, DeviceError>(
                DeviceError::UnsupportedConfig,
            ),
            config.valid_spec() ==> {
                &&& r is Ok
                &&& r->Ok_0.wf()
                &&& r->Ok_0.session_spec().state_spec() == SessionState::Idle
                &&& r->Ok_0.session_spec().config_spec() == config
                &&& r->Ok_0.session_spec().errors_spec() == Seq::<StreamError>::empty()
                &&& forall|i: int|
                    0 <= i < config.channel_count ==> r->Ok_0.session_spec().channel_samples(i)
                        == Seq::<i64>::empty()
                &&& r->Ok_0.engine_spec().interval_spec() == heartbeat_interval
                &&& r->Ok_0.engine_spec().events_spec() == Seq::<Heartbeat>::empty()
            },
    {
        match CaptureSession::new(config, capacity_per_channel) {
            Ok(session) => Ok(PipelineController {
                session,
                engine: CorrelationEngine::new(heartbeat_interval),
            }),
            Err(e) => Err(e),
        }
    }

    /// Starts the capture session.
    pub fn begin(&mut self) -> (r: Result<(), DeviceError>)
        requires
            old(self).wf(),
            old(self).session_spec().state_spec() == SessionState::Idle,
        ensures
            final(self).wf(),
            r == Ok::<(), DeviceError>(()),
            final(self).session_spec().state_spec() == SessionState::Streaming,
            final(self).session_spec().config_spec() == old(self).session_spec().config_spec(),
            final(self).session_spec().buffers_spec() == old(self).session_spec().buffers_spec(),
            final(self).session_spec().errors_spec() == old(self).session_spec().errors_spec(),
            final(self).engine_spec() == old(self).engine_spec(),
    {
        self.session.start()
    }

    /// Forwards one hardware-delivered chunk to the session; same
    /// fail-soft behavior as `CaptureSession::handle_chunk`.
    pub fn feed(&mut self, channel: usize, chunk: &Vec<i64>) -> (accepted: bool)
        requires
            old(self).wf(),
        ensures
            final(self).wf(),
            final(self).engine_spec() == old(self).engine_spec(),
            final(self).session_spec().state_spec() == old(self).session_spec().state_spec(),
            final(self).session_spec().config_spec() == old(self).session_spec().config_spec(),
            old(self).session_spec().state_spec() != SessionState::Streaming ==> {
                &&& !accepted
                &&& final(self).session_spec().buffers_spec()
                    == old(self).session_spec().buffers_spec()
                &&& final(self).session_spec().errors_spec()
                    == old(self).session_spec().errors_spec()
            },
            old(self).session_spec().state_spec() == SessionState::Streaming && (channel
                >= old(self).session_spec().buffers_spec().len() || !capture_ranged(chunk@)) ==> {
                &&& !accepted
                &&& final(self).session_spec().buffers_spec()
                    == old(self).session_spec().buffers_spec()
                &&& final(self).session_spec().errors_spec()
                    == old(self).session_spec().errors_spec().push(StreamError::MalformedChunk)
            },
            old(self).session_spec().state_spec() == SessionState::Streaming && channel
                < old(self).session_spec().buffers_spec().len() && capture_ranged(chunk@) ==> {
                let buf = old(self).session_spec().buffers_spec()[channel as int];
                &&& (buf@.len() + chunk@.len() <= buf.cap_spec() ==> {
                    &&& accepted
                    &&& final(self).session_spec().channel_samples(channel as int)
                        == buf@ + chunk@
                    &&& forall|j: int|
                        0 <= j < old(self).session_spec().buffers_spec().len() && j != channel
                            ==> #[trigger] final(self).session_spec().buffers_spec()[j]
                            == old(self).session_spec().buffers_spec()[j]
                    &&& final(self).session_spec().errors_spec()
                        == old(self).session_spec().errors_spec()
                })
                &&& (buf@.len() + chunk@.len() > buf.cap_spec() ==> {
                    &&& !accepted
                    &&& final(self).session_spec().buffers_spec()
                        == old(self).session_spec().buffers_spec()
                    &&& final(self).session_spec().errors_spec()
                        == old(self).session_spec().errors_spec().push(StreamError::Overflow)
                })
            },
    {
        self.session.handle_chunk(channel, chunk)
    }

    /// Ends capture, freezing the buffers for analysis.
    pub fn finish(&mut self)
        requires
            old(self).wf(),
        ensures
            final(self).wf(),
            old(self).session_spec().state_spec() == SessionState::Faulted
                ==> final(self).session_spec().state_spec() == SessionState::Faulted,
            old(self).session_spec().state_spec() != SessionState::Faulted
                ==> final(self).session_spec().state_spec() == SessionState::Stopped,
            final(self).session_spec().config_spec() == old(self).session_spec().config_spec(),
            final(self).session_spec().buffers_spec() == old(self).session_spec().buffers_spec(),
            final(self).session_spec().errors_spec() == old(self).session_spec().errors_spec(),
            final(self).engine_spec() == old(self).engine_spec(),
    {
        self.session.stop()
    }

    /// Records an unrecoverable hardware failure reported by the driver.
    pub fn fault(&mut self)
        requires
            old(self).wf(),
        ensures
            final(self).wf(),
            final(self).session_spec().state_spec() == SessionState::Faulted,
            final(self).session_spec().config_spec() == old(self).session_spec().config_spec(),
            final(self).session_spec().buffers_spec() == old(self).session_spec().buffers_spec(),
            final(self).session_spec().errors_spec()
                == old(self).session_spec().errors_spec().push(StreamError::DeviceDisconnected),
            final(self).engine_spec() == old(self).engine_spec(),
    {
        self.session.fault()
    }

    pub fn session(&self) -> (s: &CaptureSession)
        ensures
            *s == self.session_spec(),
    {
        &self.session
    }

    /// Heartbeats recorded by past correlation sweeps, oldest first.
    pub fn heartbeats(&self) -> (v: &Vec<Heartbeat>)
        ensures
            v@ == self.engine_spec().events_spec(),
    {
        self.engine.events()
    }

    /// Translates the recorded stream conditions into user-visible
    /// diagnostics, one line per recorded condition, in order.
    pub fn diagnostics(&self) -> (v: Vec<&'static str>)
        ensures
            v@.len() == self.session_spec().errors_spec().len(),
            forall|i: int|
                0 <= i < v@.len() ==> (#[trigger] v@[i])@ == self.session_spec().errors_spec()[
                    i
                ].text_spec(),
    {
        let errs = self.session.errors();
        let n = errs.len();
        let mut out: Vec<&'static str> = Vec::new();
        let mut i: usize = 0;
        while i < n
            invariant
                i <= n,
                n == self.session_spec().errors_spec().len(),
                errs@ == self.session_spec().errors_spec(),
                out@.len() == i,
                forall|j: int|
                    0 <= j < i ==> (#[trigger] out@[j])@ == self.session_spec().errors_spec()[
                        j
                    ].text_spec(),
            decreases n - i,
        {
            out.push(errs[i].describe());
            i = i + 1;
        }
        out
    }

    /// Snapshots two channels, removes each one's DC offset, and
    /// cross-correlates the normalized windows over every non-negative
    /// lag. Fails with `LengthMismatch` if the channels hold different
    /// sample counts and with `EmptyWindow` if they are empty; otherwise
    /// the result scores the normalized windows at every lag and one
    /// heartbeat per cadence step is recorded.
    pub fn analyze(&mut self, channel_a: usize, channel_b: usize) -> (r: Result<
        CorrelationResult,
        AnalysisError,
    >)
        requires
            old(self).wf(),
            channel_a < old(self).session_spec().buffers_spec().len(),
            channel_b < old(self).session_spec().buffers_spec().len(),
        ensures
            final(self).wf(),
            final(self).session_spec() == old(self).session_spec(),
            final(self).engine_spec().interval_spec() == old(self).engine_spec().interval_spec(),
            ({
                let a = old(self).session_spec().channel_samples(channel_a as int);
                let b = old(self).session_spec().channel_samples(channel_b as int);
                &&& (a.len() != b.len() ==> {
                    &&& r == Err::<CorrelationResult, AnalysisError>(AnalysisError::LengthMismatch)
                    &&& final(self).engine_spec().events_spec()
                        == old(self).engine_spec().events_spec()
                })
                &&& (a.len() == b.len() && a.len() == 0 ==> {
                    &&& r == Err::<CorrelationResult, AnalysisError>(AnalysisError::EmptyWindow)
                    &&& final(self).engine_spec().events_spec()
                        == old(self).engine_spec().events_spec()
                })
                &&& (a.len() == b.len() && a.len() > 0 ==> {
                    &&& r is Ok
                    &&& result_matches(r->Ok_0, mean_removed(a), mean_removed(b))
                    &&& final(self).engine_spec().events_spec()
                        == old(self).engine_spec().events_spec() + heartbeats_for(
                        a.len() as int,
                        old(self).engine_spec().interval_spec(),
                    )
                })
            }),
    {
        let wa = self.session.snapshot_channel_all(channel_a);
        let wb = self.session.snapshot_channel_all(channel_b);
        if wa.len() != wb.len() {
            return Err(AnalysisError::LengthMismatch);
        }
        if wa.len() == 0 {
            return Err(AnalysisError::EmptyWindow);
        }
        let na = match Normalizer::normalize(&wa) {
            Ok(w) => w,
            Err(e) => {
                return Err(e);
            },
        };
        let nb = match Normalizer::normalize(&wb) {
            Ok(w) => w,
            Err(e) => {
                return Err(e);
            },
        };
        self.engine.correlate(&na, &nb)
    }
}

} // verus!
