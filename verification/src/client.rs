//! The owning context of one stream session.
//!
//! A [`ClientCore`] holds the decoder lifecycle, the decoder configuration,
//! the sync gate registry, the two halves of the decoder handle while a
//! decoder runs, and the latency statistics. Its methods are the decisions
//! behind the client's entry points; the caller locks the context for each
//! of them, and does the decoder calls, the waiting and the sending between
//! them.
use crate::config::{
    entries_view, spec_decoder_format, spec_mime_type, CodecType, DecoderConfigView,
    DecoderInitConfig,
};
use crate::decoder::{
    carried_tag, dequeue_result, image_step, input_capacity,
    lemma_returned_timestamp_was_submitted, output_step, push_result, video_decoder_split,
    DecoderOutput, DecoderSetup, DequeueAction, DequeuePhase, InputBuffer, Rejected, Submitted,
    VideoDecoderDequeuer, VideoDecoderEnqueuer,
};
use crate::lifecycle::{action_on, next_state, DecoderState, LifecycleAction, LifecycleEvent};
use crate::statistics::{
    FrameRecord, PendingSubmitRecord, StatisticsManager, StatisticsState, Summary,
};
use crate::statistics_trace::lemma_frame_enqueued;
use crate::sync_surface::{
    alvr_surface_texture_frame_available, wait_outcome, GateState, SyncGateRegistry, WaitOutcome,
};
use vstd::prelude::*;

verus! {

/// Bound on the wait for a free input buffer of the decoder.
pub const INPUT_BUFFER_TIMEOUT_NS: u64 = 50_000_000;

/// Bound on each poll of the decoder's output and on each wait for an image.
pub const FRAME_TIMEOUT_NS: u64 = 20_000_000;

/// How long the render loop is held when it polls without a decoder.
pub const IDLE_SLEEP_NS: u64 = 10_000_000;

/// The mathematical state of a [`ClientCore`].
pub struct ClientState {
    pub state: DecoderState,
    pub config: DecoderConfigView,
    pub gates: GateState,
    pub enqueuer: Option<VideoDecoderEnqueuer>,
    pub dequeuer: Option<VideoDecoderDequeuer>,
    pub statistics: StatisticsState,
}

impl ClientState {
    /// The parts are well formed, and the two halves of a decoder handle
    /// exist exactly while the decoder runs, bound to one live surface.
    pub open spec fn wf(self) -> bool {
        &&& self.gates.wf()
        &&& self.statistics.wf()
        &&& self.enqueuer is Some <==> self.state is Running
        &&& self.dequeuer is Some <==> self.state is Running
        &&& self.state is Running ==> {
            &&& self.enqueuer->0.spec_surface_id() == self.dequeuer->0.spec_surface().spec_id()
            &&& self.gates.live(self.enqueuer->0.spec_surface_id())
        }
    }

    /// The surface of the running decoder.
    pub open spec fn surface_id(self) -> i32
        recommends
            self.state is Running,
    {
        self.dequeuer->0.spec_surface().spec_id()
    }
}

/// The statistics after a step of a frame poll at the instant `now`: a step
/// that returns a frame records its decode completion.
pub open spec fn statistics_after(
    statistics: StatisticsState,
    action: DequeueAction,
    now: u64,
) -> StatisticsState {
    match action {
        DequeueAction::Return(Some(timestamp)) => statistics.frame_decoded(timestamp, now),
        _ => statistics,
    }
}

/// The result code of a frame poll: the timestamp's 64 bits read as a signed
/// number, or -1 for no frame. The timestamp `u64::MAX` has the code of no
/// frame.
pub open spec fn spec_frame_code(frame: Option<u64>) -> i64 {
    match frame {
        Some(timestamp) => timestamp as i64,
        None => -1i64,
    }
}

/// The result code of a frame poll.
pub fn frame_code(frame: Option<u64>) -> (code: i64)
    ensures
        code == spec_frame_code(frame),
{
    match frame {
        Some(timestamp) => {
            #[verifier::truncate]
            (timestamp as i64)
        },
        None => -1,
    }
}

/// The result code names its frame: read as an unsigned number it is the
/// frame's timestamp again, and for a timestamp below 2^63 it is that
/// timestamp itself, not negative.
pub proof fn lemma_frame_code(frame: Option<u64>)
    ensures
        frame is None ==> spec_frame_code(frame) == -1,
        frame matches Some(timestamp) ==> spec_frame_code(frame) as u64 == timestamp,
        frame matches Some(timestamp) ==> (timestamp < 0x8000_0000_0000_0000 ==> spec_frame_code(
            frame,
        ) == timestamp),
{
    match frame {
        Some(timestamp) => {
            assert((timestamp as i64) as u64 == timestamp) by (bit_vector);
            assert(timestamp < 0x8000_0000_0000_0000 ==> (timestamp as i64) == timestamp)
                by (bit_vector);
        },
        None => {},
    }
}

/// What the render loop sees of a frame poll: where the decoder hands out
/// only buffers that carry the tag of a submitted access unit, and the
/// submitted timestamps are below 2^63, the result code is -1 or a submitted
/// timestamp.
pub proof fn lemma_frame_code_was_submitted(
    submitted: Set<u64>,
    first: DecoderOutput,
    first_image: bool,
    second: DecoderOutput,
    second_image: bool,
)
    requires
        forall|ts: u64| submitted.contains(ts) ==> ts < 0x8000_0000_0000_0000,
        first matches DecoderOutput::BufferDequeued { presentation_time_us } ==> exists|ts: u64|
            submitted.contains(ts) && presentation_time_us == carried_tag(ts),
        second matches DecoderOutput::BufferDequeued { presentation_time_us } ==> exists|ts: u64|
            submitted.contains(ts) && presentation_time_us == carried_tag(ts),
    ensures
        ({
            let code = spec_frame_code(dequeue_result(first, first_image, second, second_image));
            code == -1 || (code >= 0 && submitted.contains(code as u64))
        }),
{
    let frame = dequeue_result(first, first_image, second, second_image);
    lemma_returned_timestamp_was_submitted(submitted, first, first_image, second, second_image);
    lemma_frame_code(frame);
}

/// The owning context of one stream session.
pub struct ClientCore {
    state: DecoderState,
    config: DecoderInitConfig,
    surfaces: SyncGateRegistry,
    enqueuer: Option<VideoDecoderEnqueuer>,
    dequeuer: Option<VideoDecoderDequeuer>,
    statistics: StatisticsManager,
}

impl View for ClientCore {
    type V = ClientState;

    closed spec fn view(&self) -> ClientState {
        ClientState {
            state: self.state,
            config: self.config@,
            gates: self.surfaces@,
            enqueuer: self.enqueuer,
            dequeuer: self.dequeuer,
            statistics: self.statistics@,
        }
    }
}

impl ClientCore {
    /// A context without surfaces, decoder or records, whose statistics keep
    /// at most `max_history_size` frames. No configuration is known yet; the
    /// one held until a session sets its own is H.264 without extra options
    /// on texture 0.
    pub fn new(max_history_size: usize) -> (core: Self)
        requires
            max_history_size > 0,
        ensures
            core@.wf(),
            core@ == (ClientState {
                state: DecoderState::Uninitialized,
                config: DecoderConfigView {
                    codec: CodecType::H264,
                    options: Seq::empty(),
                    gl_surface_handle: 0,
                },
                gates: GateState::empty(),
                enqueuer: None,
                dequeuer: None,
                statistics: StatisticsState::empty(max_history_size as nat),
            }),
    {
        ClientCore {
            state: DecoderState::Uninitialized,
            config: DecoderInitConfig::new(),
            surfaces: SyncGateRegistry::new(),
            enqueuer: None,
            dequeuer: None,
            statistics: StatisticsManager::new(max_history_size),
        }
    }

    /// The lifecycle state.
    pub fn state(&self) -> (state: DecoderState)
        ensures
            state == self@.state,
    {
        self.state
    }

    /// The codec of the configuration in force.
    pub fn codec(&self) -> (codec: CodecType)
        ensures
            codec == self@.config.codec,
    {
        self.config.codec
    }

    /// The texture that the configuration in force names for the output.
    pub fn gl_surface_handle(&self) -> (handle: i32)
        ensures
            handle == self@.config.gl_surface_handle,
    {
        self.config.gl_surface_handle
    }

    /// The latency statistics.
    pub fn statistics(&self) -> (statistics: &StatisticsManager)
        ensures
            statistics@ == self@.statistics,
    {
        &self.statistics
    }

    /// The sync gate registry.
    pub fn surfaces(&self) -> (surfaces: &SyncGateRegistry)
        ensures
            surfaces@ == self@.gates,
    {
        &self.surfaces
    }

    /// Makes a decoder configuration available. While a decoder runs its
    /// configuration cannot change and the call is refused; in every other
    /// state the configuration is taken and the lifecycle is `Configured`.
    pub fn set_decoder_config(&mut self, config: DecoderInitConfig) -> (accepted: bool)
        requires
            old(self)@.wf(),
        ensures
            final(self)@.wf(),
            accepted == !(old(self)@.state is Running),
            final(self)@ == (ClientState {
                state: next_state(old(self)@.state, LifecycleEvent::ConfigAvailable),
                config: if accepted {
                    config@
                } else {
                    old(self)@.config
                },
                ..old(self)@
            }),
    {
        let (next, _) = self.state.step(LifecycleEvent::ConfigAvailable);
        if self.state.has_decoder() {
            false
        } else {
            self.state = next;
            self.config = config;
            true
        }
    }

    /// Asks for the decoder to be created, with the codec-specific data of
    /// the access unit that announces the stream. From `Configured` and from
    /// `Error` this enters `Running`: the output surface is registered, the
    /// two halves of the handle are set up, pending records of an earlier
    /// decoder are discarded, and the returned setup tells the caller what
    /// decoder to allocate. The caller requests one resync upstream for each
    /// setup it gets. While a decoder runs, or without a configuration, or
    /// once surface identifiers are exhausted, nothing happens.
    pub fn create_decoder(&mut self, csd_0: &[u8]) -> (setup: Option<DecoderSetup>)
        requires
            old(self)@.wf(),
        ensures
            final(self)@.wf(),
            setup is Some <==> (action_on(old(self)@.state, LifecycleEvent::AccessUnit)
                is StartDecoder && old(self)@.gates.last_id < i32::MAX),
            match setup {
                Some(setup) => {
                    &&& final(self)@.state == DecoderState::Running
                    &&& final(self)@.state == next_state(
                        old(self)@.state,
                        LifecycleEvent::AccessUnit,
                    )
                    &&& final(self)@.config == old(self)@.config
                    &&& final(self)@.gates == old(self)@.gates.created()
                    &&& final(self)@.statistics == old(self)@.statistics.pending_discarded()
                    &&& final(self)@.surface_id() == old(self)@.gates.last_id + 1
                    &&& final(self)@.enqueuer->0.spec_awaiting_keyframe()
                    &&& final(self)@.dequeuer->0.spec_phase() == DequeuePhase::Idle
                    &&& setup.surface == final(self)@.dequeuer->0.spec_surface()
                    &&& setup.surface.spec_gl_texture() == old(self)@.config.gl_surface_handle
                    &&& setup.mime@ == spec_mime_type(old(self)@.config.codec)
                    &&& entries_view(setup.format@) == spec_decoder_format(
                        old(self)@.config.codec,
                        csd_0@,
                        old(self)@.config.options,
                    )
                },
                None => final(self)@ == old(self)@,
            },
    {
        let (next, action) = self.state.step(LifecycleEvent::AccessUnit);
        match action {
            LifecycleAction::StartDecoder => {
                match video_decoder_split(
                    &mut self.surfaces,
                    self.config.codec,
                    csd_0,
                    &self.config.options,
                    self.config.gl_surface_handle,
                ) {
                    Some((setup, enqueuer, dequeuer)) => {
                        self.state = next;
                        self.enqueuer = Some(enqueuer);
                        self.dequeuer = Some(dequeuer);
                        self.statistics.discard_pending();
                        Some(setup)
                    },
                    None => None,
                }
            },
            _ => None,
        }
    }

    /// Takes a failure of the hardware decoder, reported by any call into
    /// it. A running decoder is abandoned: its handle and the context of its
    /// surface are dropped, the lifecycle is `Error`, and the returned action
    /// tells the caller to free the decoder and to request a resync
    /// upstream. In any other state nothing happens.
    pub fn decoder_failed(&mut self) -> (action: LifecycleAction)
        requires
            old(self)@.wf(),
        ensures
            final(self)@.wf(),
            action == action_on(old(self)@.state, LifecycleEvent::HardwareError),
            final(self)@ == if old(self)@.state is Running {
                ClientState {
                    state: DecoderState::Error,
                    gates: old(self)@.gates.released(old(self)@.surface_id()),
                    enqueuer: None,
                    dequeuer: None,
                    ..old(self)@
                }
            } else {
                old(self)@
            },
            final(self)@.state == next_state(old(self)@.state, LifecycleEvent::HardwareError),
    {
        let (next, action) = self.state.step(LifecycleEvent::HardwareError);
        self.drop_decoder();
        self.state = next;
        action
    }

    /// Tears the stream down. A running decoder is released together with
    /// the context of its surface, as the returned action tells the caller.
    /// The lifecycle is `Stopped` until a configuration is made available
    /// again.
    pub fn stop(&mut self) -> (action: LifecycleAction)
        requires
            old(self)@.wf(),
        ensures
            final(self)@.wf(),
            action == action_on(old(self)@.state, LifecycleEvent::Teardown),
            final(self)@ == if old(self)@.state is Running {
                ClientState {
                    state: DecoderState::Stopped,
                    gates: old(self)@.gates.released(old(self)@.surface_id()),
                    enqueuer: None,
                    dequeuer: None,
                    ..old(self)@
                }
            } else {
                ClientState { state: DecoderState::Stopped, ..old(self)@ }
            },
    {
        let (next, action) = self.state.step(LifecycleEvent::Teardown);
        self.drop_decoder();
        self.state = next;
        action
    }

    /// Drops the decoder handle, if there is one, and the context of its
    /// surface. The lifecycle state is left to the caller.
    fn drop_decoder(&mut self)
        requires
            old(self)@.wf(),
        ensures
            final(self)@ == if old(self)@.state is Running {
                ClientState {
                    gates: old(self)@.gates.released(old(self)@.surface_id()),
                    enqueuer: None,
                    dequeuer: None,
                    ..old(self)@
                }
            } else {
                old(self)@
            },
            final(self)@.gates.wf(),
    {
        let surface = match &self.dequeuer {
            Some(dequeuer) => Some(dequeuer.surface()),
            None => None,
        };
        match surface {
            Some(surface) => {
                self.surfaces.release(surface.id());
                self.enqueuer = None;
                self.dequeuer = None;
            },
            None => {},
        }
    }

    /// Raises the ready flag of the surface `id`; see
    /// [`alvr_surface_texture_frame_available`].
    pub fn frame_available(&mut self, id: i32) -> (known: bool)
        requires
            old(self)@.wf(),
        ensures
            final(self)@.wf(),
            known == old(self)@.gates.live(id),
            final(self)@ == (ClientState { gates: old(self)@.gates.signaled(id), ..old(self)@ }),
    {
        alvr_surface_texture_frame_available(&mut self.surfaces, id)
    }

    /// Whether an access unit can be submitted at all: without a decoder it
    /// is rejected as `NotReady`, with one the caller asks the decoder for an
    /// input buffer, waiting no longer than the returned time.
    pub fn begin_push_nal(&self) -> (wait: Result<u64, Rejected>)
        ensures
            wait == if self@.state is Running {
                Ok::<u64, Rejected>(INPUT_BUFFER_TIMEOUT_NS)
            } else {
                Err::<u64, Rejected>(Rejected::NotReady)
            },
    {
        if self.state.has_decoder() {
            Ok(INPUT_BUFFER_TIMEOUT_NS)
        } else {
            Err(Rejected::NotReady)
        }
    }

    /// Submits an access unit with the presentation timestamp `frame_index`,
    /// once the decoder has answered the request for an input buffer.
    /// Without a decoder the unit is rejected as `NotReady`, whatever the
    /// answer; without a free buffer as `Busy`; with a buffer smaller than
    /// the payload as `TooLarge`. A rejected unit changes nothing and leaves
    /// no record. Otherwise the unit is accepted, and the instant `now` at
    /// which it enters the decoder is recorded under its timestamp.
    pub fn push_nal(
        &mut self,
        frame_index: u64,
        data: &[u8],
        input: InputBuffer,
        now: u64,
    ) -> (result: Result<Submitted, Rejected>)
        requires
            old(self)@.wf(),
        ensures
            final(self)@.wf(),
            result == if old(self)@.state is Running {
                push_result(
                    old(self)@.enqueuer->0.spec_awaiting_keyframe(),
                    frame_index,
                    data.len(),
                    input,
                )
            } else {
                Err::<Submitted, Rejected>(Rejected::NotReady)
            },
            final(self)@.state == old(self)@.state,
            final(self)@.config == old(self)@.config,
            final(self)@.gates == old(self)@.gates,
            final(self)@.dequeuer == old(self)@.dequeuer,
            final(self)@.statistics == if result is Ok {
                old(self)@.statistics.frame_enqueued(frame_index, now)
            } else {
                old(self)@.statistics
            },
            result is Err ==> final(self)@ == old(self)@,
            result matches Ok(submitted) ==> submitted.offset + submitted.size <= input_capacity(
                input,
            ),
            result is Ok ==> !final(self)@.enqueuer->0.spec_awaiting_keyframe(),
            result is Ok ==> final(self)@.statistics.record(frame_index) == Some(
                FrameRecord::Pending(
                    PendingSubmitRecord { timestamp: frame_index, submit_instant: now },
                ),
            ),
    {
        proof {
            lemma_frame_enqueued(self@.statistics, frame_index, now);
        }
        match &mut self.enqueuer {
            Some(enqueuer) => {
                let result = enqueuer.push_frame_nal(frame_index, data, input);
                if result.is_ok() {
                    self.statistics.report_frame_enqueued(frame_index, now);
                }
                result
            },
            None => Err(Rejected::NotReady),
        }
    }

    /// Takes the decoder's answer to a poll of its output queue; see
    /// [`VideoDecoderDequeuer::on_output`]. Where this ends the poll with a
    /// frame, `now` is recorded as the instant its decoded image became
    /// visible. Without a decoder the poll is over and returns `None`.
    pub fn on_decoder_output(&mut self, output: DecoderOutput, now: u64) -> (action: DequeueAction)
        requires
            old(self)@.wf(),
        ensures
            final(self)@.wf(),
            final(self)@.state == old(self)@.state,
            final(self)@.config == old(self)@.config,
            final(self)@.gates == old(self)@.gates,
            final(self)@.enqueuer == old(self)@.enqueuer,
            final(self)@.statistics == statistics_after(old(self)@.statistics, action, now),
            if old(self)@.state is Running {
                &&& (final(self)@.dequeuer->0.spec_phase(), action) == output_step(
                    old(self)@.dequeuer->0.spec_phase(),
                    old(self)@.surface_id(),
                    old(self)@.dequeuer->0.spec_timeout_ns(),
                    output,
                )
                &&& final(self)@.dequeuer->0.spec_timeout_ns() == old(
                    self,
                )@.dequeuer->0.spec_timeout_ns()
                &&& final(self)@.dequeuer->0.spec_surface() == old(
                    self,
                )@.dequeuer->0.spec_surface()
            } else {
                &&& action == DequeueAction::Return(None)
                &&& final(self)@.dequeuer == old(self)@.dequeuer
            },
    {
        let action = match &mut self.dequeuer {
            Some(dequeuer) => dequeuer.on_output(output),
            None => DequeueAction::Return(None),
        };
        self.frame_decoded(action, now);
        action
    }

    /// Records the decode completion of the frame that an action returns.
    fn frame_decoded(&mut self, action: DequeueAction, now: u64)
        requires
            old(self)@.statistics.wf(),
        ensures
            final(self)@ == (ClientState {
                statistics: statistics_after(old(self)@.statistics, action, now),
                ..old(self)@
            }),
            final(self)@.statistics.wf(),
    {
        match action {
            DequeueAction::Return(Some(timestamp)) => {
                self.statistics.report_frame_decoded(timestamp, now);
            },
            _ => {},
        }
    }

    /// Whether a wait for the next image on the decoder's surface has to stop
    /// blocking before its timeout: the image was signaled, or the surface or
    /// the decoder is gone.
    pub fn image_wait_due(&self) -> (due: bool)
        ensures
            due == if self@.state is Running && self@.dequeuer is Some {
                self@.gates.image_ready(self@.surface_id()) || !self@.gates.live(
                    self@.surface_id(),
                )
            } else {
                true
            },
    {
        match &self.dequeuer {
            Some(dequeuer) => {
                if self.state.has_decoder() {
                    dequeuer.surface().wake_due(&self.surfaces)
                } else {
                    true
                }
            },
            None => true,
        }
    }

    /// Finishes a wait for the next image on the decoder's surface, when the
    /// surface's flag is raised or the wait's timeout has elapsed; see
    /// [`crate::sync_surface::SyncSurface::wait_next_image`] and
    /// [`VideoDecoderDequeuer::on_image`]. The flag is lowered, and the
    /// outcome tells the caller to update the surface's texture, whether or
    /// not the image came in time. Where this ends the poll with a frame,
    /// `now` is recorded as the instant its decoded image became visible.
    /// Without a decoder the wait counts as timed out on a released surface
    /// and the poll returns `None`.
    pub fn on_image_wait_over(&mut self, now: u64) -> (over: (WaitOutcome, DequeueAction))
        requires
            old(self)@.wf(),
        ensures
            final(self)@.wf(),
            final(self)@.state == old(self)@.state,
            final(self)@.config == old(self)@.config,
            final(self)@.enqueuer == old(self)@.enqueuer,
            final(self)@.statistics == statistics_after(old(self)@.statistics, over.1, now),
            if old(self)@.state is Running {
                &&& over.0 == wait_outcome(old(self)@.gates, old(self)@.surface_id())
                &&& over.0.spec_updates_surface()
                &&& final(self)@.gates == old(self)@.gates.waited(old(self)@.surface_id())
                &&& (final(self)@.dequeuer->0.spec_phase(), over.1) == image_step(
                    old(self)@.dequeuer->0.spec_phase(),
                    old(self)@.gates.image_ready(old(self)@.surface_id()),
                )
                &&& final(self)@.dequeuer->0.spec_timeout_ns() == old(
                    self,
                )@.dequeuer->0.spec_timeout_ns()
                &&& final(self)@.dequeuer->0.spec_surface() == old(
                    self,
                )@.dequeuer->0.spec_surface()
            } else {
                &&& over == (WaitOutcome::Released, DequeueAction::Return(None))
                &&& final(self)@.gates == old(self)@.gates
                &&& final(self)@.dequeuer == old(self)@.dequeuer
            },
    {
        let over = match &mut self.dequeuer {
            Some(dequeuer) => {
                let outcome = dequeuer.surface().wait_next_image(&mut self.surfaces);
                let action = dequeuer.on_image(outcome.satisfied());
                (outcome, action)
            },
            None => (WaitOutcome::Released, DequeueAction::Return(None)),
        };
        self.frame_decoded(over.1, now);
        over
    }
}

/// Starts a poll for the next displayed frame. Without a decoder the
/// caller sleeps for a short fixed time and the poll is over; with one,
/// the decoder's output queue is polled.
pub fn alvr_wait_for_frame(core: &mut ClientCore) -> (action: DequeueAction)
    requires
        old(core)@.wf(),
    ensures
        final(core)@.wf(),
        action == if old(core)@.state is Running {
            DequeueAction::PollOutput { timeout_ns: FRAME_TIMEOUT_NS }
        } else {
            DequeueAction::Sleep { duration_ns: IDLE_SLEEP_NS }
        },
        final(core)@.state == old(core)@.state,
        final(core)@.config == old(core)@.config,
        final(core)@.gates == old(core)@.gates,
        final(core)@.enqueuer == old(core)@.enqueuer,
        final(core)@.statistics == old(core)@.statistics,
        old(core)@.state is Running ==> {
            &&& final(core)@.dequeuer->0.spec_phase() == DequeuePhase::Polling
            &&& final(core)@.dequeuer->0.spec_timeout_ns() == FRAME_TIMEOUT_NS
            &&& final(core)@.dequeuer->0.spec_surface() == old(core)@.dequeuer->0.spec_surface()
        },
{
    match &mut core.dequeuer {
        Some(dequeuer) => dequeuer.dequeue_frame(FRAME_TIMEOUT_NS),
        None => DequeueAction::Sleep { duration_ns: IDLE_SLEEP_NS },
    }
}

/// Records that the frame `target_timestamp_ns` was handed to the
/// compositor at `now`, after `vsync_queue_ns` in its queue, and returns
/// the frame's summary for the statistics channel. `None` means that the
/// summary is not ready, which is no error.
pub fn alvr_report_submit(
    core: &mut ClientCore,
    target_timestamp_ns: u64,
    vsync_queue_ns: u64,
    now: u64,
) -> (summary: Option<Summary>)
    requires
        old(core)@.wf(),
    ensures
        final(core)@.wf(),
        final(core)@ == (ClientState {
            statistics: old(core)@.statistics.submit(target_timestamp_ns, vsync_queue_ns, now),
            ..old(core)@
        }),
        summary == final(core)@.statistics.summary(target_timestamp_ns),
{
    core.statistics.report_submit(target_timestamp_ns, vsync_queue_ns, now);
    core.statistics.summary(target_timestamp_ns)
}

/// The prediction offset in nanoseconds: the rolling average of the
/// total pipeline latency, zero before the first completed sample.
pub fn alvr_get_prediction_offset_ns(core: &ClientCore) -> (offset: u64)
    ensures
        offset == core@.statistics.average_total_pipeline_latency(),
{
    core.statistics.average_total_pipeline_latency()
}

} // verus!
