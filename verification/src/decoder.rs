//! The two halves of a decoder handle: the frame enqueuer and the frame
//! dequeuer.
//!
//! An access unit is one decodable chunk of compressed video together with
//! its presentation timestamp in nanoseconds, by which the frame is known
//! throughout the pipeline.
//!
//! The hardware decoder itself stays with the caller. Each half decides what
//! has to be done with the decoder next and what a call returns, from what
//! the decoder answered: the caller asks the decoder for an input buffer and
//! hands the answer to [`VideoDecoderEnqueuer::push_frame_nal`]; it carries
//! out the [`DequeueAction`]s of the dequeuer one by one and reports each
//! result back.
use crate::config::{
    decoder_format, entries_view, mime_type, options_view, spec_decoder_format, spec_mime_type,
    CodecType, FormatEntry, MediacodecDataType,
};
use crate::sync_surface::{SyncGateRegistry, SyncSurface};
use vstd::prelude::*;

verus! {

/// The tag under which the decoder reports a buffer that was queued with the
/// presentation time `timestamp`: the same 64 bits, read as a signed number.
pub open spec fn carried_tag(timestamp: u64) -> i64 {
    timestamp as i64
}

/// The presentation timestamp that a decoded buffer's tag stands for.
pub open spec fn spec_frame_timestamp(tag: i64) -> u64 {
    tag as u64
}

/// The timestamp survives the decoder at full precision.
pub proof fn lemma_timestamp_round_trip(timestamp: u64)
    ensures
        spec_frame_timestamp(carried_tag(timestamp)) == timestamp,
{
    assert((timestamp as i64) as u64 == timestamp) by (bit_vector);
}

/// Different timestamps are carried by different tags.
pub proof fn lemma_tags_distinct(a: u64, b: u64)
    ensures
        carried_tag(a) == carried_tag(b) ==> a == b,
{
    lemma_timestamp_round_trip(a);
    lemma_timestamp_round_trip(b);
}

/// The presentation timestamp that a decoded buffer's tag stands for.
pub fn frame_timestamp(tag: i64) -> (timestamp: u64)
    ensures
        timestamp == spec_frame_timestamp(tag),
{
    #[verifier::truncate]
    (tag as u64)
}

/// What the decoder answered to the request for a free input buffer.
#[derive(Clone, Copy, Debug, PartialEq, Eq)]
pub enum InputBuffer {
    /// A buffer of the given size was handed out.
    Dequeued { capacity: usize },
    /// No buffer became free within the bounded wait.
    TryAgainLater,
}

/// How an accepted access unit is queued: the payload fills the input buffer
/// from its start, tagged with the presentation timestamp in nanoseconds.
#[derive(Clone, Copy, Debug, PartialEq, Eq)]
pub struct Submitted {
    pub offset: usize,
    pub size: usize,
    pub presentation_time: u64,
    pub flags: u32,
    /// This is the first unit the decoder accepted, so the keyframe that was
    /// requested when the decoder started is no longer awaited.
    pub keyframe_request_settled: bool,
}

/// Why an access unit was not submitted.
#[derive(Clone, Copy, Debug, PartialEq, Eq)]
pub enum Rejected {
    /// There is no decoder. The caller asks upstream for a keyframe.
    NotReady,
    /// The decoder had no free input buffer in time. The unit is dropped.
    Busy,
    /// The payload does not fit the input buffer the decoder handed out. The
    /// unit is dropped and the caller hands the buffer back unused.
    TooLarge,
}

impl Rejected {
    pub open spec fn spec_requests_resync(self) -> bool {
        self is NotReady
    }

    /// Whether the caller has to ask upstream for a fresh keyframe.
    pub fn requests_resync(&self) -> (b: bool)
        ensures
            b == self.spec_requests_resync(),
    {
        match self {
            Rejected::NotReady => true,
            Rejected::Busy => false,
            Rejected::TooLarge => false,
        }
    }
}

/// The submitting half of a decoder handle.
#[derive(Debug, PartialEq, Eq)]
pub struct VideoDecoderEnqueuer {
    surface_id: i32,
    awaiting_keyframe: bool,
}

/// What `push_frame_nal` returns for a payload of `size` bytes: the unit is
/// accepted exactly when the decoder handed out a buffer that holds it.
pub open spec fn push_result(
    awaiting_keyframe: bool,
    timestamp: u64,
    size: usize,
    input: InputBuffer,
) -> Result<Submitted, Rejected> {
    match input {
        InputBuffer::Dequeued { capacity } => if size <= capacity {
            Ok(
                Submitted {
                    offset: 0,
                    size,
                    presentation_time: timestamp,
                    flags: 0,
                    keyframe_request_settled: awaiting_keyframe,
                },
            )
        } else {
            Err(Rejected::TooLarge)
        },
        InputBuffer::TryAgainLater => Err(Rejected::Busy),
    }
}

/// The bytes of the input buffer that an answer of the decoder lets a unit use.
pub open spec fn input_capacity(input: InputBuffer) -> nat {
    match input {
        InputBuffer::Dequeued { capacity } => capacity as nat,
        InputBuffer::TryAgainLater => 0,
    }
}

impl VideoDecoderEnqueuer {
    /// The surface of the decoder this half belongs to.
    pub closed spec fn spec_surface_id(&self) -> i32 {
        self.surface_id
    }

    /// No access unit was accepted yet.
    pub closed spec fn spec_awaiting_keyframe(&self) -> bool {
        self.awaiting_keyframe
    }

    pub fn surface_id(&self) -> (id: i32)
        ensures
            id == self.spec_surface_id(),
    {
        self.surface_id
    }

    pub fn awaiting_keyframe(&self) -> (b: bool)
        ensures
            b == self.spec_awaiting_keyframe(),
    {
        self.awaiting_keyframe
    }

    /// Decides on an access unit once the decoder has answered the request
    /// for an input buffer. With a buffer that holds the payload the unit is
    /// accepted: the caller copies the payload to the buffer's start and
    /// queues it as the result says, which never reaches beyond the buffer.
    /// Without a buffer the unit is dropped as `Busy`, with a buffer that is
    /// too small as `TooLarge`; a dropped unit changes nothing, and nothing
    /// is queued beyond the decoder's own buffers.
    pub fn push_frame_nal(&mut self, timestamp: u64, data: &[u8], input: InputBuffer) -> (result:
        Result<Submitted, Rejected>)
        ensures
            result == push_result(old(self).spec_awaiting_keyframe(), timestamp, data.len(), input),
            result matches Ok(submitted) ==> submitted.offset + submitted.size <= input_capacity(
                input,
            ),
            result is Err ==> *final(self) == *old(self),
            final(self).spec_surface_id() == old(self).spec_surface_id(),
            final(self).spec_awaiting_keyframe() == (old(self).spec_awaiting_keyframe()
                && result is Err),
    {
        match input {
            InputBuffer::Dequeued { capacity } => {
                if data.len() <= capacity {
                    let first = self.awaiting_keyframe;
                    self.awaiting_keyframe = false;
                    Ok(
                        Submitted {
                            offset: 0,
                            size: data.len(),
                            presentation_time: timestamp,
                            flags: 0,
                            keyframe_request_settled: first,
                        },
                    )
                } else {
                    Err(Rejected::TooLarge)
                }
            },
            InputBuffer::TryAgainLater => Err(Rejected::Busy),
        }
    }
}

/// What the decoder answered to a poll of its output queue.
#[derive(Clone, Copy, Debug, PartialEq, Eq)]
pub enum DecoderOutput {
    /// A decoded buffer, with the tag it carries.
    BufferDequeued { presentation_time_us: i64 },
    /// Anything else: nothing in time, a format change, the end of the stream.
    Other,
}

/// Where a dequeue call stands.
#[derive(Clone, Copy, Debug, PartialEq, Eq)]
pub enum DequeuePhase {
    /// No call is under way.
    Idle,
    /// The output queue is being polled.
    Polling,
    /// The first buffer was released; its image is awaited.
    Waiting { timestamp: u64 },
    /// A frame is displayed; the output queue is polled once more.
    PollingAgain { displayed: u64 },
    /// A second buffer was released; its image is awaited.
    WaitingAgain { timestamp: u64 },
}

/// What the caller does next for the dequeuer.
#[derive(Clone, Copy, Debug, PartialEq, Eq)]
pub enum DequeueAction {
    /// Sleep for the given time; the call then returns `None`.
    Sleep { duration_ns: u64 },
    /// Poll the decoder's output queue with the given timeout and report the
    /// answer.
    PollOutput { timeout_ns: u64 },
    /// Release the dequeued buffer to the decoder for rendering at once, then
    /// wait for the next image on the surface with the given timeout and
    /// report that the wait is over.
    ReleaseAndWait { surface_id: i32, timeout_ns: u64 },
    /// The call is over and returns this.
    Return(Option<u64>),
}

/// The step after the decoder answered a poll.
pub open spec fn output_step(
    phase: DequeuePhase,
    surface_id: i32,
    timeout_ns: u64,
    output: DecoderOutput,
) -> (DequeuePhase, DequeueAction) {
    match phase {
        DequeuePhase::Polling => match output {
            DecoderOutput::BufferDequeued { presentation_time_us } => (
                DequeuePhase::Waiting { timestamp: spec_frame_timestamp(presentation_time_us) },
                DequeueAction::ReleaseAndWait { surface_id, timeout_ns },
            ),
            DecoderOutput::Other => (DequeuePhase::Idle, DequeueAction::Return(None)),
        },
        DequeuePhase::PollingAgain { displayed } => match output {
            DecoderOutput::BufferDequeued { presentation_time_us } => (
                DequeuePhase::WaitingAgain {
                    timestamp: spec_frame_timestamp(presentation_time_us),
                },
                DequeueAction::ReleaseAndWait { surface_id, timeout_ns },
            ),
            DecoderOutput::Other => (DequeuePhase::Idle, DequeueAction::Return(Some(displayed))),
        },
        _ => (DequeuePhase::Idle, DequeueAction::Return(None)),
    }
}

/// The step after a wait for the surface's next image is over.
pub open spec fn image_step(phase: DequeuePhase, satisfied: bool) -> (
    DequeuePhase,
    DequeueAction,
) {
    match phase {
        DequeuePhase::Waiting { timestamp } => if satisfied {
            (
                DequeuePhase::PollingAgain { displayed: timestamp },
                DequeueAction::PollOutput { timeout_ns: 0 },
            )
        } else {
            (DequeuePhase::Idle, DequeueAction::Return(None))
        },
        DequeuePhase::WaitingAgain { timestamp } => if satisfied {
            (DequeuePhase::Idle, DequeueAction::Return(Some(timestamp)))
        } else {
            (DequeuePhase::Idle, DequeueAction::Return(None))
        },
        _ => (DequeuePhase::Idle, DequeueAction::Return(None)),
    }
}

/// The receiving half of a decoder handle, bound to the output surface.
#[derive(Debug, PartialEq, Eq)]
pub struct VideoDecoderDequeuer {
    surface: SyncSurface,
    timeout_ns: u64,
    phase: DequeuePhase,
}

impl VideoDecoderDequeuer {
    /// The output surface the decoder renders to.
    pub closed spec fn spec_surface(&self) -> SyncSurface {
        self.surface
    }

    /// The timeout of the call under way.
    pub closed spec fn spec_timeout_ns(&self) -> u64 {
        self.timeout_ns
    }

    /// Where the call under way stands.
    pub closed spec fn spec_phase(&self) -> DequeuePhase {
        self.phase
    }

    pub fn surface(&self) -> (surface: SyncSurface)
        ensures
            surface == self.spec_surface(),
    {
        self.surface
    }

    pub fn phase(&self) -> (phase: DequeuePhase)
        ensures
            phase == self.spec_phase(),
    {
        self.phase
    }

    /// Starts a dequeue call: the decoder's output queue is to be polled with
    /// `timeout_ns`. A call that was under way is abandoned.
    pub fn dequeue_frame(&mut self, timeout_ns: u64) -> (action: DequeueAction)
        ensures
            action == (DequeueAction::PollOutput { timeout_ns }),
            final(self).spec_phase() == DequeuePhase::Polling,
            final(self).spec_timeout_ns() == timeout_ns,
            final(self).spec_surface() == old(self).spec_surface(),
    {
        self.timeout_ns = timeout_ns;
        self.phase = DequeuePhase::Polling;
        DequeueAction::PollOutput { timeout_ns }
    }

    /// Takes the decoder's answer to a poll. A decoded buffer is released at
    /// once and its image awaited; its timestamp is the one its tag carries.
    /// Any other answer ends the call: with `None` after the first poll, with
    /// the frame already displayed after the second.
    pub fn on_output(&mut self, output: DecoderOutput) -> (action: DequeueAction)
        ensures
            (final(self).spec_phase(), action) == output_step(
                old(self).spec_phase(),
                old(self).spec_surface().spec_id(),
                old(self).spec_timeout_ns(),
                output,
            ),
            final(self).spec_timeout_ns() == old(self).spec_timeout_ns(),
            final(self).spec_surface() == old(self).spec_surface(),
    {
        let surface_id = self.surface.id();
        let timeout_ns = self.timeout_ns;
        match (self.phase, output) {
            (DequeuePhase::Polling, DecoderOutput::BufferDequeued { presentation_time_us }) => {
                self.phase = DequeuePhase::Waiting {
                    timestamp: frame_timestamp(presentation_time_us),
                };
                DequeueAction::ReleaseAndWait { surface_id, timeout_ns }
            },
            (
                DequeuePhase::PollingAgain { displayed: _ },
                DecoderOutput::BufferDequeued { presentation_time_us },
            ) => {
                self.phase = DequeuePhase::WaitingAgain {
                    timestamp: frame_timestamp(presentation_time_us),
                };
                DequeueAction::ReleaseAndWait { surface_id, timeout_ns }
            },
            (DequeuePhase::PollingAgain { displayed }, DecoderOutput::Other) => {
                self.phase = DequeuePhase::Idle;
                DequeueAction::Return(Some(displayed))
            },
            _ => {
                self.phase = DequeuePhase::Idle;
                DequeueAction::Return(None)
            },
        }
    }

    /// Takes the end of a wait for the surface's next image. A wait that
    /// timed out ends the call with `None`: a frame that was decoded but not
    /// displayed is not reported. After the first image the output queue is
    /// polled once more without waiting; after the second the call returns
    /// the second frame's timestamp.
    pub fn on_image(&mut self, satisfied: bool) -> (action: DequeueAction)
        ensures
            (final(self).spec_phase(), action) == image_step(old(self).spec_phase(), satisfied),
            final(self).spec_timeout_ns() == old(self).spec_timeout_ns(),
            final(self).spec_surface() == old(self).spec_surface(),
    {
        match self.phase {
            DequeuePhase::Waiting { timestamp } => {
                if satisfied {
                    self.phase = DequeuePhase::PollingAgain { displayed: timestamp };
                    DequeueAction::PollOutput { timeout_ns: 0 }
                } else {
                    self.phase = DequeuePhase::Idle;
                    DequeueAction::Return(None)
                }
            },
            DequeuePhase::WaitingAgain { timestamp } => {
                self.phase = DequeuePhase::Idle;
                if satisfied {
                    DequeueAction::Return(Some(timestamp))
                } else {
                    DequeueAction::Return(None)
                }
            },
            _ => {
                self.phase = DequeuePhase::Idle;
                DequeueAction::Return(None)
            },
        }
    }
}

/// What the caller needs to bring up the hardware decoder.
#[derive(Debug, PartialEq, Eq)]
pub struct DecoderSetup {
    /// The surface the decoder renders to.
    pub surface: SyncSurface,
    /// The MIME type by which the decoder is chosen.
    pub mime: String,
    /// The format the decoder is configured with, in order.
    pub format: Vec<FormatEntry>,
}

/// Prepares a decoder for the given codec: registers its output surface for
/// `output_texture`, builds its format from the codec-specific data and the
/// extra options, and returns the two halves of its handle. Nothing is
/// prepared once the surface identifiers are exhausted.
pub fn video_decoder_split(
    registry: &mut SyncGateRegistry,
    codec_type: CodecType,
    csd_0: &[u8],
    extra_options: &Vec<(String, MediacodecDataType)>,
    output_texture: i32,
) -> (split: Option<(DecoderSetup, VideoDecoderEnqueuer, VideoDecoderDequeuer)>)
    requires
        old(registry)@.wf(),
    ensures
        final(registry)@.wf(),
        match split {
            Some((setup, enqueuer, dequeuer)) => {
                &&& old(registry)@.last_id < i32::MAX
                &&& final(registry)@ == old(registry)@.created()
                &&& setup.surface.spec_id() == old(registry)@.last_id + 1
                &&& setup.surface.spec_gl_texture() == output_texture
                &&& setup.mime@ == spec_mime_type(codec_type)
                &&& entries_view(setup.format@) == spec_decoder_format(
                    codec_type,
                    csd_0@,
                    options_view(extra_options@),
                )
                &&& enqueuer.spec_surface_id() == setup.surface.spec_id()
                &&& enqueuer.spec_awaiting_keyframe()
                &&& dequeuer.spec_surface() == setup.surface
                &&& dequeuer.spec_phase() == DequeuePhase::Idle
                &&& dequeuer.spec_timeout_ns() == 0
            },
            None => old(registry)@.last_id == i32::MAX && final(registry)@ == old(registry)@,
        },
{
    match SyncSurface::new(registry, output_texture) {
        Some(surface) => {
            let setup = DecoderSetup {
                surface,
                mime: mime_type(codec_type).to_owned(),
                format: decoder_format(codec_type, csd_0, extra_options),
            };
            let enqueuer = VideoDecoderEnqueuer {
                surface_id: surface.id(),
                awaiting_keyframe: true,
            };
            let dequeuer = VideoDecoderDequeuer {
                surface,
                timeout_ns: 0,
                phase: DequeuePhase::Idle,
            };
            Some((setup, enqueuer, dequeuer))
        },
        None => None,
    }
}

/// What a whole dequeue call returns, from what the decoder answered to the
/// two polls and whether the two waits were satisfied. An answer or a wait
/// that the call does not get to is not looked at.
pub open spec fn dequeue_result(
    first: DecoderOutput,
    first_image: bool,
    second: DecoderOutput,
    second_image: bool,
) -> Option<u64> {
    match first {
        DecoderOutput::BufferDequeued { presentation_time_us: first_tag } => if first_image {
            match second {
                DecoderOutput::BufferDequeued { presentation_time_us: second_tag } => {
                    if second_image {
                        Some(spec_frame_timestamp(second_tag))
                    } else {
                        None
                    }
                },
                DecoderOutput::Other => Some(spec_frame_timestamp(first_tag)),
            }
        } else {
            None
        },
        DecoderOutput::Other => None,
    }
}

/// The last action of a dequeue call that is carried through: the steps are
/// taken in turn until one returns.
pub open spec fn dequeue_run(
    surface_id: i32,
    timeout_ns: u64,
    first: DecoderOutput,
    first_image: bool,
    second: DecoderOutput,
    second_image: bool,
) -> DequeueAction {
    let polled = output_step(DequeuePhase::Polling, surface_id, timeout_ns, first);
    if polled.1 is Return {
        polled.1
    } else {
        let shown = image_step(polled.0, first_image);
        if shown.1 is Return {
            shown.1
        } else {
            let polled_again = output_step(shown.0, surface_id, timeout_ns, second);
            if polled_again.1 is Return {
                polled_again.1
            } else {
                image_step(polled_again.0, second_image).1
            }
        }
    }
}

/// A dequeue call returns the timestamp of the last frame whose image was
/// confirmed, and `None` as soon as a released buffer's image was not: a
/// second frame that is ready at once supersedes the first. On the way a
/// decoded buffer is always released and waited for with the call's timeout,
/// and the second poll does not wait.
pub proof fn lemma_dequeue_frame(
    surface_id: i32,
    timeout_ns: u64,
    first: DecoderOutput,
    first_image: bool,
    second: DecoderOutput,
    second_image: bool,
)
    ensures
        dequeue_run(surface_id, timeout_ns, first, first_image, second, second_image)
            == DequeueAction::Return(dequeue_result(first, first_image, second, second_image)),
        first is BufferDequeued ==> output_step(
            DequeuePhase::Polling,
            surface_id,
            timeout_ns,
            first,
        ).1 == (DequeueAction::ReleaseAndWait { surface_id, timeout_ns }),
        first is BufferDequeued && first_image ==> image_step(
            output_step(DequeuePhase::Polling, surface_id, timeout_ns, first).0,
            first_image,
        ).1 == (DequeueAction::PollOutput { timeout_ns: 0 }),
{
}

/// The longest time the caller may spend on an action.
pub open spec fn action_time_bound(action: DequeueAction) -> nat {
    match action {
        DequeueAction::Sleep { duration_ns } => duration_ns as nat,
        DequeueAction::PollOutput { timeout_ns } => timeout_ns as nat,
        DequeueAction::ReleaseAndWait { timeout_ns, .. } => timeout_ns as nat,
        DequeueAction::Return(_) => 0,
    }
}

/// The longest time a dequeue call that is carried through may take: the sum
/// of the time bounds of the actions it asks for.
pub open spec fn dequeue_time_bound(
    surface_id: i32,
    timeout_ns: u64,
    first: DecoderOutput,
    first_image: bool,
    second: DecoderOutput,
) -> nat {
    let polled = output_step(DequeuePhase::Polling, surface_id, timeout_ns, first);
    let shown = image_step(polled.0, first_image);
    let polled_again = output_step(shown.0, surface_id, timeout_ns, second);
    timeout_ns as nat + action_time_bound(polled.1) + if polled.1 is Return {
        0
    } else {
        action_time_bound(shown.1) + if shown.1 is Return {
            0
        } else {
            action_time_bound(polled_again.1)
        }
    }
}

/// Every wait of a dequeue call is bounded: however the decoder and the
/// display answer, the call asks for at most two polls and two waits and is
/// over within three times its timeout. A step returns exactly when it
/// leaves the dequeuer idle.
pub proof fn lemma_dequeue_is_bounded(
    surface_id: i32,
    timeout_ns: u64,
    phase: DequeuePhase,
    output: DecoderOutput,
    image: bool,
    second: DecoderOutput,
)
    ensures
        dequeue_time_bound(surface_id, timeout_ns, output, image, second) <= 3 * timeout_ns,
        output_step(phase, surface_id, timeout_ns, output).1 is Return <==> output_step(
            phase,
            surface_id,
            timeout_ns,
            output,
        ).0 is Idle,
        image_step(phase, image).1 is Return <==> image_step(phase, image).0 is Idle,
        !(output_step(phase, surface_id, timeout_ns, output).1 is Sleep),
        !(image_step(phase, image).1 is Sleep),
{
}

/// A unit that is accepted with a presentation timestamp is queued under a
/// tag from which the dequeuer reads exactly that timestamp.
pub proof fn lemma_submitted_timestamp_comes_back(
    awaiting_keyframe: bool,
    timestamp: u64,
    size: usize,
    capacity: usize,
)
    requires
        size <= capacity,
    ensures
        push_result(awaiting_keyframe, timestamp, size, InputBuffer::Dequeued { capacity }) is Ok,
        spec_frame_timestamp(
            carried_tag(
                push_result(
                    awaiting_keyframe,
                    timestamp,
                    size,
                    InputBuffer::Dequeued { capacity },
                )->Ok_0.presentation_time,
            ),
        ) == timestamp,
{
    lemma_timestamp_round_trip(timestamp);
}

/// Every timestamp a dequeue call returns is the one carried by a buffer the
/// decoder handed out during that call.
pub proof fn lemma_returned_timestamp_was_decoded(
    first: DecoderOutput,
    first_image: bool,
    second: DecoderOutput,
    second_image: bool,
)
    ensures
        match dequeue_result(first, first_image, second, second_image) {
            Some(timestamp) => {
                ||| first == (DecoderOutput::BufferDequeued {
                    presentation_time_us: carried_tag(timestamp),
                })
                ||| second == (DecoderOutput::BufferDequeued {
                    presentation_time_us: carried_tag(timestamp),
                })
            },
            None => true,
        },
{
    match first {
        DecoderOutput::BufferDequeued { presentation_time_us } => {
            lemma_tag_round_trip(presentation_time_us);
        },
        _ => {},
    }
    match second {
        DecoderOutput::BufferDequeued { presentation_time_us } => {
            lemma_tag_round_trip(presentation_time_us);
        },
        _ => {},
    }
}

/// A tag is the one that carries the timestamp it stands for.
pub proof fn lemma_tag_round_trip(tag: i64)
    ensures
        carried_tag(spec_frame_timestamp(tag)) == tag,
{
    assert((tag as u64) as i64 == tag) by (bit_vector);
}

/// No fabricated timestamps: where the decoder hands out only buffers that
/// carry the tag of a submitted access unit, every timestamp a dequeue call
/// returns is the presentation timestamp of a submitted access unit.
pub proof fn lemma_returned_timestamp_was_submitted(
    submitted: Set<u64>,
    first: DecoderOutput,
    first_image: bool,
    second: DecoderOutput,
    second_image: bool,
)
    requires
        first matches DecoderOutput::BufferDequeued { presentation_time_us } ==> exists|ts: u64|
            submitted.contains(ts) && presentation_time_us == carried_tag(ts),
        second matches DecoderOutput::BufferDequeued { presentation_time_us } ==> exists|ts: u64|
            submitted.contains(ts) && presentation_time_us == carried_tag(ts),
    ensures
        match dequeue_result(first, first_image, second, second_image) {
            Some(timestamp) => submitted.contains(timestamp),
            None => true,
        },
{
    match first {
        DecoderOutput::BufferDequeued { presentation_time_us } => {
            let ts = choose|ts: u64|
                submitted.contains(ts) && presentation_time_us == carried_tag(ts);
            lemma_timestamp_round_trip(ts);
        },
        _ => {},
    }
    match second {
        DecoderOutput::BufferDequeued { presentation_time_us } => {
            let ts = choose|ts: u64|
                submitted.contains(ts) && presentation_time_us == carried_tag(ts);
            lemma_timestamp_round_trip(ts);
        },
        _ => {},
    }
}

} // verus!
