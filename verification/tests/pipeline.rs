use alvr_client_core::client::{
    alvr_get_prediction_offset_ns, alvr_report_submit, alvr_wait_for_frame, frame_code, ClientCore,
    FRAME_TIMEOUT_NS, IDLE_SLEEP_NS, INPUT_BUFFER_TIMEOUT_NS,
};
use alvr_client_core::config::{CodecType, DecoderInitConfig, MediacodecDataType};
use alvr_client_core::decoder::{
    DecoderOutput, DecoderSetup, DequeueAction, InputBuffer, Rejected, Submitted,
};
use alvr_client_core::lifecycle::{DecoderState, LifecycleAction};
use alvr_client_core::statistics::{FrameRecord, LatencySample, PendingSubmitRecord, Summary};
use alvr_client_core::sync_surface::WaitOutcome;
use std::collections::VecDeque;

const MS: u64 = 1_000_000;

/// A decoder and a display that answer from a script, on a clock that only
/// the waits advance.
struct Rig {
    core: ClientCore,
    clock: u64,
    /// Free input buffers of the decoder.
    free_inputs: usize,
    /// How long a queued unit takes to come out decoded.
    decode_time: u64,
    /// Decoded buffers: the instant each is ready, and its tag.
    outputs: VecDeque<(u64, i64)>,
    /// The instants at which the platform signals a new image.
    signals: VecDeque<u64>,
    texture_updates: u32,
    resyncs: u32,
    slept: u64,
}

impl Rig {
    fn new() -> Rig {
        Rig {
            core: ClientCore::new(16),
            clock: 0,
            free_inputs: 4,
            decode_time: 5 * MS,
            outputs: VecDeque::new(),
            signals: VecDeque::new(),
            texture_updates: 0,
            resyncs: 0,
            slept: 0,
        }
    }

    fn running() -> Rig {
        let mut rig = Rig::new();
        assert!(rig.core.set_decoder_config(DecoderInitConfig::new()));
        assert!(rig.create().is_some());
        rig
    }

    fn create(&mut self) -> Option<DecoderSetup> {
        let setup = self.core.create_decoder(&[0, 0, 0, 1]);
        if setup.is_some() {
            self.resyncs += 1;
        }
        setup
    }

    fn submit(&mut self, timestamp: u64, data: &[u8]) -> Result<Submitted, Rejected> {
        let timeout = match self.core.begin_push_nal() {
            Ok(timeout) => timeout,
            Err(rejected) => {
                if rejected.requests_resync() {
                    self.resyncs += 1;
                }
                return Err(rejected);
            }
        };
        let input = if self.free_inputs > 0 {
            self.free_inputs -= 1;
            InputBuffer::Dequeued { capacity: 4096 }
        } else {
            self.clock += timeout;
            InputBuffer::TryAgainLater
        };
        let result = self.core.push_nal(timestamp, data, input, self.clock);
        if let Ok(submitted) = result {
            self.outputs
                .push_back((self.clock + self.decode_time, submitted.presentation_time as i64));
        }
        result
    }

    fn poll_frame(&mut self) -> Option<u64> {
        let mut action = alvr_wait_for_frame(&mut self.core);
        loop {
            match action {
                DequeueAction::Sleep { duration_ns } => {
                    self.clock += duration_ns;
                    self.slept += duration_ns;
                    return None;
                }
                DequeueAction::PollOutput { timeout_ns } => {
                    let deadline = self.clock + timeout_ns;
                    let output = match self.outputs.front().copied() {
                        Some((ready, tag)) if ready <= deadline => {
                            self.outputs.pop_front();
                            self.free_inputs += 1;
                            self.clock = self.clock.max(ready);
                            DecoderOutput::BufferDequeued { presentation_time_us: tag }
                        }
                        _ => {
                            self.clock = deadline;
                            DecoderOutput::Other
                        }
                    };
                    action = self.core.on_decoder_output(output, self.clock);
                }
                DequeueAction::ReleaseAndWait { surface_id, timeout_ns } => {
                    let deadline = self.clock + timeout_ns;
                    if !self.core.surfaces().image_ready(surface_id) {
                        match self.signals.front().copied() {
                            Some(at) if at <= deadline => {
                                self.signals.pop_front();
                                self.clock = self.clock.max(at);
                                assert!(self.core.frame_available(surface_id));
                            }
                            _ => self.clock = deadline,
                        }
                    }
                    let (outcome, next) = self.core.on_image_wait_over(self.clock);
                    if outcome.updates_surface() {
                        self.texture_updates += 1;
                    }
                    action = next;
                }
                DequeueAction::Return(frame) => return frame,
            }
        }
    }

    fn wait_for_frame(&mut self) -> i64 {
        frame_code(self.poll_frame())
    }
}

#[test]
fn submit_before_configuration_is_not_ready() {
    let mut rig = Rig::new();
    assert_eq!(rig.core.state(), DecoderState::Uninitialized);
    assert_eq!(rig.core.begin_push_nal(), Err(Rejected::NotReady));
    assert_eq!(
        rig.core.push_nal(1000, &[1, 2, 3], InputBuffer::Dequeued { capacity: 16 }, 0),
        Err(Rejected::NotReady)
    );
    assert_eq!(
        rig.core.push_nal(1000, &[1, 2, 3], InputBuffer::TryAgainLater, 0),
        Err(Rejected::NotReady)
    );
    assert_eq!(rig.core.statistics().record(1000), None);
    assert_eq!(rig.core.state(), DecoderState::Uninitialized);
}

#[test]
fn submit_before_first_access_unit_is_not_ready() {
    let mut rig = Rig::new();
    assert!(rig.core.set_decoder_config(DecoderInitConfig::new()));
    assert_eq!(rig.core.state(), DecoderState::Configured);
    assert_eq!(rig.submit(1000, &[1, 2, 3]), Err(Rejected::NotReady));
    assert_eq!(rig.resyncs, 1);
    assert_eq!(rig.core.statistics().record(1000), None);
}

#[test]
fn create_without_configuration_does_nothing() {
    let mut rig = Rig::new();
    assert!(rig.create().is_none());
    assert_eq!(rig.core.state(), DecoderState::Uninitialized);
    assert_eq!(rig.resyncs, 0);
}

#[test]
fn one_setup_per_entry_into_running() {
    let mut rig = Rig::new();
    rig.core.set_decoder_config(DecoderInitConfig::new());
    assert!(rig.create().is_some());
    assert_eq!(rig.core.state(), DecoderState::Running);
    assert!(rig.create().is_none());
    assert!(rig.create().is_none());
    assert_eq!(rig.core.state(), DecoderState::Running);
    assert_eq!(rig.resyncs, 1);
    assert_eq!(rig.core.decoder_failed(), LifecycleAction::AbandonDecoder);
    assert_eq!(rig.core.state(), DecoderState::Error);
    assert!(rig.create().is_some());
    assert!(rig.create().is_none());
    assert_eq!(rig.resyncs, 2);
}

#[test]
fn setup_follows_the_configuration() {
    let mut rig = Rig::new();
    let config = DecoderInitConfig {
        codec: CodecType::HEVC,
        options: vec![("priority".to_owned(), MediacodecDataType::Int32(0))],
        gl_surface_handle: 42,
    };
    assert!(rig.core.set_decoder_config(config));
    let setup = rig.core.create_decoder(&[1, 2, 3]).unwrap();
    assert_eq!(setup.mime, "video/hevc");
    assert_eq!(setup.surface.id(), 1);
    assert_eq!(setup.surface.gl_texture(), 42);
    assert_eq!(setup.format.len(), 5);
    assert_eq!(setup.format[4].key, "priority");
    assert!(rig.core.surfaces().is_live(1));
}

#[test]
fn configuration_is_refused_while_the_decoder_runs() {
    let mut rig = Rig::running();
    let config = DecoderInitConfig {
        codec: CodecType::HEVC,
        options: Vec::new(),
        gl_surface_handle: 5,
    };
    assert!(!rig.core.set_decoder_config(config));
    assert_eq!(rig.core.state(), DecoderState::Running);
    rig.core.decoder_failed();
    let setup = rig.core.create_decoder(&[]).unwrap();
    assert_eq!(setup.mime, "video/avc");
    assert_eq!(setup.surface.gl_texture(), 0);
}

#[test]
fn submitted_unit_gets_a_pending_record() {
    let mut rig = Rig::running();
    rig.clock = 77;
    assert_eq!(
        rig.submit(1000, &[1, 2, 3]),
        Ok(Submitted {
            offset: 0,
            size: 3,
            presentation_time: 1000,
            flags: 0,
            keyframe_request_settled: true,
        })
    );
    assert_eq!(
        rig.core.statistics().record(1000),
        Some(FrameRecord::Pending(PendingSubmitRecord { timestamp: 1000, submit_instant: 77 }))
    );
    assert_eq!(rig.submit(1016, &[4]).unwrap().keyframe_request_settled, false);
    assert_eq!(rig.resyncs, 1);
}

#[test]
fn busy_unit_succeeds_when_retried_after_a_buffer_freed() {
    let mut rig = Rig::running();
    rig.free_inputs = 0;
    assert_eq!(rig.core.begin_push_nal(), Ok(INPUT_BUFFER_TIMEOUT_NS));
    assert_eq!(rig.submit(1000, &[1, 2, 3]), Err(Rejected::Busy));
    assert_eq!(rig.clock, INPUT_BUFFER_TIMEOUT_NS);
    assert_eq!(rig.core.statistics().record(1000), None);
    assert_eq!(rig.core.state(), DecoderState::Running);
    rig.free_inputs = 1;
    let submitted = rig.submit(1000, &[1, 2, 3]).unwrap();
    assert_eq!(submitted.presentation_time, 1000);
    assert_eq!(submitted.size, 3);
    assert_eq!(
        rig.core.statistics().record(1000),
        Some(FrameRecord::Pending(PendingSubmitRecord {
            timestamp: 1000,
            submit_instant: INPUT_BUFFER_TIMEOUT_NS,
        }))
    );
    // a busy decoder asks for no resync
    assert_eq!(rig.resyncs, 1);
}

#[test]
fn frame_signaled_in_time_is_returned() {
    let mut rig = Rig::running();
    rig.submit(1000, &[1]).unwrap();
    assert_eq!(rig.outputs.front(), Some(&(5 * MS, 1000)));
    rig.signals.push_back(6 * MS);
    assert_eq!(rig.poll_frame(), Some(1000));
    // decoded at +5 ms, displayed at +6 ms, then one more poll without waiting
    assert_eq!(rig.clock, 6 * MS);
    assert_eq!(rig.texture_updates, 1);
}

#[test]
fn frame_never_signaled_is_not_returned() {
    let mut rig = Rig::running();
    rig.submit(1000, &[1]).unwrap();
    rig.signals.push_back(5 * MS + FRAME_TIMEOUT_NS + 1);
    assert_eq!(rig.poll_frame(), None);
    assert_eq!(rig.clock, 5 * MS + FRAME_TIMEOUT_NS);
    // the texture is updated even though the image did not come
    assert_eq!(rig.texture_updates, 1);
    assert!(rig.outputs.is_empty());
}

#[test]
fn later_of_two_ready_frames_is_returned() {
    let mut rig = Rig::running();
    rig.decode_time = 0;
    rig.submit(1000, &[1]).unwrap();
    rig.submit(1016, &[2]).unwrap();
    rig.signals.push_back(0);
    rig.signals.push_back(0);
    assert_eq!(rig.poll_frame(), Some(1016));
    assert_eq!(rig.texture_updates, 2);
    assert!(rig.outputs.is_empty());
}

#[test]
fn second_frame_without_image_drops_the_whole_poll() {
    let mut rig = Rig::running();
    rig.decode_time = 0;
    rig.submit(1000, &[1]).unwrap();
    rig.submit(1016, &[2]).unwrap();
    rig.signals.push_back(MS);
    assert_eq!(rig.poll_frame(), None);
    assert_eq!(rig.clock, MS + FRAME_TIMEOUT_NS);
    assert_eq!(rig.texture_updates, 2);
}

#[test]
fn second_frame_not_yet_decoded_is_left_for_the_next_poll() {
    let mut rig = Rig::running();
    rig.submit(1000, &[1]).unwrap();
    rig.clock = MS;
    rig.submit(1016, &[2]).unwrap();
    rig.signals.push_back(5 * MS);
    rig.signals.push_back(7 * MS);
    assert_eq!(rig.poll_frame(), Some(1000));
    assert_eq!(rig.clock, 5 * MS);
    assert_eq!(rig.poll_frame(), Some(1016));
    assert_eq!(rig.clock, 7 * MS);
}

#[test]
fn signal_before_the_wait_satisfies_it() {
    let mut rig = Rig::running();
    rig.submit(1000, &[1]).unwrap();
    assert!(rig.core.frame_available(1));
    assert_eq!(rig.poll_frame(), Some(1000));
    assert_eq!(rig.clock, 5 * MS);
    assert!(!rig.core.surfaces().image_ready(1));
}

#[test]
fn poll_without_output_returns_none_after_the_timeout() {
    let mut rig = Rig::running();
    assert_eq!(rig.wait_for_frame(), -1);
    assert_eq!(rig.clock, FRAME_TIMEOUT_NS);
    assert_eq!(rig.texture_updates, 0);
    assert_eq!(rig.slept, 0);
}

#[test]
fn poll_without_decoder_sleeps_and_returns_none() {
    let mut rig = Rig::new();
    assert_eq!(
        alvr_wait_for_frame(&mut rig.core),
        DequeueAction::Sleep { duration_ns: IDLE_SLEEP_NS }
    );
    assert_eq!(rig.wait_for_frame(), -1);
    assert_eq!(rig.slept, IDLE_SLEEP_NS);
    assert_eq!(rig.core.on_decoder_output(DecoderOutput::Other, 0), DequeueAction::Return(None));
    assert_eq!(
        rig.core.on_image_wait_over(0),
        (WaitOutcome::Released, DequeueAction::Return(None))
    );
}

#[test]
fn returned_timestamps_were_submitted() {
    let mut rig = Rig::running();
    let submitted: [u64; 5] = [1000, 1016, 1033, u64::MAX - 3, 1 << 63];
    let mut returned: Vec<u64> = Vec::new();
    for (i, timestamp) in submitted.iter().enumerate() {
        rig.submit(*timestamp, &[0]).unwrap();
        rig.signals.push_back(rig.clock + 6 * MS);
        if let Some(frame) = rig.poll_frame() {
            returned.push(frame);
        }
        assert_eq!(returned.len(), i + 1);
    }
    assert_eq!(returned, submitted);
}

#[test]
fn displayed_frame_is_measured_end_to_end() {
    let mut rig = Rig::running();
    rig.clock = 100;
    rig.submit(1000, &[1]).unwrap();
    rig.signals.push_back(100 + 6 * MS);
    assert_eq!(rig.wait_for_frame(), 1000);
    assert_eq!(alvr_get_prediction_offset_ns(&rig.core), 0);
    let summary = alvr_report_submit(&mut rig.core, 1000, 2 * MS, 100 + 9 * MS);
    assert_eq!(
        summary,
        Some(Summary {
            target_timestamp: 1000,
            video_decode: 6 * MS,
            rendering: 3 * MS,
            vsync_queue: 2 * MS,
            total_pipeline_latency: 8 * MS,
        })
    );
    assert_eq!(alvr_get_prediction_offset_ns(&rig.core), 8 * MS);
    assert_eq!(rig.core.statistics().summary(1000), summary);
}

#[test]
fn render_submit_of_an_unknown_frame_is_not_ready() {
    let mut rig = Rig::running();
    assert_eq!(alvr_report_submit(&mut rig.core, 1000, MS, 5), None);
    rig.submit(1000, &[1]).unwrap();
    assert_eq!(alvr_report_submit(&mut rig.core, 1000, MS, 5), None);
    assert_eq!(alvr_get_prediction_offset_ns(&rig.core), 0);
}

#[test]
fn frame_codes_are_the_timestamp_or_minus_one() {
    assert_eq!(frame_code(None), -1);
    assert_eq!(frame_code(Some(0)), 0);
    assert_eq!(frame_code(Some(1000)), 1000);
    assert_eq!(frame_code(Some(i64::MAX as u64)), i64::MAX);
    assert_eq!(frame_code(Some(1 << 63)), i64::MIN);
    assert_eq!(frame_code(Some(u64::MAX)), -1);
}

#[test]
fn decoder_failure_frees_the_handle_and_asks_for_resync() {
    let mut rig = Rig::running();
    rig.submit(1000, &[1]).unwrap();
    let action = rig.core.decoder_failed();
    assert_eq!(action, LifecycleAction::AbandonDecoder);
    assert!(action.requests_resync());
    assert!(action.frees_decoder());
    assert_eq!(rig.core.state(), DecoderState::Error);
    assert!(!rig.core.surfaces().is_live(1));
    assert!(!rig.core.frame_available(1));
    assert_eq!(rig.core.begin_push_nal(), Err(Rejected::NotReady));
    assert_eq!(rig.core.decoder_failed(), LifecycleAction::Nothing);
    assert_eq!(rig.core.state(), DecoderState::Error);
    // the next access unit brings a new decoder on a new surface
    let setup = rig.create().unwrap();
    assert_eq!(setup.surface.id(), 2);
    assert_eq!(rig.core.state(), DecoderState::Running);
    // records of the lost decoder are gone
    assert_eq!(rig.core.statistics().record(1000), None);
    assert_eq!(rig.submit(1016, &[1]).unwrap().keyframe_request_settled, true);
}

#[test]
fn wait_under_way_ends_when_the_decoder_is_gone() {
    let mut rig = Rig::running();
    assert_eq!(
        alvr_wait_for_frame(&mut rig.core),
        DequeueAction::PollOutput { timeout_ns: FRAME_TIMEOUT_NS }
    );
    assert_eq!(
        rig.core.on_decoder_output(DecoderOutput::BufferDequeued { presentation_time_us: 1000 }, 0),
        DequeueAction::ReleaseAndWait { surface_id: 1, timeout_ns: FRAME_TIMEOUT_NS }
    );
    assert_eq!(rig.core.stop(), LifecycleAction::ReleaseDecoder);
    assert_eq!(rig.core.state(), DecoderState::Stopped);
    assert_eq!(
        rig.core.on_image_wait_over(0),
        (WaitOutcome::Released, DequeueAction::Return(None))
    );
}

#[test]
fn stopped_stream_needs_a_new_configuration() {
    let mut rig = Rig::running();
    rig.core.stop();
    assert!(!rig.core.surfaces().is_live(1));
    assert!(rig.create().is_none());
    assert_eq!(rig.submit(1000, &[1]), Err(Rejected::NotReady));
    assert_eq!(rig.core.stop(), LifecycleAction::Nothing);
    assert!(rig.core.set_decoder_config(DecoderInitConfig::new()));
    assert!(rig.create().is_some());
    assert_eq!(rig.core.state(), DecoderState::Running);
}

#[test]
fn samples_survive_a_new_decoder() {
    let mut rig = Rig::running();
    rig.submit(1000, &[1]).unwrap();
    rig.signals.push_back(6 * MS);
    assert_eq!(rig.wait_for_frame(), 1000);
    let summary = alvr_report_submit(&mut rig.core, 1000, MS, 8 * MS);
    assert!(summary.is_some());
    rig.submit(1016, &[1]).unwrap();
    rig.core.decoder_failed();
    rig.create().unwrap();
    assert_eq!(rig.core.statistics().summary(1000), summary);
    assert_eq!(rig.core.statistics().record(1016), None);
    assert_eq!(alvr_get_prediction_offset_ns(&rig.core), 7 * MS);
}

#[test]
fn returned_frame_has_its_decode_completion_recorded() {
    let mut rig = Rig::running();
    rig.clock = 100;
    rig.submit(1000, &[1]).unwrap();
    rig.signals.push_back(100 + 6 * MS);
    assert_eq!(rig.poll_frame(), Some(1000));
    assert_eq!(
        rig.core.statistics().record(1000),
        Some(FrameRecord::Sample(LatencySample {
            timestamp: 1000,
            submit_instant: 100,
            decode_done_instant: 100 + 6 * MS,
            render_submit: None,
        }))
    );
}

#[test]
fn dropped_frame_keeps_its_pending_record() {
    let mut rig = Rig::running();
    rig.submit(1000, &[1]).unwrap();
    assert_eq!(rig.poll_frame(), None);
    assert_eq!(
        rig.core.statistics().record(1000),
        Some(FrameRecord::Pending(PendingSubmitRecord { timestamp: 1000, submit_instant: 0 }))
    );
}

#[test]
fn superseded_frame_keeps_its_pending_record() {
    let mut rig = Rig::running();
    rig.decode_time = 0;
    rig.submit(1000, &[1]).unwrap();
    rig.submit(1016, &[2]).unwrap();
    rig.signals.push_back(MS);
    rig.signals.push_back(2 * MS);
    assert_eq!(rig.poll_frame(), Some(1016));
    assert!(matches!(rig.core.statistics().record(1000), Some(FrameRecord::Pending(_))));
    assert_eq!(
        rig.core.statistics().record(1016),
        Some(FrameRecord::Sample(LatencySample {
            timestamp: 1016,
            submit_instant: 0,
            decode_done_instant: 2 * MS,
            render_submit: None,
        }))
    );
}

#[test]
fn image_wait_is_due_on_signal_or_without_decoder() {
    let mut rig = Rig::new();
    assert!(rig.core.image_wait_due());
    rig.core.set_decoder_config(DecoderInitConfig::new());
    rig.create().unwrap();
    assert!(!rig.core.image_wait_due());
    assert!(rig.core.frame_available(1));
    assert!(rig.core.image_wait_due());
    assert_eq!(rig.core.on_image_wait_over(0).0, WaitOutcome::Ready);
    assert!(!rig.core.image_wait_due());
    rig.core.stop();
    assert!(rig.core.image_wait_due());
}

#[test]
fn configuration_in_force_can_be_read() {
    let mut rig = Rig::new();
    assert_eq!(rig.core.codec(), CodecType::H264);
    assert_eq!(rig.core.gl_surface_handle(), 0);
    rig.core.set_decoder_config(DecoderInitConfig {
        codec: CodecType::HEVC,
        options: Vec::new(),
        gl_surface_handle: 12,
    });
    assert_eq!(rig.core.codec(), CodecType::HEVC);
    assert_eq!(rig.core.gl_surface_handle(), 12);
}

#[test]
fn oversize_unit_is_dropped_without_record() {
    let mut rig = Rig::running();
    assert_eq!(
        rig.core.push_nal(1000, &[1, 2, 3], InputBuffer::Dequeued { capacity: 1 }, 5),
        Err(Rejected::TooLarge)
    );
    assert_eq!(rig.core.statistics().record(1000), None);
    assert_eq!(rig.core.state(), DecoderState::Running);
    // the same unit goes through once a buffer holds it, as the first one accepted
    assert_eq!(
        rig.core.push_nal(1000, &[1, 2, 3], InputBuffer::Dequeued { capacity: 3 }, 9),
        Ok(Submitted {
            offset: 0,
            size: 3,
            presentation_time: 1000,
            flags: 0,
            keyframe_request_settled: true,
        })
    );
    assert_eq!(
        rig.core.statistics().record(1000),
        Some(FrameRecord::Pending(PendingSubmitRecord { timestamp: 1000, submit_instant: 9 }))
    );
}

#[test]
fn oversize_unit_without_decoder_is_not_ready() {
    let mut rig = Rig::new();
    assert_eq!(
        rig.core.push_nal(1000, &[1, 2, 3], InputBuffer::Dequeued { capacity: 1 }, 0),
        Err(Rejected::NotReady)
    );
}

#[test]
fn fresh_context_holds_the_default_configuration() {
    let mut core = ClientCore::new(4);
    assert_eq!(core.state(), DecoderState::Uninitialized);
    assert_eq!(core.codec(), CodecType::H264);
    assert_eq!(core.gl_surface_handle(), 0);
    assert!(!core.surfaces().is_live(1));
    assert_eq!(core.statistics().max_history_size(), 4);
    assert_eq!(alvr_get_prediction_offset_ns(&core), 0);
    // the default is what a decoder is built from once it counts as configured
    assert!(core.set_decoder_config(DecoderInitConfig::new()));
    let setup = core.create_decoder(&[7]).unwrap();
    assert_eq!(setup.mime, "video/avc");
    assert_eq!(setup.format.len(), 4);
    assert_eq!(setup.surface.gl_texture(), 0);
}
