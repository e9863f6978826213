use alvr_client_core::statistics::{
    FrameRecord, LatencySample, PendingSubmitRecord, RenderSubmit, StatisticsManager, Summary,
};

const MS: u64 = 1_000_000;

fn completed(stats: &mut StatisticsManager, timestamp: u64, submit: u64, decoded: u64, queue: u64) {
    stats.report_frame_enqueued(timestamp, submit);
    stats.report_frame_decoded(timestamp, decoded);
    stats.report_submit(timestamp, queue, decoded + MS);
}

#[test]
fn fresh_engine_has_no_latency_and_no_summary() {
    let stats = StatisticsManager::new(8);
    assert_eq!(stats.max_history_size(), 8);
    assert_eq!(stats.average_total_pipeline_latency(), 0);
    assert_eq!(stats.summary(0), None);
    assert_eq!(stats.summary(1000), None);
    assert_eq!(stats.record(1000), None);
}

#[test]
fn enqueued_frame_has_a_pending_record() {
    let mut stats = StatisticsManager::new(8);
    stats.report_frame_enqueued(1000, 100);
    assert_eq!(
        stats.record(1000),
        Some(FrameRecord::Pending(PendingSubmitRecord { timestamp: 1000, submit_instant: 100 }))
    );
    assert_eq!(stats.summary(1000), None);
    assert_eq!(stats.average_total_pipeline_latency(), 0);
}

#[test]
fn decode_completion_turns_the_record_into_an_open_sample() {
    let mut stats = StatisticsManager::new(8);
    stats.report_frame_enqueued(1000, 100);
    stats.report_frame_decoded(1000, 100 + 5 * MS);
    assert_eq!(
        stats.record(1000),
        Some(FrameRecord::Sample(LatencySample {
            timestamp: 1000,
            submit_instant: 100,
            decode_done_instant: 100 + 5 * MS,
            render_submit: None,
        }))
    );
    assert_eq!(stats.summary(1000), None);
    assert_eq!(stats.average_total_pipeline_latency(), 0);
}

#[test]
fn summary_holds_decode_rendering_queue_and_total() {
    let mut stats = StatisticsManager::new(8);
    stats.report_frame_enqueued(1000, 100);
    stats.report_frame_decoded(1000, 100 + 5 * MS);
    stats.report_submit(1000, 3 * MS, 100 + 9 * MS);
    let expected = Summary {
        target_timestamp: 1000,
        video_decode: 5 * MS,
        rendering: 4 * MS,
        vsync_queue: 3 * MS,
        total_pipeline_latency: 8 * MS,
    };
    assert_eq!(stats.summary(1000), Some(expected));
    assert_eq!(stats.summary(1000), Some(expected));
    assert_eq!(stats.average_total_pipeline_latency(), 8 * MS);
    assert_eq!(
        stats.record(1000),
        Some(FrameRecord::Sample(LatencySample {
            timestamp: 1000,
            submit_instant: 100,
            decode_done_instant: 100 + 5 * MS,
            render_submit: Some(RenderSubmit { instant: 100 + 9 * MS, vsync_queue: 3 * MS }),
        }))
    );
}

#[test]
fn summary_is_absent_until_both_reports_arrived() {
    let mut stats = StatisticsManager::new(8);
    stats.report_frame_enqueued(7, 10);
    assert_eq!(stats.summary(7), None);
    // a render submission without a decode completion is stale
    stats.report_submit(7, 5, 20);
    assert_eq!(stats.summary(7), None);
    assert_eq!(stats.average_total_pipeline_latency(), 0);
    stats.report_frame_decoded(7, 30);
    assert_eq!(stats.summary(7), None);
    stats.report_submit(7, 5, 40);
    assert_eq!(
        stats.summary(7),
        Some(Summary {
            target_timestamp: 7,
            video_decode: 20,
            rendering: 10,
            vsync_queue: 5,
            total_pipeline_latency: 25,
        })
    );
}

#[test]
fn decode_completion_without_submit_record_is_ignored() {
    let mut stats = StatisticsManager::new(8);
    stats.report_frame_decoded(1000, 50);
    assert_eq!(stats.record(1000), None);
    stats.report_submit(1000, 5, 60);
    assert_eq!(stats.summary(1000), None);
    assert_eq!(stats.average_total_pipeline_latency(), 0);
}

#[test]
fn repeated_reports_do_not_change_a_sample() {
    let mut stats = StatisticsManager::new(8);
    completed(&mut stats, 1, 0, 10, 4);
    let summary = stats.summary(1);
    assert_eq!(stats.average_total_pipeline_latency(), 14);
    stats.report_frame_decoded(1, 500);
    stats.report_submit(1, 900, 1000);
    assert_eq!(stats.summary(1), summary);
    assert_eq!(stats.average_total_pipeline_latency(), 14);
}

#[test]
fn average_is_the_mean_rounded_down() {
    let mut stats = StatisticsManager::new(8);
    completed(&mut stats, 1, 0, 8 * MS, 0);
    completed(&mut stats, 2, 0, 5 * MS, 1);
    // (8_000_000 + 5_000_001) / 2
    assert_eq!(stats.average_total_pipeline_latency(), 6_500_000);
    completed(&mut stats, 3, 0, 0, 2);
    // (8_000_000 + 5_000_001 + 2) / 3
    assert_eq!(stats.average_total_pipeline_latency(), 4_333_334);
}

#[test]
fn average_covers_only_the_latest_samples() {
    let mut stats = StatisticsManager::new(2);
    completed(&mut stats, 1, 0, 10, 0);
    completed(&mut stats, 2, 0, 20, 0);
    assert_eq!(stats.average_total_pipeline_latency(), 15);
    completed(&mut stats, 3, 0, 40, 0);
    assert_eq!(stats.average_total_pipeline_latency(), 30);
}

#[test]
fn window_of_one_follows_the_last_sample() {
    let mut stats = StatisticsManager::new(1);
    completed(&mut stats, 1, 0, 10, 0);
    assert_eq!(stats.average_total_pipeline_latency(), 10);
    completed(&mut stats, 2, 0, 70, 5);
    assert_eq!(stats.average_total_pipeline_latency(), 75);
    assert_eq!(stats.summary(1), None);
    assert!(stats.summary(2).is_some());
}

#[test]
fn oldest_record_leaves_a_full_history() {
    let mut stats = StatisticsManager::new(2);
    stats.report_frame_enqueued(1, 10);
    stats.report_frame_enqueued(2, 20);
    stats.report_frame_enqueued(3, 30);
    assert_eq!(stats.record(1), None);
    assert!(stats.record(2).is_some());
    assert!(stats.record(3).is_some());
    // the evicted frame is stale from now on
    stats.report_frame_decoded(1, 40);
    assert_eq!(stats.record(1), None);
}

#[test]
fn resubmitted_timestamp_supersedes_its_record() {
    let mut stats = StatisticsManager::new(2);
    stats.report_frame_enqueued(5, 10);
    stats.report_frame_enqueued(6, 11);
    stats.report_frame_enqueued(5, 20);
    assert_eq!(
        stats.record(5),
        Some(FrameRecord::Pending(PendingSubmitRecord { timestamp: 5, submit_instant: 20 }))
    );
    // still two records: nothing was evicted
    assert!(stats.record(6).is_some());
    // 6 is now the oldest
    stats.report_frame_enqueued(7, 30);
    assert_eq!(stats.record(6), None);
    assert!(stats.record(5).is_some());
}

#[test]
fn clock_readings_out_of_order_count_as_zero() {
    let mut stats = StatisticsManager::new(4);
    stats.report_frame_enqueued(1, 100);
    stats.report_frame_decoded(1, 40);
    stats.report_submit(1, 7, 10);
    assert_eq!(
        stats.summary(1),
        Some(Summary {
            target_timestamp: 1,
            video_decode: 0,
            rendering: 0,
            vsync_queue: 7,
            total_pipeline_latency: 7,
        })
    );
}

#[test]
fn total_latency_is_held_at_the_largest_duration() {
    let mut stats = StatisticsManager::new(4);
    stats.report_frame_enqueued(1, 0);
    stats.report_frame_decoded(1, 10);
    stats.report_submit(1, u64::MAX, 20);
    assert_eq!(stats.summary(1).unwrap().total_pipeline_latency, u64::MAX);
    assert_eq!(stats.average_total_pipeline_latency(), u64::MAX);
    stats.report_frame_enqueued(2, 0);
    stats.report_frame_decoded(2, u64::MAX);
    stats.report_submit(2, 0, u64::MAX);
    assert_eq!(stats.summary(2).unwrap().video_decode, u64::MAX);
    assert_eq!(stats.average_total_pipeline_latency(), u64::MAX);
}

#[test]
fn discarding_pending_records_keeps_samples() {
    let mut stats = StatisticsManager::new(8);
    stats.report_frame_enqueued(1, 0);
    completed(&mut stats, 2, 0, 10, 1);
    stats.report_frame_enqueued(3, 5);
    stats.report_frame_enqueued(4, 6);
    stats.report_frame_decoded(4, 9);
    stats.discard_pending();
    assert_eq!(stats.record(1), None);
    assert_eq!(stats.record(3), None);
    assert!(stats.summary(2).is_some());
    assert!(matches!(stats.record(4), Some(FrameRecord::Sample(_))));
    assert_eq!(stats.average_total_pipeline_latency(), 11);
    // a discarded frame is stale
    stats.report_frame_decoded(1, 50);
    assert_eq!(stats.record(1), None);
}

#[test]
fn sample_figures_follow_their_instants() {
    let sample = LatencySample {
        timestamp: 9,
        submit_instant: 1_000,
        decode_done_instant: 4_500,
        render_submit: None,
    };
    assert_eq!(sample.video_decode(), 3_500);
    assert_eq!(sample.total_pipeline_latency(500), 4_000);
    assert_eq!(sample.summary(), None);
    assert_eq!(FrameRecord::Sample(sample).key(), 9);
    assert_eq!(
        FrameRecord::Pending(PendingSubmitRecord { timestamp: 3, submit_instant: 0 }).key(),
        3
    );
}

#[test]
fn average_forgets_what_left_the_window() {
    let mut stats = StatisticsManager::new(3);
    completed(&mut stats, 1, 0, 900, 0);
    completed(&mut stats, 2, 0, 10, 0);
    completed(&mut stats, 3, 0, 50, 0);
    assert_eq!(stats.average_total_pipeline_latency(), 320);
    completed(&mut stats, 4, 0, 20, 5);
    completed(&mut stats, 5, 0, 25, 0);
    completed(&mut stats, 6, 0, 5, 20);
    assert_eq!(stats.average_total_pipeline_latency(), 25);
}

#[test]
fn average_lies_between_the_smallest_and_the_largest_sample() {
    let mut stats = StatisticsManager::new(8);
    let samples: [u64; 5] = [40, 7, 19, 1000, 3];
    for (i, latency) in samples.iter().enumerate() {
        completed(&mut stats, i as u64, 0, *latency, 0);
        let average: u64 = stats.average_total_pipeline_latency();
        assert!(3 <= average && average <= 1000);
    }
    // (40 + 7 + 19 + 1000 + 3) / 5
    assert_eq!(stats.average_total_pipeline_latency(), 213);
}
