//! What the latency statistics hold after a sequence of reports.
//!
//! The engine's state is a function of the reports it received. This module
//! states each report's effect on single records, and proves over whole
//! sequences of reports that a summary exists only for a frame whose decode
//! completion and render submission were both reported, in that order, and
//! that the rolling average is zero until a first sample was completed.
use crate::statistics::{
    distinct_timestamps, holds, keep_latest, lemma_discard_pending, lemma_keep_latest_push,
    lemma_position_unique, lemma_push_distinct, lemma_remove_distinct, lemma_skip_distinct,
    lemma_mean_bound, lemma_update_distinct, capped_sum, elapsed, mean, position, record_of, sum,
    FrameRecord, LatencySample, PendingSubmitRecord, RenderSubmit, StatisticsState, Summary,
};
use vstd::prelude::*;

verus! {

/// A record found at an index is the record kept for its timestamp.
pub proof fn lemma_record_at(history: Seq<FrameRecord>, i: int)
    requires
        distinct_timestamps(history),
        0 <= i < history.len(),
    ensures
        record_of(history, history[i].timestamp()) == Some(history[i]),
{
    lemma_position_unique(history, i);
}

/// Entering the decode stage leaves a pending record for the frame and
/// changes no other record that is still kept.
pub proof fn lemma_frame_enqueued(state: StatisticsState, timestamp: u64, now: u64)
    requires
        state.wf(),
    ensures
        state.frame_enqueued(timestamp, now).wf(),
        state.frame_enqueued(timestamp, now).latencies == state.latencies,
        state.frame_enqueued(timestamp, now).record(timestamp) == Some(
            FrameRecord::Pending(PendingSubmitRecord { timestamp, submit_instant: now }),
        ),
        forall|other: u64|
            other != timestamp && state.frame_enqueued(timestamp, now).record(other) is Some
                ==> state.frame_enqueued(timestamp, now).record(other) == state.record(other),
{
    let h = state.history;
    let limit = state.max_history_size;
    let found = holds(h, timestamp);
    let p = position(h, timestamp);
    let kept = if found { h.remove(p) } else { h };
    let fresh = FrameRecord::Pending(PendingSubmitRecord { timestamp, submit_instant: now });
    if found {
        lemma_remove_distinct(h, p);
    }
    assert(!holds(kept, timestamp));
    lemma_push_distinct(kept, fresh);
    let pushed = kept.push(fresh);
    let next = state.frame_enqueued(timestamp, now);
    let d: int = if pushed.len() > limit { 1 } else { 0 };
    assert(next.history == keep_latest(pushed, limit));
    if d == 1 {
        lemma_skip_distinct(pushed, 1);
        assert(next.history == pushed.skip(1));
    }
    assert(next.wf());
    let last = next.history.len() - 1;
    assert(next.history[last] == fresh);
    lemma_record_at(next.history, last);
    assert forall|other: u64| other != timestamp && next.record(other) is Some implies next.record(
        other,
    ) == state.record(other) by {
        let k = position(next.history, other);
        assert(next.history[k].timestamp() == other);
        let kk = k + d;
        assert(next.history[k] == pushed[kk]);
        assert(kk < kept.len());
        let j = if found && kk >= p { kk + 1 } else { kk };
        assert(kept[kk] == h[j]);
        lemma_record_at(h, j);
    }
}

/// A decode completion turns the frame's pending record into a sample and
/// changes no other record.
pub proof fn lemma_frame_decoded(state: StatisticsState, timestamp: u64, now: u64)
    requires
        state.wf(),
    ensures
        state.frame_decoded(timestamp, now).wf(),
        state.frame_decoded(timestamp, now).latencies == state.latencies,
        forall|other: u64|
            other != timestamp ==> state.frame_decoded(timestamp, now).record(other)
                == state.record(other),
        state.frame_decoded(timestamp, now).record(timestamp) == match state.record(timestamp) {
            Some(FrameRecord::Pending(pending)) => Some(
                FrameRecord::Sample(
                    LatencySample {
                        timestamp,
                        submit_instant: pending.submit_instant,
                        decode_done_instant: now,
                        render_submit: None,
                    },
                ),
            ),
            kept => kept,
        },
{
    let h = state.history;
    match state.record(timestamp) {
        Some(FrameRecord::Pending(pending)) => {
            let p = position(h, timestamp);
            let sample = FrameRecord::Sample(
                LatencySample {
                    timestamp,
                    submit_instant: pending.submit_instant,
                    decode_done_instant: now,
                    render_submit: None,
                },
            );
            lemma_update_distinct(h, p, sample);
            let next = state.frame_decoded(timestamp, now);
            assert(next.history == h.update(p, sample));
            assert forall|other: u64| other != timestamp implies next.record(other) == state.record(
                other,
            ) by {
                if holds(h, other) {
                    let k = position(h, other);
                    assert(h[k].timestamp() == other);
                    assert(k != p);
                }
            }
        },
        _ => {},
    }
}

/// A render submission completes the frame's sample where it is still open,
/// feeds its total latency to the window, and changes no other record.
pub proof fn lemma_submit(state: StatisticsState, timestamp: u64, vsync_queue: u64, now: u64)
    requires
        state.wf(),
    ensures
        state.submit(timestamp, vsync_queue, now).wf(),
        forall|other: u64|
            other != timestamp ==> state.submit(timestamp, vsync_queue, now).record(other)
                == state.record(other),
        match state.record(timestamp) {
            Some(FrameRecord::Sample(sample)) => if sample.render_submit is None {
                &&& state.submit(timestamp, vsync_queue, now).record(timestamp) == Some(
                    FrameRecord::Sample(
                        LatencySample {
                            render_submit: Some(RenderSubmit { instant: now, vsync_queue }),
                            ..sample
                        },
                    ),
                )
                &&& state.submit(timestamp, vsync_queue, now).latencies == keep_latest(
                    state.latencies.push(sample.spec_total_pipeline_latency(vsync_queue)),
                    state.max_history_size,
                )
            } else {
                state.submit(timestamp, vsync_queue, now) == state
            },
            _ => state.submit(timestamp, vsync_queue, now) == state,
        },
{
    let h = state.history;
    match state.record(timestamp) {
        Some(FrameRecord::Sample(sample)) => {
            if sample.render_submit is None {
                let p = position(h, timestamp);
                let done = FrameRecord::Sample(
                    LatencySample {
                        render_submit: Some(RenderSubmit { instant: now, vsync_queue }),
                        ..sample
                    },
                );
                lemma_update_distinct(h, p, done);
                let next = state.submit(timestamp, vsync_queue, now);
                assert(next.history == h.update(p, done));
                lemma_keep_latest_push(
                    state.latencies,
                    sample.spec_total_pipeline_latency(vsync_queue),
                    state.max_history_size,
                );
                assert forall|other: u64| other != timestamp implies next.record(other)
                    == state.record(other) by {
                    if holds(h, other) {
                        let k = position(h, other);
                        assert(h[k].timestamp() == other);
                        assert(k != p);
                    }
                }
            }
        },
        _ => {},
    }
}

/// Discarding the pending records keeps every sample and nothing else.
pub proof fn lemma_pending_discarded(state: StatisticsState)
    requires
        state.wf(),
    ensures
        state.pending_discarded().wf(),
        state.pending_discarded().latencies == state.latencies,
        forall|ts: u64|
            state.pending_discarded().record(ts) == match state.record(ts) {
                Some(FrameRecord::Sample(sample)) => Some(FrameRecord::Sample(sample)),
                _ => None,
            },
{
    lemma_discard_pending(state.history);
}

/// One report to the engine.
pub enum StatisticsEvent {
    FrameEnqueued { timestamp: u64, now: u64 },
    FrameDecoded { timestamp: u64, now: u64 },
    Submit { timestamp: u64, vsync_queue: u64, now: u64 },
    PendingDiscarded,
}

/// The state after one more report.
pub open spec fn apply(state: StatisticsState, event: StatisticsEvent) -> StatisticsState {
    match event {
        StatisticsEvent::FrameEnqueued { timestamp, now } => state.frame_enqueued(timestamp, now),
        StatisticsEvent::FrameDecoded { timestamp, now } => state.frame_decoded(timestamp, now),
        StatisticsEvent::Submit { timestamp, vsync_queue, now } => state.submit(
            timestamp,
            vsync_queue,
            now,
        ),
        StatisticsEvent::PendingDiscarded => state.pending_discarded(),
    }
}

/// The state of an engine created with the given bound after the given reports.
pub open spec fn replay(max_history_size: nat, events: Seq<StatisticsEvent>) -> StatisticsState
    decreases events.len(),
{
    if events.len() == 0 {
        StatisticsState::empty(max_history_size)
    } else {
        apply(replay(max_history_size, events.drop_last()), events.last())
    }
}

/// The event reports the decode completion of the frame `timestamp`.
pub open spec fn reports_decode(event: StatisticsEvent, timestamp: u64) -> bool {
    match event {
        StatisticsEvent::FrameDecoded { timestamp: reported, .. } => reported == timestamp,
        _ => false,
    }
}

/// The event reports the render submission of the frame `timestamp`.
pub open spec fn reports_submit(event: StatisticsEvent, timestamp: u64) -> bool {
    match event {
        StatisticsEvent::Submit { timestamp: reported, .. } => reported == timestamp,
        _ => false,
    }
}

/// Some report among `events` is the decode completion of `timestamp`.
pub open spec fn decoded_in(events: Seq<StatisticsEvent>, timestamp: u64) -> bool {
    exists|i: int| 0 <= i < events.len() && reports_decode(#[trigger] events[i], timestamp)
}

/// Among `events` the decode completion of `timestamp` is followed by its
/// render submission.
pub open spec fn decoded_then_submitted(events: Seq<StatisticsEvent>, timestamp: u64) -> bool {
    exists|i: int, j: int|
        0 <= i < j < events.len() && reports_decode(#[trigger] events[i], timestamp)
            && reports_submit(#[trigger] events[j], timestamp)
}

proof fn lemma_reports_persist(events: Seq<StatisticsEvent>, timestamp: u64)
    requires
        events.len() > 0,
    ensures
        decoded_in(events.drop_last(), timestamp) ==> decoded_in(events, timestamp),
        decoded_then_submitted(events.drop_last(), timestamp) ==> decoded_then_submitted(
            events,
            timestamp,
        ),
        reports_decode(events.last(), timestamp) ==> decoded_in(events, timestamp),
        decoded_in(events.drop_last(), timestamp) && reports_submit(events.last(), timestamp)
            ==> decoded_then_submitted(events, timestamp),
{
    let init = events.drop_last();
    if decoded_in(init, timestamp) {
        let i = choose|i: int| 0 <= i < init.len() && reports_decode(#[trigger] init[i], timestamp);
        assert(events[i] == init[i]);
        if reports_submit(events.last(), timestamp) {
            let j = events.len() - 1;
            assert(reports_decode(events[i], timestamp) && reports_submit(events[j], timestamp));
        }
    }
    if decoded_then_submitted(init, timestamp) {
        let (i, j) = choose|i: int, j: int|
            0 <= i < j < init.len() && reports_decode(#[trigger] init[i], timestamp)
                && reports_submit(#[trigger] init[j], timestamp);
        assert(events[i] == init[i]);
        assert(events[j] == init[j]);
    }
    if reports_decode(events.last(), timestamp) {
        assert(reports_decode(events[events.len() - 1], timestamp));
    }
}

/// What holds of the engine after any sequence of reports.
proof fn lemma_replay(max_history_size: nat, events: Seq<StatisticsEvent>)
    requires
        max_history_size > 0,
    ensures
        replay(max_history_size, events).wf(),
        replay(max_history_size, events).max_history_size == max_history_size,
        forall|ts: u64|
            (#[trigger] replay(max_history_size, events).record(ts) matches Some(
                FrameRecord::Sample(_),
            )) ==> decoded_in(events, ts),
        forall|ts: u64|
            #[trigger] replay(max_history_size, events).summary(ts) is Some
                ==> decoded_then_submitted(events, ts),
        replay(max_history_size, events).latencies.len() > 0 ==> exists|ts: u64|
            decoded_then_submitted(events, ts),
    decreases events.len(),
{
    let now_state = replay(max_history_size, events);
    if events.len() == 0 {
        assert forall|ts: u64| !holds(now_state.history, ts) by {}
    } else {
        let init = events.drop_last();
        let event = events.last();
        let before = replay(max_history_size, init);
        lemma_replay(max_history_size, init);
        assert(now_state == apply(before, event));
        match event {
            StatisticsEvent::FrameEnqueued { timestamp, now } => {
                lemma_frame_enqueued(before, timestamp, now);
            },
            StatisticsEvent::FrameDecoded { timestamp, now } => {
                lemma_frame_decoded(before, timestamp, now);
            },
            StatisticsEvent::Submit { timestamp, vsync_queue, now } => {
                lemma_submit(before, timestamp, vsync_queue, now);
            },
            StatisticsEvent::PendingDiscarded => {
                lemma_pending_discarded(before);
            },
        }
        assert forall|ts: u64|
            (#[trigger] now_state.record(ts) matches Some(FrameRecord::Sample(_)))
            implies decoded_in(events, ts) by {
            lemma_reports_persist(events, ts);
            if !reports_decode(event, ts) {
                assert(before.record(ts) matches Some(FrameRecord::Sample(_)));
            }
        }
        assert forall|ts: u64| #[trigger] now_state.summary(ts) is Some
            implies decoded_then_submitted(events, ts) by {
            lemma_reports_persist(events, ts);
            if before.summary(ts) is None {
                assert(reports_submit(event, ts));
                assert(before.record(ts) matches Some(FrameRecord::Sample(_)));
            }
        }
        if now_state.latencies.len() > 0 {
            if before.latencies.len() > 0 {
                let ts = choose|ts: u64| decoded_then_submitted(init, ts);
                lemma_reports_persist(events, ts);
            } else {
                match event {
                    StatisticsEvent::Submit { timestamp, vsync_queue, now } => {
                        assert(before.record(timestamp) matches Some(FrameRecord::Sample(_)));
                        lemma_reports_persist(events, timestamp);
                        assert(decoded_then_submitted(events, timestamp));
                    },
                    _ => {},
                }
            }
        }
    }
}

/// After any sequence of reports the engine is well formed.
pub proof fn lemma_replay_wf(max_history_size: nat, events: Seq<StatisticsEvent>)
    requires
        max_history_size > 0,
    ensures
        replay(max_history_size, events).wf(),
{
    lemma_replay(max_history_size, events);
}

/// A summary exists only for a frame whose decode completion and render
/// submission were both reported, the decode completion first. Until then
/// the query for it answers `None`.
pub proof fn lemma_summary_needs_decode_and_submit(
    max_history_size: nat,
    events: Seq<StatisticsEvent>,
    timestamp: u64,
)
    requires
        max_history_size > 0,
    ensures
        replay(max_history_size, events).summary(timestamp) is Some ==> decoded_then_submitted(
            events,
            timestamp,
        ),
        !decoded_then_submitted(events, timestamp) ==> replay(max_history_size, events).summary(
            timestamp,
        ) is None,
{
    lemma_replay(max_history_size, events);
}

/// Once the decode completion and then the render submission of a pending
/// frame are reported, its summary is present and holds the decode time, the
/// time from decode to submission, the queue delay and their total.
pub proof fn lemma_summary_once_decoded_and_submitted(
    state: StatisticsState,
    pending: PendingSubmitRecord,
    decoded_at: u64,
    vsync_queue: u64,
    submitted_at: u64,
)
    requires
        state.wf(),
        state.record(pending.timestamp) == Some(FrameRecord::Pending(pending)),
    ensures
        state.frame_decoded(pending.timestamp, decoded_at).summary(pending.timestamp) is None,
        state.frame_decoded(pending.timestamp, decoded_at).submit(
            pending.timestamp,
            vsync_queue,
            submitted_at,
        ).summary(pending.timestamp) == Some(
            Summary {
                target_timestamp: pending.timestamp,
                video_decode: elapsed(pending.submit_instant, decoded_at),
                rendering: elapsed(decoded_at, submitted_at),
                vsync_queue,
                total_pipeline_latency: capped_sum(
                    elapsed(pending.submit_instant, decoded_at),
                    vsync_queue,
                ),
            },
        ),
{
    lemma_frame_decoded(state, pending.timestamp, decoded_at);
    lemma_submit(
        state.frame_decoded(pending.timestamp, decoded_at),
        pending.timestamp,
        vsync_queue,
        submitted_at,
    );
}

/// A summary that is present is not changed by later decode completions or
/// render submissions, of this frame or of any other, nor by discarding the
/// pending records.
pub proof fn lemma_summary_stable(
    state: StatisticsState,
    timestamp: u64,
    other: u64,
    vsync_queue: u64,
    now: u64,
)
    requires
        state.wf(),
        state.summary(timestamp) is Some,
    ensures
        state.frame_decoded(other, now).summary(timestamp) == state.summary(timestamp),
        state.submit(other, vsync_queue, now).summary(timestamp) == state.summary(timestamp),
        state.pending_discarded().summary(timestamp) == state.summary(timestamp),
{
    lemma_frame_decoded(state, other, now);
    lemma_submit(state, other, vsync_queue, now);
    lemma_pending_discarded(state);
}

/// The rolling average is zero as long as no frame had its decode completion
/// and then its render submission reported.
pub proof fn lemma_average_zero_before_first_sample(
    max_history_size: nat,
    events: Seq<StatisticsEvent>,
)
    requires
        max_history_size > 0,
        forall|ts: u64| !decoded_then_submitted(events, ts),
    ensures
        replay(max_history_size, events).average_total_pipeline_latency() == 0,
{
    lemma_replay(max_history_size, events);
}

/// The rolling average never exceeds `u64::MAX`: it is an average of `u64`
/// durations.
pub proof fn lemma_average_is_a_duration(state: StatisticsState)
    ensures
        0 <= state.average_total_pipeline_latency() <= u64::MAX,
{
    lemma_mean_bound(state.latencies);
}

/// The average lies between any bounds that hold of every latency in the
/// window.
pub proof fn lemma_mean_within_bounds(values: Seq<u64>, low: u64, high: u64)
    requires
        values.len() > 0,
        forall|i: int| 0 <= i < values.len() ==> low <= #[trigger] values[i] <= high,
    ensures
        low <= mean(values) <= high,
{
    lemma_sum_within_bounds(values, low, high);
    let total = sum(values) as int;
    let n = values.len() as int;
    assert(low <= total / n <= high) by (nonlinear_arith)
        requires
            n > 0,
            n * low <= total <= n * high,
    ;
}

proof fn lemma_sum_within_bounds(values: Seq<u64>, low: u64, high: u64)
    requires
        forall|i: int| 0 <= i < values.len() ==> low <= #[trigger] values[i] <= high,
    ensures
        values.len() * low <= sum(values) <= values.len() * high,
    decreases values.len(),
{
    if values.len() > 0 {
        let init = values.drop_last();
        assert forall|i: int| 0 <= i < init.len() implies low <= #[trigger] init[i] <= high by {
            assert(init[i] == values[i]);
        }
        lemma_sum_within_bounds(init, low, high);
        let n = values.len() as int;
        assert(values[n - 1] == values.last());
        assert((n - 1) * low + low == n * low) by (nonlinear_arith);
        assert((n - 1) * high + high == n * high) by (nonlinear_arith);
    }
}

/// The window after `times` more samples of one and the same total latency.
pub open spec fn window_after_repeated(
    window: Seq<u64>,
    latency: u64,
    times: nat,
    limit: nat,
) -> Seq<u64>
    decreases times,
{
    if times == 0 {
        window
    } else {
        keep_latest(
            window_after_repeated(window, latency, (times - 1) as nat, limit).push(latency),
            limit,
        )
    }
}

/// The rolling average forgets: once as many samples as the window holds
/// had one and the same total latency, the average is that latency, whatever
/// was in the window before.
pub proof fn lemma_average_follows_recent_samples(
    window: Seq<u64>,
    latency: u64,
    times: nat,
    limit: nat,
)
    requires
        0 < limit,
        window.len() <= limit,
        times >= limit,
    ensures
        window_after_repeated(window, latency, times, limit).len() == limit,
        mean(window_after_repeated(window, latency, times, limit)) == latency,
{
    lemma_window_after_repeated(window, latency, times, limit);
    let after = window_after_repeated(window, latency, times, limit);
    assert forall|i: int| 0 <= i < after.len() implies latency <= #[trigger] after[i]
        <= latency by {}
    lemma_mean_within_bounds(after, latency, latency);
}

proof fn lemma_window_after_repeated(window: Seq<u64>, latency: u64, times: nat, limit: nat)
    requires
        0 < limit,
        window.len() <= limit,
    ensures
        window_after_repeated(window, latency, times, limit).len() <= limit,
        window_after_repeated(window, latency, times, limit).len() >= if times < limit {
            times
        } else {
            limit
        },
        forall|i: int|
            0 <= i < window_after_repeated(window, latency, times, limit).len() && i
                >= window_after_repeated(window, latency, times, limit).len() - times
                ==> #[trigger] window_after_repeated(window, latency, times, limit)[i] == latency,
    decreases times,
{
    if times > 0 {
        let before = window_after_repeated(window, latency, (times - 1) as nat, limit);
        lemma_window_after_repeated(window, latency, (times - 1) as nat, limit);
        lemma_keep_latest_push(before, latency, limit);
        let after = window_after_repeated(window, latency, times, limit);
        assert(after == keep_latest(before.push(latency), limit));
        assert forall|i: int|
            0 <= i < after.len() && i >= after.len() - times implies #[trigger] after[i]
            == latency by {
            if before.len() == limit {
                assert(after == before.skip(1).push(latency));
                if i < after.len() - 1 {
                    assert(after[i] == before[i + 1]);
                }
            } else {
                assert(after == before.push(latency));
                if i < after.len() - 1 {
                    assert(after[i] == before[i]);
                }
            }
        }
    }
}

} // verus!
