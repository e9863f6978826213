//! Latency statistics engine.
//!
//! Every frame is followed through three stages, each reported by a different
//! caller: it enters the decoder, its decoded image becomes visible, and it is
//! handed to the compositor. The engine keeps one record per presentation
//! timestamp in a bounded history and turns completed records into a rolling
//! average of the total pipeline latency, which consumers use as the
//! prediction offset for head poses.
//!
//! Instants and durations are nanosecond counts. Instants are read from a
//! monotonic clock by the caller and passed in.
use vstd::prelude::*;

verus! {

/// The instant at which a frame entered the decode stage.
#[derive(Clone, Copy, Debug, PartialEq, Eq)]
pub struct PendingSubmitRecord {
    pub timestamp: u64,
    pub submit_instant: u64,
}

/// What the render loop reported when it submitted a frame to the compositor.
#[derive(Clone, Copy, Debug, PartialEq, Eq)]
pub struct RenderSubmit {
    pub instant: u64,
    pub vsync_queue: u64,
}

/// A frame whose decode completion is known. It is complete once
/// `render_submit` is present.
#[derive(Clone, Copy, Debug, PartialEq, Eq)]
pub struct LatencySample {
    pub timestamp: u64,
    pub submit_instant: u64,
    pub decode_done_instant: u64,
    pub render_submit: Option<RenderSubmit>,
}

/// One entry of the history: a frame waiting for its decode completion, or a
/// latency sample.
#[derive(Clone, Copy, Debug, PartialEq, Eq)]
pub enum FrameRecord {
    Pending(PendingSubmitRecord),
    Sample(LatencySample),
}

/// The figures of one completed frame.
#[derive(Clone, Copy, Debug, PartialEq, Eq)]
pub struct Summary {
    pub target_timestamp: u64,
    /// From entering the decoder to the decoded image being visible.
    pub video_decode: u64,
    /// From the decoded image being visible to the render submission.
    pub rendering: u64,
    /// Compositor queue delay, as supplied with the render submission.
    pub vsync_queue: u64,
    /// `video_decode + vsync_queue`.
    pub total_pipeline_latency: u64,
}

/// `later - earlier`, or zero where the clock readings are out of order.
pub open spec fn elapsed(earlier: u64, later: u64) -> u64 {
    if later >= earlier {
        (later - earlier) as u64
    } else {
        0
    }
}

/// `a + b`, held at `u64::MAX`.
pub open spec fn capped_sum(a: u64, b: u64) -> u64 {
    if a + b > u64::MAX {
        u64::MAX
    } else {
        (a + b) as u64
    }
}

impl FrameRecord {
    pub open spec fn timestamp(self) -> u64 {
        match self {
            FrameRecord::Pending(record) => record.timestamp,
            FrameRecord::Sample(sample) => sample.timestamp,
        }
    }

    /// The presentation timestamp this record is keyed by.
    pub fn key(&self) -> (ts: u64)
        ensures
            ts == self.timestamp(),
    {
        match self {
            FrameRecord::Pending(record) => record.timestamp,
            FrameRecord::Sample(sample) => sample.timestamp,
        }
    }
}

impl LatencySample {
    pub open spec fn spec_video_decode(self) -> u64 {
        elapsed(self.submit_instant, self.decode_done_instant)
    }

    pub open spec fn spec_total_pipeline_latency(self, vsync_queue: u64) -> u64 {
        capped_sum(self.spec_video_decode(), vsync_queue)
    }

    pub open spec fn spec_summary(self) -> Option<Summary> {
        match self.render_submit {
            Some(submit) => Some(
                Summary {
                    target_timestamp: self.timestamp,
                    video_decode: self.spec_video_decode(),
                    rendering: elapsed(self.decode_done_instant, submit.instant),
                    vsync_queue: submit.vsync_queue,
                    total_pipeline_latency: self.spec_total_pipeline_latency(submit.vsync_queue),
                },
            ),
            None => None,
        }
    }

    /// Time spent between entering the decoder and the image being visible.
    pub fn video_decode(&self) -> (d: u64)
        ensures
            d == self.spec_video_decode(),
    {
        self.decode_done_instant.saturating_sub(self.submit_instant)
    }

    /// Decode time plus the given compositor queue delay.
    pub fn total_pipeline_latency(&self, vsync_queue: u64) -> (d: u64)
        ensures
            d == self.spec_total_pipeline_latency(vsync_queue),
    {
        self.video_decode().saturating_add(vsync_queue)
    }

    /// The summary of this sample, present once the render submission is known.
    pub fn summary(&self) -> (s: Option<Summary>)
        ensures
            s == self.spec_summary(),
    {
        match self.render_submit {
            Some(submit) => Some(
                Summary {
                    target_timestamp: self.timestamp,
                    video_decode: self.video_decode(),
                    rendering: submit.instant.saturating_sub(self.decode_done_instant),
                    vsync_queue: submit.vsync_queue,
                    total_pipeline_latency: self.total_pipeline_latency(submit.vsync_queue),
                },
            ),
            None => None,
        }
    }
}

/// Whether some record of `history` is keyed by `timestamp`.
pub open spec fn holds(history: Seq<FrameRecord>, timestamp: u64) -> bool {
    exists|i: int| 0 <= i < history.len() && #[trigger] history[i].timestamp() == timestamp
}

/// The index of a record keyed by `timestamp`, where `history` holds one.
pub open spec fn position(history: Seq<FrameRecord>, timestamp: u64) -> int {
    choose|i: int| 0 <= i < history.len() && #[trigger] history[i].timestamp() == timestamp
}

/// The record of `history` keyed by `timestamp`, if any.
pub open spec fn record_of(history: Seq<FrameRecord>, timestamp: u64) -> Option<FrameRecord> {
    if holds(history, timestamp) {
        Some(history[position(history, timestamp)])
    } else {
        None
    }
}

/// No two records share a timestamp.
pub open spec fn distinct_timestamps(history: Seq<FrameRecord>) -> bool {
    forall|i: int, j: int|
        0 <= i < j < history.len() ==> #[trigger] history[i].timestamp()
            != #[trigger] history[j].timestamp()
}

/// The predicate that tells latency samples from pending records.
pub open spec fn is_sample() -> spec_fn(FrameRecord) -> bool {
    |record: FrameRecord| record is Sample
}

/// The most recent `limit` entries of `entries`.
pub open spec fn keep_latest<T>(entries: Seq<T>, limit: nat) -> Seq<T> {
    if entries.len() > limit {
        entries.skip(entries.len() - limit)
    } else {
        entries
    }
}

/// Sum of a sequence of durations.
pub open spec fn sum(values: Seq<u64>) -> nat
    decreases values.len(),
{
    if values.len() == 0 {
        0
    } else {
        sum(values.drop_last()) + values.last() as nat
    }
}

/// Arithmetic mean, rounded down; zero for no values.
pub open spec fn mean(values: Seq<u64>) -> nat {
    if values.len() == 0 {
        0
    } else {
        sum(values) / values.len()
    }
}

/// The mathematical state of the engine.
pub struct StatisticsState {
    /// Bound on the history and on the averaging window.
    pub max_history_size: nat,
    /// One record per timestamp, oldest submission first.
    pub history: Seq<FrameRecord>,
    /// Total pipeline latency of the most recently completed samples, oldest first.
    pub latencies: Seq<u64>,
}

impl StatisticsState {
    pub open spec fn empty(max_history_size: nat) -> Self {
        StatisticsState { max_history_size, history: Seq::empty(), latencies: Seq::empty() }
    }

    pub open spec fn wf(self) -> bool {
        &&& 0 < self.max_history_size
        &&& self.history.len() <= self.max_history_size
        &&& self.latencies.len() <= self.max_history_size
        &&& distinct_timestamps(self.history)
    }

    /// The record kept for `timestamp`, if any.
    pub open spec fn record(self, timestamp: u64) -> Option<FrameRecord> {
        record_of(self.history, timestamp)
    }

    /// A frame entered the decode stage at `now`. A record already kept for
    /// the timestamp is superseded; the oldest record leaves a full history.
    pub open spec fn frame_enqueued(self, timestamp: u64, now: u64) -> Self {
        let kept = if holds(self.history, timestamp) {
            self.history.remove(position(self.history, timestamp))
        } else {
            self.history
        };
        let fresh = FrameRecord::Pending(PendingSubmitRecord { timestamp, submit_instant: now });
        StatisticsState {
            history: keep_latest(kept.push(fresh), self.max_history_size),
            ..self
        }
    }

    /// The decoded image of a frame became visible at `now`. Without a
    /// pending record for the timestamp nothing changes.
    pub open spec fn frame_decoded(self, timestamp: u64, now: u64) -> Self {
        match self.record(timestamp) {
            Some(FrameRecord::Pending(pending)) => StatisticsState {
                history: self.history.update(
                    position(self.history, timestamp),
                    FrameRecord::Sample(
                        LatencySample {
                            timestamp,
                            submit_instant: pending.submit_instant,
                            decode_done_instant: now,
                            render_submit: None,
                        },
                    ),
                ),
                ..self
            },
            _ => self,
        }
    }

    /// A frame was handed to the compositor at `now`. Where this completes a
    /// sample, its total latency enters the averaging window; otherwise
    /// nothing changes.
    pub open spec fn submit(self, timestamp: u64, vsync_queue: u64, now: u64) -> Self {
        match self.record(timestamp) {
            Some(FrameRecord::Sample(sample)) => if sample.render_submit is None {
                StatisticsState {
                    history: self.history.update(
                        position(self.history, timestamp),
                        FrameRecord::Sample(
                            LatencySample {
                                render_submit: Some(RenderSubmit { instant: now, vsync_queue }),
                                ..sample
                            },
                        ),
                    ),
                    latencies: keep_latest(
                        self.latencies.push(sample.spec_total_pipeline_latency(vsync_queue)),
                        self.max_history_size,
                    ),
                    ..self
                }
            } else {
                self
            },
            _ => self,
        }
    }

    /// Pending records are dropped; samples stay.
    pub open spec fn pending_discarded(self) -> Self {
        StatisticsState { history: self.history.filter(is_sample()), ..self }
    }

    /// The summary of a completed sample.
    pub open spec fn summary(self, timestamp: u64) -> Option<Summary> {
        match self.record(timestamp) {
            Some(FrameRecord::Sample(sample)) => sample.spec_summary(),
            _ => None,
        }
    }

    /// The rolling average of the total pipeline latency.
    pub open spec fn average_total_pipeline_latency(self) -> nat {
        mean(self.latencies)
    }
}

/// In a history without repeated timestamps a record is found at one index only.
pub proof fn lemma_position_unique(history: Seq<FrameRecord>, i: int)
    requires
        distinct_timestamps(history),
        0 <= i < history.len(),
    ensures
        holds(history, history[i].timestamp()),
        position(history, history[i].timestamp()) == i,
{
    let ts = history[i].timestamp();
    let p = position(history, ts);
    assert(0 <= p < history.len() && history[p].timestamp() == ts);
    if p < i {
        assert(history[p].timestamp() != history[i].timestamp());
    } else if i < p {
        assert(history[i].timestamp() != history[p].timestamp());
    }
}

/// Removing a record keeps the others distinct, and its timestamp is gone.
pub proof fn lemma_remove_distinct(history: Seq<FrameRecord>, i: int)
    requires
        distinct_timestamps(history),
        0 <= i < history.len(),
    ensures
        distinct_timestamps(history.remove(i)),
        !holds(history.remove(i), history[i].timestamp()),
        forall|ts: u64|
            ts != history[i].timestamp() ==> (holds(history.remove(i), ts) <==> holds(history, ts)),
{
    let rest = history.remove(i);
    assert forall|a: int, b: int| 0 <= a < b < rest.len() implies #[trigger] rest[a].timestamp()
        != #[trigger] rest[b].timestamp() by {
        let a0 = if a < i { a } else { a + 1 };
        let b0 = if b < i { b } else { b + 1 };
        assert(rest[a] == history[a0]);
        assert(rest[b] == history[b0]);
        assert(history[a0].timestamp() != history[b0].timestamp());
    }
    if holds(rest, history[i].timestamp()) {
        let k = position(rest, history[i].timestamp());
        let k0 = if k < i { k } else { k + 1 };
        assert(rest[k] == history[k0]);
        if k0 < i {
            assert(history[k0].timestamp() != history[i].timestamp());
        } else {
            assert(history[i].timestamp() != history[k0].timestamp());
        }
    }
    assert forall|ts: u64| ts != history[i].timestamp() implies (holds(rest, ts) <==> holds(
        history,
        ts,
    )) by {
        if holds(rest, ts) {
            let k = position(rest, ts);
            let k0 = if k < i { k } else { k + 1 };
            assert(rest[k] == history[k0]);
            assert(history[k0].timestamp() == ts);
        }
        if holds(history, ts) {
            let k0 = position(history, ts);
            let k = if k0 < i { k0 } else { k0 - 1 };
            assert(rest[k] == history[k0]);
            assert(rest[k].timestamp() == ts);
        }
    }
}

/// Appending a record with a timestamp that is not held keeps the history distinct.
pub proof fn lemma_push_distinct(history: Seq<FrameRecord>, record: FrameRecord)
    requires
        distinct_timestamps(history),
        !holds(history, record.timestamp()),
    ensures
        distinct_timestamps(history.push(record)),
{
    let grown = history.push(record);
    assert forall|a: int, b: int| 0 <= a < b < grown.len() implies #[trigger] grown[a].timestamp()
        != #[trigger] grown[b].timestamp() by {
        if b < history.len() {
            assert(history[a].timestamp() != history[b].timestamp());
        } else {
            assert(grown[a] == history[a]);
            assert(history[a].timestamp() != record.timestamp());
        }
    }
}

/// A suffix of a distinct history is distinct.
pub proof fn lemma_skip_distinct(history: Seq<FrameRecord>, n: int)
    requires
        distinct_timestamps(history),
        0 <= n <= history.len(),
    ensures
        distinct_timestamps(history.skip(n)),
{
    let rest = history.skip(n);
    assert forall|a: int, b: int| 0 <= a < b < rest.len() implies #[trigger] rest[a].timestamp()
        != #[trigger] rest[b].timestamp() by {
        assert(history[a + n].timestamp() != history[b + n].timestamp());
    }
}

/// Replacing a record by one with the same timestamp changes no key.
pub proof fn lemma_update_distinct(history: Seq<FrameRecord>, i: int, record: FrameRecord)
    requires
        distinct_timestamps(history),
        0 <= i < history.len(),
        record.timestamp() == history[i].timestamp(),
    ensures
        distinct_timestamps(history.update(i, record)),
        forall|ts: u64| holds(history.update(i, record), ts) <==> holds(history, ts),
        forall|ts: u64|
            holds(history, ts) ==> position(history.update(i, record), ts) == position(
                history,
                ts,
            ),
{
    let changed = history.update(i, record);
    assert forall|a: int| 0 <= a < history.len() implies #[trigger] changed[a].timestamp()
        == history[a].timestamp() by {}
    assert forall|a: int, b: int|
        0 <= a < b < changed.len() implies #[trigger] changed[a].timestamp()
        != #[trigger] changed[b].timestamp() by {
        assert(history[a].timestamp() != history[b].timestamp());
    }
    assert forall|ts: u64| holds(changed, ts) <==> holds(history, ts) by {
        if holds(changed, ts) {
            let k = position(changed, ts);
            assert(history[k].timestamp() == ts);
        }
        if holds(history, ts) {
            let k = position(history, ts);
            assert(changed[k].timestamp() == ts);
        }
    }
    assert forall|ts: u64| holds(history, ts) implies position(changed, ts) == position(
        history,
        ts,
    ) by {
        let k = position(history, ts);
        assert(changed[k].timestamp() == ts);
        lemma_position_unique(changed, k);
    }
}

/// Dropping all but the last entry of a full window equals dropping the
/// first entry after one more was appended.
pub proof fn lemma_keep_latest_push<T>(entries: Seq<T>, entry: T, limit: nat)
    requires
        0 < limit,
        entries.len() <= limit,
    ensures
        keep_latest(entries.push(entry), limit) == if entries.len() == limit {
            entries.skip(1).push(entry)
        } else {
            entries.push(entry)
        },
        keep_latest(entries.push(entry), limit).len() <= limit,
{
    if entries.len() == limit {
        assert(entries.push(entry).skip(1) =~= entries.skip(1).push(entry));
    }
}

/// The sum of a prefix grows by the next value.
pub proof fn lemma_sum_take_succ(values: Seq<u64>, i: int)
    requires
        0 <= i < values.len(),
    ensures
        sum(values.take(i + 1)) == sum(values.take(i)) + values[i] as nat,
{
    assert(values.take(i + 1).drop_last() =~= values.take(i));
}

/// A sum of `u64` values is at most their number times `u64::MAX`.
pub proof fn lemma_sum_bound(values: Seq<u64>)
    ensures
        sum(values) <= values.len() * u64::MAX,
    decreases values.len(),
{
    if values.len() > 0 {
        lemma_sum_bound(values.drop_last());
        assert((values.len() - 1) * u64::MAX + u64::MAX == values.len() * u64::MAX)
            by (nonlinear_arith);
    }
}

/// The mean of `u64` values is a `u64`.
pub proof fn lemma_mean_bound(values: Seq<u64>)
    ensures
        mean(values) <= u64::MAX,
{
    if values.len() > 0 {
        lemma_sum_bound(values);
        let total = sum(values) as int;
        let n = values.len() as int;
        assert(total / n <= u64::MAX) by (nonlinear_arith)
            requires
                n > 0,
                0 <= total <= n * u64::MAX,
        ;
    }
}

/// Dropping the pending records keeps the samples as they are, in order.
pub proof fn lemma_discard_pending(history: Seq<FrameRecord>)
    requires
        distinct_timestamps(history),
    ensures
        distinct_timestamps(history.filter(is_sample())),
        history.filter(is_sample()).len() <= history.len(),
        forall|ts: u64|
            holds(history.filter(is_sample()), ts) <==> (holds(history, ts) && history[position(
                history,
                ts,
            )] is Sample),
        forall|ts: u64|
            holds(history.filter(is_sample()), ts) ==> history.filter(is_sample())[position(
                history.filter(is_sample()),
                ts,
            )] == history[position(history, ts)],
    decreases history.len(),
{
    reveal(Seq::filter);
    let kept = history.filter(is_sample());
    if history.len() == 0 {
        assert(!exists|i: int| 0 <= i < kept.len() && #[trigger] kept[i].timestamp() == 0u64);
    } else {
        let init = history.drop_last();
        let last = history.last();
        let n = init.len() as int;
        assert forall|a: int, b: int| 0 <= a < b < init.len() implies #[trigger] init[a].timestamp()
            != #[trigger] init[b].timestamp() by {
            assert(history[a].timestamp() != history[b].timestamp());
        }
        lemma_discard_pending(init);
        let inner = init.filter(is_sample());
        assert(!holds(init, last.timestamp())) by {
            if holds(init, last.timestamp()) {
                let k = position(init, last.timestamp());
                assert(history[k].timestamp() != history[n].timestamp());
            }
        }
        assert(!holds(inner, last.timestamp()));
        if last is Sample {
            assert(kept == inner.push(last));
            lemma_push_distinct(inner, last);
        } else {
            assert(kept == inner);
        }
        assert forall|ts: u64| holds(kept, ts) <==> (holds(history, ts) && history[position(
            history,
            ts,
        )] is Sample) by {
            if holds(kept, ts) {
                let k = position(kept, ts);
                if k < inner.len() {
                    assert(kept[k] == inner[k]);
                    assert(inner[k].timestamp() == ts);
                    assert(holds(inner, ts));
                    assert(holds(init, ts));
                    let j = position(init, ts);
                    assert(0 <= j < init.len());
                    assert(history[j] == init[j]);
                    lemma_position_unique(history, j);
                    lemma_position_unique(init, j);
                } else {
                    assert(history[n].timestamp() == ts);
                    lemma_position_unique(history, n);
                }
            }
            if holds(history, ts) && history[position(history, ts)] is Sample {
                let j = position(history, ts);
                if j < n {
                    assert(init[j].timestamp() == ts);
                    lemma_position_unique(init, j);
                    let k = position(inner, ts);
                    assert(kept[k].timestamp() == ts);
                } else {
                    assert(kept[inner.len() as int].timestamp() == ts);
                }
            }
        }
        assert forall|ts: u64| holds(kept, ts) implies kept[position(kept, ts)] == history[position(
            history,
            ts,
        )] by {
            let k = position(kept, ts);
            if ts == last.timestamp() {
                lemma_position_unique(history, n);
                assert(kept[inner.len() as int].timestamp() == ts);
                lemma_position_unique(kept, inner.len() as int);
            } else {
                assert(k < inner.len());
                assert(kept[k] == inner[k]);
                assert(inner[k].timestamp() == ts);
                assert(holds(inner, ts));
                assert(holds(init, ts));
                lemma_position_unique(inner, k);
                let j = position(init, ts);
                assert(0 <= j < init.len());
                assert(history[j] == init[j]);
                lemma_position_unique(history, j);
                lemma_position_unique(kept, k);
            }
        }
    }
}

/// The rolling-window latency statistics of one stream session.
pub struct StatisticsManager {
    max_history_size: usize,
    history: Vec<FrameRecord>,
    latencies: Vec<u64>,
}

impl View for StatisticsManager {
    type V = StatisticsState;

    closed spec fn view(&self) -> StatisticsState {
        StatisticsState {
            max_history_size: self.max_history_size as nat,
            history: self.history@,
            latencies: self.latencies@,
        }
    }
}

impl StatisticsManager {
    /// An engine without records that keeps at most `max_history_size`
    /// records and averages over at most as many samples.
    pub fn new(max_history_size: usize) -> (manager: Self)
        requires
            max_history_size > 0,
        ensures
            manager@ == StatisticsState::empty(max_history_size as nat),
            manager@.wf(),
    {
        StatisticsManager { max_history_size, history: Vec::new(), latencies: Vec::new() }
    }

    /// The bound on the history and on the averaging window.
    pub fn max_history_size(&self) -> (n: usize)
        ensures
            n == self@.max_history_size,
    {
        self.max_history_size
    }

    /// Index of the record kept for `timestamp`.
    fn find(&self, timestamp: u64) -> (found: Option<usize>)
        requires
            self@.wf(),
        ensures
            match found {
                Some(i) => {
                    &&& holds(self@.history, timestamp)
                    &&& i as int == position(self@.history, timestamp)
                    &&& i < self@.history.len()
                },
                None => !holds(self@.history, timestamp),
            },
    {
        let mut i: usize = 0;
        while i < self.history.len()
            invariant
                i <= self.history.len(),
                distinct_timestamps(self.history@),
                forall|k: int| 0 <= k < i ==> #[trigger] self.history@[k].timestamp() != timestamp,
            decreases self.history.len() - i,
        {
            if self.history[i].key() == timestamp {
                proof {
                    lemma_position_unique(self.history@, i as int);
                }
                return Some(i);
            }
            i += 1;
        }
        None
    }

    /// The record kept for `timestamp`, if any.
    pub fn record(&self, timestamp: u64) -> (r: Option<FrameRecord>)
        requires
            self@.wf(),
        ensures
            r == self@.record(timestamp),
    {
        match self.find(timestamp) {
            Some(i) => Some(self.history[i]),
            None => None,
        }
    }

    /// Records that a frame entered the decode stage at `now`.
    pub fn report_frame_enqueued(&mut self, timestamp: u64, now: u64)
        requires
            old(self)@.wf(),
        ensures
            final(self)@ == old(self)@.frame_enqueued(timestamp, now),
            final(self)@.wf(),
    {
        let ghost before = self@;
        let fresh = FrameRecord::Pending(PendingSubmitRecord { timestamp, submit_instant: now });
        match self.find(timestamp) {
            Some(i) => {
                proof {
                    lemma_remove_distinct(self.history@, i as int);
                }
                self.history.remove(i);
            },
            None => {},
        }
        let ghost kept = self.history@;
        assert(!holds(kept, timestamp));
        if self.history.len() == self.max_history_size {
            proof {
                lemma_skip_distinct(kept, 1);
                assert(kept.remove(0) =~= kept.skip(1));
                if holds(kept.skip(1), timestamp) {
                    let k = position(kept.skip(1), timestamp);
                    assert(kept[k + 1].timestamp() == timestamp);
                }
            }
            self.history.remove(0);
        }
        proof {
            lemma_push_distinct(self.history@, fresh);
            lemma_keep_latest_push(kept, fresh, before.max_history_size);
        }
        self.history.push(fresh);
        assert(self@.history == before.frame_enqueued(timestamp, now).history);
    }

    /// Records that the decoded image of a frame became visible at `now`.
    /// A timestamp without a pending record is ignored.
    pub fn report_frame_decoded(&mut self, timestamp: u64, now: u64)
        requires
            old(self)@.wf(),
        ensures
            final(self)@ == old(self)@.frame_decoded(timestamp, now),
            final(self)@.wf(),
    {
        match self.find(timestamp) {
            Some(i) => match self.history[i] {
                FrameRecord::Pending(pending) => {
                    let sample = FrameRecord::Sample(
                        LatencySample {
                            timestamp,
                            submit_instant: pending.submit_instant,
                            decode_done_instant: now,
                            render_submit: None,
                        },
                    );
                    proof {
                        lemma_update_distinct(self.history@, i as int, sample);
                    }
                    self.history[i] = sample;
                },
                FrameRecord::Sample(_) => {},
            },
            None => {},
        }
    }

    /// Records that a frame was handed to the compositor at `now`, after
    /// `vsync_queue` in the compositor's queue. Where the frame's decode
    /// completion is known and no submission was recorded for it yet, the
    /// sample is completed and its total latency enters the rolling average.
    /// Any other timestamp is ignored.
    pub fn report_submit(&mut self, timestamp: u64, vsync_queue: u64, now: u64)
        requires
            old(self)@.wf(),
        ensures
            final(self)@ == old(self)@.submit(timestamp, vsync_queue, now),
            final(self)@.wf(),
    {
        match self.find(timestamp) {
            Some(i) => match self.history[i] {
                FrameRecord::Sample(sample) => {
                    if sample.render_submit.is_none() {
                        let done = FrameRecord::Sample(
                            LatencySample {
                                timestamp: sample.timestamp,
                                submit_instant: sample.submit_instant,
                                decode_done_instant: sample.decode_done_instant,
                                render_submit: Some(RenderSubmit { instant: now, vsync_queue }),
                            },
                        );
                        let total = sample.total_pipeline_latency(vsync_queue);
                        proof {
                            lemma_update_distinct(self.history@, i as int, done);
                            lemma_keep_latest_push(
                                self.latencies@,
                                total,
                                self.max_history_size as nat,
                            );
                            assert(self.latencies@.remove(0) =~= self.latencies@.skip(1));
                        }
                        self.history[i] = done;
                        if self.latencies.len() == self.max_history_size {
                            self.latencies.remove(0);
                        }
                        self.latencies.push(total);
                    }
                },
                FrameRecord::Pending(_) => {},
            },
            None => {},
        }
    }

    /// Drops every pending record, as is due when the decoder they were
    /// submitted to is gone. Samples stay.
    pub fn discard_pending(&mut self)
        requires
            old(self)@.wf(),
        ensures
            final(self)@ == old(self)@.pending_discarded(),
            final(self)@.wf(),
    {
        let mut kept: Vec<FrameRecord> = Vec::new();
        let mut i: usize = 0;
        assert(self.history@.take(0) =~= Seq::<FrameRecord>::empty());
        proof {
            reveal(Seq::filter);
        }
        while i < self.history.len()
            invariant
                i <= self.history.len(),
                kept@ == self.history@.take(i as int).filter(is_sample()),
            decreases self.history.len() - i,
        {
            let record = self.history[i];
            proof {
                assert(self.history@.take(i + 1) =~= self.history@.take(i as int).push(record));
                self.history@.take(i as int).lemma_filter_push(record, is_sample());
            }
            match record {
                FrameRecord::Sample(_) => {
                    kept.push(record);
                },
                FrameRecord::Pending(_) => {},
            }
            i += 1;
        }
        proof {
            assert(self.history@.take(i as int) =~= self.history@);
            lemma_discard_pending(self.history@);
        }
        self.history = kept;
    }

    /// The summary of the frame with the given timestamp, present exactly
    /// when both its decode completion and its render submission are recorded.
    pub fn summary(&self, timestamp: u64) -> (s: Option<Summary>)
        requires
            self@.wf(),
        ensures
            s == self@.summary(timestamp),
    {
        match self.record(timestamp) {
            Some(FrameRecord::Sample(sample)) => sample.summary(),
            _ => None,
        }
    }

    /// The rolling average of the total pipeline latency over the completed
    /// samples in the window; zero while there is none.
    pub fn average_total_pipeline_latency(&self) -> (average: u64)
        ensures
            average == self@.average_total_pipeline_latency(),
    {
        let n = self.latencies.len();
        if n == 0 {
            return 0;
        }
        let mut total: u128 = 0;
        let mut i: usize = 0;
        while i < n
            invariant
                i <= n,
                n == self.latencies.len(),
                total == sum(self.latencies@.take(i as int)),
            decreases n - i,
        {
            proof {
                lemma_sum_take_succ(self.latencies@, i as int);
                lemma_sum_bound(self.latencies@.take(i + 1));
                assert((i + 1) * u64::MAX <= usize::MAX * u64::MAX) by (nonlinear_arith)
                    requires
                        i + 1 <= usize::MAX,
                ;
                assert(usize::MAX * u64::MAX < u128::MAX) by (nonlinear_arith)
                    requires
                        usize::MAX <= u64::MAX,
                ;
            }
            total = total + self.latencies[i] as u128;
            i += 1;
        }
        proof {
            assert(self.latencies@.take(n as int) =~= self.latencies@);
            lemma_mean_bound(self.latencies@);
        }
        (total / (n as u128)) as u64
    }
}

} // verus!
