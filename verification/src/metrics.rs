//! The metric sink the hub reports into: labelled counters, gauges and
//! millisecond histograms held as plain values, so that the transports can
//! record and tests can observe without process-wide wiring. Exporting the
//! values in a wire format happens outside the library.

use vstd::prelude::*;
use vstd::pervasive::VecAdditionalExecFns;
use crate::text::{str_eq, dec_chars, u64_to_dec_string};

verus! {

/// Addition that stops at the top of the counter range.
pub open spec fn sat_add(a: u64, b: u64) -> u64 {
    if a + b > u64::MAX {
        u64::MAX
    } else {
        (a + b) as u64
    }
}

fn sat_add_exec(a: u64, b: u64) -> (r: u64)
    ensures
        r == sat_add(a, b),
{
    if a > u64::MAX - b {
        u64::MAX
    } else {
        a + b
    }
}

/// One labelled count.
pub struct MetricPoint {
    pub labels: Vec<String>,
    pub value: u64,
}

/// A counter family: one count for each label combination seen so far.
pub struct CounterVec {
    pub points: Vec<MetricPoint>,
}

fn labels_eq(a: &Vec<String>, b: &Vec<String>) -> (r: bool)
    ensures
        r == (a.deep_view() == b.deep_view()),
{
    if a.len() != b.len() {
        proof {
            assert(a.deep_view().len() == a@.len());
            assert(b.deep_view().len() == b@.len());
        }
        return false;
    }
    let mut i: usize = 0;
    while i < a.len()
        invariant
            a@.len() == b@.len(),
            i <= a@.len(),
            forall|j: int| 0 <= j < i ==> a@[j]@ == b@[j]@,
        decreases a@.len() - i,
    {
        if !str_eq(a[i].as_str(), b[i].as_str()) {
            proof {
                assert(a.deep_view()[i as int] == a@[i as int]@);
                assert(b.deep_view()[i as int] == b@[i as int]@);
            }
            return false;
        }
        i += 1;
    }
    proof {
        assert(a.deep_view() =~= b.deep_view());
        assert(forall|j: int|
            0 <= j < a@.len() ==> #[trigger] a.deep_view()[j] == a@[j]@ && b.deep_view()[j]
                == b@[j]@);
    }
    true
}

/// The count a run of points holds under these labels: the first matching
/// point's value, or zero.
pub open spec fn points_value(points: Seq<MetricPoint>, labels: Seq<Seq<char>>) -> u64
    decreases points.len(),
{
    if points.len() == 0 {
        0
    } else if points[0].labels.deep_view() == labels {
        points[0].value
    } else {
        points_value(points.drop_first(), labels)
    }
}

/// How a counter family changes when a count moves up: the matching
/// point's value grows by `by` (stopping at the top of the range), or a
/// fresh point appears at the end.
pub open spec fn counter_bumped(o: CounterVec, m: CounterVec, labels: Seq<Seq<char>>, by: u64) -> bool {
    if exists|j: int|
        0 <= j < o.points@.len() && (#[trigger] o.points@[j]).labels.deep_view() == labels {
        exists|j: int|
            #![auto]
            0 <= j < o.points@.len() && o.points@[j].labels.deep_view() == labels && m.points@
                == o.points@.update(j, m.points@[j]) && m.points@[j].labels
                == o.points@[j].labels && m.points@[j].value == sat_add(o.points@[j].value, by)
    } else {
        &&& m.points@.len() == o.points@.len() + 1
        &&& m.points@ == o.points@.push(m.points@.last())
        &&& m.points@.last().labels.deep_view() == labels
        &&& m.points@.last().value == by
    }
}

impl CounterVec {
    /// The family invariant: one point per label combination.
    pub open spec fn wf(&self) -> bool {
        forall|i: int, j: int|
            #![trigger self.points@[i].labels, self.points@[j].labels]
            0 <= i < j < self.points@.len() ==> self.points@[i].labels.deep_view()
                != self.points@[j].labels.deep_view()
    }

    /// An empty family.
    pub fn new() -> (r: Self)
        ensures
            r.wf(),
            r.points@.len() == 0,
    {
        CounterVec { points: Vec::new() }
    }

    /// Moves the count under these labels up by `by`, at most to the top
    /// of the range; a combination not seen before starts at `by`.
    pub fn bump(&mut self, labels: Vec<String>, by: u64)
        requires
            old(self).wf(),
        ensures
            final(self).wf(),
            counter_bumped(*old(self), *final(self), labels.deep_view(), by),
    {
        let ghost lv = labels.deep_view();
        let mut i: usize = 0;
        while i < self.points.len()
            invariant
                *self == *old(self),
                self.wf(),
                i <= self.points@.len(),
                lv == labels.deep_view(),
                forall|j: int|
                    0 <= j < i ==> (#[trigger] self.points@[j]).labels.deep_view() != lv,
            decreases self.points@.len() - i,
        {
            if labels_eq(&self.points[i].labels, &labels) {
                let bumped = sat_add_exec(self.points[i].value, by);
                let p = &mut self.points[i];
                p.value = bumped;
                proof {
                    assert forall|a: int, b: int|
                        #![trigger self.points@[a].labels, self.points@[b].labels]
                        0 <= a < b < self.points@.len() implies self.points@[a].labels.deep_view()
                        != self.points@[b].labels.deep_view() by {
                        assert(self.points@[a].labels == old(self).points@[a].labels);
                        assert(self.points@[b].labels == old(self).points@[b].labels);
                    }
                }
                return ;
            }
            i += 1;
        }
        self.points.push(MetricPoint { labels, value: by });
    }

    /// The count under these labels, zero when the combination is new.
    pub fn get(&self, labels: &Vec<String>) -> (r: u64)
        ensures
            r == points_value(self.points@, labels.deep_view()),
    {
        let n = self.points.len();
        proof {
            assert(self.points@.subrange(0, n as int) =~= self.points@);
        }
        let mut i: usize = 0;
        while i < n
            invariant
                n == self.points@.len(),
                i <= n,
                points_value(self.points@, labels.deep_view()) == points_value(
                    self.points@.subrange(i as int, n as int),
                    labels.deep_view(),
                ),
            decreases n - i,
        {
            proof {
                assert(self.points@.subrange(i as int, n as int)[0] == self.points@[i as int]);
            }
            if labels_eq(&self.points[i].labels, labels) {
                return self.points[i].value;
            }
            proof {
                assert(self.points@.subrange(i as int, n as int).drop_first()
                    =~= self.points@.subrange(i + 1, n as int));
            }
            i += 1;
        }
        0
    }
}

/// One labelled histogram: cumulative bucket counts, the number of
/// observations, and their sum.
pub struct HistogramPoint {
    pub labels: Vec<String>,
    pub bucket_counts: Vec<u64>,
    pub count: u64,
    pub sum_ms: u64,
}

/// A histogram family over fixed millisecond bucket bounds.
pub struct HistogramVec {
    pub bounds_ms: Vec<u64>,
    pub points: Vec<HistogramPoint>,
}

/// How one histogram point takes one observation: every bucket whose
/// bound the value does not exceed counts it, and the totals move up.
pub open spec fn point_observed(
    p0: HistogramPoint,
    p1: HistogramPoint,
    bounds: Seq<u64>,
    value_ms: u64,
) -> bool {
    &&& p1.labels == p0.labels
    &&& p1.count == sat_add(p0.count, 1)
    &&& p1.sum_ms == sat_add(p0.sum_ms, value_ms)
    &&& p1.bucket_counts@.len() == p0.bucket_counts@.len()
    &&& forall|j: int|
        0 <= j < p1.bucket_counts@.len() ==> #[trigger] p1.bucket_counts@[j] == (if j
            < bounds.len() && value_ms <= bounds[j] {
            sat_add(p0.bucket_counts@[j], 1)
        } else {
            p0.bucket_counts@[j]
        })
}

/// A histogram point that has seen nothing yet.
pub open spec fn point_zeroed(p: HistogramPoint, labels: Seq<Seq<char>>, n_buckets: int) -> bool {
    &&& p.labels.deep_view() == labels
    &&& p.count == 0
    &&& p.sum_ms == 0
    &&& p.bucket_counts@.len() == n_buckets
    &&& forall|j: int| 0 <= j < n_buckets ==> #[trigger] p.bucket_counts@[j] == 0
}

/// How a histogram family changes on one observation: the matching point
/// takes it, or a fresh point does.
pub open spec fn histogram_observed(
    o: HistogramVec,
    m: HistogramVec,
    labels: Seq<Seq<char>>,
    value_ms: u64,
) -> bool {
    &&& m.bounds_ms == o.bounds_ms
    &&& if exists|j: int|
        0 <= j < o.points@.len() && (#[trigger] o.points@[j]).labels.deep_view() == labels {
        exists|j: int|
            #![auto]
            0 <= j < o.points@.len() && o.points@[j].labels.deep_view() == labels && m.points@
                == o.points@.update(j, m.points@[j]) && point_observed(
                o.points@[j],
                m.points@[j],
                o.bounds_ms@,
                value_ms,
            )
    } else {
        exists|p0: HistogramPoint|
            #![auto]
            point_zeroed(p0, labels, o.bounds_ms@.len() as int) && m.points@.len()
                == o.points@.len() + 1 && m.points@ == o.points@.push(m.points@.last())
                && point_observed(p0, m.points@.last(), o.bounds_ms@, value_ms)
    }
}

impl HistogramVec {
    /// The family invariant: every point carries one count per bound, and
    /// each label combination has one point.
    pub open spec fn wf(&self) -> bool {
        &&& forall|i: int|
            0 <= i < self.points@.len() ==> (#[trigger] self.points@[i]).bucket_counts@.len()
                == self.bounds_ms@.len()
        &&& forall|i: int, j: int|
            #![trigger self.points@[i].labels, self.points@[j].labels]
            0 <= i < j < self.points@.len() ==> self.points@[i].labels.deep_view()
                != self.points@[j].labels.deep_view()
    }

    /// An empty family over these bounds.
    pub fn new(bounds_ms: Vec<u64>) -> (r: Self)
        ensures
            r.wf(),
            r.bounds_ms == bounds_ms,
            r.points@.len() == 0,
    {
        HistogramVec { bounds_ms, points: Vec::new() }
    }

    /// Books one observed value under these labels.
    pub fn observe(&mut self, labels: Vec<String>, value_ms: u64)
        requires
            old(self).wf(),
        ensures
            final(self).wf(),
            histogram_observed(*old(self), *final(self), labels.deep_view(), value_ms),
    {
        let ghost lv = labels.deep_view();
        let mut found: usize = 0;
        while found < self.points.len() && !labels_eq(&self.points[found].labels, &labels)
            invariant
                *self == *old(self),
                self.wf(),
                found <= self.points@.len(),
                lv == labels.deep_view(),
                forall|j: int|
                    0 <= j < found ==> (#[trigger] self.points@[j]).labels.deep_view() != lv,
            decreases self.points@.len() - found,
        {
            found += 1;
        }
        let ghost had_match = found < self.points@.len();
        proof {
            if had_match {
                assert(self.points@[found as int].labels.deep_view() == lv);
            }
        }
        if found == self.points.len() {
            let mut zeros: Vec<u64> = Vec::new();
            let mut z: usize = 0;
            let nb = self.bounds_ms.len();
            while z < nb
                invariant
                    z <= nb,
                    zeros@.len() == z,
                    forall|j: int| 0 <= j < z ==> #[trigger] zeros@[j] == 0,
                decreases nb - z,
            {
                zeros.push(0);
                z += 1;
            }
            self.points.push(
                HistogramPoint { labels, bucket_counts: zeros, count: 0, sum_ms: 0 },
            );
        }
        let ghost pre = *self;
        let ghost p0 = self.points@[found as int];
        let new_count = sat_add_exec(self.points[found].count, 1);
        let new_sum = sat_add_exec(self.points[found].sum_ms, value_ms);
        let nb = self.bounds_ms.len();
        let mut j: usize = 0;
        while j < nb
            invariant
                found < self.points@.len(),
                nb == self.bounds_ms@.len(),
                j <= nb,
                self.bounds_ms == pre.bounds_ms,
                self.points@.len() == pre.points@.len(),
                forall|a: int|
                    0 <= a < self.points@.len() && a != found ==> #[trigger] self.points@[a]
                        == pre.points@[a],
                self.points@[found as int].labels == p0.labels,
                self.points@[found as int].count == p0.count,
                self.points@[found as int].sum_ms == p0.sum_ms,
                self.points@[found as int].bucket_counts@.len() == p0.bucket_counts@.len(),
                p0 == pre.points@[found as int],
                p0.bucket_counts@.len() >= nb,
                forall|a: int|
                    0 <= a < j ==> #[trigger] self.points@[found as int].bucket_counts@[a] == (
                    if value_ms <= pre.bounds_ms@[a] {
                        sat_add(p0.bucket_counts@[a], 1)
                    } else {
                        p0.bucket_counts@[a]
                    }),
                forall|a: int|
                    j <= a < p0.bucket_counts@.len()
                        ==> #[trigger] self.points@[found as int].bucket_counts@[a]
                        == p0.bucket_counts@[a],
            decreases nb - j,
        {
            if value_ms <= self.bounds_ms[j] {
                let bumped = sat_add_exec(self.points[found].bucket_counts[j], 1);
                let p = &mut self.points[found];
                p.bucket_counts.set(j, bumped);
            }
            j += 1;
        }
        let p = &mut self.points[found];
        p.count = new_count;
        p.sum_ms = new_sum;
        proof {
            assert(point_observed(
                p0,
                self.points@[found as int],
                self.bounds_ms@,
                value_ms,
            ));
            assert(self.points@ =~= pre.points@.update(found as int, self.points@[found as int]));
            if !had_match {
                assert(point_zeroed(p0, lv, old(self).bounds_ms@.len() as int));
                assert(self.points@ =~= old(self).points@.push(self.points@.last()));
            }
            assert forall|a: int, b: int|
                #![trigger self.points@[a].labels, self.points@[b].labels]
                0 <= a < b < self.points@.len() implies self.points@[a].labels.deep_view()
                != self.points@[b].labels.deep_view() by {
                assert(self.points@[a].labels == pre.points@[a].labels);
                assert(self.points@[b].labels == pre.points@[b].labels);
                if !had_match {
                    if a < self.points@.len() - 1 {
                        assert(pre.points@[a].labels == old(self).points@[a].labels);
                    }
                    if b < self.points@.len() - 1 {
                        assert(pre.points@[b].labels == old(self).points@[b].labels);
                    } else {
                        assert(pre.points@[b].labels.deep_view() == lv);
                    }
                }
            }
        }
    }
}

/// How long has passed since `start_ms`, clamped at zero.
pub open spec fn elapsed_ms(start_ms: u64, now_ms: u64) -> u64 {
    if now_ms >= start_ms {
        (now_ms - start_ms) as u64
    } else {
        0
    }
}

/// Every metric the hub reports: request and message counters and
/// latencies, session and connection gauges, error and replay counters.
pub struct Metrics {
    pub http_requests_total: CounterVec,
    pub http_request_duration_ms: HistogramVec,
    pub active_sessions: u64,
    pub sessions_created_total: CounterVec,
    pub mcp_messages_total: CounterVec,
    pub mcp_message_duration_ms: HistogramVec,
    pub mcp_servers_up: u64,
    pub errors_total: CounterVec,
    pub message_buffer_size: u64,
    pub message_replay_total: CounterVec,
    pub active_connections: u64,
    pub websocket_connections_total: CounterVec,
}

impl Metrics {
    /// The sink invariant.
    pub open spec fn wf(&self) -> bool {
        &&& self.http_requests_total.wf()
        &&& self.http_request_duration_ms.wf()
        &&& self.sessions_created_total.wf()
        &&& self.mcp_messages_total.wf()
        &&& self.mcp_message_duration_ms.wf()
        &&& self.errors_total.wf()
        &&& self.message_replay_total.wf()
        &&& self.websocket_connections_total.wf()
    }

    /// A sink with nothing recorded: counters empty, gauges at zero, the
    /// latency buckets in milliseconds mirroring the exported ones.
    pub fn new() -> (r: Self)
        ensures
            r.wf(),
            r.http_requests_total.points@.len() == 0,
            r.http_request_duration_ms.points@.len() == 0,
            r.http_request_duration_ms.bounds_ms@ == seq![
                1u64,
                5u64,
                10u64,
                25u64,
                50u64,
                100u64,
                250u64,
                500u64,
                1000u64,
                2500u64,
                5000u64,
                10000u64,
            ],
            r.active_sessions == 0,
            r.sessions_created_total.points@.len() == 0,
            r.mcp_messages_total.points@.len() == 0,
            r.mcp_message_duration_ms.points@.len() == 0,
            r.mcp_message_duration_ms.bounds_ms@ == seq![
                10u64,
                50u64,
                100u64,
                250u64,
                500u64,
                1000u64,
                2500u64,
                5000u64,
                10000u64,
                30000u64,
                60000u64,
            ],
            r.mcp_servers_up == 0,
            r.errors_total.points@.len() == 0,
            r.message_buffer_size == 0,
            r.message_replay_total.points@.len() == 0,
            r.active_connections == 0,
            r.websocket_connections_total.points@.len() == 0,
    {
        let mut http_bounds: Vec<u64> = Vec::new();
        http_bounds.push(1);
        http_bounds.push(5);
        http_bounds.push(10);
        http_bounds.push(25);
        http_bounds.push(50);
        http_bounds.push(100);
        http_bounds.push(250);
        http_bounds.push(500);
        http_bounds.push(1000);
        http_bounds.push(2500);
        http_bounds.push(5000);
        http_bounds.push(10000);
        let mut mcp_bounds: Vec<u64> = Vec::new();
        mcp_bounds.push(10);
        mcp_bounds.push(50);
        mcp_bounds.push(100);
        mcp_bounds.push(250);
        mcp_bounds.push(500);
        mcp_bounds.push(1000);
        mcp_bounds.push(2500);
        mcp_bounds.push(5000);
        mcp_bounds.push(10000);
        mcp_bounds.push(30000);
        mcp_bounds.push(60000);
        proof {
            assert(http_bounds@ =~= seq![
                1u64,
                5u64,
                10u64,
                25u64,
                50u64,
                100u64,
                250u64,
                500u64,
                1000u64,
                2500u64,
                5000u64,
                10000u64,
            ]);
            assert(mcp_bounds@ =~= seq![
                10u64,
                50u64,
                100u64,
                250u64,
                500u64,
                1000u64,
                2500u64,
                5000u64,
                10000u64,
                30000u64,
                60000u64,
            ]);
        }
        Metrics {
            http_requests_total: CounterVec::new(),
            http_request_duration_ms: HistogramVec::new(http_bounds),
            active_sessions: 0,
            sessions_created_total: CounterVec::new(),
            mcp_messages_total: CounterVec::new(),
            mcp_message_duration_ms: HistogramVec::new(mcp_bounds),
            mcp_servers_up: 0,
            errors_total: CounterVec::new(),
            message_buffer_size: 0,
            message_replay_total: CounterVec::new(),
            active_connections: 0,
            websocket_connections_total: CounterVec::new(),
        }
    }
}

/// Counts one HTTP request, labelled by method, endpoint and status.
pub fn record_http_request(metrics: &mut Metrics, method: &str, endpoint: &str, status: u16)
    requires
        old(metrics).wf(),
    ensures
        final(metrics).wf(),
        counter_bumped(
            old(metrics).http_requests_total,
            final(metrics).http_requests_total,
            seq![method@, endpoint@, dec_chars(status as int)],
            1,
        ),
        *final(metrics) == (Metrics {
            http_requests_total: final(metrics).http_requests_total,
            ..*old(metrics)
        }),
{
    let mut labels: Vec<String> = Vec::new();
    labels.push(method.to_owned());
    labels.push(endpoint.to_owned());
    labels.push(u64_to_dec_string(status as u64));
    proof {
        assert(labels.deep_view() =~= seq![method@, endpoint@, dec_chars(status as int)]);
    }
    metrics.http_requests_total.bump(labels, 1);
}

/// Counts one error, labelled by type and by the child it concerned, or
/// `unknown` without one.
pub fn record_error(metrics: &mut Metrics, error_type: &str, server: Option<&str>)
    requires
        old(metrics).wf(),
    ensures
        final(metrics).wf(),
        counter_bumped(
            old(metrics).errors_total,
            final(metrics).errors_total,
            seq![
                error_type@,
                match server {
                    Some(s) => s@,
                    None => "unknown"@,
                },
            ],
            1,
        ),
        *final(metrics) == (Metrics { errors_total: final(metrics).errors_total, ..*old(metrics) }),
{
    let mut labels: Vec<String> = Vec::new();
    labels.push(error_type.to_owned());
    labels.push(
        match server {
            Some(s) => s.to_owned(),
            None => "unknown".to_owned(),
        },
    );
    proof {
        assert(labels.deep_view() =~= seq![
            error_type@,
            match server {
                Some(s) => s@,
                None => "unknown"@,
            },
        ]);
    }
    metrics.errors_total.bump(labels, 1);
}

/// Sets the live-session gauge.
pub fn set_active_sessions(metrics: &mut Metrics, count: usize)
    ensures
        *final(metrics) == (Metrics { active_sessions: count as u64, ..*old(metrics) }),
{
    metrics.active_sessions = count as u64;
}

/// Sets the live-children gauge.
pub fn set_mcp_servers_up(metrics: &mut Metrics, count: usize)
    ensures
        *final(metrics) == (Metrics { mcp_servers_up: count as u64, ..*old(metrics) }),
{
    metrics.mcp_servers_up = count as u64;
}

/// Sets the gauge of buffered messages over all sessions.
pub fn set_message_buffer_size(metrics: &mut Metrics, size: usize)
    ensures
        *final(metrics) == (Metrics { message_buffer_size: size as u64, ..*old(metrics) }),
{
    metrics.message_buffer_size = size as u64;
}

/// Counts one created session, labelled by transport.
pub fn record_session_created(metrics: &mut Metrics, transport: &str)
    requires
        old(metrics).wf(),
    ensures
        final(metrics).wf(),
        counter_bumped(
            old(metrics).sessions_created_total,
            final(metrics).sessions_created_total,
            seq![transport@],
            1,
        ),
        *final(metrics) == (Metrics {
            sessions_created_total: final(metrics).sessions_created_total,
            ..*old(metrics)
        }),
{
    let mut labels: Vec<String> = Vec::new();
    labels.push(transport.to_owned());
    proof {
        assert(labels.deep_view() =~= seq![transport@]);
    }
    metrics.sessions_created_total.bump(labels, 1);
}

/// Counts replayed messages, labelled by session.
pub fn record_message_replay(metrics: &mut Metrics, session_id: &str, count: usize)
    requires
        old(metrics).wf(),
    ensures
        final(metrics).wf(),
        counter_bumped(
            old(metrics).message_replay_total,
            final(metrics).message_replay_total,
            seq![session_id@],
            count as u64,
        ),
        *final(metrics) == (Metrics {
            message_replay_total: final(metrics).message_replay_total,
            ..*old(metrics)
        }),
{
    let mut labels: Vec<String> = Vec::new();
    labels.push(session_id.to_owned());
    proof {
        assert(labels.deep_view() =~= seq![session_id@]);
    }
    metrics.message_replay_total.bump(labels, count as u64);
}

/// Sets the live-connection gauge.
pub fn set_active_connections(metrics: &mut Metrics, count: usize)
    ensures
        *final(metrics) == (Metrics { active_connections: count as u64, ..*old(metrics) }),
{
    metrics.active_connections = count as u64;
}

/// Counts one WebSocket connection event, labelled by its phase.
pub fn record_websocket_connection(metrics: &mut Metrics, status: &str)
    requires
        old(metrics).wf(),
    ensures
        final(metrics).wf(),
        counter_bumped(
            old(metrics).websocket_connections_total,
            final(metrics).websocket_connections_total,
            seq![status@],
            1,
        ),
        *final(metrics) == (Metrics {
            websocket_connections_total: final(metrics).websocket_connections_total,
            ..*old(metrics)
        }),
{
    let mut labels: Vec<String> = Vec::new();
    labels.push(status.to_owned());
    proof {
        assert(labels.deep_view() =~= seq![status@]);
    }
    metrics.websocket_connections_total.bump(labels, 1);
}

/// Times one HTTP request from its start to `observe_duration`.
pub struct RequestTimer {
    pub start_ms: u64,
    pub method: String,
    pub endpoint: String,
}

impl RequestTimer {
    /// Starts the clock at `now_ms`.
    pub fn new(method: &str, endpoint: &str, now_ms: u64) -> (r: Self)
        ensures
            r.start_ms == now_ms,
            r.method@ == method@,
            r.endpoint@ == endpoint@,
    {
        RequestTimer { start_ms: now_ms, method: method.to_owned(), endpoint: endpoint.to_owned() }
    }

    /// Books the elapsed time on the request-latency histogram.
    pub fn observe_duration(self, metrics: &mut Metrics, now_ms: u64)
        requires
            old(metrics).wf(),
        ensures
            final(metrics).wf(),
            histogram_observed(
                old(metrics).http_request_duration_ms,
                final(metrics).http_request_duration_ms,
                seq![self.method@, self.endpoint@],
                elapsed_ms(self.start_ms, now_ms),
            ),
            *final(metrics) == (Metrics {
                http_request_duration_ms: final(metrics).http_request_duration_ms,
                ..*old(metrics)
            }),
    {
        let duration: u64 = if now_ms >= self.start_ms {
            now_ms - self.start_ms
        } else {
            0
        };
        let mut labels: Vec<String> = Vec::new();
        let ghost mv = self.method@;
        let ghost ev = self.endpoint@;
        labels.push(self.method);
        labels.push(self.endpoint);
        proof {
            assert(labels.deep_view() =~= seq![mv, ev]);
        }
        metrics.http_request_duration_ms.observe(labels, duration);
    }
}

/// Times one routed message from its start to `observe_duration`.
pub struct MCPMessageTimer {
    pub start_ms: u64,
    pub server: String,
    pub method: String,
}

impl MCPMessageTimer {
    /// Starts the clock at `now_ms`.
    pub fn new(server: &str, method: &str, now_ms: u64) -> (r: Self)
        ensures
            r.start_ms == now_ms,
            r.server@ == server@,
            r.method@ == method@,
    {
        MCPMessageTimer { start_ms: now_ms, server: server.to_owned(), method: method.to_owned() }
    }

    /// Books the elapsed time on the message-latency histogram and counts
    /// the message under its outcome.
    pub fn observe_duration(self, metrics: &mut Metrics, status: &str, now_ms: u64)
        requires
            old(metrics).wf(),
        ensures
            final(metrics).wf(),
            histogram_observed(
                old(metrics).mcp_message_duration_ms,
                final(metrics).mcp_message_duration_ms,
                seq![self.server@, self.method@],
                elapsed_ms(self.start_ms, now_ms),
            ),
            counter_bumped(
                old(metrics).mcp_messages_total,
                final(metrics).mcp_messages_total,
                seq![self.server@, self.method@, status@],
                1,
            ),
            *final(metrics) == (Metrics {
                mcp_message_duration_ms: final(metrics).mcp_message_duration_ms,
                mcp_messages_total: final(metrics).mcp_messages_total,
                ..*old(metrics)
            }),
    {
        let duration: u64 = if now_ms >= self.start_ms {
            now_ms - self.start_ms
        } else {
            0
        };
        let ghost sv = self.server@;
        let ghost mv = self.method@;
        let mut hist_labels: Vec<String> = Vec::new();
        hist_labels.push(self.server.clone());
        hist_labels.push(self.method.clone());
        proof {
            assert(hist_labels.deep_view() =~= seq![sv, mv]);
        }
        metrics.mcp_message_duration_ms.observe(hist_labels, duration);
        let mut count_labels: Vec<String> = Vec::new();
        count_labels.push(self.server);
        count_labels.push(self.method);
        count_labels.push(status.to_owned());
        proof {
            assert(count_labels.deep_view() =~= seq![sv, mv, status@]);
        }
        metrics.mcp_messages_total.bump(count_labels, 1);
    }
}

} // verus!
