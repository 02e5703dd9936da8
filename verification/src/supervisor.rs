//! The supervision core: which children are live, how requests are routed
//! to them by name under per-child exclusion, and the bounded restart
//! policy of the health check.
//!
//! The processes themselves live outside the library; this state machine
//! decides, and the surrounding runtime spawns, polls and kills
//! accordingly.

use vstd::prelude::*;
use vstd::pervasive::VecAdditionalExecFns;
use crate::config::ServerConfig;
use crate::text::str_eq;

verus! {

/// A child that exited after this many milliseconds of uptime is a fast
/// crash: presumed misconfigured and never retried.
pub const FAST_CRASH_MS: u64 = 5000;

/// How often a crashed child is restarted before the hub gives it up.
pub const MAX_RESTARTS: u32 = 3;

/// What a non-blocking poll of a child found.
pub enum PollOutcome {
    /// The process is still running.
    Running,
    /// The process has exited.
    Exited,
    /// The poll itself failed; nothing is known.
    PollFailed,
}

/// What one health step decided for one child.
pub enum HealthAction {
    /// No live child stands under this spec; nothing to do.
    NotLive,
    /// The child is alive; its restart count was reset.
    KeptAlive,
    /// The poll failed; the child was left as it was.
    PollErrorIgnored,
    /// The child crashed within the grace uptime: removed, never retried.
    FastCrashRemoved,
    /// The child crashed once too often: removed for good.
    GaveUpRemoved,
    /// The child crashed mid-life: removed, a fresh start should be tried.
    RestartPending,
}

/// One live child: which spec it runs, when it was started, and whether a
/// request is in flight against it.
pub struct LiveChild {
    pub spec_idx: usize,
    pub started_at_ms: u64,
    pub busy: bool,
}

/// The supervisor state: the immutable spec list, the live children, the
/// per-spec restart counts, and the hub's start time.
pub struct HubManager {
    pub configs: Vec<ServerConfig>,
    pub live: Vec<LiveChild>,
    pub restart_counts: Vec<u32>,
    pub start_time_ms: u64,
}

/// The child's uptime at `now_ms`, clamped at zero.
pub open spec fn uptime_of(started_at_ms: u64, now_ms: u64) -> u64 {
    if now_ms >= started_at_ms {
        (now_ms - started_at_ms) as u64
    } else {
        0
    }
}

impl HubManager {
    /// The supervisor invariant: counts parallel the specs and stay within
    /// the restart bound, spec names are unique and non-empty, and at most
    /// one live child stands under each spec.
    pub open spec fn wf(&self) -> bool {
        &&& self.restart_counts@.len() == self.configs@.len()
        &&& forall|i: int|
            0 <= i < self.restart_counts@.len() ==> #[trigger] self.restart_counts@[i]
                <= MAX_RESTARTS
        &&& forall|i: int, j: int|
            #![trigger self.configs@[i].name, self.configs@[j].name]
            0 <= i < j < self.configs@.len() ==> self.configs@[i].name@ != self.configs@[j].name@
        &&& forall|i: int| 0 <= i < self.configs@.len() ==> (#[trigger] self.configs@[i]).name@.len() > 0
        &&& forall|k: int|
            0 <= k < self.live@.len() ==> (#[trigger] self.live@[k]).spec_idx < self.configs@.len()
        &&& forall|k1: int, k2: int|
            #![trigger self.live@[k1].spec_idx, self.live@[k2].spec_idx]
            0 <= k1 < k2 < self.live@.len() ==> self.live@[k1].spec_idx != self.live@[k2].spec_idx
    }

    /// Whether a live child stands under spec `spec_idx`.
    pub open spec fn has_live(&self, spec_idx: int) -> bool {
        exists|k: int| 0 <= k < self.live@.len() && (#[trigger] self.live@[k]).spec_idx == spec_idx
    }

    /// Whether a live child answers to `name`.
    pub open spec fn has_live_named(&self, name: Seq<char>) -> bool {
        exists|k: int|
            0 <= k < self.live@.len() && self.configs@[(#[trigger] self.live@[k]).spec_idx as int].name@
                == name
    }

    /// A fresh supervisor over the given specs: nothing live yet, all
    /// restart counts at zero.
    pub fn new(configs: Vec<ServerConfig>, now_ms: u64) -> (r: Self)
        requires
            forall|i: int, j: int|
                #![trigger configs@[i].name, configs@[j].name]
                0 <= i < j < configs@.len() ==> configs@[i].name@ != configs@[j].name@,
            forall|i: int| 0 <= i < configs@.len() ==> (#[trigger] configs@[i]).name@.len() > 0,
        ensures
            r.wf(),
            r.configs == configs,
            r.live@.len() == 0,
            r.restart_counts@.len() == configs@.len(),
            forall|i: int| 0 <= i < r.restart_counts@.len() ==> #[trigger] r.restart_counts@[i] == 0,
            r.start_time_ms == now_ms,
    {
        let n = configs.len();
        let mut counts: Vec<u32> = Vec::new();
        let mut i: usize = 0;
        while i < n
            invariant
                i <= n,
                counts@.len() == i,
                forall|j: int| 0 <= j < i ==> #[trigger] counts@[j] == 0,
            decreases n - i,
        {
            counts.push(0);
            i += 1;
        }
        HubManager { configs, live: Vec::new(), restart_counts: counts, start_time_ms: now_ms }
    }

    /// Records the outcome of one attempt to start the child of spec
    /// `spec_idx`: on success the child joins the live set, on failure it
    /// stays absent. Used for the initial starts and for restarts alike.
    pub fn record_start_outcome(&mut self, spec_idx: usize, ok: bool, now_ms: u64)
        requires
            old(self).wf(),
            spec_idx < old(self).configs@.len(),
            !old(self).has_live(spec_idx as int),
        ensures
            final(self).wf(),
            final(self).configs == old(self).configs,
            final(self).restart_counts == old(self).restart_counts,
            final(self).start_time_ms == old(self).start_time_ms,
            ok ==> final(self).live@ == old(self).live@.push(
                LiveChild { spec_idx, started_at_ms: now_ms, busy: false },
            ),
            !ok ==> final(self).live@ == old(self).live@,
    {
        if ok {
            self.live.push(LiveChild { spec_idx, started_at_ms: now_ms, busy: false });
        }
    }

    /// Records the outcome of a restart attempt after `health_step` asked
    /// for one: on success the fresh process replaces the dead entry, on
    /// failure the dead entry stays, so the next tick finds it exited and
    /// may try again while the count is below the cap.
    pub fn record_restart_outcome(&mut self, spec_idx: usize, ok: bool, now_ms: u64)
        requires
            old(self).wf(),
            spec_idx < old(self).configs@.len(),
        ensures
            final(self).wf(),
            final(self).configs == old(self).configs,
            final(self).restart_counts == old(self).restart_counts,
            final(self).start_time_ms == old(self).start_time_ms,
            !old(self).has_live(spec_idx as int) ==> final(self).live@ == old(self).live@,
            old(self).has_live(spec_idx as int) && !ok ==> final(self).live@ == old(self).live@,
            old(self).has_live(spec_idx as int) && ok ==> exists|k: int|
                #![trigger old(self).live@[k]]
                0 <= k < old(self).live@.len() && old(self).live@[k].spec_idx == spec_idx
                    && final(self).live@ == old(self).live@.update(
                    k,
                    LiveChild { spec_idx, started_at_ms: now_ms, busy: false },
                ),
    {
        if !ok {
            return ;
        }
        let mut pos: usize = 0;
        while pos < self.live.len() && self.live[pos].spec_idx != spec_idx
            invariant
                *self == *old(self),
                self.wf(),
                spec_idx < self.configs@.len(),
                pos <= self.live@.len(),
                forall|j: int| 0 <= j < pos ==> (#[trigger] self.live@[j]).spec_idx != spec_idx,
            decreases self.live@.len() - pos,
        {
            pos += 1;
        }
        if pos == self.live.len() {
            return ;
        }
        self.live.set(pos, LiveChild { spec_idx, started_at_ms: now_ms, busy: false });
    }

    /// The position in the live set of the child named `name`.
    fn find_live(&self, name: &str) -> (r: Option<usize>)
        requires
            self.wf(),
        ensures
            r matches Some(k) ==> k < self.live@.len()
                && self.configs@[self.live@[k as int].spec_idx as int].name@ == name@,
            r is None ==> !self.has_live_named(name@),
    {
        let mut k: usize = 0;
        while k < self.live.len()
            invariant
                self.wf(),
                k <= self.live@.len(),
                forall|j: int|
                    0 <= j < k ==> self.configs@[(#[trigger] self.live@[j]).spec_idx as int].name@
                        != name@,
            decreases self.live@.len() - k,
        {
            let idx = self.live[k].spec_idx;
            if str_eq(self.configs[idx].name.as_str(), name) {
                return Some(k);
            }
            k += 1;
        }
        None
    }

    /// Takes the single request slot of the child named `name`. A ticket
    /// comes back only when such a child is live and no other request is in
    /// flight against it: stdin and stdout of a child form one ordered
    /// pipe, so at most one exchange may run at a time.
    pub fn begin_send(&mut self, name: &str) -> (r: Option<usize>)
        requires
            old(self).wf(),
        ensures
            final(self).wf(),
            final(self).configs == old(self).configs,
            final(self).restart_counts == old(self).restart_counts,
            final(self).start_time_ms == old(self).start_time_ms,
            r matches Some(k) ==> k < old(self).live@.len()
                && old(self).configs@[old(self).live@[k as int].spec_idx as int].name@ == name@
                && !old(self).live@[k as int].busy && final(self).live@ == old(
                self,
            ).live@.update(
                k as int,
                LiveChild { busy: true, ..old(self).live@[k as int] },
            ),
            r is None ==> final(self).live@ == old(self).live@ && (!old(self).has_live_named(
                name@,
            ) || exists|k: int|
                0 <= k < old(self).live@.len() && old(self).configs@[(#[trigger] old(
                    self,
                ).live@[k]).spec_idx as int].name@ == name@ && old(self).live@[k].busy),
    {
        match self.find_live(name) {
            Some(k) => {
                let child = &self.live[k];
                if child.busy {
                    return None;
                }
                let updated = LiveChild {
                    spec_idx: child.spec_idx,
                    started_at_ms: child.started_at_ms,
                    busy: true,
                };
                self.live.set(k, updated);
                Some(k)
            },
            None => None,
        }
    }

    /// Releases the request slot taken by `begin_send`.
    pub fn finish_send(&mut self, k: usize)
        requires
            old(self).wf(),
            k < old(self).live@.len(),
        ensures
            final(self).wf(),
            final(self).configs == old(self).configs,
            final(self).restart_counts == old(self).restart_counts,
            final(self).start_time_ms == old(self).start_time_ms,
            final(self).live@ == old(self).live@.update(
                k as int,
                LiveChild { busy: false, ..old(self).live@[k as int] },
            ),
    {
        let child = &self.live[k];
        let updated = LiveChild {
            spec_idx: child.spec_idx,
            started_at_ms: child.started_at_ms,
            busy: false,
        };
        self.live.set(k, updated);
    }

    /// One health-check step for the child of spec `spec_idx`, fed with
    /// what a non-blocking poll of its process found.
    ///
    /// A child still running has its restart count reset. A child that
    /// exited within `FAST_CRASH_MS` of uptime is removed and never
    /// retried, its count untouched. A child that exited later with its
    /// count already at `MAX_RESTARTS` is removed for good. Otherwise the
    /// count moves up and a restart is requested; the entry stays in the
    /// live set, so that when the fresh start fails a later tick finds the
    /// dead child again and may retry, up to the cap.
    pub fn health_step(&mut self, spec_idx: usize, poll: PollOutcome, now_ms: u64) -> (action:
        HealthAction)
        requires
            old(self).wf(),
            spec_idx < old(self).configs@.len(),
        ensures
            final(self).wf(),
            final(self).configs == old(self).configs,
            final(self).start_time_ms == old(self).start_time_ms,
            !old(self).has_live(spec_idx as int) ==> ({
                let o = *old(self);
                let m = *final(self);
                action == HealthAction::NotLive && m.live@ == o.live@ && m.restart_counts
                    == o.restart_counts
            }),
            old(self).has_live(spec_idx as int) ==> exists|k: int|
                #![trigger old(self).live@[k]]
                ({
                    let o = *old(self);
                    let m = *final(self);
                    0 <= k < o.live@.len() && o.live@[k].spec_idx == spec_idx && {
                        let uptime = uptime_of(o.live@[k].started_at_ms, now_ms);
                        let count = o.restart_counts@[spec_idx as int];
                        match poll {
                            PollOutcome::Running => action == HealthAction::KeptAlive && m.live@
                                == o.live@ && m.restart_counts@ == o.restart_counts@.update(
                                spec_idx as int,
                                0u32,
                            ),
                            PollOutcome::PollFailed => action == HealthAction::PollErrorIgnored
                                && m.live@ == o.live@ && m.restart_counts == o.restart_counts,
                            PollOutcome::Exited => {
                                if uptime < FAST_CRASH_MS {
                                    action == HealthAction::FastCrashRemoved && m.live@
                                        == o.live@.remove(k) && m.restart_counts
                                        == o.restart_counts
                                } else if count >= MAX_RESTARTS {
                                    action == HealthAction::GaveUpRemoved && m.live@
                                        == o.live@.remove(k) && m.restart_counts
                                        == o.restart_counts
                                } else {
                                    action == HealthAction::RestartPending && m.live@ == o.live@
                                        && m.restart_counts@ == o.restart_counts@.update(
                                        spec_idx as int,
                                        (count + 1) as u32,
                                    )
                                }
                            },
                        }
                    }
                }),
    {
        let mut pos: usize = 0;
        while pos < self.live.len() && self.live[pos].spec_idx != spec_idx
            invariant
                *self == *old(self),
                self.wf(),
                spec_idx < self.configs@.len(),
                pos <= self.live@.len(),
                forall|j: int| 0 <= j < pos ==> (#[trigger] self.live@[j]).spec_idx != spec_idx,
            decreases self.live@.len() - pos,
        {
            pos += 1;
        }
        if pos == self.live.len() {
            return HealthAction::NotLive;
        }
        match poll {
            PollOutcome::Running => {
                self.restart_counts.set(spec_idx, 0);
                HealthAction::KeptAlive
            },
            PollOutcome::PollFailed => HealthAction::PollErrorIgnored,
            PollOutcome::Exited => {
                let started = self.live[pos].started_at_ms;
                let uptime: u64 = if now_ms >= started {
                    now_ms - started
                } else {
                    0
                };
                let ghost before = self.live@;
                if uptime < FAST_CRASH_MS {
                    self.live.remove(pos);
                    proof {
                        lemma_live_remove_keeps_wf(before, pos as int);
                    }
                    HealthAction::FastCrashRemoved
                } else {
                    let count = self.restart_counts[spec_idx];
                    if count >= MAX_RESTARTS {
                        self.live.remove(pos);
                        proof {
                            lemma_live_remove_keeps_wf(before, pos as int);
                        }
                        HealthAction::GaveUpRemoved
                    } else {
                        self.restart_counts.set(spec_idx, count + 1);
                        HealthAction::RestartPending
                    }
                }
            },
        }
    }

    /// The names of the live children, in live order.
    pub fn list_servers(&self) -> (r: Vec<String>)
        requires
            self.wf(),
        ensures
            r@.len() == self.live@.len(),
            forall|k: int|
                0 <= k < r@.len() ==> (#[trigger] r@[k])@ == self.configs@[self.live@[k].spec_idx
                    as int].name@,
    {
        let mut out: Vec<String> = Vec::new();
        let mut k: usize = 0;
        while k < self.live.len()
            invariant
                self.wf(),
                k <= self.live@.len(),
                out@.len() == k,
                forall|j: int|
                    0 <= j < k ==> (#[trigger] out@[j])@ == self.configs@[self.live@[j].spec_idx
                        as int].name@,
            decreases self.live@.len() - k,
        {
            let idx = self.live[k].spec_idx;
            out.push(self.configs[idx].name.clone());
            k += 1;
        }
        out
    }

    /// How many children are live.
    pub fn server_count(&self) -> (r: usize)
        ensures
            r == self.live@.len(),
    {
        self.live.len()
    }

    /// The hub's uptime at `now_ms`, clamped at zero.
    pub fn uptime_ms(&self, now_ms: u64) -> (r: u64)
        ensures
            r == uptime_of(self.start_time_ms, now_ms),
    {
        if now_ms >= self.start_time_ms {
            now_ms - self.start_time_ms
        } else {
            0
        }
    }
}

proof fn lemma_live_remove_keeps_wf(live: Seq<LiveChild>, k: int)
    requires
        0 <= k < live.len(),
    ensures
        forall|a: int|
            0 <= a < live.remove(k).len() ==> (#[trigger] live.remove(k)[a]) == (if a < k {
                live[a]
            } else {
                live[a + 1]
            }),
{
    live.remove_ensures(k);
}

/// Restart counts never pass the bound: between hub restarts, no child is
/// restarted more than `MAX_RESTARTS` times.
pub proof fn lemma_restart_counts_bounded(m: HubManager, i: int)
    requires
        m.wf(),
        0 <= i < m.restart_counts@.len(),
    ensures
        m.restart_counts@[i] <= MAX_RESTARTS,
{
}

/// True when the key stands in the entry list.
pub open spec fn assoc_has_key(entries: Seq<(String, String)>, key: Seq<char>) -> bool {
    exists|i: int| 0 <= i < entries.len() && (#[trigger] entries[i]).0@ == key
}

fn assoc_contains_key(entries: &Vec<(String, String)>, key: &str) -> (r: bool)
    ensures
        r == assoc_has_key(entries@, key@),
{
    let mut i: usize = 0;
    while i < entries.len()
        invariant
            i <= entries@.len(),
            forall|j: int| 0 <= j < i ==> (#[trigger] entries@[j]).0@ != key@,
        decreases entries@.len() - i,
    {
        if str_eq(entries[i].0.as_str(), key) {
            return true;
        }
        i += 1;
    }
    false
}

/// Merges a child's own environment entries over the hub's: an entry of
/// `base` survives only when `overrides` does not name its key, and every
/// entry of `overrides` stands, so the child's values win.
pub fn merge_env(base: &Vec<(String, String)>, overrides: &Vec<(String, String)>) -> (r: Vec<
    (String, String),
>)
    ensures
        r@ == base@.filter(|p: (String, String)| !assoc_has_key(overrides@, p.0@))
            + overrides@,
{
    let ghost pred = |p: (String, String)| !assoc_has_key(overrides@, p.0@);
    let mut out: Vec<(String, String)> = Vec::new();
    let mut i: usize = 0;
    while i < base.len()
        invariant
            i <= base@.len(),
            out@ == base@.subrange(0, i as int).filter(pred),
            pred == (|p: (String, String)| !assoc_has_key(overrides@, p.0@)),
        decreases base@.len() - i,
    {
        let keep = !assoc_contains_key(overrides, base[i].0.as_str());
        if keep {
            out.push((base[i].0.clone(), base[i].1.clone()));
        }
        proof {
            reveal(Seq::filter);
            let pre = base@.subrange(0, i as int);
            let next = base@.subrange(0, i + 1);
            assert(next.drop_last() =~= pre);
            assert(next.last() == base@[i as int]);
            assert(out@ =~= next.filter(pred));
        }
        i += 1;
    }
    proof {
        assert(base@.subrange(0, base@.len() as int) =~= base@);
    }
    let mut j: usize = 0;
    while j < overrides.len()
        invariant
            j <= overrides@.len(),
            out@ == base@.filter(pred) + overrides@.subrange(0, j as int),
            pred == (|p: (String, String)| !assoc_has_key(overrides@, p.0@)),
        decreases overrides@.len() - j,
    {
        out.push((overrides[j].0.clone(), overrides[j].1.clone()));
        proof {
            assert(out@ =~= base@.filter(pred) + overrides@.subrange(0, j + 1));
        }
        j += 1;
    }
    proof {
        assert(overrides@.subrange(0, overrides@.len() as int) =~= overrides@);
        assert(out@ =~= base@.filter(pred) + overrides@);
    }
    out
}

} // verus!
