//! The statistics of one container: what is read from the samples that the engine sends.

use crate::json::{path_view, Json, JsonView};
use crate::logs::{Follow, FollowView};
use crate::text;
use std::collections::VecDeque;
use vstd::prelude::*;

verus! {

/// As many points of each series are kept.
pub const CAPACITY: usize = 120;

/// What is kept of the sample that came last.
#[derive(Clone, Copy, Debug, PartialEq, Eq, Structural)]
pub struct Totals {
    pub cpu: u64,
    pub rx: u64,
    pub tx: u64,
}

/// What the share of the processors is computed from.
#[derive(Clone, Copy, Debug, PartialEq, Eq, Structural)]
pub enum CpuBasis {
    /// The container's time and the host's, each with its value one sample before.
    Host { total: u64, pre_total: u64, system: u64, pre_system: u64 },
    /// The container's time since the last sample, against the time that passed.
    Elapsed { delta: u64 },
    /// There is nothing to compare with.
    Unknown,
}

/// What one sample says.
#[derive(Clone, Copy, Debug, PartialEq, Eq)]
pub struct Reading {
    pub ncpu: u64,
    /// Memory in use, what of it is only cached, and the limit, in bytes.
    pub usage: u64,
    pub cached: u64,
    pub limit: u64,
    pub cpu: CpuBasis,
    /// The container's processor time is what it was at the last sample.
    pub cpu_unchanged: bool,
    /// Bytes that came in and went out since the last sample, if there was one.
    pub net: Option<(u64, u64)>,
}

/* ---------------- a sample ---------------- */

pub open spec fn minus(a: u64, b: u64) -> u64 {
    (if a > b {
        a - b
    } else {
        0
    }) as u64
}

pub open spec fn plus(a: u64, b: u64) -> u64 {
    (if a + b > u64::MAX {
        u64::MAX as int
    } else {
        a + b
    }) as u64
}

/// The number of processors: what the sample says, or as many as it lists, and at least one.
pub open spec fn ncpu_of(j: JsonView) -> u64 {
    let said = match j.at(seq!["cpu_stats"@, "online_cpus"@]) {
        Some(x) => x.whole(),
        None => None,
    };
    let n = match said {
        Some(n) => n,
        None => match j.at(seq!["cpu_stats"@, "cpu_usage"@, "percpu_usage"@]) {
            Some(JsonView::List(l)) => l.len() as u64,
            _ => 1,
        },
    };
    if n == 0 {
        1
    } else {
        n
    }
}

/// What of the memory in use is only cached: the files not used lately, or else the page cache.
pub open spec fn cached_of(j: JsonView) -> u64 {
    let inactive = j.whole_at(seq!["memory_stats"@, "stats"@, "inactive_file"@]);
    if inactive > 0 {
        inactive
    } else {
        j.whole_at(seq!["memory_stats"@, "stats"@, "cache"@])
    }
}

/// A counter of all interfaces together.
pub open spec fn net_sum(l: Seq<(Seq<char>, JsonView)>, key: Seq<char>) -> u64
    decreases l.len(),
{
    if l.len() == 0 {
        0
    } else {
        plus(net_sum(l.drop_last(), key), l.last().1.whole_at(seq![key]))
    }
}

/// Bytes that came in and went out over all interfaces.
pub open spec fn net_totals(j: JsonView) -> (u64, u64) {
    match j.member("networks"@) {
        Some(JsonView::Object(l)) => (net_sum(l, "rx_bytes"@), net_sum(l, "tx_bytes"@)),
        _ => (0, 0),
    }
}

pub open spec fn cpu_basis(j: JsonView, last: Option<Totals>) -> CpuBasis {
    let total = j.whole_at(seq!["cpu_stats"@, "cpu_usage"@, "total_usage"@]);
    let pre_total = j.whole_at(seq!["precpu_stats"@, "cpu_usage"@, "total_usage"@]);
    let system = j.whole_at(seq!["cpu_stats"@, "system_cpu_usage"@]);
    let pre_system = j.whole_at(seq!["precpu_stats"@, "system_cpu_usage"@]);
    if pre_total > 0 && pre_system > 0 && system > 0 {
        CpuBasis::Host { total, pre_total, system, pre_system }
    } else {
        match last {
            Some(p) => CpuBasis::Elapsed { delta: minus(total, p.cpu) },
            None => CpuBasis::Unknown,
        }
    }
}

/// What a sample says, with what is kept of the one before.
pub open spec fn reading_of(j: JsonView, last: Option<Totals>) -> Reading {
    let (rx, tx) = net_totals(j);
    Reading {
        ncpu: ncpu_of(j),
        usage: j.whole_at(seq!["memory_stats"@, "usage"@]),
        cached: cached_of(j),
        limit: j.whole_at(seq!["memory_stats"@, "limit"@]),
        cpu: cpu_basis(j, last),
        cpu_unchanged: match last {
            Some(p) => p.cpu == j.whole_at(seq!["cpu_stats"@, "cpu_usage"@, "total_usage"@]),
            None => false,
        },
        net: match last {
            Some(p) => Some((minus(rx, p.rx), minus(tx, p.tx))),
            None => None,
        },
    }
}

/// What is kept of a sample.
pub open spec fn totals_of(j: JsonView) -> Totals {
    Totals {
        cpu: j.whole_at(seq!["cpu_stats"@, "cpu_usage"@, "total_usage"@]),
        rx: net_totals(j).0,
        tx: net_totals(j).1,
    }
}

fn at2<'a>(v: &'a Json, a: &str, b: &str) -> (r: Option<&'a Json>)
    ensures
        match r {
            Some(j) => v.model().at(seq![a@, b@]) == Some(j.model()),
            None => v.model().at(seq![a@, b@]) is None,
        },
{
    let path: [&str; 2] = [a, b];
    assert(path_view(path@) == seq![a@, b@]);
    v.at(&path)
}

fn at3<'a>(v: &'a Json, a: &str, b: &str, c: &str) -> (r: Option<&'a Json>)
    ensures
        match r {
            Some(j) => v.model().at(seq![a@, b@, c@]) == Some(j.model()),
            None => v.model().at(seq![a@, b@, c@]) is None,
        },
{
    let path: [&str; 3] = [a, b, c];
    assert(path_view(path@) == seq![a@, b@, c@]);
    v.at(&path)
}

fn whole1(v: &Json, a: &str) -> (r: u64)
    ensures
        r == v.model().whole_at(seq![a@]),
{
    let path: [&str; 1] = [a];
    assert(path_view(path@) == seq![a@]);
    v.whole_at(&path)
}

fn whole2(v: &Json, a: &str, b: &str) -> (r: u64)
    ensures
        r == v.model().whole_at(seq![a@, b@]),
{
    let path: [&str; 2] = [a, b];
    assert(path_view(path@) == seq![a@, b@]);
    v.whole_at(&path)
}

fn whole3(v: &Json, a: &str, b: &str, c: &str) -> (r: u64)
    ensures
        r == v.model().whole_at(seq![a@, b@, c@]),
{
    let path: [&str; 3] = [a, b, c];
    assert(path_view(path@) == seq![a@, b@, c@]);
    v.whole_at(&path)
}

fn count_cpus(v: &Json) -> (r: u64)
    ensures
        r == ncpu_of(v.model()),
{
    let said: Option<u64> = match at2(v, "cpu_stats", "online_cpus") {
        Some(x) => x.whole(),
        None => None,
    };
    let n: u64 = match said {
        Some(n) => n,
        None => match at3(v, "cpu_stats", "cpu_usage", "percpu_usage") {
            Some(x) => match x {
                Json::List(l) => {
                    assert(x.model()->List_0.len() == l@.len());
                    l.len() as u64
                },
                _ => 1,
            },
            None => 1,
        },
    };
    if n == 0 {
        1
    } else {
        n
    }
}

/// Bytes that came in and went out over all interfaces.
pub fn net_totals_bytes(v: &Json) -> (r: (u64, u64))
    ensures
        r == net_totals(v.model()),
{
    match v.get("networks") {
        Some(n) => match n {
            Json::Object(l) => {
                let ghost lv = n.model()->Object_0;
                let mut rx: u64 = 0;
                let mut tx: u64 = 0;
                let mut i: usize = 0;
                assert(lv.take(0) == Seq::<(Seq<char>, JsonView)>::empty());
                while i < l.len()
                    invariant
                        i <= l@.len(),
                        *n == Json::Object(*l),
                        n.model() == JsonView::Object(lv),
                        lv.len() == l@.len(),
                        forall|k: int|
                            0 <= k < l@.len() ==> #[trigger] lv[k] == (l@[k].0@, l@[k].1.model()),
                        rx == net_sum(lv.take(i as int), "rx_bytes"@),
                        tx == net_sum(lv.take(i as int), "tx_bytes"@),
                    decreases l@.len() - i,
                {
                    assert(lv.take(i + 1).drop_last() == lv.take(i as int));
                    assert(lv[i as int] == (l@[i as int].0@, l@[i as int].1.model()));
                    rx = rx.saturating_add(whole1(&l[i].1, "rx_bytes"));
                    tx = tx.saturating_add(whole1(&l[i].1, "tx_bytes"));
                    i += 1;
                }
                assert(lv.take(lv.len() as int) == lv);
                (rx, tx)
            },
            _ => (0, 0),
        },
        None => (0, 0),
    }
}

/// Keeps the last `cap` items.
pub fn trim<T>(dq: &mut VecDeque<T>, cap: usize)
    ensures
        final(dq)@ == (if old(dq)@.len() > cap {
            old(dq)@.skip(old(dq)@.len() - cap)
        } else {
            old(dq)@
        }),
{
    let ghost all = dq@;
    let ghost mut gone: int = 0;
    assert(all.skip(0) == all);
    while dq.len() > cap
        invariant
            0 <= gone <= all.len(),
            dq@ == all.skip(gone),
            gone == 0 || all.len() - gone >= cap,
        decreases dq@.len(),
    {
        let _ = dq.pop_front();
        proof {
            assert(all.skip(gone).subrange(1, all.len() - gone) == all.skip(gone + 1));
            gone = gone + 1;
        }
    }
}

/* ---------------- the pane ---------------- */

pub struct StatsPane {
    pub visible: bool,
    pub container_id: Option<String>,
    /// A stream of samples is being read.
    pub streaming: bool,
    pub last: Option<Totals>,
    pub last_ncpu: u64,
}

#[verifier::ext_equal]
pub struct StatsModel {
    pub visible: bool,
    pub container_id: Option<Seq<char>>,
    pub streaming: bool,
    pub last: Option<Totals>,
    pub last_ncpu: u64,
}

impl View for StatsPane {
    type V = StatsModel;

    open spec fn view(&self) -> StatsModel {
        StatsModel {
            visible: self.visible,
            container_id: self.container_id.deep_view(),
            streaming: self.streaming,
            last: self.last,
            last_ncpu: self.last_ncpu,
        }
    }
}

impl StatsModel {
    pub open spec fn fresh() -> StatsModel {
        StatsModel {
            visible: false,
            container_id: None,
            streaming: false,
            last: None,
            last_ncpu: 1,
        }
    }

    /// Without a stream, and with one where a container is known.
    pub open spec fn restarted(self) -> (StatsModel, FollowView) {
        match self.container_id {
            Some(id) => (StatsModel { streaming: true, ..self }, FollowView::Start(id)),
            None => (StatsModel { streaming: false, ..self }, FollowView::Stop),
        }
    }

    pub open spec fn shown(self, vis: bool) -> (StatsModel, FollowView) {
        if vis && !self.visible {
            let m = StatsModel { visible: true, ..self };
            if !m.streaming && m.container_id is Some {
                m.restarted()
            } else {
                (m, FollowView::Keep)
            }
        } else if !vis && self.visible {
            (StatsModel { visible: false, streaming: false, ..self }, FollowView::Stop)
        } else {
            (self, FollowView::Keep)
        }
    }

    /// Turned to a container; the second says whether the series begin anew.
    pub open spec fn attached(self, id: Seq<char>) -> (StatsModel, bool, FollowView) {
        if self.container_id != Some(id) {
            let m = StatsModel { container_id: Some(id), last: None, last_ncpu: 1, ..self };
            if m.visible {
                (m.restarted().0, true, m.restarted().1)
            } else {
                (m, true, FollowView::Keep)
            }
        } else {
            (self, false, FollowView::Keep)
        }
    }

    pub open spec fn ticked(self) -> (StatsModel, FollowView) {
        if self.visible && !self.streaming && self.container_id is Some {
            self.restarted()
        } else {
            (self, FollowView::Keep)
        }
    }

    /// A sample was taken in.
    pub open spec fn ingested(self, j: JsonView) -> StatsModel {
        StatsModel { last: Some(totals_of(j)), last_ncpu: ncpu_of(j), ..self }
    }

    /// Of the samples that came since the last tick the newest counts; `closed` says that no
    /// more will come.
    pub open spec fn sampled(self, samples: Seq<JsonView>, closed: bool) -> (
        StatsModel,
        Option<Reading>,
    ) {
        if !self.visible || !self.streaming {
            (self, None)
        } else {
            let m = StatsModel { streaming: !closed, ..self };
            if samples.len() == 0 {
                (m, None)
            } else {
                (m.ingested(samples.last()), Some(reading_of(samples.last(), self.last)))
            }
        }
    }
}

pub open spec fn models(l: Seq<Json>) -> Seq<JsonView> {
    l.map_values(|j: Json| j.model())
}

impl StatsPane {
    pub fn new() -> (r: StatsPane)
        ensures
            r@ == StatsModel::fresh(),
    {
        StatsPane {
            visible: false,
            container_id: None,
            streaming: false,
            last: None,
            last_ncpu: 1,
        }
    }

    fn restart_stream(&mut self) -> (r: Follow)
        ensures
            (final(self)@, r@) == old(self)@.restarted(),
    {
        let id: Option<String> = match &self.container_id {
            Some(id) => Some(id.clone()),
            None => None,
        };
        match id {
            Some(id) => {
                self.streaming = true;
                Follow::Start(id)
            },
            None => {
                self.streaming = false;
                Follow::Stop
            },
        }
    }

    pub fn set_visible(&mut self, vis: bool) -> (r: Follow)
        ensures
            (final(self)@, r@) == old(self)@.shown(vis),
    {
        if vis && !self.visible {
            self.visible = true;
            if !self.streaming && self.container_id.is_some() {
                return self.restart_stream();
            }
        } else if !vis && self.visible {
            self.visible = false;
            self.streaming = false;
            return Follow::Stop;
        }
        Follow::Keep
    }

    /// Turns the pane to a container. The first of the result says whether the series that
    /// were gathered go.
    pub fn attach(&mut self, id: &str) -> (r: (bool, Follow))
        ensures
            (final(self)@, r.0, r.1@) == old(self)@.attached(id@),
    {
        let other = match &self.container_id {
            Some(now) => !text::same(now.as_str(), id),
            None => true,
        };
        if !other {
            return (false, Follow::Keep);
        }
        self.container_id = Some(id.to_owned());
        self.last = None;
        self.last_ncpu = 1;
        if self.visible {
            let follow = self.restart_stream();
            (true, follow)
        } else {
            (true, Follow::Keep)
        }
    }

    /// A tick: a pane that is shown and reads nothing begins to read.
    pub fn on_tick(&mut self) -> (r: Follow)
        ensures
            (final(self)@, r@) == old(self)@.ticked(),
    {
        if self.visible && !self.streaming && self.container_id.is_some() {
            self.restart_stream()
        } else {
            Follow::Keep
        }
    }

    /// Takes one sample in.
    pub fn ingest(&mut self, v: &Json) -> (r: Reading)
        ensures
            final(self)@ == old(self)@.ingested(v.model()),
            r == reading_of(v.model(), old(self)@.last),
    {
        let ncpu: u64 = count_cpus(v);
        let usage: u64 = whole2(v, "memory_stats", "usage");
        let limit: u64 = whole2(v, "memory_stats", "limit");
        let inactive_file: u64 = whole3(v, "memory_stats", "stats", "inactive_file");
        let cached: u64 = if inactive_file > 0 {
            inactive_file
        } else {
            whole3(v, "memory_stats", "stats", "cache")
        };
        let total: u64 = whole3(v, "cpu_stats", "cpu_usage", "total_usage");
        let pre_total: u64 = whole3(v, "precpu_stats", "cpu_usage", "total_usage");
        let system: u64 = whole2(v, "cpu_stats", "system_cpu_usage");
        let pre_system: u64 = whole2(v, "precpu_stats", "system_cpu_usage");
        let (rx, tx) = net_totals_bytes(v);
        let cpu = if pre_total > 0 && pre_system > 0 && system > 0 {
            CpuBasis::Host { total, pre_total, system, pre_system }
        } else {
            match self.last {
                Some(p) => CpuBasis::Elapsed { delta: total.saturating_sub(p.cpu) },
                None => CpuBasis::Unknown,
            }
        };
        let (cpu_unchanged, net) = match self.last {
            Some(p) => (
                p.cpu == total,
                Some((rx.saturating_sub(p.rx), tx.saturating_sub(p.tx))),
            ),
            None => (false, None),
        };
        self.last = Some(Totals { cpu: total, rx, tx });
        self.last_ncpu = ncpu;
        Reading { ncpu, usage, cached, limit, cpu, cpu_unchanged, net }
    }

    /// Takes the samples that came since the last tick.
    pub fn on_samples(&mut self, samples: &Vec<Json>, closed: bool) -> (r: Option<Reading>)
        ensures
            (final(self)@, r) == old(self)@.sampled(models(samples@), closed),
    {
        if !self.visible || !self.streaming {
            return None;
        }
        if closed {
            self.streaming = false;
        }
        let n: usize = samples.len();
        if n == 0 {
            return None;
        }
        Some(self.ingest(&samples[n - 1]))
    }
}

/* ---------------- laws ---------------- */

/// Whatever a sample says, at least one processor is counted.
pub proof fn some_processor_is_counted(m: StatsModel, j: JsonView)
    ensures
        m.ingested(j).last_ncpu >= 1,
        StatsModel::fresh().last_ncpu >= 1,
{
}

/// A pane reads samples only while it is shown: nothing that happens to it leaves it hidden and
/// reading.
pub proof fn hidden_pane_reads_nothing(
    m: StatsModel,
    vis: bool,
    id: Seq<char>,
    samples: Seq<JsonView>,
    closed: bool,
)
    requires
        m.streaming ==> m.visible,
    ensures
        ({
            let a = m.shown(vis).0;
            let b = m.attached(id).0;
            let c = m.ticked().0;
            let d = m.sampled(samples, closed).0;
            &&& a.streaming ==> a.visible
            &&& b.streaming ==> b.visible
            &&& c.streaming ==> c.visible
            &&& d.streaming ==> d.visible
        }),
{
}

/// A counter that goes back, as it does when the container starts anew, is no traffic below
/// nothing; and the traffic since the last sample is what the counters grew by.
pub proof fn traffic_is_growth(m: StatsModel, before: JsonView, after: JsonView)
    ensures
        ({
            let net = reading_of(after, m.ingested(before).last).net;
            let (rx0, tx0) = net_totals(before);
            let (rx1, tx1) = net_totals(after);
            let (rx, tx) = net.unwrap();
            &&& net is Some
            &&& rx1 >= rx0 ==> rx == rx1 - rx0
            &&& rx1 < rx0 ==> rx == 0
            &&& tx1 >= tx0 ==> tx == tx1 - tx0
            &&& tx1 < tx0 ==> tx == 0
        }),
{
}

} // verus!
