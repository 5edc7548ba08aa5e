//! Delta-based persistence of the metrics.
//!
//! Counters on disk are cumulative totals over every process. Each process
//! keeps a per-backend baseline of what it has already contributed, and each
//! flush adds only the delta since its last flush: a long-running server that
//! flushes periodically never counts the same request twice, and a one-shot
//! CLI call adds its whole activity once.
//!
//! Circuit state is a live property, not a counter: only the server writes it;
//! a CLI flush keeps whatever the server last wrote.

use crate::observability::metrics::{circuit_label, circuit_label_spec, entry_names, BackendMetrics, Metrics};
use crate::text::{chars_vec, find_first, lemma_find_first_at, lemma_find_first_none, lemma_find_first_props, str_eq};
use vstd::prelude::*;
use vstd::string::*;

verus! {

/// On-disk format version.
pub const FORMAT_VERSION: u64 = 1;

/// Cumulative counters for one backend.
#[derive(Debug, Clone, Copy)]
pub struct Counters {
    pub requests: u64,
    pub errors: u64,
    pub latency_sum_ms: u64,
    pub latency_count: u64,
}

impl Default for Counters {
    fn default() -> (c: Counters)
        ensures
            c == Counters::zero(),
    {
        Counters { requests: 0, errors: 0, latency_sum_ms: 0, latency_count: 0 }
    }
}

/// `a - b`, or 0 when `b` is larger.
pub open spec fn sat_sub(a: u64, b: u64) -> u64 {
    if a >= b {
        (a - b) as u64
    } else {
        0
    }
}

impl Counters {
    /// All counters zero.
    pub open spec fn zero() -> Counters {
        Counters { requests: 0, errors: 0, latency_sum_ms: 0, latency_count: 0 }
    }

    /// Adding `other` overflows no counter.
    pub open spec fn fits_add(self, other: Counters) -> bool {
        &&& self.requests + other.requests <= u64::MAX
        &&& self.errors + other.errors <= u64::MAX
        &&& self.latency_sum_ms + other.latency_sum_ms <= u64::MAX
        &&& self.latency_count + other.latency_count <= u64::MAX
    }

    /// Counter-wise sum.
    pub open spec fn plus(self, other: Counters) -> Counters {
        Counters {
            requests: (self.requests + other.requests) as u64,
            errors: (self.errors + other.errors) as u64,
            latency_sum_ms: (self.latency_sum_ms + other.latency_sum_ms) as u64,
            latency_count: (self.latency_count + other.latency_count) as u64,
        }
    }

    /// Counter-wise difference from `baseline`, each at least 0.
    pub open spec fn minus(self, baseline: Counters) -> Counters {
        Counters {
            requests: sat_sub(self.requests, baseline.requests),
            errors: sat_sub(self.errors, baseline.errors),
            latency_sum_ms: sat_sub(self.latency_sum_ms, baseline.latency_sum_ms),
            latency_count: sat_sub(self.latency_count, baseline.latency_count),
        }
    }

    /// The counters of a backend's live metrics.
    pub fn from_metrics(m: &BackendMetrics) -> (c: Counters)
        ensures
            c.requests == m.requests_total,
            c.errors == m.errors_total,
            c.latency_sum_ms == m.latency_sum_ms,
            c.latency_count == m.latency_count,
    {
        Counters {
            requests: m.requests_total,
            errors: m.errors_total,
            latency_sum_ms: m.latency_sum_ms,
            latency_count: m.latency_count,
        }
    }

    /// Counter-wise sum; no counter may overflow.
    pub fn add(self, other: Counters) -> (c: Counters)
        requires
            self.fits_add(other),
        ensures
            c == self.plus(other),
    {
        Counters {
            requests: self.requests + other.requests,
            errors: self.errors + other.errors,
            latency_sum_ms: self.latency_sum_ms + other.latency_sum_ms,
            latency_count: self.latency_count + other.latency_count,
        }
    }

    /// Whether adding `other` overflows no counter.
    pub fn fits(self, other: Counters) -> (b: bool)
        ensures
            b == self.fits_add(other),
    {
        self.requests <= u64::MAX - other.requests && self.errors <= u64::MAX - other.errors && self.latency_sum_ms
            <= u64::MAX - other.latency_sum_ms && self.latency_count <= u64::MAX - other.latency_count
    }

    /// What was added since `baseline` (saturating: counters only grow).
    pub fn delta(self, baseline: Counters) -> (c: Counters)
        ensures
            c == self.minus(baseline),
    {
        Counters {
            requests: self.requests.saturating_sub(baseline.requests),
            errors: self.errors.saturating_sub(baseline.errors),
            latency_sum_ms: self.latency_sum_ms.saturating_sub(baseline.latency_sum_ms),
            latency_count: self.latency_count.saturating_sub(baseline.latency_count),
        }
    }
}

/// One backend's record in the metrics file.
#[derive(Debug, Clone)]
pub struct DiskRecord {
    pub counters: Counters,
    /// "closed", "open" or "half-open".
    pub circuit: String,
    pub circuit_open_secs: u64,
}

/// The counters a record starts from: the existing ones, or zero.
pub open spec fn base_counters(existing: Option<&DiskRecord>) -> Counters {
    match existing {
        Some(e) => e.counters,
        None => Counters::zero(),
    }
}

/// The counters of a backend's live metrics.
pub open spec fn live_counters(m: BackendMetrics) -> Counters {
    Counters {
        requests: m.requests_total,
        errors: m.errors_total,
        latency_sum_ms: m.latency_sum_ms,
        latency_count: m.latency_count,
    }
}

/// Whether `r` is the record a flush writes over `existing` (the record on
/// disk, if any): the counters are the existing ones (or zero) plus `delta`;
/// a server flush (`from_serve`) writes the live circuit state, any other
/// keeps the state on disk ("closed" and 0 when there is none).
pub open spec fn merged(
    r: DiskRecord,
    existing: Option<DiskRecord>,
    delta: Counters,
    live_code: u64,
    live_open_secs: u64,
    from_serve: bool,
) -> bool {
    &&& r.counters == (match existing {
        Some(e) => e.counters,
        None => Counters::zero(),
    }).plus(delta)
    &&& from_serve ==> r.circuit@ == circuit_label_spec(live_code) && r.circuit_open_secs == live_open_secs
    &&& !from_serve ==> match existing {
        Some(e) => r.circuit@ == e.circuit@ && r.circuit_open_secs == e.circuit_open_secs,
        None => r.circuit@ == "closed"@ && r.circuit_open_secs == 0,
    }
}

/// The record after a flush adds `delta` to `existing`. A server flush
/// (`from_serve`) writes the live circuit state; any other flush keeps the
/// state on disk ("closed" and 0 when there is none).
pub fn merge_record(
    existing: Option<&DiskRecord>,
    delta: Counters,
    live_code: u64,
    live_open_secs: u64,
    from_serve: bool,
) -> (r: DiskRecord)
    requires
        base_counters(existing).fits_add(delta),
    ensures
        r.counters == base_counters(existing).plus(delta),
        from_serve ==> r.circuit@ == circuit_label_spec(live_code) && r.circuit_open_secs == live_open_secs,
        !from_serve ==> match existing {
            Some(e) => r.circuit@ == e.circuit@ && r.circuit_open_secs == e.circuit_open_secs,
            None => r.circuit@ == "closed"@ && r.circuit_open_secs == 0,
        },
{
    let base = match existing {
        Some(e) => e.counters,
        None => Counters::default(),
    };
    let counters = base.add(delta);
    if from_serve {
        DiskRecord { counters, circuit: String::from_str(circuit_label(live_code)), circuit_open_secs: live_open_secs }
    } else {
        match existing {
            Some(e) => DiskRecord { counters, circuit: e.circuit.clone(), circuit_open_secs: e.circuit_open_secs },
            None => DiskRecord { counters, circuit: String::from_str("closed"), circuit_open_secs: 0 },
        }
    }
}

/// `base` joined with the relative `part`, as `Path::join` does on Unix:
/// a `/` goes between unless `base` already ends with one.
pub open spec fn path_join(base: Seq<char>, part: Seq<char>) -> Seq<char> {
    if base.len() > 0 && base.last() == '/' {
        base + part
    } else {
        base + "/"@ + part
    }
}

/// Where the metrics file lives, given `$XDG_STATE_HOME` and `$HOME`:
/// `$XDG_STATE_HOME/weir/metrics.json`, else
/// `$HOME/.local/state/weir/metrics.json`, else `weir-metrics.json` in the
/// working directory. An empty variable counts as unset.
pub open spec fn default_path_spec(xdg: Option<Seq<char>>, home: Option<Seq<char>>) -> Seq<char> {
    match xdg {
        Some(x) if x.len() > 0 => path_join(path_join(x, "weir"@), "metrics.json"@),
        _ => match home {
            Some(h) if h.len() > 0 => path_join(
                path_join(path_join(path_join(h, ".local"@), "state"@), "weir"@),
                "metrics.json"@,
            ),
            _ => "weir-metrics.json"@,
        },
    }
}

fn join_path(base: &str, part: &str) -> (r: String)
    ensures
        r@ == path_join(base@, part@),
{
    let mut r = String::from_str(base);
    let v = chars_vec(base);
    let ends_with_slash = v.len() > 0 && v[v.len() - 1] == '/';
    if !ends_with_slash {
        r.append("/");
    }
    r.append(part);
    r
}

fn non_empty(s: &str) -> (b: bool)
    ensures
        b == (s@.len() > 0),
{
    chars_vec(s).len() > 0
}

/// The metrics file path for the given values of `$XDG_STATE_HOME` and
/// `$HOME` (see `default_path_spec`).
pub fn default_path(xdg: Option<&str>, home: Option<&str>) -> (r: String)
    ensures
        r@ == default_path_spec(
            match xdg {
                Some(x) => Some(x@),
                None => None,
            },
            match home {
                Some(h) => Some(h@),
                None => None,
            },
        ),
{
    if let Some(x) = xdg {
        if non_empty(x) {
            let a = join_path(x, "weir");
            return join_path(a.as_str(), "metrics.json");
        }
    }
    if let Some(h) = home {
        if non_empty(h) {
            let a = join_path(h, ".local");
            let b = join_path(a.as_str(), "state");
            let c = join_path(b.as_str(), "weir");
            return join_path(c.as_str(), "metrics.json");
        }
    }
    String::from_str("weir-metrics.json")
}

/// What this process has already contributed for one backend.
#[derive(Debug, Clone)]
pub struct BaselineEntry {
    pub name: String,
    pub counters: Counters,
}

/// The names of the baseline entries, in order.
pub open spec fn baseline_names(es: Seq<BaselineEntry>) -> Seq<Seq<char>> {
    es.map_values(|e: BaselineEntry| e.name@)
}

/// Persists one process's metrics with the delta-based merge.
pub struct MetricsPersister {
    path: String,
    baseline: Vec<BaselineEntry>,
}

impl MetricsPersister {
    /// Where the metrics file is written.
    pub closed spec fn path_spec(&self) -> Seq<char> {
        self.path@
    }

    /// The baseline entries.
    pub closed spec fn entries(&self) -> Seq<BaselineEntry> {
        self.baseline@
    }

    /// What this process has contributed for `name` so far (zero at first).
    pub open spec fn baseline_of(&self, name: Seq<char>) -> Counters {
        match find_first(baseline_names(self.entries()), name) {
            Some(i) => self.entries()[i].counters,
            None => Counters::zero(),
        }
    }

    /// A persister for the file at `path`, with nothing contributed yet.
    pub fn new(path: &str) -> (p: MetricsPersister)
        ensures
            p.path_spec() == path@,
            forall|n: Seq<char>| #[trigger] p.baseline_of(n) == Counters::zero(),
    {
        MetricsPersister { path: String::from_str(path), baseline: Vec::new() }
    }

    /// A persister for the default metrics file, given the values of
    /// `$XDG_STATE_HOME` and `$HOME` (see `default_path_spec`).
    pub fn at_default_path(xdg: Option<&str>, home: Option<&str>) -> (p: MetricsPersister)
        ensures
            p.path_spec() == default_path_spec(
                match xdg {
                    Some(x) => Some(x@),
                    None => None,
                },
                match home {
                    Some(h) => Some(h@),
                    None => None,
                },
            ),
            forall|n: Seq<char>| #[trigger] p.baseline_of(n) == Counters::zero(),
    {
        let path = default_path(xdg, home);
        MetricsPersister::new(path.as_str())
    }

    /// Where the metrics file is written.
    pub fn path(&self) -> (r: &str)
        ensures
            r@ == self.path_spec(),
    {
        self.path.as_str()
    }

    fn index_of(&self, name: &str) -> (r: Option<usize>)
        ensures
            r matches Some(i) ==> i < self.entries().len() && find_first(baseline_names(self.entries()), name@)
                == Some(i as int),
            r is None ==> find_first(baseline_names(self.entries()), name@) is None,
    {
        let ghost names = baseline_names(self.baseline@);
        let mut i: usize = 0;
        while i < self.baseline.len()
            invariant
                i <= self.baseline.len(),
                names == baseline_names(self.baseline@),
                forall|k: int| 0 <= k < i ==> names[k] != name@,
            decreases self.baseline.len() - i,
        {
            if str_eq(self.baseline[i].name.as_str(), name) {
                proof {
                    lemma_find_first_at(names, name@, i as int);
                }
                return Some(i);
            }
            i = i + 1;
        }
        proof {
            lemma_find_first_none(names, name@);
        }
        None
    }

    /// What this process has contributed for `name` so far.
    pub fn baseline_for(&self, name: &str) -> (c: Counters)
        ensures
            c == self.baseline_of(name@),
    {
        match self.index_of(name) {
            Some(i) => self.baseline[i].counters,
            None => Counters::default(),
        }
    }

    /// The part of `current` (the live counters of `name`) not yet
    /// contributed; `current` becomes the new baseline of `name`.
    pub fn take_delta(&mut self, name: &str, current: Counters) -> (d: Counters)
        ensures
            d == current.minus(old(self).baseline_of(name@)),
            final(self).baseline_of(name@) == current,
            forall|n: Seq<char>| n != name@ ==> #[trigger] final(self).baseline_of(n) == old(self).baseline_of(n),
            final(self).path_spec() == old(self).path_spec(),
    {
        let ghost before = self.baseline@;
        match self.index_of(name) {
            Some(i) => {
                let prev = self.baseline[i].counters;
                let d = current.delta(prev);
                let nm = self.baseline[i].name.clone();
                self.baseline.set(i, BaselineEntry { name: nm, counters: current });
                proof {
                    let nb = baseline_names(before);
                    let na = baseline_names(self.baseline@);
                    assert(na =~= nb);
                    lemma_find_first_props(nb, name@);
                    assert forall|n: Seq<char>| n != name@ implies #[trigger] self.baseline_of(n) == old(
                        self,
                    ).baseline_of(n) by {
                        lemma_find_first_props(nb, n);
                    }
                }
                d
            },
            None => {
                let d = current.delta(Counters::default());
                self.baseline.push(BaselineEntry { name: String::from_str(name), counters: current });
                proof {
                    let nb = baseline_names(before);
                    let na = baseline_names(self.baseline@);
                    let i = before.len() as int;
                    assert(nb =~= na.take(i));
                    assert forall|k: int| 0 <= k < i implies na[k] != name@ by {
                        assert(na[k] == nb[k]);
                        if na[k] == name@ {
                            lemma_find_first_props(nb, name@);
                        }
                    }
                    lemma_find_first_at(na, name@, i);
                    assert forall|n: Seq<char>| n != name@ implies #[trigger] self.baseline_of(n) == old(
                        self,
                    ).baseline_of(n) by {
                        lemma_find_first_props(nb, n);
                        lemma_find_first_props(na, n);
                        match find_first(nb, n) {
                            Some(j) => {
                                assert(na[j] == n);
                                assert forall|k: int| 0 <= k < j implies na[k] != n by {
                                    assert(na[k] == nb[k]);
                                }
                                lemma_find_first_at(na, n, j);
                            },
                            None => {
                                if find_first(na, n) is Some {
                                    let j = find_first(na, n)->0;
                                    if j < i {
                                        assert(nb[j] == n);
                                    }
                                }
                            },
                        }
                    }
                }
                d
            },
        }
    }
}

/// One backend's record in the metrics file, under its name.
#[derive(Debug, Clone)]
pub struct DiskEntry {
    pub name: String,
    pub record: DiskRecord,
}

/// The names of the records, in order.
pub open spec fn disk_names(es: Seq<DiskEntry>) -> Seq<Seq<char>> {
    es.map_values(|e: DiskEntry| e.name@)
}

/// The record of `name` in the file (the first one under that name), if any.
pub open spec fn disk_record(es: Seq<DiskEntry>, name: Seq<char>) -> Option<DiskRecord> {
    match find_first(disk_names(es), name) {
        Some(i) => Some(es[i].record),
        None => None,
    }
}

/// The counters of a record, or zero when there is none.
pub open spec fn record_counters(r: Option<DiskRecord>) -> Counters {
    match r {
        Some(e) => e.counters,
        None => Counters::zero(),
    }
}

/// Whether `after` holds for `name` the record that a flush of `delta` and
/// of the live state `m` writes over what `before` holds for it.
pub open spec fn flushed_entry(
    before: Seq<DiskEntry>,
    after: Seq<DiskEntry>,
    name: Seq<char>,
    delta: Counters,
    m: BackendMetrics,
    from_serve: bool,
) -> bool {
    match disk_record(after, name) {
        Some(r) => merged(r, disk_record(before, name), delta, m.circuit_state, m.circuit_open_secs, from_serve),
        None => false,
    }
}

/// The index of the record of `name`.
fn disk_index(disk: &Vec<DiskEntry>, name: &str) -> (r: Option<usize>)
    ensures
        r matches Some(j) ==> j < disk@.len(),
        match find_first(disk_names(disk@), name@) {
            Some(i) => r matches Some(j) && j == i,
            None => r is None,
        },
{
    let ghost names = disk_names(disk@);
    let mut i: usize = 0;
    while i < disk.len()
        invariant
            i <= disk.len(),
            names == disk_names(disk@),
            forall|k: int| 0 <= k < i ==> names[k] != name@,
        decreases disk.len() - i,
    {
        if str_eq(disk[i].name.as_str(), name) {
            proof {
                lemma_find_first_at(names, name@, i as int);
            }
            return Some(i);
        }
        i = i + 1;
    }
    proof {
        lemma_find_first_none(names, name@);
    }
    None
}

/// Stores `rec` as the record of `name` (`at` is where it is now): in place,
/// or appended when there is none. Other names keep their records.
fn put_record(disk: &mut Vec<DiskEntry>, name: &str, at: Option<usize>, rec: DiskRecord)
    requires
        match find_first(disk_names(old(disk)@), name@) {
            Some(i) => at matches Some(j) && j == i,
            None => at is None,
        },
    ensures
        disk_record(final(disk)@, name@) == Some(rec),
        forall|n: Seq<char>| n != name@ ==> #[trigger] disk_record(final(disk)@, n) == disk_record(old(disk)@, n),
{
    let ghost before = disk@;
    let ghost nb = disk_names(before);
    proof {
        lemma_find_first_props(nb, name@);
    }
    match at {
        Some(i) => {
            let nm = disk[i].name.clone();
            disk.set(i, DiskEntry { name: nm, record: rec });
            proof {
                let na = disk_names(disk@);
                assert(na =~= nb);
                assert forall|n: Seq<char>| n != name@ implies #[trigger] disk_record(disk@, n) == disk_record(
                    before,
                    n,
                ) by {
                    lemma_find_first_props(nb, n);
                }
            }
        },
        None => {
            disk.push(DiskEntry { name: String::from_str(name), record: rec });
            proof {
                let na = disk_names(disk@);
                let i = before.len() as int;
                assert(nb =~= na.take(i));
                assert forall|k: int| 0 <= k < i implies na[k] != name@ by {
                    assert(na[k] == nb[k]);
                }
                lemma_find_first_at(na, name@, i);
                assert forall|n: Seq<char>| n != name@ implies #[trigger] disk_record(disk@, n) == disk_record(
                    before,
                    n,
                ) by {
                    lemma_find_first_props(nb, n);
                    lemma_find_first_props(na, n);
                    match find_first(nb, n) {
                        Some(j) => {
                            assert(na[j] == n);
                            assert forall|k: int| 0 <= k < j implies na[k] != n by {
                                assert(na[k] == nb[k]);
                            }
                            lemma_find_first_at(na, n, j);
                        },
                        None => {
                            if find_first(na, n) is Some {
                                let j = find_first(na, n)->0;
                                if j < i {
                                    assert(nb[j] == n);
                                }
                            }
                        },
                    }
                }
            }
        },
    }
}

impl MetricsPersister {
    /// What a flush adds for the backend at index `i` of `metrics`: its live
    /// counters less what this process has already contributed for it.
    pub open spec fn flush_delta(&self, metrics: &Metrics, i: int) -> Counters {
        live_counters(metrics.entries()[i].metrics).minus(self.baseline_of(metrics.entries()[i].name@))
    }

    /// Whether flushing `metrics` into the records `disk` overflows no counter.
    pub open spec fn flush_fits(&self, disk: Seq<DiskEntry>, metrics: &Metrics) -> bool {
        forall|i: int|
            0 <= i < metrics.entries().len() ==> record_counters(
                disk_record(disk, metrics.entries()[i].name@),
            ).fits_add(#[trigger] self.flush_delta(metrics, i))
    }

    /// Whether flushing `metrics` into the records `disk` overflows no
    /// counter (see `flush_fits`).
    pub fn can_flush(&self, disk: &Vec<DiskEntry>, metrics: &Metrics) -> (b: bool)
        ensures
            b == self.flush_fits(disk@, metrics),
    {
        let es = metrics.backends();
        let mut i: usize = 0;
        while i < es.len()
            invariant
                i <= es.len(),
                es@ == metrics.entries(),
                forall|j: int|
                    0 <= j < i ==> record_counters(disk_record(disk@, metrics.entries()[j].name@)).fits_add(
                        #[trigger] self.flush_delta(metrics, j),
                    ),
            decreases es.len() - i,
        {
            let name = es[i].name.as_str();
            let delta = Counters::from_metrics(&es[i].metrics).delta(self.baseline_for(name));
            let base = match disk_index(disk, name) {
                Some(k) => disk[k].record.counters,
                None => Counters::default(),
            };
            assert(delta == self.flush_delta(metrics, i as int));
            if !base.fits(delta) {
                return false;
            }
            i = i + 1;
        }
        true
    }

    /// Flushes `metrics` into `disk`, the records of the metrics file: for
    /// each backend, the counters not yet contributed are added to its record
    /// (a new one when it has none) and become this process's baseline; the
    /// circuit state is written by a server flush (`from_serve`) and kept by
    /// any other. Records of backends that `metrics` does not hold stay as
    /// they were.
    pub fn merge_into_disk(&mut self, disk: &mut Vec<DiskEntry>, metrics: &Metrics, from_serve: bool)
        requires
            metrics.wf(),
            old(self).flush_fits(old(disk)@, metrics),
        ensures
            final(self).path_spec() == old(self).path_spec(),
            forall|i: int|
                0 <= i < metrics.entries().len() ==> flushed_entry(
                    old(disk)@,
                    final(disk)@,
                    metrics.entries()[i].name@,
                    #[trigger] old(self).flush_delta(metrics, i),
                    metrics.entries()[i].metrics,
                    from_serve,
                ),
            forall|i: int|
                0 <= i < metrics.entries().len() ==> #[trigger] final(self).baseline_of(metrics.entries()[i].name@)
                    == live_counters(metrics.entries()[i].metrics),
            forall|n: Seq<char>|
                !entry_names(metrics.entries()).contains(n) ==> #[trigger] disk_record(final(disk)@, n)
                    == disk_record(old(disk)@, n) && final(self).baseline_of(n) == old(self).baseline_of(n),
    {
        let ghost p0 = *self;
        let ghost d0 = disk@;
        let es = metrics.backends();
        let ghost names = entry_names(metrics.entries());
        let mut i: usize = 0;
        while i < es.len()
            invariant
                i <= es.len(),
                es@ == metrics.entries(),
                names == entry_names(metrics.entries()),
                metrics.wf(),
                self.path_spec() == p0.path_spec(),
                p0.flush_fits(d0, metrics),
                forall|j: int|
                    0 <= j < i ==> flushed_entry(
                        d0,
                        disk@,
                        metrics.entries()[j].name@,
                        #[trigger] p0.flush_delta(metrics, j),
                        metrics.entries()[j].metrics,
                        from_serve,
                    ),
                forall|j: int|
                    0 <= j < i ==> #[trigger] self.baseline_of(metrics.entries()[j].name@) == live_counters(
                        metrics.entries()[j].metrics,
                    ),
                forall|n: Seq<char>|
                    (forall|k: int| 0 <= k < i ==> names[k] != n) ==> #[trigger] disk_record(disk@, n)
                        == disk_record(d0, n) && self.baseline_of(n) == p0.baseline_of(n),
            decreases es.len() - i,
        {
            let e = &es[i];
            let ghost nm = e.name@;
            proof {
                assert(names[i as int] == nm);
                assert forall|k: int| 0 <= k < i implies names[k] != nm by {
                    assert(names[k] == metrics.entries()[k].name@);
                }
                assert(disk_record(disk@, nm) == disk_record(d0, nm));
            }
            let current = Counters::from_metrics(&e.metrics);
            let delta = self.take_delta(e.name.as_str(), current);
            assert(delta == p0.flush_delta(metrics, i as int));
            let at = disk_index(disk, e.name.as_str());
            let rec = {
                let existing: Option<&DiskRecord> = match at {
                    Some(k) => Some(&disk[k].record),
                    None => None,
                };
                merge_record(existing, delta, e.metrics.circuit_state, e.metrics.circuit_open_secs, from_serve)
            };
            assert(merged(rec, disk_record(d0, nm), delta, e.metrics.circuit_state, e.metrics.circuit_open_secs, from_serve));
            let ghost mid = disk@;
            put_record(disk, e.name.as_str(), at, rec);
            proof {
                assert forall|j: int| 0 <= j < i + 1 implies flushed_entry(
                    d0,
                    disk@,
                    metrics.entries()[j].name@,
                    #[trigger] p0.flush_delta(metrics, j),
                    metrics.entries()[j].metrics,
                    from_serve,
                ) by {
                    if j < i {
                        assert(names[j] == metrics.entries()[j].name@);
                        assert(disk_record(disk@, names[j]) == disk_record(mid, names[j]));
                    }
                }
                assert forall|j: int| 0 <= j < i + 1 implies #[trigger] self.baseline_of(metrics.entries()[j].name@)
                    == live_counters(metrics.entries()[j].metrics) by {
                    if j < i {
                        assert(names[j] == metrics.entries()[j].name@);
                    }
                }
                assert forall|n: Seq<char>| (forall|k: int| 0 <= k < i + 1 ==> names[k] != n) implies #[trigger] disk_record(
                    disk@,
                    n,
                ) == disk_record(d0, n) && self.baseline_of(n) == p0.baseline_of(n) by {
                    assert(names[i as int] != n);
                    assert(disk_record(mid, n) == disk_record(d0, n));
                }
            }
            i = i + 1;
        }
    }
}

/// A second flush with no activity in between contributes nothing: the delta
/// of counters from themselves is zero, and adding zero keeps a record's counters.
pub proof fn law_repeat_flush_adds_nothing(current: Counters, on_disk: Counters)
    ensures
        current.minus(current) == Counters::zero(),
        on_disk.fits_add(Counters::zero()),
        on_disk.plus(Counters::zero()) == on_disk,
{
}

/// Separate processes accumulate: each starts from a zero baseline, so its
/// first flush contributes all its counters, and the file holds the sum.
pub proof fn law_processes_accumulate(on_disk: Counters, first: Counters, second: Counters)
    requires
        on_disk.fits_add(first),
        on_disk.plus(first).fits_add(second),
    ensures
        first.minus(Counters::zero()) == first,
        second.minus(Counters::zero()) == second,
        on_disk.plus(first.minus(Counters::zero())).plus(second.minus(Counters::zero())) == on_disk.plus(
            first.plus(second),
        ),
{
}

/// Flushing after more activity adds only the new part: with counters that
/// grew from `earlier` to `later`, the second flush adds `later - earlier`, so
/// the file ends with what it had plus `later`.
pub proof fn law_flush_adds_only_new(on_disk: Counters, earlier: Counters, later: Counters)
    requires
        earlier.requests <= later.requests,
        earlier.errors <= later.errors,
        earlier.latency_sum_ms <= later.latency_sum_ms,
        earlier.latency_count <= later.latency_count,
        on_disk.fits_add(later),
    ensures
        on_disk.fits_add(earlier),
        on_disk.plus(earlier).fits_add(later.minus(earlier)),
        on_disk.plus(earlier).plus(later.minus(earlier)) == on_disk.plus(later),
{
}

} // verus!
