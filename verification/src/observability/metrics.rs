//! Per-backend counters and the process-wide registry that holds them.

use crate::resilience::circuit_breaker::CircuitState;
use crate::text::{find_first, lemma_find_first_at, lemma_find_first_none, lemma_find_first_props, str_eq};
use vstd::prelude::*;
use vstd::string::*;

verus! {

/// Circuit code of a closed breaker.
pub const CIRCUIT_CLOSED: u64 = 0;

/// Circuit code of an open breaker.
pub const CIRCUIT_OPEN: u64 = 1;

/// Circuit code of a half-open breaker.
pub const CIRCUIT_HALF_OPEN: u64 = 2;

/// `a + b` wrapping at 2^64, as the counters do.
pub open spec fn wrap_add(a: u64, b: u64) -> u64 {
    if a + b > u64::MAX {
        (a + b - 0x1_0000_0000_0000_0000) as u64
    } else {
        (a + b) as u64
    }
}

/// Counters and latency accumulators for one backend. Counters wrap at 2^64.
#[derive(Debug, Clone, Copy)]
pub struct BackendMetrics {
    pub requests_total: u64,
    pub errors_total: u64,
    /// Sum of successful-request latencies in milliseconds.
    pub latency_sum_ms: u64,
    /// Number of latency samples recorded (requests that succeeded).
    pub latency_count: u64,
    /// Last circuit code pushed (`CIRCUIT_*`).
    pub circuit_state: u64,
    /// Seconds until the recovery probe, when the circuit is open.
    pub circuit_open_secs: u64,
}

impl BackendMetrics {
    /// Every request is either an error or a latency sample.
    pub open spec fn consistent(self) -> bool {
        self.requests_total == self.errors_total + self.latency_count
    }

    /// All counters zero and the circuit closed.
    pub fn new() -> (m: BackendMetrics)
        ensures
            m.requests_total == 0,
            m.errors_total == 0,
            m.latency_sum_ms == 0,
            m.latency_count == 0,
            m.circuit_state == CIRCUIT_CLOSED,
            m.circuit_open_secs == 0,
            m.consistent(),
    {
        BackendMetrics {
            requests_total: 0,
            errors_total: 0,
            latency_sum_ms: 0,
            latency_count: 0,
            circuit_state: CIRCUIT_CLOSED,
            circuit_open_secs: 0,
        }
    }

    /// Records a successful request that took `ms` milliseconds.
    pub fn record_success(&mut self, ms: u64)
        ensures
            final(self).requests_total == wrap_add(old(self).requests_total, 1),
            final(self).latency_sum_ms == wrap_add(old(self).latency_sum_ms, ms),
            final(self).latency_count == wrap_add(old(self).latency_count, 1),
            final(self).errors_total == old(self).errors_total,
            final(self).circuit_state == old(self).circuit_state,
            final(self).circuit_open_secs == old(self).circuit_open_secs,
            old(self).consistent() && old(self).requests_total < u64::MAX ==> final(self).consistent(),
    {
        self.requests_total = self.requests_total.wrapping_add(1);
        self.latency_sum_ms = self.latency_sum_ms.wrapping_add(ms);
        self.latency_count = self.latency_count.wrapping_add(1);
    }

    /// Records a failed request (no latency sample).
    pub fn record_error(&mut self)
        ensures
            final(self).requests_total == wrap_add(old(self).requests_total, 1),
            final(self).errors_total == wrap_add(old(self).errors_total, 1),
            final(self).latency_sum_ms == old(self).latency_sum_ms,
            final(self).latency_count == old(self).latency_count,
            final(self).circuit_state == old(self).circuit_state,
            final(self).circuit_open_secs == old(self).circuit_open_secs,
            old(self).consistent() && old(self).requests_total < u64::MAX ==> final(self).consistent(),
    {
        self.requests_total = self.requests_total.wrapping_add(1);
        self.errors_total = self.errors_total.wrapping_add(1);
    }

    /// Stores the live circuit state.
    pub fn set_circuit(&mut self, code: u64, open_secs: u64)
        ensures
            *final(self) == (BackendMetrics { circuit_state: code, circuit_open_secs: open_secs, ..*old(self) }),
    {
        self.circuit_state = code;
        self.circuit_open_secs = open_secs;
    }
}

/// The circuit code and open seconds that report a breaker snapshot.
pub open spec fn circuit_report(s: CircuitState) -> (u64, u64) {
    match s {
        CircuitState::Closed => (CIRCUIT_CLOSED, 0),
        CircuitState::Open { secs_until_probe } => (CIRCUIT_OPEN, secs_until_probe),
        CircuitState::HalfOpen => (CIRCUIT_HALF_OPEN, 0),
    }
}

/// The circuit code and open seconds for a breaker snapshot.
pub fn circuit_code(s: CircuitState) -> (r: (u64, u64))
    ensures
        r == circuit_report(s),
{
    match s {
        CircuitState::Closed => (CIRCUIT_CLOSED, 0),
        CircuitState::Open { secs_until_probe } => (CIRCUIT_OPEN, secs_until_probe),
        CircuitState::HalfOpen => (CIRCUIT_HALF_OPEN, 0),
    }
}

/// The label a circuit code is shown as.
pub open spec fn circuit_label_spec(code: u64) -> Seq<char> {
    if code == CIRCUIT_OPEN {
        "open"@
    } else if code == CIRCUIT_HALF_OPEN {
        "half-open"@
    } else {
        "closed"@
    }
}

/// The label a circuit code is shown as: "closed", "open" or "half-open".
pub fn circuit_label(code: u64) -> (s: &'static str)
    ensures
        s@ == circuit_label_spec(code),
{
    if code == CIRCUIT_OPEN {
        "open"
    } else if code == CIRCUIT_HALF_OPEN {
        "half-open"
    } else {
        "closed"
    }
}

/// One backend's entry in the registry.
#[derive(Debug, Clone)]
pub struct NamedMetrics {
    pub name: String,
    pub metrics: BackendMetrics,
}

/// The names of the entries, in order.
pub open spec fn entry_names(es: Seq<NamedMetrics>) -> Seq<Seq<char>> {
    es.map_values(|e: NamedMetrics| e.name@)
}

/// No name occurs twice.
pub open spec fn names_unique(es: Seq<NamedMetrics>) -> bool {
    forall|i: int, j: int| 0 <= i < j < es.len() ==> es[i].name@ != es[j].name@
}

/// Process-wide metrics: one entry per backend, created on first use, kept
/// in order of creation.
pub struct Metrics {
    backends: Vec<NamedMetrics>,
}

impl Metrics {
    /// The entries, in order of creation.
    pub closed spec fn entries(&self) -> Seq<NamedMetrics> {
        self.backends@
    }

    /// Backend names are unique.
    pub open spec fn wf(&self) -> bool {
        names_unique(self.entries())
    }

    /// The metrics of `name` (fresh ones when it has none yet).
    pub open spec fn of(&self, name: Seq<char>) -> BackendMetrics {
        match find_first(entry_names(self.entries()), name) {
            Some(i) => self.entries()[i].metrics,
            None => BackendMetrics {
                requests_total: 0,
                errors_total: 0,
                latency_sum_ms: 0,
                latency_count: 0,
                circuit_state: CIRCUIT_CLOSED,
                circuit_open_secs: 0,
            },
        }
    }

    /// An empty store.
    pub fn new() -> (m: Metrics)
        ensures
            m.wf(),
            m.entries().len() == 0,
    {
        Metrics { backends: Vec::new() }
    }

    /// The entries, in order of creation.
    pub fn backends(&self) -> (r: &Vec<NamedMetrics>)
        ensures
            r@ == self.entries(),
    {
        &self.backends
    }

    fn index_of(&self, name: &str) -> (r: Option<usize>)
        ensures
            r matches Some(i) ==> i < self.entries().len() && find_first(entry_names(self.entries()), name@)
                == Some(i as int),
            r is None ==> find_first(entry_names(self.entries()), name@) is None,
    {
        let ghost names = entry_names(self.backends@);
        let mut i: usize = 0;
        while i < self.backends.len()
            invariant
                i <= self.backends.len(),
                names == entry_names(self.backends@),
                forall|k: int| 0 <= k < i ==> names[k] != name@,
            decreases self.backends.len() - i,
        {
            if str_eq(self.backends[i].name.as_str(), name) {
                proof {
                    lemma_find_first_at(names, name@, i as int);
                }
                return Some(i);
            }
            i = i + 1;
        }
        proof {
            lemma_find_first_none(names, name@);
        }
        None
    }

    /// Index of the entry for `name`, creating a fresh one at the end when
    /// this is the first use of that name. Entries of other names are untouched.
    pub fn get_or_create(&mut self, name: &str) -> (i: usize)
        requires
            old(self).wf(),
        ensures
            final(self).wf(),
            i < final(self).entries().len(),
            final(self).entries()[i as int].name@ == name@,
            final(self).entries()[i as int].metrics == old(self).of(name@),
            find_first(entry_names(final(self).entries()), name@) == Some(i as int),
            forall|n: Seq<char>| n != name@ ==> #[trigger] final(self).of(n) == old(self).of(n),
            final(self).entries().len() <= old(self).entries().len() + 1,
    {
        match self.index_of(name) {
            Some(i) => {
                proof {
                    lemma_find_first_props(entry_names(self.backends@), name@);
                }
                i
            },
            None => {
                let ghost before = self.backends@;
                self.backends.push(NamedMetrics { name: String::from_str(name), metrics: BackendMetrics::new() });
                let i = self.backends.len() - 1;
                proof {
                    let names = entry_names(self.backends@);
                    assert(entry_names(before) =~= names.take(i as int));
                    assert forall|k: int| 0 <= k < i implies names[k] != name@ by {
                        assert(names[k] == entry_names(before)[k]);
                        if names[k] == name@ {
                            lemma_find_first_props(entry_names(before), name@);
                        }
                    }
                    lemma_find_first_at(names, name@, i as int);
                    assert forall|a: int, b: int| 0 <= a < b < self.backends@.len() implies self.backends@[a].name@
                        != self.backends@[b].name@ by {
                        assert(names[a] == self.backends@[a].name@);
                        assert(names[b] == self.backends@[b].name@);
                        if b < i {
                            assert(self.backends@[a] == before[a]);
                            assert(self.backends@[b] == before[b]);
                        }
                    }
                    assert forall|n: Seq<char>| n != name@ implies #[trigger] self.of(n) == old(self).of(n) by {
                        lemma_find_first_props(entry_names(before), n);
                        lemma_find_first_props(names, n);
                        match find_first(entry_names(before), n) {
                            Some(j) => {
                                assert(names[j] == n);
                                lemma_find_first_at(names, n, j);
                            },
                            None => {
                                if find_first(names, n) is Some {
                                    let j = find_first(names, n)->0;
                                    if j < i {
                                        assert(entry_names(before)[j] == n);
                                    }
                                }
                            },
                        }
                    }
                }
                i
            },
        }
    }

    /// Records a success of `ms` milliseconds for `name`.
    pub fn record_success(&mut self, name: &str, ms: u64)
        requires
            old(self).wf(),
        ensures
            final(self).wf(),
            ({
                let (b, a) = (old(self).of(name@), final(self).of(name@));
                &&& a.requests_total == wrap_add(b.requests_total, 1)
                &&& a.latency_sum_ms == wrap_add(b.latency_sum_ms, ms)
                &&& a.latency_count == wrap_add(b.latency_count, 1)
                &&& a.errors_total == b.errors_total
                &&& a.circuit_state == b.circuit_state
                &&& a.circuit_open_secs == b.circuit_open_secs
            }),
            forall|n: Seq<char>| n != name@ ==> #[trigger] final(self).of(n) == old(self).of(n),
    {
        let i = self.get_or_create(name);
        let mut m = self.backends[i].metrics;
        m.record_success(ms);
        self.set_entry(i, m);
    }

    /// Records a failure for `name`.
    pub fn record_error(&mut self, name: &str)
        requires
            old(self).wf(),
        ensures
            final(self).wf(),
            ({
                let (b, a) = (old(self).of(name@), final(self).of(name@));
                &&& a.requests_total == wrap_add(b.requests_total, 1)
                &&& a.errors_total == wrap_add(b.errors_total, 1)
                &&& a.latency_sum_ms == b.latency_sum_ms
                &&& a.latency_count == b.latency_count
                &&& a.circuit_state == b.circuit_state
                &&& a.circuit_open_secs == b.circuit_open_secs
            }),
            forall|n: Seq<char>| n != name@ ==> #[trigger] final(self).of(n) == old(self).of(n),
    {
        let i = self.get_or_create(name);
        let mut m = self.backends[i].metrics;
        m.record_error();
        self.set_entry(i, m);
    }

    /// Stores the live circuit state of `name`.
    pub fn set_circuit(&mut self, name: &str, code: u64, open_secs: u64)
        requires
            old(self).wf(),
        ensures
            final(self).wf(),
            final(self).of(name@) == (BackendMetrics {
                circuit_state: code,
                circuit_open_secs: open_secs,
                ..old(self).of(name@)
            }),
            forall|n: Seq<char>| n != name@ ==> #[trigger] final(self).of(n) == old(self).of(n),
    {
        let i = self.get_or_create(name);
        let mut m = self.backends[i].metrics;
        m.set_circuit(code, open_secs);
        self.set_entry(i, m);
    }

    fn set_entry(&mut self, i: usize, m: BackendMetrics)
        requires
            old(self).wf(),
            i < old(self).entries().len(),
            find_first(entry_names(old(self).entries()), old(self).entries()[i as int].name@) == Some(i as int),
        ensures
            final(self).wf(),
            final(self).of(old(self).entries()[i as int].name@) == m,
            forall|n: Seq<char>| n != old(self).entries()[i as int].name@ ==> #[trigger] final(self).of(n) == old(
                self,
            ).of(n),
    {
        let ghost before = self.backends@;
        let name = self.backends[i].name.clone();
        self.backends.set(i, NamedMetrics { name, metrics: m });
        proof {
            let nb = entry_names(before);
            let na = entry_names(self.backends@);
            assert(na =~= nb);
            assert forall|n: Seq<char>| n != before[i as int].name@ implies #[trigger] self.of(n) == old(self).of(n) by {
                lemma_find_first_props(nb, n);
            }
        }
    }
}

} // verus!
