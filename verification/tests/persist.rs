use weir::observability::metrics::{Metrics, CIRCUIT_OPEN};
use weir::observability::persist::{default_path, Counters, DiskEntry, DiskRecord, MetricsPersister};

/// The metrics file, held in memory: one record per backend.
type Disk = Vec<DiskEntry>;

/// One flush of `metrics` into `disk` with the delta-based merge.
fn flush(p: &mut MetricsPersister, metrics: &Metrics, disk: &mut Disk, from_serve: bool) {
    assert!(p.can_flush(disk, metrics));
    p.merge_into_disk(disk, metrics, from_serve);
}

fn metrics_with(name: &str, successes: &[u64], errors: u64) -> Metrics {
    let mut m = Metrics::new();
    for &ms in successes {
        m.record_success(name, ms);
    }
    for _ in 0..errors {
        m.record_error(name);
    }
    m
}

fn record<'a>(disk: &'a Disk, name: &str) -> &'a DiskRecord {
    &disk.iter().find(|e| e.name == name).expect("record should exist").record
}

#[test]
fn flush_then_load_round_trip() {
    let m = metrics_with("agy", &[100, 200], 1);
    let mut p = MetricsPersister::new("weir/metrics.json");
    let mut disk = Disk::new();
    flush(&mut p, &m, &mut disk, true);
    let agy = record(&disk, "agy");
    assert_eq!(agy.counters.requests, 3);
    assert_eq!(agy.counters.errors, 1);
    assert_eq!(agy.counters.latency_count, 2);
    assert_eq!(agy.counters.latency_sum_ms, 300);
    let avg = agy.counters.latency_sum_ms as f64 / agy.counters.latency_count as f64;
    assert_eq!(avg, 150.0);
}

#[test]
fn same_persister_does_not_double_count() {
    let m = metrics_with("b", &[100], 0);
    let mut p = MetricsPersister::new("metrics.json");
    let mut disk = Disk::new();
    flush(&mut p, &m, &mut disk, true);
    flush(&mut p, &m, &mut disk, true);
    assert_eq!(record(&disk, "b").counters.requests, 1);
}

#[test]
fn separate_processes_accumulate() {
    let mut disk = Disk::new();
    let m1 = metrics_with("b", &[10], 0);
    flush(&mut MetricsPersister::new("metrics.json"), &m1, &mut disk, false);
    let m2 = metrics_with("b", &[20], 0);
    flush(&mut MetricsPersister::new("metrics.json"), &m2, &mut disk, false);
    assert_eq!(record(&disk, "b").counters.requests, 2);
}

#[test]
fn delta_after_more_activity_adds_only_new() {
    let mut m = Metrics::new();
    let mut p = MetricsPersister::new("metrics.json");
    let mut disk = Disk::new();
    m.record_success("b", 50);
    flush(&mut p, &m, &mut disk, true);
    assert_eq!(record(&disk, "b").counters.requests, 1);
    m.record_success("b", 70);
    flush(&mut p, &m, &mut disk, true);
    assert_eq!(record(&disk, "b").counters.requests, 2);
    assert_eq!(record(&disk, "b").counters.latency_sum_ms, 120);
}

#[test]
fn cli_flush_preserves_serve_circuit_state() {
    let mut disk = Disk::new();
    let mut m_serve = Metrics::new();
    m_serve.record_error("agy");
    m_serve.set_circuit("agy", CIRCUIT_OPEN, 25);
    flush(&mut MetricsPersister::new("metrics.json"), &m_serve, &mut disk, true);
    assert_eq!(record(&disk, "agy").circuit, "open");
    let m_cli = metrics_with("agy", &[5], 0);
    flush(&mut MetricsPersister::new("metrics.json"), &m_cli, &mut disk, false);
    assert_eq!(record(&disk, "agy").circuit, "open");
    assert_eq!(record(&disk, "agy").circuit_open_secs, 25);
    assert_eq!(record(&disk, "agy").counters.requests, 2);
}

#[test]
fn cli_flush_of_a_new_backend_writes_closed() {
    let mut disk = Disk::new();
    let mut m = Metrics::new();
    m.set_circuit("x", CIRCUIT_OPEN, 9);
    flush(&mut MetricsPersister::new("metrics.json"), &m, &mut disk, false);
    assert_eq!(record(&disk, "x").circuit, "closed");
    assert_eq!(record(&disk, "x").circuit_open_secs, 0);
}

#[test]
fn delta_saturates_and_add_sums() {
    let a = Counters { requests: 5, errors: 1, latency_sum_ms: 10, latency_count: 4 };
    let b = Counters { requests: 7, errors: 0, latency_sum_ms: 30, latency_count: 6 };
    let d = b.delta(a);
    assert_eq!((d.requests, d.errors, d.latency_sum_ms, d.latency_count), (2, 0, 20, 2));
    let s = a.add(d);
    assert_eq!((s.requests, s.errors, s.latency_sum_ms, s.latency_count), (7, 1, 30, 6));
    let z = Counters::default();
    assert_eq!(z.requests + z.errors + z.latency_sum_ms + z.latency_count, 0);
}

#[test]
fn default_path_prefers_xdg_then_home() {
    assert_eq!(default_path(Some("/x/state"), Some("/home/u")), "/x/state/weir/metrics.json");
    assert_eq!(default_path(Some("/x/state/"), None), "/x/state/weir/metrics.json");
    assert_eq!(default_path(Some(""), Some("/home/u")), "/home/u/.local/state/weir/metrics.json");
    assert_eq!(default_path(None, Some("")), "weir-metrics.json");
    assert_eq!(default_path(None, None), "weir-metrics.json");
    let p = MetricsPersister::at_default_path(None, Some("/home/u"));
    assert_eq!(p.path(), "/home/u/.local/state/weir/metrics.json");
}

#[test]
fn flush_keeps_records_of_other_backends() {
    let mut disk = Disk::new();
    disk.push(DiskEntry {
        name: "old".to_string(),
        record: DiskRecord {
            counters: Counters { requests: 9, errors: 2, latency_sum_ms: 70, latency_count: 7 },
            circuit: "half-open".to_string(),
            circuit_open_secs: 4,
        },
    });
    let m = metrics_with("new", &[5], 1);
    flush(&mut MetricsPersister::new("metrics.json"), &m, &mut disk, false);
    assert_eq!(disk.len(), 2);
    let old = record(&disk, "old");
    assert_eq!(old.counters.requests, 9);
    assert_eq!(old.counters.latency_count, 7);
    assert_eq!(old.circuit, "half-open");
    assert_eq!(old.circuit_open_secs, 4);
    let new = record(&disk, "new");
    assert_eq!(new.counters.requests, 2);
    assert_eq!(new.counters.errors, 1);
}

#[test]
fn flush_that_would_overflow_is_refused() {
    let mut disk = Disk::new();
    disk.push(DiskEntry {
        name: "b".to_string(),
        record: DiskRecord {
            counters: Counters { requests: u64::MAX, errors: 0, latency_sum_ms: 0, latency_count: 0 },
            circuit: "closed".to_string(),
            circuit_open_secs: 0,
        },
    });
    let m = metrics_with("b", &[1], 0);
    let p = MetricsPersister::new("metrics.json");
    assert!(!p.can_flush(&disk, &m));
    let empty = Metrics::new();
    assert!(p.can_flush(&disk, &empty));
}
