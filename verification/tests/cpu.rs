use sysmetrics::times::{time, times, CpuTime, RawFileTime, RawProcessorTimes, RawSystemTimes};
use sysmetrics::Error;

// 100-nanosecond ticks per millisecond.
const TICKS_PER_MS: u64 = 10_000;

fn filetime(ticks: u64) -> RawFileTime {
    RawFileTime {
        low: (ticks & 0xFFFF_FFFF) as u32,
        high: (ticks >> 32) as u32,
    }
}

#[test]
fn filetime_halves_recombine() {
    let ft = RawFileTime { low: 5, high: 2 };
    assert_eq!(ft.ticks(), 2 * 0x1_0000_0000 + 5);
    assert_eq!(filetime(8_589_934_597).ticks(), 8_589_934_597);
    assert_eq!(
        RawFileTime {
            low: u32::MAX,
            high: u32::MAX
        }
        .ticks(),
        u64::MAX
    );
}

#[test]
fn time_applies_idle_correction() {
    // idle = 100 ms, kernel = 300 ms, user = 200 ms.
    let raw = RawSystemTimes {
        idle: filetime(100 * TICKS_PER_MS),
        kernel: filetime(300 * TICKS_PER_MS),
        user: filetime(200 * TICKS_PER_MS),
    };
    let t = time(1, 0, raw).expect("successful call yields a snapshot");
    assert_eq!(t.user().ticks(), 200 * TICKS_PER_MS);
    assert_eq!(t.system().ticks(), 200 * TICKS_PER_MS);
    assert_eq!(t.idle().ticks(), 100 * TICKS_PER_MS);
}

#[test]
fn time_system_never_negative() {
    // system == kernel - idle whenever idle <= kernel ...
    let raw = RawSystemTimes {
        idle: filetime(700),
        kernel: filetime(700),
        user: filetime(1),
    };
    let t = time(1, 0, raw).unwrap();
    assert_eq!(t.system().ticks(), 0);
    // ... and an anomalous report with idle above kernel yields zero, not a wrap.
    let raw = RawSystemTimes {
        idle: filetime(900),
        kernel: filetime(700),
        user: filetime(1),
    };
    let t = time(1, 0, raw).unwrap();
    assert_eq!(t.system().ticks(), 0);
    assert_eq!(t.idle().ticks(), 900);
}

#[test]
fn time_failure_surfaces_error() {
    let raw = RawSystemTimes {
        idle: filetime(0),
        kernel: filetime(0),
        user: filetime(0),
    };
    let r = time(0, 87, raw);
    assert_eq!(r, Err(Error::OsCallFailed(87)));
    assert_eq!(r.unwrap_err().code(), 87);
}

#[test]
fn times_maps_each_processor_in_order() {
    let procs = vec![
        RawProcessorTimes {
            idle: 100,
            kernel: 300,
            user: 200,
        },
        RawProcessorTimes {
            idle: 50,
            kernel: 60,
            user: 70,
        },
    ];
    let snapshots: Vec<CpuTime> = times(0, procs).expect("bulk read succeeded");
    assert_eq!(snapshots.len(), 2);
    assert_eq!(snapshots[0].user().ticks(), 200);
    assert_eq!(snapshots[0].system().ticks(), 200);
    assert_eq!(snapshots[0].idle().ticks(), 100);
    assert_eq!(snapshots[1].user().ticks(), 70);
    assert_eq!(snapshots[1].system().ticks(), 10);
    assert_eq!(snapshots[1].idle().ticks(), 50);
}

#[test]
fn times_empty_read_yields_no_snapshots() {
    let snapshots = times(0, Vec::new()).unwrap();
    assert!(snapshots.is_empty());
}

#[test]
fn times_failure_is_the_whole_result() {
    let r = times(-1073741811, vec![]);
    assert_eq!(r, Err(Error::OsCallFailed(-1073741811)));
}

#[test]
fn times_count_matches_logical_count() {
    // One raw entry per logical processor: the snapshot count and the
    // logical count agree on the same hardware state.
    let n: u64 = 4;
    let procs: Vec<RawProcessorTimes> = (0..n)
        .map(|i| RawProcessorTimes {
            idle: i,
            kernel: 2 * i,
            user: i,
        })
        .collect();
    let snapshots = times(0, procs).unwrap();
    assert_eq!(snapshots.len() as u64, sysmetrics::logical_count(n));
}
