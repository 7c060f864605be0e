use procmaster::cpu::{core_usage, lifetime_cpu_hundredths, CpuSampler, CpuTimes};

fn times(user: u64, system: u64, idle: u64) -> CpuTimes {
    CpuTimes { user, nice: 0, system, idle, iowait: 0, irq: 0, softirq: 0, steal: 0 }
}

#[test]
fn usage_between_two_reads() {
    let prev = times(100, 100, 800);
    let cur = times(150, 100, 850);
    assert_eq!(core_usage(&prev, &cur), 5000);
    assert_eq!(core_usage(&prev, &times(100, 100, 900)), 0);
    assert_eq!(core_usage(&prev, &times(200, 130, 800)), 10000);
}

#[test]
fn no_elapsed_time_is_no_load() {
    let t = times(5, 5, 5);
    assert_eq!(core_usage(&t, &t), 0);
}

#[test]
fn counter_going_back_counts_as_still() {
    let prev = times(500, 0, 500);
    let cur = times(400, 0, 600);
    assert_eq!(core_usage(&prev, &cur), 0);
}

#[test]
fn sampler_keeps_previous_read() {
    let mut s = CpuSampler::new();
    let first = s.tick(vec![times(1, 0, 3), times(0, 0, 0)]);
    assert_eq!(first.len(), 2);
    assert_eq!(first[0].core_index, 0);
    assert_eq!(first[0].usage_hundredths, 2500);
    assert_eq!(first[1].usage_hundredths, 0);
    let second = s.tick(vec![times(4, 0, 4), times(2, 2, 0)]);
    assert_eq!(second[0].usage_hundredths, 7500);
    assert_eq!(second[1].core_index, 1);
    assert_eq!(second[1].usage_hundredths, 10000);
    assert_eq!(s.previous, vec![times(4, 0, 4), times(2, 2, 0)]);
}

#[test]
fn lifetime_share_of_a_process() {
    assert_eq!(lifetime_cpu_hundredths(30, 20, 100, 300), 2500);
    assert_eq!(lifetime_cpu_hundredths(30, 20, 300, 300), 0);
    assert_eq!(lifetime_cpu_hundredths(500, 500, 0, 100), 10000);
}
