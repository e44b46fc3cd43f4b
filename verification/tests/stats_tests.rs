use felt::stats::{round_up, Sample, Stats};

fn add(stats: &mut Stats, us: u64) {
    stats.add_sample(Sample { frame_time_us: us });
}

#[test]
fn new_stats_is_empty() {
    let stats = Stats::new();
    assert_eq!(stats.samples().len(), 0);
    let snap = stats.snapshot();
    assert_eq!(snap.frame_time_us, 0);
    assert_eq!(snap.fps_milli, 0);
    assert_eq!(snap.frame_time_min_us, u64::MAX);
    assert_eq!(snap.frame_time_max_us, 0);
}

#[test]
fn average_is_arithmetic_mean() {
    let mut stats = Stats::new();
    add(&mut stats, 1000);
    add(&mut stats, 2000);
    add(&mut stats, 3000);
    let snap = stats.snapshot();
    assert_eq!(snap.frame_time_us, 2000);
    assert_eq!(snap.fps_milli, 1_000_000_000 / 2000);
}

#[test]
fn average_floors_to_whole_microseconds() {
    let mut stats = Stats::new();
    add(&mut stats, 1000);
    add(&mut stats, 1001);
    assert_eq!(stats.snapshot().frame_time_us, 1000);
}

#[test]
fn window_keeps_the_hundred_most_recent() {
    let mut stats = Stats::new();
    for _ in 0..100 {
        add(&mut stats, 1000);
    }
    assert_eq!(stats.samples().len(), 100);
    add(&mut stats, 2000);
    let samples = stats.samples();
    assert_eq!(samples.len(), 100);
    assert_eq!(samples[99], 2000);
    assert!(samples[..99].iter().all(|&s| s == 1000));
    // 99 * 1000 + 2000 over 100 samples
    assert_eq!(stats.snapshot().frame_time_us, 1010);
}

#[test]
fn eviction_keeps_sum_in_step_with_window() {
    let mut stats = Stats::new();
    for i in 0..100 {
        add(&mut stats, i);
    }
    // sum = 0 + 1 + ... + 99 = 4950
    assert_eq!(stats.snapshot().frame_time_us, 4950 / 100);
    add(&mut stats, 100);
    // 0 evicted: sum = 1 + ... + 100 = 5050
    assert_eq!(stats.snapshot().frame_time_us, 5050 / 100);
}

#[test]
fn min_and_max_survive_eviction() {
    let mut stats = Stats::new();
    add(&mut stats, 5);
    for _ in 0..200 {
        add(&mut stats, 1000);
    }
    // The 5 left the window long ago; the extremes keep it.
    let snap = stats.snapshot();
    assert_eq!(snap.frame_time_min_us, 5);
    assert_eq!(snap.frame_time_max_us, 1000);
}

#[test]
fn min_changes_only_on_strictly_smaller_sample() {
    let mut stats = Stats::new();
    add(&mut stats, 10);
    add(&mut stats, 10);
    assert_eq!(stats.snapshot().frame_time_min_us, 10);
    add(&mut stats, 9);
    assert_eq!(stats.snapshot().frame_time_min_us, 9);
    add(&mut stats, 50);
    assert_eq!(stats.snapshot().frame_time_min_us, 9);
    assert_eq!(stats.snapshot().frame_time_max_us, 50);
}

#[test]
fn clear_min_and_max_resets_only_the_extremes() {
    let mut stats = Stats::new();
    add(&mut stats, 7);
    add(&mut stats, 21);
    stats.clear_min_and_max();
    let snap = stats.snapshot();
    assert_eq!(snap.frame_time_min_us, u64::MAX);
    assert_eq!(snap.frame_time_max_us, 0);
    // The window and its sum are untouched.
    assert_eq!(stats.samples(), vec![7, 21]);
    assert_eq!(snap.frame_time_us, 14);
}

#[test]
fn samples_come_back_oldest_first() {
    let mut stats = Stats::new();
    add(&mut stats, 1);
    add(&mut stats, 2);
    add(&mut stats, 3);
    assert_eq!(stats.samples(), vec![1, 2, 3]);
}

#[test]
fn default_matches_new() {
    let stats = Stats::default();
    assert_eq!(stats.samples().len(), 0);
    assert_eq!(stats.snapshot().frame_time_min_us, u64::MAX);
}

#[test]
fn round_up_finds_the_least_multiple() {
    assert_eq!(round_up(1, 5), 5);
    assert_eq!(round_up(4, 5), 5);
    assert_eq!(round_up(5, 5), 5);
    assert_eq!(round_up(6, 5), 10);
    assert_eq!(round_up(13, 5), 15);
    assert_eq!(round_up(15, 5), 15);
    assert_eq!(round_up(7, 1), 7);
}
