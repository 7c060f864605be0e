use procmaster::usage::{calculate_gauge_color, usage_hundredths, usage_percent, GaugeLevel};
use procmaster::MemoryStats;

#[test]
fn percent_of_zero_total_is_zero() {
    assert_eq!(usage_percent(0, 0), 0);
    assert_eq!(usage_percent(12345, 0), 0);
    assert_eq!(usage_hundredths(7, 0), 0);
}

#[test]
fn percent_exact_values() {
    assert_eq!(usage_percent(50, 200), 25);
    assert_eq!(usage_percent(1, 3), 33);
    assert_eq!(usage_hundredths(1, 3), 3333);
    assert_eq!(usage_hundredths(200, 200), 10000);
}

#[test]
fn percent_is_capped_at_full() {
    assert_eq!(usage_percent(300, 200), 100);
    assert_eq!(usage_percent(u64::MAX, 1), 100);
    assert_eq!(usage_hundredths(u64::MAX, 1), 10000);
}

#[test]
fn gauge_levels_at_boundaries() {
    assert_eq!(calculate_gauge_color(0), GaugeLevel::Calm);
    assert_eq!(calculate_gauge_color(20), GaugeLevel::Calm);
    assert_eq!(calculate_gauge_color(21), GaugeLevel::Moderate);
    assert_eq!(calculate_gauge_color(40), GaugeLevel::Moderate);
    assert_eq!(calculate_gauge_color(41), GaugeLevel::Elevated);
    assert_eq!(calculate_gauge_color(60), GaugeLevel::Elevated);
    assert_eq!(calculate_gauge_color(61), GaugeLevel::High);
    assert_eq!(calculate_gauge_color(80), GaugeLevel::High);
    assert_eq!(calculate_gauge_color(81), GaugeLevel::Critical);
    assert_eq!(calculate_gauge_color(100), GaugeLevel::Critical);
}

#[test]
fn memory_stats_from_totals() {
    let m = MemoryStats::from_totals(1000, 250, 0, 0);
    assert_eq!(m.used_ram, 750);
    assert_eq!(m.free_ram, 250);
    assert_eq!(m.ram_percent(), 75);
    assert_eq!(m.swap_percent(), 0);
    let over = MemoryStats::from_totals(100, 500, 10, 3);
    assert_eq!(over.free_ram, 100);
    assert_eq!(over.used_ram, 0);
    assert_eq!(over.used_swap, 7);
    assert_eq!(over.swap_percent(), 70);
}
