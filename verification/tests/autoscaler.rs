use omniforge::AutoScaler;
use omniforge::CurrentMetrics;
use omniforge::HistoricalMetrics;
use omniforge::InstanceResources;
use omniforge::SampleWindow;
use omniforge::ScalingConfig;

fn window_of(capacity: usize, values: &[u64]) -> SampleWindow {
    let mut w = SampleWindow::new(capacity);
    for &v in values {
        assert!(w.push(v));
    }
    w
}

fn repeated(capacity: usize, value: u64, count: usize) -> SampleWindow {
    let mut w = SampleWindow::new(capacity);
    for _ in 0..count {
        assert!(w.push(value));
    }
    w
}

fn empty_current() -> CurrentMetrics {
    CurrentMetrics {
        cpu_utilization: SampleWindow::new(20),
        ram_utilization: SampleWindow::new(20),
        client_count: SampleWindow::new(20),
        response_time_ms: SampleWindow::new(20),
        disk_bandwidth_mbps: SampleWindow::new(20),
        network_latency_ms: SampleWindow::new(20),
        timestamp: 0,
    }
}

fn empty_historical() -> HistoricalMetrics {
    HistoricalMetrics {
        cpu_utilization: SampleWindow::new(1080),
        ram_utilization: SampleWindow::new(1080),
        client_count: SampleWindow::new(1080),
        response_time_ms: SampleWindow::new(1080),
        disk_bandwidth_mbps: SampleWindow::new(1080),
        network_latency_ms: SampleWindow::new(1080),
    }
}

fn test_resources() -> InstanceResources {
    InstanceResources {
        cpu_cores: 4,
        ram_gb: 16,
        disk_iops: 1000,
        network_mbps: 1000,
        max_clients: 100,
    }
}

#[test]
fn test_autoscaler_basic() {
    let config = ScalingConfig::default();
    let instance_resources = test_resources();

    // Simulate very high load: 20 readings per metric (milli-units).
    let current_metrics = CurrentMetrics {
        cpu_utilization: repeated(20, 90_000, 20),
        ram_utilization: repeated(20, 85_000, 20),
        client_count: repeated(20, 95, 20),
        response_time_ms: repeated(20, 450_000, 20),
        disk_bandwidth_mbps: repeated(20, 80_000, 20),
        network_latency_ms: repeated(20, 30_000, 20),
        timestamp: 0,
    };

    // 1080 historical readings with a 50% upward trend over the window.
    let mut historical_metrics = empty_historical();
    for i in 0..1080u64 {
        assert!(historical_metrics
            .cpu_utilization
            .push(75_000 * (2160 + i) / 2160));
        assert!(historical_metrics
            .ram_utilization
            .push(70_000 * (2160 + i) / 2160));
        assert!(historical_metrics.client_count.push(80 * (2160 + i) / 2160));
        assert!(historical_metrics
            .response_time_ms
            .push(200_000 * (2160 + i) / 2160));
        assert!(historical_metrics
            .disk_bandwidth_mbps
            .push(50_000 * (2160 + i) / 2160));
        assert!(historical_metrics
            .network_latency_ms
            .push(20_000 * (2160 + i) / 2160));
    }

    let mut scaler = AutoScaler::new(config, 4);
    // The last change lies far in the past, so the cooldown has elapsed.
    scaler.set_last_scale_time(0);
    let new_instances =
        scaler.calculate_target_instances(&current_metrics, &historical_metrics, &instance_resources);

    // With high load and increasing trends, we expect significant scaling.
    assert!(
        new_instances > 4,
        "Expected scaling up from 4 instances, got {}",
        new_instances
    );
}

#[test]
fn load_factor_exact_values() {
    let config = ScalingConfig::default();
    let scaler = AutoScaler::new(config, 4);

    // avg 90.0 against threshold 70.0: raw 1285 per-mille, amplified 1.5x.
    let w = repeated(20, 90_000, 20);
    assert_eq!(scaler.calculate_load_factor(&w, 70_000), 1927);

    // avg 85.0 against threshold 80.0: raw 1062 per-mille, amplified 1.5x.
    let w = repeated(20, 85_000, 20);
    assert_eq!(scaler.calculate_load_factor(&w, 80_000), 1593);

    // Under the threshold no amplification applies: 35 over 70 with equal
    // peak is exactly 0.5.
    let w = repeated(20, 35_000, 20);
    assert_eq!(scaler.calculate_load_factor(&w, 70_000), 500);

    // The peak term weighs 0.4: average (30+60)/2 = 45, peak 60, against 60:
    // 0.6 * 750 + 0.4 * 1000 = 850.
    let w = window_of(20, &[30_000, 60_000]);
    assert_eq!(scaler.calculate_load_factor(&w, 60_000), 850);
}

#[test]
fn response_time_factor_exact_values() {
    let config = ScalingConfig::default();
    let scaler = AutoScaler::new(config, 4);

    // avg 450ms against the default 500ms threshold: 0.9, not amplified.
    let w = repeated(20, 450_000, 20);
    assert_eq!(scaler.calculate_response_time_factor(&w), 900);

    // avg 600ms against 500ms: 1.2, amplified 1.3x to 1.56.
    let w = repeated(20, 600_000, 20);
    assert_eq!(scaler.calculate_response_time_factor(&w), 1560);
}

#[test]
fn client_load_factor_exact_values() {
    let config = ScalingConfig::default();
    let scaler = AutoScaler::new(config, 4);

    // avg 95 clients over 4 * 100 capacity: 0.2375, not amplified.
    let w = repeated(20, 95, 20);
    assert_eq!(scaler.calculate_client_load_factor(&w, 100), 237);

    // avg 360 clients over 4 * 100 capacity: 0.9, amplified 1.4x to 1.26.
    let w = repeated(20, 360, 20);
    assert_eq!(scaler.calculate_client_load_factor(&w, 100), 1260);
}

#[test]
fn empty_windows_give_neutral_factors() {
    let config = ScalingConfig::default();
    let scaler = AutoScaler::new(config, 4);
    let w = SampleWindow::new(20);

    assert_eq!(scaler.calculate_load_factor(&w, 70_000), 1000);
    assert_eq!(scaler.calculate_response_time_factor(&w), 1000);
    assert_eq!(scaler.calculate_client_load_factor(&w, 100), 1000);
}

#[test]
fn short_history_gives_zero_trend() {
    let config = ScalingConfig::default();
    let scaler = AutoScaler::new(config, 4);

    let w = repeated(1080, 1_000_000, 287);
    assert_eq!(scaler.calculate_trend(&w), 0);

    let w = SampleWindow::new(1080);
    assert_eq!(scaler.calculate_trend(&w), 0);
}

#[test]
fn trend_exact_values() {
    let config = ScalingConfig::default();
    let scaler = AutoScaler::new(config, 4);

    // 144 old readings of 100, then 144 recent readings of 150: +50%.
    let mut w = SampleWindow::new(1080);
    for _ in 0..144 {
        assert!(w.push(100));
    }
    for _ in 0..144 {
        assert!(w.push(150));
    }
    assert_eq!(scaler.calculate_trend(&w), 500);

    // 144 old readings of 100, then 144 recent readings of 50: -50%.
    let mut w = SampleWindow::new(1080);
    for _ in 0..144 {
        assert!(w.push(100));
    }
    for _ in 0..144 {
        assert!(w.push(50));
    }
    assert_eq!(scaler.calculate_trend(&w), -500);

    // A fourfold rise clamps to +100%.
    let mut w = SampleWindow::new(1080);
    for _ in 0..144 {
        assert!(w.push(100));
    }
    for _ in 0..144 {
        assert!(w.push(400));
    }
    assert_eq!(scaler.calculate_trend(&w), 1000);

    // A zero older mean reads as no trend.
    let mut w = SampleWindow::new(1080);
    for _ in 0..144 {
        assert!(w.push(0));
    }
    for _ in 0..144 {
        assert!(w.push(400));
    }
    assert_eq!(scaler.calculate_trend(&w), 0);

    // Flat history reads as no trend.
    let w = repeated(1080, 77, 288);
    assert_eq!(scaler.calculate_trend(&w), 0);
}

#[test]
fn combined_score_and_factor_thresholds() {
    let config = ScalingConfig::default();
    let scaler = AutoScaler::new(config, 4);

    // All factors exactly 1.0 with no trend give exactly 1.0 and hold.
    let combined = scaler.combined_score(1000, 1000, 1000, 1000, 0, 0);
    assert_eq!(combined, 1000);
    assert_eq!(scaler.scaling_factor_for(combined), 1000);

    // A clearly hot system takes the configured aggressive factor.
    let combined = scaler.combined_score(1927, 1593, 900, 237, 47, 47);
    assert_eq!(combined, 1381);
    assert_eq!(scaler.scaling_factor_for(combined), 2000);

    // Between 1.0 and 1.2 a moderate 1.5x applies.
    assert_eq!(scaler.scaling_factor_for(1100), 1500);

    // Under 0.6 the configured scale-down factor applies.
    assert_eq!(scaler.scaling_factor_for(599), 700);

    // Boundary scores hold steady.
    assert_eq!(scaler.scaling_factor_for(600), 1000);
    assert_eq!(scaler.scaling_factor_for(1000), 1000);
    assert_eq!(scaler.scaling_factor_for(1200), 1500);
    assert_eq!(scaler.scaling_factor_for(1201), 2000);
}

#[test]
fn bound_instances_enforces_minimum_step_and_bounds() {
    let mut config = ScalingConfig::default();
    config.min_instances = 2;
    config.max_instances = 100;
    let scaler = AutoScaler::new(config, 10);

    // min change for 10 instances is ceil(10 * 0.2) = 2
    assert_eq!(scaler.bound_instances(11), 12); // a step of 1 is forced up to 2
    assert_eq!(scaler.bound_instances(13), 13); // a step of 3 stands
    assert_eq!(scaler.bound_instances(9), 8); // a step of 1 down is forced to 2
    assert_eq!(scaler.bound_instances(1), 2); // clamped to min
    assert_eq!(scaler.bound_instances(10), 10); // no change forces no step

    let mut config = ScalingConfig::default();
    config.min_instances = 2;
    config.max_instances = 11;
    let scaler = AutoScaler::new(config, 10);
    assert_eq!(scaler.bound_instances(13), 11); // clamped to max
}

#[test]
fn cooldown_veto_holds_target_twice() {
    let config = ScalingConfig::default();
    let resources = test_resources();
    let current = CurrentMetrics {
        cpu_utilization: repeated(20, 90_000, 20),
        ram_utilization: repeated(20, 85_000, 20),
        client_count: repeated(20, 95, 20),
        response_time_ms: repeated(20, 450_000, 20),
        disk_bandwidth_mbps: repeated(20, 80_000, 20),
        network_latency_ms: repeated(20, 30_000, 20),
        timestamp: 0,
    };
    let historical = empty_historical();

    let mut scaler = AutoScaler::new(config, 4);
    scaler.set_last_scale_time(1000);

    // 2 minutes into a 5 minute cooldown: both evaluations hold at 4.
    let now = 1000 + 120;
    let d1 = scaler.tick(&current, &historical, &resources, now);
    assert!(d1.cooldown_suppressed);
    assert_eq!(d1.target_instances, 4);
    let d2 = scaler.tick(&current, &historical, &resources, now);
    assert_eq!(d2.target_instances, 4);
    assert_eq!(d1, d2);

    // After the cooldown the same telemetry scales up.
    let now = 1000 + 6 * 60;
    let d3 = scaler.tick(&current, &historical, &resources, now);
    assert!(!d3.cooldown_suppressed);
    assert!(d3.target_instances > 4);
}

#[test]
fn identical_ticks_produce_identical_decisions() {
    let config = ScalingConfig::default();
    let resources = test_resources();
    let current = CurrentMetrics {
        cpu_utilization: repeated(20, 90_000, 20),
        ram_utilization: repeated(20, 30_000, 20),
        client_count: repeated(20, 95, 20),
        response_time_ms: repeated(20, 450_000, 20),
        disk_bandwidth_mbps: repeated(20, 80_000, 20),
        network_latency_ms: repeated(20, 30_000, 20),
        timestamp: 0,
    };
    let historical = empty_historical();

    let mut scaler = AutoScaler::new(config, 4);
    scaler.set_last_scale_time(0);

    let d1 = scaler.evaluate_at(&current, &historical, &resources, 3600);
    let d2 = scaler.evaluate_at(&current, &historical, &resources, 3600);
    assert_eq!(d1, d2);
}

#[test]
fn tick_updates_state_only_on_accepted_change() {
    let config = ScalingConfig::default();
    let resources = test_resources();
    let current = CurrentMetrics {
        cpu_utilization: repeated(20, 90_000, 20),
        ram_utilization: repeated(20, 85_000, 20),
        client_count: repeated(20, 95, 20),
        response_time_ms: repeated(20, 450_000, 20),
        disk_bandwidth_mbps: repeated(20, 80_000, 20),
        network_latency_ms: repeated(20, 30_000, 20),
        timestamp: 0,
    };
    let historical = empty_historical();

    // Suppressed tick: nothing moves.
    let mut scaler = AutoScaler::new(config, 4);
    scaler.set_last_scale_time(1000);
    let d = scaler.tick(&current, &historical, &resources, 1060);
    assert!(d.cooldown_suppressed);
    assert_eq!(scaler.current_instances, 4);
    assert_eq!(scaler.last_scale_time, 1000);

    // Accepted change: the count and the cooldown anchor both move.
    let now = 1000 + 6 * 60;
    let d = scaler.tick(&current, &historical, &resources, now);
    assert!(!d.cooldown_suppressed);
    assert!(d.target_instances > 4);
    assert_eq!(scaler.current_instances, d.target_instances);
    assert_eq!(scaler.last_scale_time, now);
}

#[test]
fn all_decisions_stay_within_bounds() {
    let mut config = ScalingConfig::default();
    config.min_instances = 3;
    config.max_instances = 6;
    let resources = test_resources();
    let hot = CurrentMetrics {
        cpu_utilization: repeated(20, 200_000, 20),
        ram_utilization: repeated(20, 200_000, 20),
        client_count: repeated(20, 400, 20),
        response_time_ms: repeated(20, 900_000, 20),
        disk_bandwidth_mbps: repeated(20, 80_000, 20),
        network_latency_ms: repeated(20, 30_000, 20),
        timestamp: 0,
    };
    let cold = CurrentMetrics {
        cpu_utilization: repeated(20, 1_000, 20),
        ram_utilization: repeated(20, 1_000, 20),
        client_count: repeated(20, 1, 20),
        response_time_ms: repeated(20, 1_000, 20),
        disk_bandwidth_mbps: repeated(20, 1_000, 20),
        network_latency_ms: repeated(20, 1_000, 20),
        timestamp: 0,
    };
    let historical = empty_historical();

    let mut scaler = AutoScaler::new(config, 6);
    scaler.set_last_scale_time(0);
    let d = scaler.tick(&hot, &historical, &resources, 3600);
    assert!(d.target_instances >= 3 && d.target_instances <= 6);

    let mut scaler = AutoScaler::new(config, 3);
    scaler.set_last_scale_time(0);
    let d = scaler.tick(&cold, &historical, &resources, 3600);
    assert!(d.target_instances >= 3 && d.target_instances <= 6);
}

#[test]
fn empty_telemetry_holds_steady() {
    // All-empty current windows score 1.0 everywhere, the combined score is
    // exactly 1.0, and the tick holds the instance count.
    let config = ScalingConfig::default();
    let resources = test_resources();
    let current = empty_current();
    let historical = empty_historical();

    let mut scaler = AutoScaler::new(config, 4);
    scaler.set_last_scale_time(0);
    let d = scaler.tick(&current, &historical, &resources, 3600);
    assert_eq!(d.cpu_load, 1000);
    assert_eq!(d.ram_load, 1000);
    assert_eq!(d.response_time_load, 1000);
    assert_eq!(d.client_load, 1000);
    assert_eq!(d.cpu_trend, 0);
    assert_eq!(d.client_trend, 0);
    assert_eq!(d.combined_score, 1000);
    assert_eq!(d.scaling_factor, 1000);
    assert_eq!(d.target_instances, 4);
}

#[test]
fn config_validation_rejects_bad_parameters() {
    let good = ScalingConfig::default();
    assert!(good.is_valid());

    let mut c = good;
    c.min_instances = 0;
    assert!(!c.is_valid());

    let mut c = good;
    c.min_instances = 10;
    c.max_instances = 5;
    assert!(!c.is_valid());

    let mut c = good;
    c.cpu_threshold = 0;
    assert!(!c.is_valid());

    let mut c = good;
    c.scale_down_factor = 0;
    assert!(!c.is_valid());
}

#[test]
fn window_rejects_out_of_range_and_evicts_oldest() {
    let mut w = SampleWindow::new(2);
    assert!(!w.push(1_000_000_001)); // over SAMPLE_LIMIT: rejected
    assert_eq!(w.len(), 0);
    assert!(w.push(1));
    assert!(w.push(2));
    assert!(w.push(3)); // evicts the oldest
    assert_eq!(w.len(), 2);
    assert_eq!(w.get(0), 2);
    assert_eq!(w.get(1), 3);
}
