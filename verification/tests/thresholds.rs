use omniforge::thresholds::AppInstance;
use omniforge::thresholds::ApplicationState;
use omniforge::thresholds::AutoscalerThresholds;
use omniforge::thresholds::InstanceMetrics;
use omniforge::thresholds::ResourceType;
use omniforge::thresholds::ScaleAction;
use omniforge::thresholds::ScaleResult;

#[test]
fn mod_run() {
    let metrics = InstanceMetrics::new(
        Some(75),
        Some(60),
        Some(100),
        Some(150),
        Some(200),
        Some(50),
        Some(100),
    );
    let autoscaler = AutoscalerThresholds::new(80, 75, 100, 180);

    let actions = autoscaler.decide_all(&metrics);
    for (resource, action) in actions {
        match action {
            ScaleAction::ScaleUp => println!("Scaling up {:?}...", resource),
            ScaleAction::ScaleDown => println!("Scaling down {:?}...", resource),
            ScaleAction::ScaleLeft => println!("Scaling left {:?}...", resource),
            ScaleAction::ScaleRight => println!("Scaling right {:?}...", resource),
            ScaleAction::NoAction => println!("No scaling action needed for {:?}.", resource),
        }
    }
}

#[test]
fn decide_all_exact_actions() {
    let metrics = InstanceMetrics::new(
        Some(75),
        Some(60),
        Some(100),
        Some(150),
        Some(200),
        Some(50),
        Some(100),
    );
    let autoscaler = AutoscalerThresholds::new(80, 75, 100, 180);

    let actions = autoscaler.decide_all(&metrics);
    assert_eq!(actions.len(), 4);
    // cpu 75 is neither over 80 nor under 40
    assert_eq!(actions[0], (ResourceType::CPU, ScaleAction::NoAction));
    // ram 100 is over 75
    assert_eq!(actions[1], (ResourceType::RAM, ScaleAction::ScaleUp));
    // clients 150 are over 100
    assert_eq!(actions[2], (ResourceType::Clients, ScaleAction::ScaleRight));
    // response time 200 is over 180
    assert_eq!(
        actions[3],
        (ResourceType::ResponseTime, ScaleAction::ScaleRight)
    );
}

#[test]
fn decide_all_missing_metrics_are_no_action() {
    let metrics = InstanceMetrics::new(None, None, None, None, None, None, None);
    let autoscaler = AutoscalerThresholds::new(80, 75, 100, 180);

    let actions = autoscaler.decide_all(&metrics);
    for (_, action) in actions {
        assert_eq!(action, ScaleAction::NoAction);
    }
}

#[test]
fn decide_all_low_readings_scale_down_and_left() {
    // cpu 30 under half of 80, ram 20 under half of 75
    let metrics = InstanceMetrics::new(Some(30), None, Some(20), Some(5), Some(10), None, None);
    let autoscaler = AutoscalerThresholds::new(80, 75, 100, 180);

    let actions = autoscaler.decide_all(&metrics);
    assert_eq!(actions[0], (ResourceType::CPU, ScaleAction::ScaleDown));
    assert_eq!(actions[1], (ResourceType::RAM, ScaleAction::ScaleLeft));
    assert_eq!(actions[2], (ResourceType::Clients, ScaleAction::NoAction));
    assert_eq!(
        actions[3],
        (ResourceType::ResponseTime, ScaleAction::NoAction)
    );
}

#[test]
fn get_fields_lists_every_reading() {
    let metrics = InstanceMetrics::new(
        Some(1),
        Some(2),
        Some(3),
        Some(4),
        Some(5),
        Some(6),
        Some(7),
    );
    let fields = metrics.get_fields();
    assert_eq!(fields.len(), 7);
    assert_eq!(fields[0], ("cpu_load", Some(1)));
    assert_eq!(fields[3], ("clients", Some(4)));
    assert_eq!(fields[6].1, Some(7));
}

#[test]
fn set_field_leaves_metrics_unchanged() {
    let mut metrics = InstanceMetrics::new(Some(1), None, None, None, None, None, None);
    let before = metrics;
    metrics.set_field("cpu_load", Some(99));
    assert_eq!(metrics, before);
}

#[test]
fn scale_up_adds_cpu_and_memory() {
    let mut instance = AppInstance {
        state: ApplicationState::Healthy,
        allocated_memory: 1024,
        allocated_cpu: 100,
        allocated_disk_bandwidth: 100,
        allocated_network_bandwidth: 100,
    };
    let r = instance.scale(ScaleAction::ScaleUp);
    assert_eq!(r, ScaleResult::Success);
    assert_eq!(instance.allocated_cpu, 110);
    assert_eq!(instance.allocated_memory, 2048);
    assert_eq!(instance.allocated_disk_bandwidth, 100);
}

#[test]
fn scale_down_saturates_at_zero() {
    let mut instance = AppInstance {
        state: ApplicationState::Healthy,
        allocated_memory: 512,
        allocated_cpu: 5,
        allocated_disk_bandwidth: 3,
        allocated_network_bandwidth: 0,
    };
    instance.scale(ScaleAction::ScaleDown);
    assert_eq!(instance.allocated_cpu, 0);
    assert_eq!(instance.allocated_memory, 0);
    instance.scale(ScaleAction::ScaleLeft);
    assert_eq!(instance.allocated_disk_bandwidth, 0);
    instance.scale(ScaleAction::ScaleRight);
    assert_eq!(instance.allocated_network_bandwidth, 10);
    let before = instance;
    instance.scale(ScaleAction::NoAction);
    assert_eq!(instance, before);
}
