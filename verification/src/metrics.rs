//! Snapshots of telemetry handed to the engine at each tick: a short current
//! window and a long historical window per metric.

use vstd::prelude::*;
use crate::window::SampleWindow;

verus! {

/// Recent readings for every metric, plus the snapshot time (epoch seconds).
/// Utilization and bandwidth metrics are in milli-units (90.0% is `90_000`);
/// client counts are plain counts.
pub struct CurrentMetrics {
    pub cpu_utilization: SampleWindow,
    pub ram_utilization: SampleWindow,
    pub client_count: SampleWindow,
    pub response_time_ms: SampleWindow,
    pub disk_bandwidth_mbps: SampleWindow,
    pub network_latency_ms: SampleWindow,
    pub timestamp: i64,
}

impl CurrentMetrics {
    pub open spec fn wf(&self) -> bool {
        &&& self.cpu_utilization.wf()
        &&& self.ram_utilization.wf()
        &&& self.client_count.wf()
        &&& self.response_time_ms.wf()
        &&& self.disk_bandwidth_mbps.wf()
        &&& self.network_latency_ms.wf()
    }
}

/// Long-run readings used only for trend analysis, one window per metric.
pub struct HistoricalMetrics {
    pub cpu_utilization: SampleWindow,
    pub ram_utilization: SampleWindow,
    pub client_count: SampleWindow,
    pub response_time_ms: SampleWindow,
    pub disk_bandwidth_mbps: SampleWindow,
    pub network_latency_ms: SampleWindow,
}

impl HistoricalMetrics {
    pub open spec fn wf(&self) -> bool {
        &&& self.cpu_utilization.wf()
        &&& self.ram_utilization.wf()
        &&& self.client_count.wf()
        &&& self.response_time_ms.wf()
        &&& self.disk_bandwidth_mbps.wf()
        &&& self.network_latency_ms.wf()
    }
}

} // verus!
