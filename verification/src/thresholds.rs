//! A simple threshold-based scaler: per-resource scale actions decided by
//! comparing each gathered metric against a fixed threshold.

use vstd::prelude::*;

verus! {

/// Metrics that can be gathered from one application instance. A field is
/// `None` when the runtime does not supply that reading.
#[derive(Debug, Clone, Copy, PartialEq, Eq, Structural)]
pub struct InstanceMetrics {
    pub cpu_load: Option<u64>,
    pub ram_pressure: Option<u64>,
    pub ram_usage: Option<u64>,
    pub clients: Option<u64>,
    pub app_response_time: Option<u64>,
    pub network_latency: Option<u64>,
    pub disk_bandwidth: Option<u64>,
}

/// A scaling action for one resource dimension.
#[derive(Debug, Clone, Copy, PartialEq, Eq, Structural)]
pub enum ScaleAction {
    ScaleUp,
    ScaleDown,
    ScaleLeft,
    ScaleRight,
    NoAction,
}

/// The resource dimension an action applies to.
#[derive(Debug, Clone, Copy, PartialEq, Eq, Hash, Structural)]
pub enum ResourceType {
    CPU,
    RAM,
    Clients,
    ResponseTime,
}

impl InstanceMetrics {
    pub fn new(
        cpu_load: Option<u64>,
        ram_pressure: Option<u64>,
        ram_usage: Option<u64>,
        clients: Option<u64>,
        app_response_time: Option<u64>,
        network_latency: Option<u64>,
        disk_bandwidth: Option<u64>,
    ) -> (m: InstanceMetrics)
        ensures
            m == (InstanceMetrics {
                cpu_load,
                ram_pressure,
                ram_usage,
                clients,
                app_response_time,
                network_latency,
                disk_bandwidth,
            }),
    {
        InstanceMetrics {
            cpu_load,
            ram_pressure,
            ram_usage,
            clients,
            app_response_time,
            network_latency,
            disk_bandwidth,
        }
    }

    /// Every reading, labelled by field name, in declaration order.
    pub fn get_fields(&self) -> (fields: Vec<(&'static str, Option<u64>)>)
        ensures
            fields@.len() == 7,
            fields@[0].1 == self.cpu_load,
            fields@[1].1 == self.ram_pressure,
            fields@[2].1 == self.ram_usage,
            fields@[3].1 == self.clients,
            fields@[4].1 == self.app_response_time,
            fields@[5].1 == self.network_latency,
            fields@[6].1 == self.disk_bandwidth,
            fields@[0].0@ == "cpu_load"@,
            fields@[1].0@ == "ram_pressure"@,
            fields@[2].0@ == "ram_usage"@,
            fields@[3].0@ == "clients"@,
            fields@[4].0@ == "app_response_time"@,
            fields@[5].0@ == "network_latency"@,
            fields@[6].0@ == "disk_bandwith"@,
    {
        let mut fields: Vec<(&'static str, Option<u64>)> = Vec::new();
        fields.push(("cpu_load", self.cpu_load));
        fields.push(("ram_pressure", self.ram_pressure));
        fields.push(("ram_usage", self.ram_usage));
        fields.push(("clients", self.clients));
        fields.push(("app_response_time", self.app_response_time));
        fields.push(("network_latency", self.network_latency));
        fields.push(("disk_bandwith", self.disk_bandwidth));
        fields
    }

    /// Field updates by name are deliberately not a mutation path: a metrics
    /// value is built fresh per snapshot, so this leaves the value unchanged.
    pub fn set_field(&mut self, field_name: &str, field_value: Option<u64>)
        ensures
            *final(self) == *old(self),
    {
    }
}

/// Fixed per-resource thresholds for the threshold-based scaler.
#[derive(Debug, Clone, Copy, PartialEq, Eq, Structural)]
pub struct AutoscalerThresholds {
    pub cpu_threshold: u64,
    pub ram_threshold: u64,
    pub client_threshold: u64,
    pub response_time_threshold: u64,
}

impl AutoscalerThresholds {
    pub fn new(
        cpu_threshold: u64,
        ram_threshold: u64,
        client_threshold: u64,
        response_time_threshold: u64,
    ) -> (t: AutoscalerThresholds)
        ensures
            t == (AutoscalerThresholds {
                cpu_threshold,
                ram_threshold,
                client_threshold,
                response_time_threshold,
            }),
    {
        AutoscalerThresholds { cpu_threshold, ram_threshold, client_threshold, response_time_threshold }
    }

    /// CPU: scale up over the threshold, scale down under half of it.
    pub open spec fn spec_cpu_action(&self, metrics: InstanceMetrics) -> ScaleAction {
        match metrics.cpu_load {
            Some(cpu_load) => if cpu_load > self.cpu_threshold {
                ScaleAction::ScaleUp
            } else if cpu_load < self.cpu_threshold / 2 {
                ScaleAction::ScaleDown
            } else {
                ScaleAction::NoAction
            },
            None => ScaleAction::NoAction,
        }
    }

    /// RAM: scale up over the threshold, scale left under half of it.
    pub open spec fn spec_ram_action(&self, metrics: InstanceMetrics) -> ScaleAction {
        match metrics.ram_usage {
            Some(ram_usage) => if ram_usage > self.ram_threshold {
                ScaleAction::ScaleUp
            } else if ram_usage < self.ram_threshold / 2 {
                ScaleAction::ScaleLeft
            } else {
                ScaleAction::NoAction
            },
            None => ScaleAction::NoAction,
        }
    }

    /// Clients: scale right over the threshold.
    pub open spec fn spec_client_action(&self, metrics: InstanceMetrics) -> ScaleAction {
        match metrics.clients {
            Some(clients) => if clients > self.client_threshold {
                ScaleAction::ScaleRight
            } else {
                ScaleAction::NoAction
            },
            None => ScaleAction::NoAction,
        }
    }

    /// Response time: scale right over the threshold.
    pub open spec fn spec_response_time_action(&self, metrics: InstanceMetrics) -> ScaleAction {
        match metrics.app_response_time {
            Some(response_time) => if response_time > self.response_time_threshold {
                ScaleAction::ScaleRight
            } else {
                ScaleAction::NoAction
            },
            None => ScaleAction::NoAction,
        }
    }

    /// The action to take for each scaling category, in a fixed order:
    /// CPU, RAM, clients, response time.
    pub fn decide_all(&self, metrics: &InstanceMetrics) -> (actions: Vec<
        (ResourceType, ScaleAction),
    >)
        ensures
            actions@.len() == 4,
            actions@[0] == (ResourceType::CPU, self.spec_cpu_action(*metrics)),
            actions@[1] == (ResourceType::RAM, self.spec_ram_action(*metrics)),
            actions@[2] == (ResourceType::Clients, self.spec_client_action(*metrics)),
            actions@[3] == (ResourceType::ResponseTime, self.spec_response_time_action(*metrics)),
    {
        let mut actions: Vec<(ResourceType, ScaleAction)> = Vec::new();

        let cpu_action = match metrics.cpu_load {
            Some(cpu_load) => if cpu_load > self.cpu_threshold {
                ScaleAction::ScaleUp
            } else if cpu_load < self.cpu_threshold / 2 {
                ScaleAction::ScaleDown
            } else {
                ScaleAction::NoAction
            },
            None => ScaleAction::NoAction,
        };
        actions.push((ResourceType::CPU, cpu_action));

        let ram_action = match metrics.ram_usage {
            Some(ram_usage) => if ram_usage > self.ram_threshold {
                ScaleAction::ScaleUp
            } else if ram_usage < self.ram_threshold / 2 {
                ScaleAction::ScaleLeft
            } else {
                ScaleAction::NoAction
            },
            None => ScaleAction::NoAction,
        };
        actions.push((ResourceType::RAM, ram_action));

        let client_action = match metrics.clients {
            Some(clients) => if clients > self.client_threshold {
                ScaleAction::ScaleRight
            } else {
                ScaleAction::NoAction
            },
            None => ScaleAction::NoAction,
        };
        actions.push((ResourceType::Clients, client_action));

        let response_time_action = match metrics.app_response_time {
            Some(response_time) => if response_time > self.response_time_threshold {
                ScaleAction::ScaleRight
            } else {
                ScaleAction::NoAction
            },
            None => ScaleAction::NoAction,
        };
        actions.push((ResourceType::ResponseTime, response_time_action));

        actions
    }
}

/// The health of one application instance as the load balancer sees it.
#[derive(Debug, Clone, Copy, PartialEq, Eq, Structural)]
pub enum ApplicationState {
    Healthy,
    Suspicious,
    Erroneous,
    Blacklisted,
    Down,
}

/// One application instance and its allocated capacities (memory in MB,
/// cpu in percent with 100 per core, disk and network in MB/s).
#[derive(Debug, Clone, Copy, PartialEq, Eq, Structural)]
pub struct AppInstance {
    pub state: ApplicationState,
    pub allocated_memory: u64,
    pub allocated_cpu: u64,
    pub allocated_disk_bandwidth: u64,
    pub allocated_network_bandwidth: u64,
}

/// Outcome of applying a scale action to an instance.
#[derive(Debug, Clone, Copy, PartialEq, Eq, Structural)]
pub enum ScaleResult {
    Success,
}

impl AppInstance {
    /// Apply one scale action to this instance's allocations: up adds one
    /// CPU step and 1 GB of memory, down removes them (saturating at zero),
    /// left trims disk bandwidth (saturating), right adds network bandwidth.
    pub fn scale(&mut self, action: ScaleAction) -> (r: ScaleResult)
        requires
            action is ScaleUp ==> old(self).allocated_cpu + 10 <= u64::MAX && old(
                self,
            ).allocated_memory + 1024 <= u64::MAX,
            action is ScaleRight ==> old(self).allocated_network_bandwidth + 10 <= u64::MAX,
        ensures
            r == ScaleResult::Success,
            final(self).state == old(self).state,
            action is ScaleUp ==> *final(self) == (AppInstance {
                allocated_cpu: (old(self).allocated_cpu + 10) as u64,
                allocated_memory: (old(self).allocated_memory + 1024) as u64,
                ..*old(self)
            }),
            action is ScaleDown ==> final(self).allocated_cpu == if old(self).allocated_cpu >= 10 {
                old(self).allocated_cpu - 10
            } else {
                0
            } && final(self).allocated_memory == if old(self).allocated_memory >= 1024 {
                old(self).allocated_memory - 1024
            } else {
                0
            } && final(self).allocated_disk_bandwidth == old(self).allocated_disk_bandwidth
                && final(self).allocated_network_bandwidth == old(
                self,
            ).allocated_network_bandwidth,
            action is ScaleLeft ==> *final(self) == (AppInstance {
                allocated_disk_bandwidth: if old(self).allocated_disk_bandwidth >= 10 {
                    (old(self).allocated_disk_bandwidth - 10) as u64
                } else {
                    0u64
                },
                ..*old(self)
            }),
            action is ScaleRight ==> *final(self) == (AppInstance {
                allocated_network_bandwidth: (old(self).allocated_network_bandwidth + 10) as u64,
                ..*old(self)
            }),
            action is NoAction ==> *final(self) == *old(self),
    {
        match action {
            ScaleAction::ScaleUp => {
                self.allocated_cpu = self.allocated_cpu + 10;
                self.allocated_memory = self.allocated_memory + 1024;
            },
            ScaleAction::ScaleDown => {
                self.allocated_cpu = if self.allocated_cpu >= 10 {
                    self.allocated_cpu - 10
                } else {
                    0
                };
                self.allocated_memory = if self.allocated_memory >= 1024 {
                    self.allocated_memory - 1024
                } else {
                    0
                };
            },
            ScaleAction::ScaleLeft => {
                self.allocated_disk_bandwidth = if self.allocated_disk_bandwidth >= 10 {
                    self.allocated_disk_bandwidth - 10
                } else {
                    0
                };
            },
            ScaleAction::ScaleRight => {
                self.allocated_network_bandwidth = self.allocated_network_bandwidth + 10;
            },
            ScaleAction::NoAction => {},
        }
        ScaleResult::Success
    }
}

} // verus!
