//! Tunable autoscaling parameters and static per-instance capacity.
//!
//! All thresholds are fixed-point values in milli-units of the metric they
//! bound (a CPU threshold of `70_000` means 70.0% utilization); the scaling
//! factors are per-mille multipliers (`2000` means 2.0x).

use vstd::prelude::*;

verus! {

/// One unit in the per-mille fixed-point scale: `SCALE` == 1.0.
pub const SCALE: u64 = 1000;

/// Largest accepted threshold, in milli-units.
pub const THRESHOLD_LIMIT: u64 = 1_000_000_000;

/// Largest accepted scaling factor, in per-mille (a 1000x step per tick).
pub const FACTOR_LIMIT: u64 = 1_000_000;

/// Largest accepted instance count.
pub const INSTANCE_LIMIT: u32 = 1_000_000;

/// Tunable parameters of the scaling engine, validated at load time.
#[derive(Debug, Clone, Copy, PartialEq, Eq, Structural)]
pub struct ScalingConfig {
    pub min_instances: u32,
    pub max_instances: u32,
    pub cpu_threshold: u64,
    pub ram_threshold: u64,
    pub response_time_threshold: u64,
    pub scale_up_factor: u64,
    pub scale_down_factor: u64,
    pub cooldown_minutes: u32,
}

impl ScalingConfig {
    /// A well-formed configuration: positive instance bounds in order, and
    /// strictly positive thresholds and factors, all within the fixed-point
    /// representation limits.
    pub open spec fn wf(&self) -> bool {
        &&& 1 <= self.min_instances <= self.max_instances <= INSTANCE_LIMIT
        &&& 1 <= self.cpu_threshold <= THRESHOLD_LIMIT
        &&& 1 <= self.ram_threshold <= THRESHOLD_LIMIT
        &&& 1 <= self.response_time_threshold <= THRESHOLD_LIMIT
        &&& 1 <= self.scale_up_factor <= FACTOR_LIMIT
        &&& 1 <= self.scale_down_factor <= FACTOR_LIMIT
    }

    /// Load-time validation: accepts exactly the well-formed configurations.
    pub fn is_valid(&self) -> (valid: bool)
        ensures
            valid == self.wf(),
    {
        1 <= self.min_instances && self.min_instances <= self.max_instances
            && self.max_instances <= INSTANCE_LIMIT && 1 <= self.cpu_threshold
            && self.cpu_threshold <= THRESHOLD_LIMIT && 1 <= self.ram_threshold
            && self.ram_threshold <= THRESHOLD_LIMIT && 1 <= self.response_time_threshold
            && self.response_time_threshold <= THRESHOLD_LIMIT && 1 <= self.scale_up_factor
            && self.scale_up_factor <= FACTOR_LIMIT && 1 <= self.scale_down_factor
            && self.scale_down_factor <= FACTOR_LIMIT
    }
}

impl Default for ScalingConfig {
    /// 1..=100 instances, 70.0% CPU, 80.0% RAM, 500.0 ms response time,
    /// 2.0x up, 0.7x down, 5 minutes of cooldown.
    fn default() -> (c: ScalingConfig)
        ensures
            c.wf(),
            c == (ScalingConfig {
                min_instances: 1u32,
                max_instances: 100u32,
                cpu_threshold: 70_000u64,
                ram_threshold: 80_000u64,
                response_time_threshold: 500_000u64,
                scale_up_factor: 2000u64,
                scale_down_factor: 700u64,
                cooldown_minutes: 5u32,
            }),
    {
        ScalingConfig {
            min_instances: 1,
            max_instances: 100,
            cpu_threshold: 70_000,
            ram_threshold: 80_000,
            response_time_threshold: 500_000,
            scale_up_factor: 2000,
            scale_down_factor: 700,
            cooldown_minutes: 5,
        }
    }
}

/// Static capacity description of one instance, supplied once at startup.
/// Only `max_clients` takes part in the decision math (it normalizes the
/// client load); the other capacities describe the instance for the
/// orchestration layer.
#[derive(Debug, Clone, Copy, PartialEq, Eq, Structural)]
pub struct InstanceResources {
    pub cpu_cores: u32,
    pub ram_gb: u32,
    pub disk_iops: u32,
    pub network_mbps: u32,
    pub max_clients: u32,
}

impl InstanceResources {
    /// Client capacity must be positive: it is a divisor in the client load.
    pub open spec fn wf(&self) -> bool {
        1 <= self.max_clients
    }
}

} // verus!
