//! Autoscaling decision engine: turns windows of per-instance telemetry into
//! bounded instance-count decisions, with cooldown, minimum-step and min/max
//! clamping. All scores are exact fixed-point values in per-mille units
//! (1000 == 1.0), so every decision is reproducible and fully specified.

mod clock;
pub mod config;
pub mod devcontainer;
pub mod metrics;
pub mod models;
pub mod naming;
pub mod scaler;
pub mod thresholds;
pub mod window;

pub use config::InstanceResources;
pub use config::ScalingConfig;
pub use metrics::CurrentMetrics;
pub use metrics::HistoricalMetrics;
pub use scaler::AutoScaler;
pub use scaler::ScalingDecision;
pub use window::SampleWindow;
