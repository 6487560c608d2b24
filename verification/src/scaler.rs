//! The scaling engine: normalized load scoring, historical trend analysis,
//! weighted combination, and oscillation-avoidance bounding.
//!
//! Every score is an exact per-mille fixed-point value (1000 == 1.0), so each
//! step of the computation is pinned down by a spec function of the inputs.

use vstd::prelude::*;
use vstd::arithmetic::div_mod::lemma_div_by_multiple;
use vstd::arithmetic::div_mod::lemma_div_is_ordered;
use vstd::arithmetic::div_mod::lemma_div_is_ordered_by_denominator;
use vstd::arithmetic::div_mod::lemma_div_pos_is_pos;
use vstd::arithmetic::mul::lemma_mul_inequality;
use vstd::arithmetic::mul::lemma_mul_upper_bound;
use crate::clock::now_epoch_seconds;
use crate::config::InstanceResources;
use crate::config::ScalingConfig;
use crate::config::FACTOR_LIMIT;
use crate::config::INSTANCE_LIMIT;
use crate::config::SCALE;
use crate::config::THRESHOLD_LIMIT;
use crate::metrics::CurrentMetrics;
use crate::metrics::HistoricalMetrics;
use crate::window::seq_max;
use crate::window::seq_sum;
use crate::window::lemma_window_bounds;
use crate::window::SampleWindow;
use crate::window::SAMPLE_LIMIT;
use crate::window::WINDOW_LIMIT;

verus! {

/// No unamplified factor exceeds this per-mille value: a window of maximal
/// readings against the smallest threshold scores `1000 * SAMPLE_LIMIT`.
pub const RAW_FACTOR_CAP: u64 = 1_000_000_000_000;

/// No load factor exceeds this per-mille value: the raw cap under the
/// largest amplifier, 1.5x.
pub const LOAD_FACTOR_CAP: u64 = 1_500_000_000_000;

/// Client saturation, per-mille, above which the anticipatory amplifier
/// applies.
pub const CLIENT_PRESSURE_SCORE: u64 = 800;

/// Fewest historical samples from which a trend is read at all.
pub const TREND_MIN_SAMPLES: usize = 288;

/// Width of each of the two historical sub-windows compared for the trend.
pub const TREND_SPAN: usize = 144;

/// Proof that a quotient `num / den` stays under `cap` whenever the numerator
/// is at most `cap` per unit of `len` and the denominator is at least `len`.
proof fn lemma_ratio_bound(num: int, den: int, len: int, cap: int)
    requires
        0 <= cap,
        0 <= num <= cap * len,
        1 <= len <= den,
    ensures
        0 <= num / den <= cap,
{
    lemma_div_pos_is_pos(num, den);
    lemma_div_is_ordered_by_denominator(num, len, den);
    lemma_div_is_ordered(num, cap * len, len);
    lemma_div_by_multiple(cap, len);
}

/// Normalized load score of one window against its threshold, per-mille:
/// `0.6 * avg/threshold + 0.4 * peak/threshold`, amplified 1.5x when over
/// 1.0. An empty window scores exactly 1.0 (no data is taken as nominal).
pub open spec fn spec_load_factor(samples: Seq<u64>, threshold: u64) -> int {
    if samples.len() == 0 {
        SCALE as int
    } else {
        let num = 600 * seq_sum(samples) + 400 * seq_max(samples) * samples.len();
        let raw = num / (samples.len() * threshold);
        if raw > SCALE {
            raw * 3 / 2
        } else {
            raw
        }
    }
}

/// Response-time score, per-mille: `avg/threshold` with no peak term,
/// amplified 1.3x when over 1.0. An empty window scores exactly 1.0.
pub open spec fn spec_response_time_factor(samples: Seq<u64>, threshold: u64) -> int {
    if samples.len() == 0 {
        SCALE as int
    } else {
        let raw = (1000 * seq_sum(samples)) / (samples.len() * threshold);
        if raw > SCALE {
            raw * 13 / 10
        } else {
            raw
        }
    }
}

/// Client saturation score, per-mille: average client count over the total
/// client capacity of the fleet, amplified 1.4x when over 0.8 (anticipatory
/// scaling before saturation). An empty window scores exactly 1.0.
pub open spec fn spec_client_load_factor(
    clients: Seq<u64>,
    instances: u32,
    max_clients_per_instance: u32,
) -> int {
    if clients.len() == 0 {
        SCALE as int
    } else {
        let raw = (1000 * seq_sum(clients)) / (clients.len() * instances
            * max_clients_per_instance);
        if raw > CLIENT_PRESSURE_SCORE {
            raw * 7 / 5
        } else {
            raw
        }
    }
}

/// Directional drift of a metric, per-mille in [-1000, 1000]: the relative
/// change between the mean of the most recent `TREND_SPAN` historical samples
/// and the mean of the `TREND_SPAN` samples before those, clamped to one.
/// With fewer than `TREND_MIN_SAMPLES` samples there is no trend signal (0);
/// a zero older mean also reads as 0, the documented policy for the undefined
/// relative change.
pub open spec fn spec_trend(hist: Seq<u64>) -> int {
    if hist.len() < TREND_MIN_SAMPLES {
        0
    } else {
        let recent = seq_sum(hist.subrange(hist.len() - TREND_SPAN, hist.len() as int));
        let older = seq_sum(
            hist.subrange(hist.len() - 2 * TREND_SPAN, hist.len() - TREND_SPAN),
        );
        if older == 0 {
            0
        } else if recent >= older {
            let up = (1000 * (recent - older)) / older;
            if up > 1000 {
                1000
            } else {
                up
            }
        } else {
            let down = (1000 * (older - recent)) / older;
            if down > 1000 {
                -1000
            } else {
                -down
            }
        }
    }
}

/// Combined score above which the aggressive (configured) scale-up factor
/// applies.
pub const AGGRESSIVE_SCORE: u64 = 1200;

/// Combined score below which the configured scale-down factor applies.
pub const SCALE_DOWN_SCORE: u64 = 600;

/// Per-mille multiplier for a moderate scale-up (combined score in
/// `(1000, 1200]`).
pub const MODERATE_UP_FACTOR: u64 = 1500;

/// Weighted per-mille combination of the four load factors and the two
/// trend-adjusted terms (each trend enters as `1.0 + trend`). The weights
/// are fixed: cpu 0.35, ram 0.25, response time 0.20, client load 0.10,
/// and 0.05 for each trend.
pub open spec fn spec_combined_score(
    cpu: int,
    ram: int,
    response: int,
    client: int,
    cpu_trend: int,
    client_trend: int,
) -> int {
    (350 * cpu + 250 * ram + 200 * response + 100 * client + 50 * (1000 + cpu_trend) + 50 * (1000
        + client_trend)) / 1000
}

/// Per-mille scaling multiplier chosen from the combined score.
pub open spec fn spec_scaling_factor(config: ScalingConfig, combined: int) -> u64 {
    if combined > AGGRESSIVE_SCORE {
        config.scale_up_factor
    } else if combined > SCALE {
        MODERATE_UP_FACTOR
    } else if combined < SCALE_DOWN_SCORE {
        config.scale_down_factor
    } else {
        SCALE
    }
}

/// Tentative target: the applied count times the per-mille multiplier,
/// rounded to the nearest instance (halves away from zero).
pub open spec fn spec_tentative_target(current: u32, factor: u64) -> int {
    (current * factor + 500) / 1000
}

/// Smallest accepted step: a fifth of the applied count, rounded up.
pub open spec fn spec_min_change(current: u32) -> int {
    (current + 4) / 5
}

pub open spec fn spec_clamp(x: int, lo: int, hi: int) -> int {
    if x < lo {
        lo
    } else if x > hi {
        hi
    } else {
        x
    }
}

/// The step the minimum-step rule asks for, before the instance bounds are
/// applied: at least `spec_min_change` instances in the tentative direction,
/// and no step at all when the tentative target equals the applied count.
pub open spec fn spec_step_target(current: u32, tentative: int) -> int {
    let mc = spec_min_change(current);
    if tentative > current {
        let inc = if tentative - current > mc {
            tentative - current
        } else {
            mc
        };
        current + inc
    } else if tentative < current {
        let dec = if current - tentative > mc {
            current - tentative
        } else {
            mc
        };
        current - dec
    } else {
        current as int
    }
}

/// Final bounding of a tentative target: an accepted change moves by at
/// least the minimum step, in the tentative direction, and the result is
/// clamped to the configured instance bounds. A tentative target equal to
/// the applied count forces no step.
pub open spec fn spec_bound_instances(config: ScalingConfig, current: u32, tentative: int) -> int {
    if tentative == current {
        current as int
    } else {
        spec_clamp(
            spec_step_target(current, tentative),
            config.min_instances as int,
            config.max_instances as int,
        )
    }
}

/// One tick's outcome: the tentative and final target instance counts, the
/// chosen multiplier, and the per-resource score breakdown, for
/// observability and testing. Immutable once produced.
#[derive(Debug, Clone, Copy, PartialEq, Eq, Structural)]
pub struct ScalingDecision {
    pub cpu_load: u64,
    pub ram_load: u64,
    pub response_time_load: u64,
    pub client_load: u64,
    pub cpu_trend: i64,
    pub client_trend: i64,
    pub combined_score: u64,
    pub scaling_factor: u64,
    pub tentative_instances: u64,
    pub target_instances: u32,
    pub cooldown_suppressed: bool,
}

/// The controller's state: configuration, the instance count currently
/// applied, and the time (epoch seconds) of the last accepted change.
pub struct AutoScaler {
    pub config: ScalingConfig,
    pub current_instances: u32,
    pub last_scale_time: i64,
}

impl AutoScaler {
    /// Validated configuration and an applied count within its bounds.
    pub open spec fn wf(&self) -> bool {
        &&& self.config.wf()
        &&& self.config.min_instances <= self.current_instances <= self.config.max_instances
    }

    /// Start a controller at `current_instances`, with the cooldown anchored
    /// at the current wall-clock time.
    pub fn new(config: ScalingConfig, current_instances: u32) -> (s: AutoScaler)
        requires
            config.wf(),
            config.min_instances <= current_instances <= config.max_instances,
        ensures
            s.wf(),
            s.config == config,
            s.current_instances == current_instances,
    {
        let last_scale_time = now_epoch_seconds();
        AutoScaler { config, current_instances, last_scale_time }
    }

    /// Move the cooldown anchor, e.g. to an instant read from a stored state.
    pub fn set_last_scale_time(&mut self, t: i64)
        ensures
            final(self).config == old(self).config,
            final(self).current_instances == old(self).current_instances,
            final(self).last_scale_time == t,
    {
        self.last_scale_time = t;
    }

    /// The tick at `now` falls inside the cooldown window after the last
    /// accepted change.
    pub open spec fn spec_in_cooldown(&self, now: i64) -> bool {
        now - self.last_scale_time < self.config.cooldown_minutes * 60
    }

    pub fn in_cooldown(&self, now: i64) -> (b: bool)
        ensures
            b == self.spec_in_cooldown(now),
    {
        (now as i128) - (self.last_scale_time as i128) < (self.config.cooldown_minutes as i128)
            * 60
    }

    /// Per-mille load score of one metric window against its threshold.
    pub fn calculate_load_factor(&self, measurements: &SampleWindow, threshold: u64) -> (factor:
        u64)
        requires
            measurements.wf(),
            1 <= threshold <= THRESHOLD_LIMIT,
        ensures
            factor == spec_load_factor(measurements@, threshold),
            factor <= LOAD_FACTOR_CAP,
            measurements@.len() == 0 ==> factor == SCALE,
    {
        if measurements.is_empty() {
            return SCALE;
        }
        let sum = measurements.sum();
        let peak = measurements.peak();
        let len = measurements.len() as u64;
        proof {
            lemma_window_bounds(measurements@, SAMPLE_LIMIT as int);
            lemma_mul_inequality(measurements@.len() as int, WINDOW_LIMIT as int, SAMPLE_LIMIT as int);
            lemma_mul_upper_bound(peak as int, SAMPLE_LIMIT as int, len as int, WINDOW_LIMIT as int);
            lemma_mul_upper_bound(len as int, WINDOW_LIMIT as int, threshold as int, THRESHOLD_LIMIT as int);
        }
        let peak_by_len: u64 = peak * len;
        let num: u64 = 600 * sum + 400 * peak_by_len;
        let den: u64 = len * threshold;
        proof {
            assert(400 * (seq_max(measurements@) * measurements@.len()) == 400 * seq_max(
                measurements@,
            ) * measurements@.len()) by (nonlinear_arith);
            lemma_mul_inequality(1, threshold as int, len as int);
            assert(num <= RAW_FACTOR_CAP * (len as int)) by {
                lemma_mul_inequality(peak as int, SAMPLE_LIMIT as int, len as int);
            }
            lemma_ratio_bound(num as int, den as int, len as int, RAW_FACTOR_CAP as int);
        }
        let raw: u64 = num / den;
        if raw > SCALE {
            raw * 3 / 2
        } else {
            raw
        }
    }

    /// Per-mille response-time score of the window against the configured
    /// response-time threshold.
    pub fn calculate_response_time_factor(&self, measurements: &SampleWindow) -> (factor: u64)
        requires
            measurements.wf(),
            self.config.wf(),
        ensures
            factor == spec_response_time_factor(measurements@, self.config.response_time_threshold),
            factor <= LOAD_FACTOR_CAP,
            measurements@.len() == 0 ==> factor == SCALE,
    {
        if measurements.is_empty() {
            return SCALE;
        }
        let threshold = self.config.response_time_threshold;
        let sum = measurements.sum();
        let len = measurements.len() as u64;
        proof {
            lemma_window_bounds(measurements@, SAMPLE_LIMIT as int);
            lemma_mul_inequality(measurements@.len() as int, WINDOW_LIMIT as int, SAMPLE_LIMIT as int);
            lemma_mul_upper_bound(len as int, WINDOW_LIMIT as int, threshold as int, THRESHOLD_LIMIT as int);
        }
        let num: u64 = 1000 * sum;
        let den: u64 = len * threshold;
        proof {
            lemma_mul_inequality(1, threshold as int, len as int);
            assert(num <= RAW_FACTOR_CAP * (len as int)) by {
                lemma_mul_inequality(sum as int, SAMPLE_LIMIT * (len as int), 1000);
            }
            lemma_ratio_bound(num as int, den as int, len as int, RAW_FACTOR_CAP as int);
        }
        let raw: u64 = num / den;
        if raw > SCALE {
            raw * 13 / 10
        } else {
            raw
        }
    }

    /// Per-mille client saturation score: average client count over the
    /// fleet's total client capacity at the currently applied instance count.
    pub fn calculate_client_load_factor(
        &self,
        clients: &SampleWindow,
        max_clients_per_instance: u32,
    ) -> (factor: u64)
        requires
            clients.wf(),
            self.wf(),
            1 <= max_clients_per_instance,
        ensures
            factor == spec_client_load_factor(
                clients@,
                self.current_instances,
                max_clients_per_instance,
            ),
            factor <= LOAD_FACTOR_CAP,
            clients@.len() == 0 ==> factor == SCALE,
    {
        if clients.is_empty() {
            return SCALE;
        }
        let sum = clients.sum();
        let len = clients.len() as u64;
        proof {
            lemma_window_bounds(clients@, SAMPLE_LIMIT as int);
            lemma_mul_inequality(clients@.len() as int, WINDOW_LIMIT as int, SAMPLE_LIMIT as int);
        }
        let num: u128 = 1000 * (sum as u128);
        proof {
            assert((len as int) * (self.current_instances as int) * (
            max_clients_per_instance as int) >= len as int && (len as int) * (
            self.current_instances as int) * (max_clients_per_instance as int)
                <= 100_000_000_000_000_000_000_000 && (len as int) * (
            self.current_instances as int) <= 100_000_000_000) by (nonlinear_arith)
                requires
                    1 <= len <= WINDOW_LIMIT,
                    1 <= self.current_instances <= 1_000_000,
                    1 <= max_clients_per_instance < 4_294_967_296,
            ;
        }
        let den: u128 = (len as u128) * (self.current_instances as u128) * (
        max_clients_per_instance as u128);
        proof {
            assert(num <= RAW_FACTOR_CAP * (len as int)) by {
                lemma_mul_inequality(sum as int, SAMPLE_LIMIT * (len as int), 1000);
            }
            lemma_ratio_bound(num as int, den as int, len as int, RAW_FACTOR_CAP as int);
        }
        let raw: u64 = (num / den) as u64;
        if raw > CLIENT_PRESSURE_SCORE {
            raw * 7 / 5
        } else {
            raw
        }
    }

    /// Per-mille drift of a metric's long-run history, in [-1000, 1000].
    /// Fewer than `TREND_MIN_SAMPLES` samples give no trend signal at all.
    pub fn calculate_trend(&self, historical_data: &SampleWindow) -> (trend: i64)
        requires
            historical_data.wf(),
        ensures
            trend == spec_trend(historical_data@),
            -1000 <= trend <= 1000,
            historical_data@.len() < TREND_MIN_SAMPLES ==> trend == 0,
    {
        let len = historical_data.len();
        if len < TREND_MIN_SAMPLES {
            return 0;
        }
        let recent = historical_data.sum_range(len - TREND_SPAN, len);
        let older = historical_data.sum_range(len - 2 * TREND_SPAN, len - TREND_SPAN);
        if older == 0 {
            return 0;
        }
        if recent >= older {
            let up = (1000 * (recent - older)) / older;
            if up > 1000 {
                1000
            } else {
                up as i64
            }
        } else {
            let down = (1000 * (older - recent)) / older;
            if down > 1000 {
                -1000
            } else {
                -(down as i64)
            }
        }
    }

    /// The six per-mille scores of one tick, as spec values.
    pub open spec fn spec_cpu_load(&self, cur: CurrentMetrics) -> int {
        spec_load_factor(cur.cpu_utilization@, self.config.cpu_threshold)
    }

    pub open spec fn spec_ram_load(&self, cur: CurrentMetrics) -> int {
        spec_load_factor(cur.ram_utilization@, self.config.ram_threshold)
    }

    pub open spec fn spec_response_load(&self, cur: CurrentMetrics) -> int {
        spec_response_time_factor(cur.response_time_ms@, self.config.response_time_threshold)
    }

    pub open spec fn spec_client_load(&self, cur: CurrentMetrics, res: InstanceResources) -> int {
        spec_client_load_factor(cur.client_count@, self.current_instances, res.max_clients)
    }

    /// Combined score of one tick.
    pub open spec fn spec_score(
        &self,
        cur: CurrentMetrics,
        hist: HistoricalMetrics,
        res: InstanceResources,
    ) -> int {
        spec_combined_score(
            self.spec_cpu_load(cur),
            self.spec_ram_load(cur),
            self.spec_response_load(cur),
            self.spec_client_load(cur, res),
            spec_trend(hist.cpu_utilization@),
            spec_trend(hist.client_count@),
        )
    }

    /// Multiplier chosen on one tick.
    pub open spec fn spec_factor(
        &self,
        cur: CurrentMetrics,
        hist: HistoricalMetrics,
        res: InstanceResources,
    ) -> u64 {
        spec_scaling_factor(self.config, self.spec_score(cur, hist, res))
    }

    /// Tentative target of one tick, before bounding.
    pub open spec fn spec_tentative(
        &self,
        cur: CurrentMetrics,
        hist: HistoricalMetrics,
        res: InstanceResources,
    ) -> int {
        spec_tentative_target(self.current_instances, self.spec_factor(cur, hist, res))
    }

    /// Bounded target of one tick, ignoring the cooldown veto.
    pub open spec fn spec_target(
        &self,
        cur: CurrentMetrics,
        hist: HistoricalMetrics,
        res: InstanceResources,
    ) -> int {
        spec_bound_instances(
            self.config,
            self.current_instances,
            self.spec_tentative(cur, hist, res),
        )
    }

    /// The complete decision of a tick evaluated at time `now`: the full
    /// score breakdown, with the cooldown veto deciding the final target.
    pub open spec fn spec_decision(
        &self,
        cur: CurrentMetrics,
        hist: HistoricalMetrics,
        res: InstanceResources,
        now: i64,
    ) -> ScalingDecision {
        ScalingDecision {
            cpu_load: self.spec_cpu_load(cur) as u64,
            ram_load: self.spec_ram_load(cur) as u64,
            response_time_load: self.spec_response_load(cur) as u64,
            client_load: self.spec_client_load(cur, res) as u64,
            cpu_trend: spec_trend(hist.cpu_utilization@) as i64,
            client_trend: spec_trend(hist.client_count@) as i64,
            combined_score: self.spec_score(cur, hist, res) as u64,
            scaling_factor: self.spec_factor(cur, hist, res),
            tentative_instances: self.spec_tentative(cur, hist, res) as u64,
            target_instances: if self.spec_in_cooldown(now) {
                self.current_instances
            } else {
                self.spec_target(cur, hist, res) as u32
            },
            cooldown_suppressed: self.spec_in_cooldown(now),
        }
    }

    /// Weighted per-mille combination of the per-resource scores.
    pub fn combined_score(
        &self,
        cpu_load: u64,
        ram_load: u64,
        response_time_load: u64,
        client_load: u64,
        historical_cpu_trend: i64,
        historical_client_trend: i64,
    ) -> (combined: u64)
        requires
            cpu_load <= LOAD_FACTOR_CAP,
            ram_load <= LOAD_FACTOR_CAP,
            response_time_load <= LOAD_FACTOR_CAP,
            client_load <= LOAD_FACTOR_CAP,
            -1000 <= historical_cpu_trend <= 1000,
            -1000 <= historical_client_trend <= 1000,
        ensures
            combined == spec_combined_score(
                cpu_load as int,
                ram_load as int,
                response_time_load as int,
                client_load as int,
                historical_cpu_trend as int,
                historical_client_trend as int,
            ),
    {
        let cpu_trend_term: u64 = (1000 + historical_cpu_trend) as u64;
        let client_trend_term: u64 = (1000 + historical_client_trend) as u64;
        let total: u64 = 350 * cpu_load + 250 * ram_load + 200 * response_time_load + 100
            * client_load + 50 * cpu_trend_term + 50 * client_trend_term;
        total / 1000
    }

    /// Multiplier for a combined score: aggressive scale-up over 1.2,
    /// moderate scale-up over 1.0, scale-down under 0.6, hold otherwise.
    pub fn scaling_factor_for(&self, combined: u64) -> (factor: u64)
        requires
            self.config.wf(),
        ensures
            factor == spec_scaling_factor(self.config, combined as int),
            1 <= factor <= FACTOR_LIMIT,
    {
        if combined > AGGRESSIVE_SCORE {
            self.config.scale_up_factor
        } else if combined > SCALE {
            MODERATE_UP_FACTOR
        } else if combined < SCALE_DOWN_SCORE {
            self.config.scale_down_factor
        } else {
            SCALE
        }
    }

    /// Multiplier computed straight from the six per-resource scores.
    pub fn determine_scaling_factor(
        &self,
        cpu_load: u64,
        ram_load: u64,
        response_time_load: u64,
        client_load: u64,
        historical_cpu_trend: i64,
        historical_client_trend: i64,
    ) -> (factor: u64)
        requires
            self.config.wf(),
            cpu_load <= LOAD_FACTOR_CAP,
            ram_load <= LOAD_FACTOR_CAP,
            response_time_load <= LOAD_FACTOR_CAP,
            client_load <= LOAD_FACTOR_CAP,
            -1000 <= historical_cpu_trend <= 1000,
            -1000 <= historical_client_trend <= 1000,
        ensures
            factor == spec_scaling_factor(
                self.config,
                spec_combined_score(
                    cpu_load as int,
                    ram_load as int,
                    response_time_load as int,
                    client_load as int,
                    historical_cpu_trend as int,
                    historical_client_trend as int,
                ),
            ),
            1 <= factor <= FACTOR_LIMIT,
    {
        let combined = self.combined_score(
            cpu_load,
            ram_load,
            response_time_load,
            client_load,
            historical_cpu_trend,
            historical_client_trend,
        );
        self.scaling_factor_for(combined)
    }

    /// Apply the minimum-step rule and the instance bounds to a tentative
    /// target.
    pub fn bound_instances(&self, instances: u64) -> (bounded: u32)
        requires
            self.wf(),
        ensures
            bounded == spec_bound_instances(self.config, self.current_instances, instances as int),
            self.config.min_instances <= bounded <= self.config.max_instances,
    {
        let current = self.current_instances as u64;
        let min_change = (current + 4) / 5;
        let target: u64 = if instances > current {
            let delta = instances - current;
            let increase = if delta > min_change {
                delta
            } else {
                min_change
            };
            current + increase
        } else if instances < current {
            let delta = current - instances;
            let decrease = if delta > min_change {
                delta
            } else {
                min_change
            };
            current - decrease
        } else {
            return self.current_instances;
        };
        if target < self.config.min_instances as u64 {
            self.config.min_instances
        } else if target > self.config.max_instances as u64 {
            self.config.max_instances
        } else {
            target as u32
        }
    }

    /// One full evaluation at time `now`: scores, trends, combination,
    /// tentative target, and the cooldown veto, as one decision record.
    pub fn evaluate_at(
        &self,
        current: &CurrentMetrics,
        historical: &HistoricalMetrics,
        instance_resources: &InstanceResources,
        now: i64,
    ) -> (decision: ScalingDecision)
        requires
            self.wf(),
            current.wf(),
            historical.wf(),
            instance_resources.wf(),
        ensures
            decision == self.spec_decision(*current, *historical, *instance_resources, now),
            self.config.min_instances <= decision.target_instances
                <= self.config.max_instances,
    {
        let cpu_load = self.calculate_load_factor(
            &current.cpu_utilization,
            self.config.cpu_threshold,
        );
        let ram_load = self.calculate_load_factor(
            &current.ram_utilization,
            self.config.ram_threshold,
        );
        let response_time_load = self.calculate_response_time_factor(&current.response_time_ms);
        let client_load = self.calculate_client_load_factor(
            &current.client_count,
            instance_resources.max_clients,
        );
        let cpu_trend = self.calculate_trend(&historical.cpu_utilization);
        let client_trend = self.calculate_trend(&historical.client_count);
        let combined = self.combined_score(
            cpu_load,
            ram_load,
            response_time_load,
            client_load,
            cpu_trend,
            client_trend,
        );
        let scaling_factor = self.scaling_factor_for(combined);
        proof {
            lemma_mul_upper_bound(
                self.current_instances as int,
                INSTANCE_LIMIT as int,
                scaling_factor as int,
                FACTOR_LIMIT as int,
            );
        }
        let tentative: u64 = ((self.current_instances as u64) * scaling_factor + 500) / 1000;
        let bounded = self.bound_instances(tentative);
        let suppressed = self.in_cooldown(now);
        let target_instances = if suppressed {
            self.current_instances
        } else {
            bounded
        };
        ScalingDecision {
            cpu_load,
            ram_load,
            response_time_load,
            client_load,
            cpu_trend,
            client_trend,
            combined_score: combined,
            scaling_factor,
            tentative_instances: tentative,
            target_instances,
            cooldown_suppressed: suppressed,
        }
    }

    /// One controller tick at time `now`: evaluate, and apply the decision
    /// to the controller's own state exactly when the cooldown does not
    /// suppress it and the target differs from the applied count.
    pub fn tick(
        &mut self,
        current: &CurrentMetrics,
        historical: &HistoricalMetrics,
        instance_resources: &InstanceResources,
        now: i64,
    ) -> (decision: ScalingDecision)
        requires
            old(self).wf(),
            current.wf(),
            historical.wf(),
            instance_resources.wf(),
        ensures
            decision == old(self).spec_decision(
                *current,
                *historical,
                *instance_resources,
                now,
            ),
            final(self).wf(),
            final(self).config == old(self).config,
            decision.cooldown_suppressed || decision.target_instances == old(
                self,
            ).current_instances ==> *final(self) == *old(self),
            !decision.cooldown_suppressed && decision.target_instances != old(
                self,
            ).current_instances ==> *final(self) == (AutoScaler {
                config: old(self).config,
                current_instances: decision.target_instances,
                last_scale_time: now,
            }),
    {
        let decision = self.evaluate_at(current, historical, instance_resources, now);
        if !decision.cooldown_suppressed && decision.target_instances != self.current_instances {
            self.current_instances = decision.target_instances;
            self.last_scale_time = now;
        }
        decision
    }

    /// Target instance count for the telemetry in hand, read against the
    /// wall clock: the applied count unchanged while the cooldown holds,
    /// and the fully bounded target otherwise.
    pub fn calculate_target_instances(
        &self,
        current: &CurrentMetrics,
        historical: &HistoricalMetrics,
        instance_resources: &InstanceResources,
    ) -> (target: u32)
        requires
            self.wf(),
            current.wf(),
            historical.wf(),
            instance_resources.wf(),
        ensures
            self.config.min_instances <= target <= self.config.max_instances,
            target == self.current_instances || target == self.spec_target(
                *current,
                *historical,
                *instance_resources,
            ),
    {
        let now = now_epoch_seconds();
        if self.in_cooldown(now) {
            return self.current_instances;
        }
        let decision = self.evaluate_at(current, historical, instance_resources, now);
        decision.target_instances
    }
}

/// The final target of every tick stays within the configured instance
/// bounds: the cooldown veto returns the applied count, which the
/// controller's invariant keeps in range, and every other outcome is
/// clamped.
pub proof fn lemma_target_within_bounds(
    s: AutoScaler,
    cur: CurrentMetrics,
    hist: HistoricalMetrics,
    res: InstanceResources,
    now: i64,
)
    requires
        s.wf(),
    ensures
        s.config.min_instances <= s.spec_decision(cur, hist, res, now).target_instances
            <= s.config.max_instances,
{
}

/// The cooldown window is a hard veto: an evaluation inside it leaves the
/// target at the applied count, so evaluating twice against the same state
/// (same applied count, same last scale time) yields the unchanged target
/// both times.
pub proof fn lemma_cooldown_holds_target(
    s: AutoScaler,
    cur: CurrentMetrics,
    hist: HistoricalMetrics,
    res: InstanceResources,
    now1: i64,
    now2: i64,
)
    requires
        s.wf(),
        s.spec_in_cooldown(now1),
        s.spec_in_cooldown(now2),
    ensures
        s.spec_decision(cur, hist, res, now1).target_instances == s.current_instances,
        s.spec_decision(cur, hist, res, now2).target_instances == s.current_instances,
{
}

/// Minimum-step rule: when a tick accepts a change (not suppressed, target
/// different from the applied count) and the configured bounds do not cut
/// the step short, the count moves by at least `spec_min_change(current)`.
pub proof fn lemma_minimum_step(config: ScalingConfig, current: u32, tentative: int)
    requires
        config.wf(),
        config.min_instances <= current <= config.max_instances,
        config.min_instances <= spec_step_target(current, tentative) <= config.max_instances,
        spec_bound_instances(config, current, tentative) != current,
    ensures
        spec_bound_instances(config, current, tentative) >= current + spec_min_change(current)
            || spec_bound_instances(config, current, tentative) <= current - spec_min_change(
            current,
        ),
{
}

/// One tick is a pure function of the controller state, the telemetry
/// snapshot and the clock reading: two evaluations of identical, unmutated
/// inputs are bit-identical decisions.
pub proof fn lemma_tick_deterministic(
    s: AutoScaler,
    cur: CurrentMetrics,
    hist: HistoricalMetrics,
    res: InstanceResources,
    now: i64,
    d1: ScalingDecision,
    d2: ScalingDecision,
)
    requires
        d1 == s.spec_decision(cur, hist, res, now),
        d2 == s.spec_decision(cur, hist, res, now),
    ensures
        d1 == d2,
{
}

} // verus!
