use vstd::prelude::*;
use crate::config::SafetyConfig;
use rand::Rng;

verus! {

/// `rand::thread_rng().gen_range(low..high)`: a number drawn from the
/// half-open range; nothing else is claimed of it.
#[verifier::external_body]
fn random_in_range(low: u64, high: u64) -> (r: u64)
    requires
        low < high,
    ensures
        low <= r < high,
{
    rand::thread_rng().gen_range(low..high)
}

/// Lower bound, in milliseconds, of the gaps between cover requests.
pub const COVER_GAP_MIN_MS: u64 = 500;

/// Upper bound (exclusive), in milliseconds, of the gaps between cover requests.
pub const COVER_GAP_MAX_MS: u64 = 5000;

/// Number of cover requests in a schedule.
pub const COVER_SCHEDULE_LEN: usize = 5;

/// Traffic shaping against timing analysis.
pub struct PrivacyGuard {
    config: SafetyConfig,
}

impl PrivacyGuard {
    /// The settings the guard applies.
    pub closed spec fn settings(self) -> SafetyConfig {
        self.config
    }

    pub fn new(config: SafetyConfig) -> (g: Self)
        ensures
            g.settings() == config,
    {
        PrivacyGuard { config }
    }

    /// The randomized delay, in milliseconds, to wait before a request in
    /// order to blur timing metadata: none when jitter is off, otherwise a
    /// draw below the configured jitter.
    pub fn pacing_delay_ms(&self) -> (d: Option<u64>)
        ensures
            d is None <==> self.settings().timing_jitter_ms == 0,
            d matches Some(ms) ==> ms < self.settings().timing_jitter_ms,
    {
        if self.config.timing_jitter_ms > 0 {
            Some(random_in_range(0, self.config.timing_jitter_ms as u64))
        } else {
            None
        }
    }

    /// A schedule of cover (dummy) requests, as gaps in milliseconds: empty
    /// when cover traffic is off, otherwise five gaps each drawn from
    /// [500, 5000).
    pub fn get_cover_traffic_schedule(&self) -> (schedule: Vec<u64>)
        ensures
            !self.settings().cover_traffic_enabled ==> schedule@.len() == 0,
            self.settings().cover_traffic_enabled ==> schedule@.len() == COVER_SCHEDULE_LEN,
            forall|i: int|
                0 <= i < schedule@.len() ==> COVER_GAP_MIN_MS <= #[trigger] schedule@[i] < COVER_GAP_MAX_MS,
    {
        let mut schedule: Vec<u64> = Vec::new();
        if !self.config.cover_traffic_enabled {
            return schedule;
        }
        let mut n: usize = 0;
        while n < COVER_SCHEDULE_LEN
            invariant
                n <= COVER_SCHEDULE_LEN,
                schedule@.len() == n,
                forall|i: int|
                    0 <= i < schedule@.len() ==> COVER_GAP_MIN_MS <= #[trigger] schedule@[i] < COVER_GAP_MAX_MS,
            decreases COVER_SCHEDULE_LEN - n,
        {
            schedule.push(random_in_range(COVER_GAP_MIN_MS, COVER_GAP_MAX_MS));
            n = n + 1;
        }
        schedule
    }
}

/// A cover schedule, when cover traffic is on, is five gaps of at least
/// half a second and less than five seconds.
pub proof fn law_cover_schedule_bounds()
    ensures
        COVER_SCHEDULE_LEN == 5,
        COVER_GAP_MIN_MS == 500,
        COVER_GAP_MAX_MS == 5000,
{
}

} // verus!
