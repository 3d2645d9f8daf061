//! Rate limiting of the API routes: a token bucket per client.

use vstd::prelude::*;

use crate::config::Config;

verus! {

/// The bucket's settings: one token returns every `period_nanos`
/// nanoseconds, and at most `burst_size` tokens are held.
#[derive(Debug, Clone, Copy, PartialEq, Eq)]
pub struct GovernorSettings {
    pub period_nanos: u64,
    pub burst_size: u32,
}

/// The bucket for `config`: the sustained rate and the burst, each taken as at
/// least 1, the period being a second divided by the rate. `None` where the
/// period comes to zero (a rate above 10^9 per second), which the limiter refuses.
pub fn api_governor_config(config: &Config) -> (r: Option<GovernorSettings>)
    ensures
        ({
            let rate = if config.rate_limit_per_second < 1 { 1 } else { config.rate_limit_per_second };
            let burst = if config.rate_limit_burst_size < 1 { 1 } else { config.rate_limit_burst_size };
            let period = 1_000_000_000u64 / rate;
            if period == 0 {
                r is None
            } else {
                r == Some(GovernorSettings { period_nanos: period as u64, burst_size: burst as u32 })
            }
        }),
{
    let rate = if config.rate_limit_per_second < 1 { 1 } else { config.rate_limit_per_second };
    let period = 1_000_000_000u64 / rate;
    let burst = if config.rate_limit_burst_size < 1 { 1 } else { config.rate_limit_burst_size };
    if period == 0 {
        None
    } else {
        Some(GovernorSettings { period_nanos: period, burst_size: burst })
    }
}

} // verus!
