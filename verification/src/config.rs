//! Runtime configuration handed to the worker at construction.

use vstd::prelude::*;

verus! {

/// Milliseconds in one minute.
pub const MILLIS_PER_MINUTE: u64 = 60000;

/// Configuration of the polling worker.
pub struct Config {
    /// the time in minutes the bot will wait before fetching again
    pub bot_fetch_schedule: u32,
}

impl Config {
    /// How many stop-check ticks of the given length make one poll
    /// period: the configured minutes, measured in ticks, but at least
    /// one, so the worker always eventually polls.
    pub fn ticks_per_poll(&self, tick_millis: u64) -> (t: u64)
        requires
            tick_millis > 0,
        ensures
            t >= 1,
            ({
                let exact = (self.bot_fetch_schedule * MILLIS_PER_MINUTE) as nat / (
                tick_millis as nat);
                t == if exact >= 1 {
                    exact
                } else {
                    1nat
                }
            }),
    {
        let millis = (self.bot_fetch_schedule as u64) * MILLIS_PER_MINUTE;
        let ticks = millis / tick_millis;
        if ticks == 0 {
            1
        } else {
            ticks
        }
    }
}

} // verus!
