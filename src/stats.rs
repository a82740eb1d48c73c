use vstd::prelude::*;
use vstd::string::*;
use crate::perf::bump;

verus! {

pub open spec fn digit_char(d: int) -> char {
    if d == 0 {
        '0'
    } else if d == 1 {
        '1'
    } else if d == 2 {
        '2'
    } else if d == 3 {
        '3'
    } else if d == 4 {
        '4'
    } else if d == 5 {
        '5'
    } else if d == 6 {
        '6'
    } else if d == 7 {
        '7'
    } else if d == 8 {
        '8'
    } else {
        '9'
    }
}

/// Decimal digits of `n`, most significant first, without leading zeros.
pub open spec fn decimal_spec(n: nat) -> Seq<char>
    decreases n,
{
    if n < 10 {
        seq![digit_char(n as int)]
    } else {
        decimal_spec(n / 10).push(digit_char((n % 10) as int))
    }
}

/// Relies on `u64::to_string` (through `Display`): the decimal digits of the
/// value, without sign or leading zeros.
#[verifier::external_body]
pub(crate) fn decimal(n: u64) -> (r: String)
    ensures
        r@ == decimal_spec(n as nat),
{
    n.to_string()
}

/// Aggregates kept across sessions.
#[derive(Clone, Debug)]
pub struct LifetimeStats {
    pub total_fish_caught: u64,
    pub total_runtime_seconds: u64,
    pub sessions_completed: u64,
    /// When the record was last written, as handed in by the caller.
    pub last_updated: String,
    pub best_session_fish: u64,
    /// Fish per hour of runtime, rounded down.
    pub average_fish_per_hour: u64,
    pub total_feeds: u64,
    /// Share of the runtime spent fishing, in whole percent.
    pub uptime_percentage: u64,
}

/// Fish per hour of runtime, rounded down and held at `u64::MAX`.
pub open spec fn hourly_rate(fish: int, seconds: int) -> int {
    let r = (fish * 3600) / seconds;
    if r > u64::MAX {
        u64::MAX as int
    } else {
        r
    }
}

pub open spec fn sat_add(a: int, b: int) -> int {
    if a + b > u64::MAX {
        u64::MAX as int
    } else {
        a + b
    }
}

impl Default for LifetimeStats {
    fn default() -> (s: LifetimeStats)
        ensures
            s.total_fish_caught == 0,
            s.total_runtime_seconds == 0,
            s.sessions_completed == 0,
            s.last_updated@.len() == 0,
            s.best_session_fish == 0,
            s.average_fish_per_hour == 0,
            s.total_feeds == 0,
            s.uptime_percentage == 100,
    {
        LifetimeStats {
            total_fish_caught: 0,
            total_runtime_seconds: 0,
            sessions_completed: 0,
            last_updated: String::new(),
            best_session_fish: 0,
            average_fish_per_hour: 0,
            total_feeds: 0,
            uptime_percentage: 100,
        }
    }
}

impl LifetimeStats {
    /// Same record, every field equal.
    pub open spec fn same_as(&self, o: &LifetimeStats) -> bool {
        &&& self.total_fish_caught == o.total_fish_caught
        &&& self.total_runtime_seconds == o.total_runtime_seconds
        &&& self.sessions_completed == o.sessions_completed
        &&& self.last_updated@ == o.last_updated@
        &&& self.best_session_fish == o.best_session_fish
        &&& self.average_fish_per_hour == o.average_fish_per_hour
        &&& self.total_feeds == o.total_feeds
        &&& self.uptime_percentage == o.uptime_percentage
    }

    /// Runtime as `"<hours>h <minutes>m"`.
    pub fn get_formatted_runtime(&self) -> (s: String)
        ensures
            s@ == decimal_spec((self.total_runtime_seconds / 3600) as nat) + "h "@ + decimal_spec(
                ((self.total_runtime_seconds % 3600) / 60) as nat,
            ) + "m"@,
    {
        let hours = self.total_runtime_seconds / 3600;
        let minutes = (self.total_runtime_seconds % 3600) / 60;
        let mut s = decimal(hours);
        s.append("h ");
        let m = decimal(minutes);
        s.append(m.as_str());
        s.append("m");
        s
    }

    pub fn add_fish(&mut self, count: u64)
        ensures
            final(self).total_fish_caught == sat_add(old(self).total_fish_caught as int, count as int),
            final(self).total_runtime_seconds == old(self).total_runtime_seconds,
            final(self).sessions_completed == old(self).sessions_completed,
            final(self).best_session_fish == old(self).best_session_fish,
            final(self).total_feeds == old(self).total_feeds,
            final(self).last_updated == old(self).last_updated,
            final(self).average_fish_per_hour == old(self).average_fish_per_hour,
            final(self).uptime_percentage == old(self).uptime_percentage,
    {
        self.total_fish_caught = self.total_fish_caught.saturating_add(count);
    }

    pub fn add_runtime(&mut self, seconds: u64)
        ensures
            final(self).total_runtime_seconds == sat_add(
                old(self).total_runtime_seconds as int,
                seconds as int,
            ),
            final(self).total_fish_caught == old(self).total_fish_caught,
            final(self).sessions_completed == old(self).sessions_completed,
            final(self).best_session_fish == old(self).best_session_fish,
            final(self).total_feeds == old(self).total_feeds,
            final(self).last_updated == old(self).last_updated,
            final(self).average_fish_per_hour == old(self).average_fish_per_hour,
            final(self).uptime_percentage == old(self).uptime_percentage,
    {
        self.total_runtime_seconds = self.total_runtime_seconds.saturating_add(seconds);
    }

    /// Counts a finished session and keeps the best session total.
    pub fn complete_session(&mut self, session_fish: u64)
        ensures
            final(self).sessions_completed == bump(
                old(self).sessions_completed as int,
                u64::MAX as int,
            ),
            final(self).best_session_fish == if session_fish > old(self).best_session_fish {
                session_fish
            } else {
                old(self).best_session_fish
            },
            final(self).total_fish_caught == old(self).total_fish_caught,
            final(self).total_runtime_seconds == old(self).total_runtime_seconds,
            final(self).total_feeds == old(self).total_feeds,
            final(self).last_updated == old(self).last_updated,
            final(self).average_fish_per_hour == old(self).average_fish_per_hour,
            final(self).uptime_percentage == old(self).uptime_percentage,
    {
        self.sessions_completed = self.sessions_completed.saturating_add(1);
        if session_fish > self.best_session_fish {
            self.best_session_fish = session_fish;
        }
    }

    pub fn add_feed(&mut self)
        ensures
            final(self).total_feeds == bump(old(self).total_feeds as int, u64::MAX as int),
            final(self).total_fish_caught == old(self).total_fish_caught,
            final(self).total_runtime_seconds == old(self).total_runtime_seconds,
            final(self).sessions_completed == old(self).sessions_completed,
            final(self).best_session_fish == old(self).best_session_fish,
            final(self).last_updated == old(self).last_updated,
            final(self).average_fish_per_hour == old(self).average_fish_per_hour,
            final(self).uptime_percentage == old(self).uptime_percentage,
    {
        self.total_feeds = self.total_feeds.saturating_add(1);
    }

    /// Stamps the record with the time it is written and refreshes the derived rate.
    pub fn mark_saved(&mut self, stamp: String)
        ensures
            final(self).last_updated == stamp,
            final(self).average_fish_per_hour == if old(self).total_runtime_seconds > 0 {
                hourly_rate(old(self).total_fish_caught as int, old(self).total_runtime_seconds as int)
            } else {
                old(self).average_fish_per_hour as int
            },
            final(self).total_fish_caught == old(self).total_fish_caught,
            final(self).total_runtime_seconds == old(self).total_runtime_seconds,
            final(self).sessions_completed == old(self).sessions_completed,
            final(self).best_session_fish == old(self).best_session_fish,
            final(self).total_feeds == old(self).total_feeds,
            final(self).uptime_percentage == old(self).uptime_percentage,
    {
        self.last_updated = stamp;
        self.update_calculations();
    }

    fn update_calculations(&mut self)
        ensures
            final(self).average_fish_per_hour == if old(self).total_runtime_seconds > 0 {
                hourly_rate(old(self).total_fish_caught as int, old(self).total_runtime_seconds as int)
            } else {
                old(self).average_fish_per_hour as int
            },
            final(self).last_updated == old(self).last_updated,
            final(self).total_fish_caught == old(self).total_fish_caught,
            final(self).total_runtime_seconds == old(self).total_runtime_seconds,
            final(self).sessions_completed == old(self).sessions_completed,
            final(self).best_session_fish == old(self).best_session_fish,
            final(self).total_feeds == old(self).total_feeds,
            final(self).uptime_percentage == old(self).uptime_percentage,
    {
        if self.total_runtime_seconds > 0 {
            let fish = self.total_fish_caught as u128 * 3600;
            let rate = fish / self.total_runtime_seconds as u128;
            self.average_fish_per_hour = if rate > u64::MAX as u128 {
                u64::MAX
            } else {
                rate as u64
            };
        }
    }
}

} // verus!
