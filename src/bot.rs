use vstd::prelude::*;
use vstd::string::*;
use crate::config::{BotConfig, bite_timeout_ms, bite_timeout_for_lure};
use crate::perf::{PerformanceMonitor, bump};
use crate::phase::{
    Action, Activity, BotState, Event, FishingPhase, Pending, CRITICAL_ERRORS, HUNGER_FULL,
    MAX_CONSECUTIVE_ERRORS, action_for, advance_active, elapsed, next_action, next_state,
    reading_of,
};
use crate::stats::{LifetimeStats, sat_add};

verus! {

/// A notification the bot asks to have delivered.
#[derive(Clone, Copy, Debug, PartialEq, Eq, Structural)]
pub enum Notice {
    Started,
    Paused,
    Resumed,
    Milestone { fish: u64 },
    Fed { hunger: u32 },
    FedBlind,
    CriticalError { errors: u32, consecutive: u32 },
    SessionSummary { fish: u64, runtime_seconds: u64, best_streak: u32 },
}

/// Catches between milestone notices.
pub const MILESTONE_EVERY: u64 = 10;

/// The session is running and not paused.
pub open spec fn active(s: BotState) -> bool {
    s.running && !s.paused
}

/// The pending call failed, by the event reported for it.
pub open spec fn call_failed(p: Pending, e: Event) -> bool {
    if p == Pending::CastClick || p == Pending::ReelClick || p == Pending::RodReset || p
        == Pending::CatchRodReset || p == Pending::Feed {
        e != Event::Done
    } else if p == Pending::BiteCheck || p == Pending::CatchCheck || p == Pending::CatchConfirm {
        !(e is Detected)
    } else if p == Pending::HungerRead {
        !(e is Hunger)
    } else {
        false
    }
}

/// How the current cast cycle ends on this event: `Some(true)` after a recast,
/// an escape or a catch, `Some(false)` after a failed call, `None` while it goes on.
pub open spec fn cycle_outcome(s: BotState, cfg: BotConfig, e: Event, now: u64) -> Option<bool> {
    if !active(s) {
        None
    } else if call_failed(s.pending, e) {
        Some(false)
    } else if s.pending == Pending::BitePoll {
        if elapsed(s.wait_started_ms, now) > bite_timeout_ms(cfg.rod_lure_milli as int) {
            Some(true)
        } else {
            None
        }
    } else if s.pending == Pending::ReelPoll {
        if elapsed(s.wait_started_ms, now) > cfg.max_fishing_timeout_ms {
            Some(true)
        } else {
            None
        }
    } else if s.pending == Pending::CatchConfirm && e == Event::Detected(true) {
        Some(true)
    } else {
        None
    }
}

/// This event confirms a catch.
pub open spec fn catches(s: BotState, e: Event) -> bool {
    active(s) && s.pending == Pending::CatchConfirm && e == Event::Detected(true)
}

/// This event brings a hunger reading that calls for food.
pub open spec fn feeds_on_reading(s: BotState, e: Event) -> bool {
    active(s) && s.pending == Pending::HungerRead && match reading_of(e) {
        Some(v) => v < HUNGER_FULL,
        None => false,
    }
}

/// Notices raised by the transition on `e`.
pub open spec fn notices_for(s: BotState, cfg: BotConfig, e: Event, now: u64) -> Seq<Notice> {
    let n = next_state(s, cfg, e, now);
    if catches(s, e) {
        if n.fish_count % MILESTONE_EVERY == 0 {
            seq![Notice::Milestone { fish: n.fish_count }]
        } else {
            seq![]
        }
    } else if active(s) && s.pending == Pending::HungerRead && e is Hunger {
        match reading_of(e) {
            Some(v) => if v < HUNGER_FULL {
                seq![Notice::Fed { hunger: v }]
            } else {
                seq![]
            },
            None => seq![Notice::FedBlind],
        }
    } else if cycle_outcome(s, cfg, e, now) == Some(false) && n.consecutive_errors
        >= CRITICAL_ERRORS {
        seq![Notice::CriticalError { errors: n.errors_count, consecutive: n.consecutive_errors }]
    } else {
        seq![]
    }
}

/// State right after a session starts at `now`.
pub open spec fn started(s: BotState, now: u64) -> BotState {
    BotState {
        running: true,
        paused: false,
        fish_count: 0,
        start_time_ms: Some(now),
        status: Activity::Starting,
        current_phase: FishingPhase::Idle,
        errors_count: 0,
        current_streak: 0,
        consecutive_errors: 0,
        pending: Pending::StartupDelay,
        wait_started_ms: now,
        cycle_started_ms: now,
        ..s
    }
}

/// State of a fresh bot.
pub open spec fn initial_state() -> BotState {
    BotState {
        running: false,
        paused: false,
        fish_count: 0,
        last_hunger: None,
        start_time_ms: None,
        status: Activity::Ready,
        current_phase: FishingPhase::Idle,
        errors_count: 0,
        uptime_percentage: 100,
        fish_per_hour: 0,
        session_best_streak: 0,
        current_streak: 0,
        consecutive_errors: 0,
        pending: Pending::Nothing,
        wait_started_ms: 0,
        cycle_started_ms: 0,
        last_action_ms: None,
    }
}

impl Default for BotState {
    fn default() -> (s: BotState)
        ensures
            s == initial_state(),
    {
        BotState {
            running: false,
            paused: false,
            fish_count: 0,
            last_hunger: None,
            start_time_ms: None,
            status: Activity::Ready,
            current_phase: FishingPhase::Idle,
            errors_count: 0,
            uptime_percentage: 100,
            fish_per_hour: 0,
            session_best_streak: 0,
            current_streak: 0,
            consecutive_errors: 0,
            pending: Pending::Nothing,
            wait_started_ms: 0,
            cycle_started_ms: 0,
            last_action_ms: None,
        }
    }
}

/// Lifetime record `b` is `a` with the fish and feed counters advanced as flagged.
pub open spec fn lifetime_advanced(a: LifetimeStats, b: LifetimeStats, fish: bool, feed: bool) -> bool {
    &&& b.total_fish_caught == if fish {
        sat_add(a.total_fish_caught as int, 1)
    } else {
        a.total_fish_caught as int
    }
    &&& b.total_feeds == if feed {
        bump(a.total_feeds as int, u64::MAX as int)
    } else {
        a.total_feeds as int
    }
    &&& b.total_runtime_seconds == a.total_runtime_seconds
    &&& b.sessions_completed == a.sessions_completed
    &&& b.best_session_fish == a.best_session_fish
    &&& b.last_updated == a.last_updated
    &&& b.average_fish_per_hour == a.average_fish_per_hour
    &&& b.uptime_percentage == a.uptime_percentage
}

/// The cast / bite / reel state machine, with its session and lifetime bookkeeping.
///
/// The caller runs the loop: it asks for the next [`Action`], performs it
/// outside any lock, and reports the outcome with [`AdvancedFishingBot::step`].
pub struct AdvancedFishingBot {
    pub config: BotConfig,
    pub state: BotState,
    pub lifetime_stats: LifetimeStats,
    pub monitor: PerformanceMonitor,
    /// Notices not yet handed to the dispatcher, oldest first.
    pub notices: Vec<Notice>,
}

impl AdvancedFishingBot {
    pub open spec fn wf(&self) -> bool {
        &&& self.monitor.wf()
        &&& self.state.consecutive_errors <= MAX_CONSECUTIVE_ERRORS
        &&& self.state.running ==> self.state.consecutive_errors < MAX_CONSECUTIVE_ERRORS
        &&& self.state.running <==> self.state.pending != Pending::Nothing
    }

    pub fn new(config: BotConfig, lifetime_stats: LifetimeStats) -> (b: AdvancedFishingBot)
        ensures
            b.wf(),
            b.state == initial_state(),
            b.config == config,
            b.lifetime_stats == lifetime_stats,
            b.notices@.len() == 0,
            b.monitor.total_operations == 0,
            b.monitor.operation_times@.len() == 0,
    {
        AdvancedFishingBot {
            config,
            state: BotState::default(),
            lifetime_stats,
            monitor: PerformanceMonitor::new(),
            notices: Vec::new(),
        }
    }

    /// Starts a session at `now`; does nothing while one is running.
    pub fn start(&mut self, now: u64)
        requires
            old(self).wf(),
        ensures
            final(self).wf(),
            old(self).state.running ==> final(self).state == old(self).state && final(self).notices@ == old(self).notices@,
            !old(self).state.running ==> final(self).state == started(old(self).state, now)
                && final(self).notices@ == old(self).notices@.push(Notice::Started),
            final(self).config == old(self).config,
            final(self).lifetime_stats == old(self).lifetime_stats,
            final(self).monitor == old(self).monitor,
    {
        if self.state.running {
            return;
        }
        self.state = BotState {
            running: true,
            paused: false,
            fish_count: 0,
            start_time_ms: Some(now),
            status: Activity::Starting,
            current_phase: FishingPhase::Idle,
            errors_count: 0,
            current_streak: 0,
            consecutive_errors: 0,
            pending: Pending::StartupDelay,
            wait_started_ms: now,
            cycle_started_ms: now,
            ..self.state
        };
        self.notices.push(Notice::Started);
    }

    /// Ends the session at `now` and merges it into the lifetime record.
    pub fn stop(&mut self, now: u64)
        requires
            old(self).wf(),
        ensures
            final(self).wf(),
            !final(self).state.running,
            final(self).state.current_phase == FishingPhase::Idle,
            final(self).state.status == Activity::Stopped,
            final(self).state.pending == Pending::Nothing,
            final(self).state.start_time_ms is None,
            final(self).state.fish_count == old(self).state.fish_count,
            final(self).state.errors_count == old(self).state.errors_count,
            final(self).config == old(self).config,
            final(self).monitor == old(self).monitor,
            match old(self).state.start_time_ms {
                Some(st) => {
                    let secs = elapsed(st, now) / 1000;
                    &&& final(self).lifetime_stats.total_runtime_seconds == sat_add(
                        old(self).lifetime_stats.total_runtime_seconds as int,
                        secs,
                    )
                    &&& final(self).lifetime_stats.sessions_completed == bump(
                        old(self).lifetime_stats.sessions_completed as int,
                        u64::MAX as int,
                    )
                    &&& final(self).lifetime_stats.best_session_fish == if old(self).state.fish_count > old(self).lifetime_stats.best_session_fish {
                        old(self).state.fish_count
                    } else {
                        old(self).lifetime_stats.best_session_fish
                    }
                    &&& final(self).lifetime_stats.total_fish_caught
                        == old(self).lifetime_stats.total_fish_caught
                    &&& final(self).notices@ == old(self).notices@.push(
                        Notice::SessionSummary {
                            fish: old(self).state.fish_count,
                            runtime_seconds: secs as u64,
                            best_streak: old(self).state.session_best_streak,
                        },
                    )
                },
                None => final(self).lifetime_stats == old(self).lifetime_stats && final(self).notices@ == old(self).notices@,
            },
    {
        let start = self.state.start_time_ms;
        self.state = BotState {
            running: false,
            current_phase: FishingPhase::Idle,
            status: Activity::Stopped,
            pending: Pending::Nothing,
            start_time_ms: None,
            ..self.state
        };
        match start {
            Some(st) => {
                let ms = if now >= st {
                    now - st
                } else {
                    0
                };
                let secs = ms / 1000;
                self.lifetime_stats.add_runtime(secs);
                self.lifetime_stats.complete_session(self.state.fish_count);
                self.notices.push(
                    Notice::SessionSummary {
                        fish: self.state.fish_count,
                        runtime_seconds: secs,
                        best_streak: self.state.session_best_streak,
                    },
                );
            },
            None => {},
        }
    }

    /// Toggles the pause flag.
    pub fn pause(&mut self)
        requires
            old(self).wf(),
        ensures
            final(self).wf(),
            final(self).state == (BotState {
                paused: !old(self).state.paused,
                status: if old(self).state.paused {
                    Activity::Resumed
                } else {
                    Activity::Paused
                },
                ..old(self).state
            }),
            final(self).notices@ == old(self).notices@.push(
                if old(self).state.paused {
                    Notice::Resumed
                } else {
                    Notice::Paused
                },
            ),
            final(self).config == old(self).config,
            final(self).lifetime_stats == old(self).lifetime_stats,
            final(self).monitor == old(self).monitor,
    {
        let was_paused = self.state.paused;
        self.state = BotState {
            paused: !was_paused,
            status: if was_paused {
                Activity::Resumed
            } else {
                Activity::Paused
            },
            ..self.state
        };
        self.notices.push(
            if was_paused {
                Notice::Resumed
            } else {
                Notice::Paused
            },
        );
    }

    /// The action the caller should perform next.
    pub fn current_action(&self) -> (a: Action)
        ensures
            a == action_for(self.state, self.config),
    {
        next_action(&self.state, &self.config)
    }

    /// Feeds the outcome `e` of the last action, observed at `now`, to the
    /// state machine and returns the next action.
    pub fn step(&mut self, e: Event, now: u64) -> (a: Action)
        requires
            old(self).wf(),
        ensures
            final(self).wf(),
            final(self).state == next_state(old(self).state, old(self).config, e, now),
            a == action_for(final(self).state, final(self).config),
            final(self).config == old(self).config,
            lifetime_advanced(
                old(self).lifetime_stats,
                final(self).lifetime_stats,
                catches(old(self).state, e),
                feeds_on_reading(old(self).state, e),
            ),
            match cycle_outcome(old(self).state, old(self).config, e, now) {
                Some(ok) => PerformanceMonitor::recorded(
                    old(self).monitor,
                    final(self).monitor,
                    elapsed(old(self).state.cycle_started_ms, now) as u64,
                    ok,
                    now,
                ),
                None => final(self).monitor == old(self).monitor,
            },
            final(self).notices@ == old(self).notices@ + notices_for(
                old(self).state,
                old(self).config,
                e,
                now,
            ),
    {
        let s = self.state;
        if !s.running {
            proof {
                assert(old(self).notices@ + seq![] =~= old(self).notices@);
            }
            return next_action(&self.state, &self.config);
        }
        if s.paused {
            self.state = BotState { pending: Pending::PauseIdle, status: Activity::Paused, ..s };
            proof {
                assert(old(self).notices@ + seq![] =~= old(self).notices@);
            }
            return next_action(&self.state, &self.config);
        }
        let n = advance_active(s, &self.config, e, now);
        let ghost notes = notices_for(s, self.config, e, now);
        let took = if now >= s.cycle_started_ms {
            now - s.cycle_started_ms
        } else {
            0
        };
        let failed = match s.pending {
            Pending::CastClick | Pending::ReelClick | Pending::RodReset | Pending::CatchRodReset
            | Pending::Feed => e != Event::Done,
            Pending::BiteCheck | Pending::CatchCheck | Pending::CatchConfirm => match e {
                Event::Detected(_) => false,
                _ => true,
            },
            Pending::HungerRead => match e {
                Event::Hunger(_) => false,
                _ => true,
            },
            _ => false,
        };
        assert(failed == call_failed(s.pending, e));
        if failed {
            self.monitor.record_operation(took, false, now);
            if n.consecutive_errors >= CRITICAL_ERRORS {
                self.notices.push(
                    Notice::CriticalError {
                        errors: n.errors_count,
                        consecutive: n.consecutive_errors,
                    },
                );
            } else {
                assert(old(self).notices@ + seq![] =~= old(self).notices@);
            }
        } else {
            match s.pending {
                Pending::BitePoll => {
                    let waited = if now >= s.wait_started_ms {
                        now - s.wait_started_ms
                    } else {
                        0
                    };
                    if waited > bite_timeout_for_lure(self.config.rod_lure_milli) {
                        self.monitor.record_operation(took, true, now);
                    }
                    assert(old(self).notices@ + seq![] =~= old(self).notices@);
                },
                Pending::ReelPoll => {
                    let waited = if now >= s.wait_started_ms {
                        now - s.wait_started_ms
                    } else {
                        0
                    };
                    if waited > self.config.max_fishing_timeout_ms {
                        self.monitor.record_operation(took, true, now);
                    }
                    assert(old(self).notices@ + seq![] =~= old(self).notices@);
                },
                Pending::CatchConfirm => {
                    if e == Event::Detected(true) {
                        self.monitor.record_operation(took, true, now);
                        self.lifetime_stats.add_fish(1);
                        if n.fish_count % MILESTONE_EVERY == 0 {
                            self.notices.push(Notice::Milestone { fish: n.fish_count });
                        } else {
                            assert(old(self).notices@ + seq![] =~= old(self).notices@);
                        }
                    } else {
                        assert(old(self).notices@ + seq![] =~= old(self).notices@);
                    }
                },
                Pending::HungerRead => {
                    let h = match e {
                        Event::Hunger(h) => h,
                        _ => None,
                    };
                    match h {
                        Some(v) => {
                            if v < HUNGER_FULL {
                                self.lifetime_stats.add_feed();
                                self.notices.push(Notice::Fed { hunger: v });
                            } else {
                                assert(old(self).notices@ + seq![] =~= old(self).notices@);
                            }
                        },
                        None => {
                            self.notices.push(Notice::FedBlind);
                        },
                    }
                },
                _ => {
                    assert(old(self).notices@ + seq![] =~= old(self).notices@);
                },
            }
        }
        self.state = n;
        next_action(&self.state, &self.config)
    }

    /// Hands over the notices raised so far and forgets them.
    pub fn take_notices(&mut self) -> (out: Vec<Notice>)
        ensures
            out@ == old(self).notices@,
            final(self).notices@.len() == 0,
            final(self).state == old(self).state,
            final(self).config == old(self).config,
            final(self).lifetime_stats == old(self).lifetime_stats,
            final(self).monitor == old(self).monitor,
    {
        let mut out = Vec::new();
        std::mem::swap(&mut out, &mut self.notices);
        out
    }

    pub fn get_state(&self) -> (s: BotState)
        ensures
            s == self.state,
    {
        self.state
    }

    pub fn get_lifetime_stats(&self) -> (s: LifetimeStats)
        ensures
            s.same_as(&self.lifetime_stats),
    {
        LifetimeStats {
            total_fish_caught: self.lifetime_stats.total_fish_caught,
            total_runtime_seconds: self.lifetime_stats.total_runtime_seconds,
            sessions_completed: self.lifetime_stats.sessions_completed,
            last_updated: self.lifetime_stats.last_updated.clone(),
            best_session_fish: self.lifetime_stats.best_session_fish,
            average_fish_per_hour: self.lifetime_stats.average_fish_per_hour,
            total_feeds: self.lifetime_stats.total_feeds,
            uptime_percentage: self.lifetime_stats.uptime_percentage,
        }
    }

    /// Success rate in percent, mean operation time in milliseconds, and failures so far.
    pub fn get_performance_stats(&self) -> (r: (u64, u64, u32))
        requires
            self.wf(),
        ensures
            r.0 == self.monitor.success_rate_spec(),
            r.1 == self.monitor.average_spec(),
            r.2 == self.monitor.error_count,
    {
        (
            self.monitor.get_success_rate(),
            self.monitor.get_average_operation_time(),
            self.monitor.error_count,
        )
    }

    /// Milliseconds since the latest click, if there was one.
    pub fn get_last_action_elapsed(&self, now: u64) -> (r: Option<u64>)
        ensures
            r == match self.state.last_action_ms {
                Some(t) => Some(elapsed(t, now) as u64),
                None => None::<u64>,
            },
    {
        match self.state.last_action_ms {
            Some(t) => Some(
                if now >= t {
                    now - t
                } else {
                    0
                },
            ),
            None => None,
        }
    }

    /// Replaces the settings; they take effect from the next step.
    pub fn update_config(&mut self, config: BotConfig)
        requires
            old(self).wf(),
        ensures
            final(self).wf(),
            final(self).config == config,
            final(self).state == old(self).state,
            final(self).lifetime_stats == old(self).lifetime_stats,
            final(self).monitor == old(self).monitor,
            final(self).notices == old(self).notices,
    {
        self.config = config;
    }
}

} // verus!

verus! {

/// After `start`, the bot waits `startup_delay_ms` and is casting as soon as
/// that wait ends: it then resets the rod, and once the reset is done it
/// clicks to throw the line.
pub proof fn lemma_start_reaches_casting(
    s: BotState,
    cfg: BotConfig,
    t0: u64,
    e1: Event,
    t1: u64,
    e2: Event,
    t2: u64,
)
    requires
        e2 == Event::Done,
    ensures
        action_for(started(s, t0), cfg) == (Action::Wait { ms: cfg.startup_delay_ms }),
        next_state(started(s, t0), cfg, e1, t1).current_phase == FishingPhase::Casting,
        action_for(next_state(started(s, t0), cfg, e1, t1), cfg) == Action::ResetRod,
        next_state(next_state(started(s, t0), cfg, e1, t1), cfg, e2, t2).current_phase
            == FishingPhase::Casting,
        action_for(next_state(next_state(started(s, t0), cfg, e1, t1), cfg, e2, t2), cfg)
            == Action::Click,
{
}

/// Waiting for a bite: once the lure-dependent timeout has elapsed the bot
/// recasts, starting a new cycle; before that it keeps watching.
pub proof fn lemma_bite_timeout_recasts(s: BotState, cfg: BotConfig, e: Event, now: u64)
    requires
        active(s),
        s.pending == Pending::BitePoll,
    ensures
        elapsed(s.wait_started_ms, now) > bite_timeout_ms(cfg.rod_lure_milli as int) ==> {
            let n = next_state(s, cfg, e, now);
            &&& n.current_phase == FishingPhase::Casting
            &&& n.pending == Pending::CastClick
            &&& n.cycle_started_ms == now
            &&& cycle_outcome(s, cfg, e, now) == Some(true)
        },
        elapsed(s.wait_started_ms, now) <= bite_timeout_ms(cfg.rod_lure_milli as int) ==> {
            let n = next_state(s, cfg, e, now);
            &&& n.current_phase == s.current_phase
            &&& n.pending == Pending::BiteCheck
            &&& n.wait_started_ms == s.wait_started_ms
        },
{
}

/// Every wait for a bite starts its clock when the cast has settled.
pub proof fn lemma_bite_wait_starts_fresh(s: BotState, cfg: BotConfig, e: Event, now: u64)
    requires
        active(s),
        s.pending == Pending::CastSettle,
    ensures
        next_state(s, cfg, e, now).current_phase == FishingPhase::WaitingForBite,
        next_state(s, cfg, e, now).wait_started_ms == now,
{
}

/// A failure that brings the run of consecutive failures to five ends the
/// session: the bot stops running and returns to `Idle`.
pub proof fn lemma_error_ceiling(s: BotState, cfg: BotConfig, e: Event, now: u64)
    requires
        active(s),
        call_failed(s.pending, e),
        s.consecutive_errors < MAX_CONSECUTIVE_ERRORS,
        s.consecutive_errors + 1 >= MAX_CONSECUTIVE_ERRORS,
    ensures
        !next_state(s, cfg, e, now).running,
        next_state(s, cfg, e, now).current_phase == FishingPhase::Idle,
        action_for(next_state(s, cfg, e, now), cfg) == Action::Halt,
{
}

/// `k` rounds of a failed cast followed by the backoff wait.
pub open spec fn failed_rounds(s: BotState, cfg: BotConfig, k: nat, now: u64) -> BotState
    decreases k,
{
    if k == 0 {
        s
    } else {
        let p = failed_rounds(s, cfg, (k - 1) as nat, now);
        next_state(next_state(p, cfg, Event::Failed, now), cfg, Event::Done, now)
    }
}

proof fn lemma_failed_rounds_count(s: BotState, cfg: BotConfig, k: nat, now: u64)
    requires
        active(s),
        s.pending == Pending::CastClick,
        s.consecutive_errors + k < MAX_CONSECUTIVE_ERRORS,
    ensures
        active(failed_rounds(s, cfg, k, now)),
        failed_rounds(s, cfg, k, now).pending == Pending::CastClick,
        failed_rounds(s, cfg, k, now).consecutive_errors == s.consecutive_errors + k,
    decreases k,
{
    if k > 0 {
        lemma_failed_rounds_count(s, cfg, (k - 1) as nat, now);
    }
}

/// From a cast with no failure behind it, five failed casts in a row (each
/// followed by its backoff) stop the session with `running == false` and the
/// phase back at `Idle`.
pub proof fn lemma_five_failures_stop(s: BotState, cfg: BotConfig, now: u64)
    requires
        active(s),
        s.pending == Pending::CastClick,
        s.consecutive_errors == 0,
    ensures
        ({
            let last = next_state(failed_rounds(s, cfg, 4, now), cfg, Event::Failed, now);
            &&& !last.running
            &&& last.current_phase == FishingPhase::Idle
        }),
{
    lemma_failed_rounds_count(s, cfg, 4, now);
}

/// After the rod is reset following a catch, the bot goes to `Feeding`
/// exactly when the session's catch count is a multiple of `fish_per_feed`.
pub proof fn lemma_feed_cadence(s: BotState, cfg: BotConfig, e: Event, now: u64)
    requires
        active(s),
        s.pending == Pending::CatchRodReset,
        cfg.fish_per_feed > 0,
        e == Event::Done,
    ensures
        next_state(s, cfg, e, now).current_phase == FishingPhase::Feeding <==> s.fish_count
            % (cfg.fish_per_feed as u64) == 0,
{
}

/// `Feeding` is entered from no other point of the cycle.
pub proof fn lemma_feeding_only_after_catch(s: BotState, cfg: BotConfig, e: Event, now: u64)
    requires
        s.current_phase != FishingPhase::Feeding,
        s.pending != Pending::CatchRodReset,
    ensures
        next_state(s, cfg, e, now).current_phase != FishingPhase::Feeding,
{
}

/// A confirmed catch adds one fish; the feed that follows it is due exactly
/// when the new count is a multiple of `fish_per_feed`.
pub proof fn lemma_catch_then_feed(s: BotState, cfg: BotConfig, t1: u64, e2: Event, t2: u64)
    requires
        active(s),
        s.pending == Pending::CatchConfirm,
        s.fish_count < u64::MAX,
        cfg.fish_per_feed > 0,
        e2 == Event::Done,
    ensures
        next_state(s, cfg, Event::Detected(true), t1).fish_count == s.fish_count + 1,
        next_state(next_state(s, cfg, Event::Detected(true), t1), cfg, e2, t2).current_phase
            == FishingPhase::Feeding <==> (s.fish_count + 1) % (cfg.fish_per_feed as int) == 0,
{
}

} // verus!
