use vstd::prelude::*;
use crate::color::{Color, bite_color, caught_color};
use crate::config::{BotConfig, Region, bite_timeout_ms, bite_timeout_for_lure};
use crate::perf::bump;

verus! {

/// The step of the fishing cycle the bot is in.
#[derive(Clone, Copy, Debug, PartialEq, Eq, Structural)]
pub enum FishingPhase {
    Idle,
    Casting,
    WaitingForBite,
    Reeling,
    Caught,
    Feeding,
    Error,
}

/// What the bot last reported doing, for observers.
#[derive(Clone, Copy, Debug, PartialEq, Eq, Structural)]
pub enum Activity {
    Ready,
    Starting,
    PreparingRod,
    Casting,
    WaitingForBite,
    NoBite,
    Reeling,
    Escaped,
    Landed,
    CheckingHunger,
    HungerOk,
    Feeding,
    FeedingBlind,
    Failure,
    TooManyErrors,
    Paused,
    Resumed,
    Stopped,
}

/// The outside call the bot is waiting on.
#[derive(Clone, Copy, Debug, PartialEq, Eq, Structural)]
pub enum Pending {
    Nothing,
    StartupDelay,
    RodReset,
    CastClick,
    CastSettle,
    BiteCheck,
    BitePoll,
    ReelClick,
    CatchCheck,
    ConfirmDelay,
    CatchConfirm,
    ReelPoll,
    CatchRodReset,
    HungerRead,
    Feed,
    ErrorBackoff,
    PauseIdle,
}

/// Work the caller performs for the bot before reporting back.
#[derive(Clone, Copy, Debug, PartialEq, Eq, Structural)]
pub enum Action {
    /// Sleep for the given number of milliseconds.
    Wait { ms: u64 },
    /// Press the rod key twice, to put the rod back in hand.
    ResetRod,
    /// One left click.
    Click,
    /// Capture `region` and report whether `target` is present.
    Detect { region: Region, target: Color },
    /// Capture `region` and report the hunger reading, if one can be read.
    ReadHunger { region: Region },
    /// Run the eating sequence.
    EatFood,
    /// The session is over; the worker stops.
    Halt,
}

/// What the caller reports after performing an action.
#[derive(Clone, Copy, Debug, PartialEq, Eq, Structural)]
pub enum Event {
    /// The action completed.
    Done,
    /// A detection completed with this outcome.
    Detected(bool),
    /// A hunger read completed; `None` when nothing could be read.
    Hunger(Option<u32>),
    /// The capture or input call failed.
    Failed,
}

/// Delay after a cast before watching for a bite.
pub const CAST_SETTLE_MS: u64 = 100;

/// Poll period while paused.
pub const PAUSE_POLL_MS: u64 = 500;

/// Consecutive failures that end the session.
pub const MAX_CONSECUTIVE_ERRORS: u32 = 5;

/// Consecutive failures from which each failure is also announced.
pub const CRITICAL_ERRORS: u32 = 3;

/// Backoff step per consecutive failure.
pub const BACKOFF_STEP_MS: u64 = 1000;

/// Longest backoff after a failure.
pub const MAX_BACKOFF_MS: u64 = 5000;

/// Hunger readings below this value call for food.
pub const HUNGER_FULL: u32 = 100;

/// Observable state of a session.
#[derive(Clone, Copy, Debug, PartialEq, Eq, Structural)]
pub struct BotState {
    pub running: bool,
    pub paused: bool,
    pub fish_count: u64,
    pub last_hunger: Option<u32>,
    /// Monotonic time, in milliseconds, at which the session started.
    pub start_time_ms: Option<u64>,
    pub status: Activity,
    pub current_phase: FishingPhase,
    pub errors_count: u32,
    /// Share of the session not lost to failures, in whole percent.
    pub uptime_percentage: u64,
    /// Fish per hour of session time, rounded down.
    pub fish_per_hour: u64,
    pub session_best_streak: u32,
    pub current_streak: u32,
    pub consecutive_errors: u32,
    pub pending: Pending,
    /// Start of the current bite or reel wait.
    pub wait_started_ms: u64,
    /// Start of the current cast cycle.
    pub cycle_started_ms: u64,
    /// Time of the latest click.
    pub last_action_ms: Option<u64>,
}

/// Milliseconds from `since` to `now`, 0 if the clock reads earlier.
pub open spec fn elapsed(since: u64, now: u64) -> int {
    if now >= since {
        now - since
    } else {
        0
    }
}

/// Backoff after `consecutive` failures in a row: one second each, at most five.
pub open spec fn backoff_ms(consecutive: u32) -> int {
    if consecutive * BACKOFF_STEP_MS > MAX_BACKOFF_MS {
        MAX_BACKOFF_MS as int
    } else {
        consecutive * BACKOFF_STEP_MS
    }
}

/// A feed is due after the `fish`-th catch.
pub open spec fn feed_due(fish: u64, fish_per_feed: u32) -> bool {
    fish_per_feed > 0 && fish % (fish_per_feed as u64) == 0
}

/// The action that answers the pending call of `s`.
pub open spec fn action_for(s: BotState, cfg: BotConfig) -> Action {
    if !s.running {
        Action::Halt
    } else {
        match s.pending {
            Pending::Nothing => Action::Halt,
            Pending::StartupDelay => Action::Wait { ms: cfg.startup_delay_ms },
            Pending::RodReset => Action::ResetRod,
            Pending::CastClick => Action::Click,
            Pending::CastSettle => Action::Wait { ms: CAST_SETTLE_MS },
            Pending::BiteCheck => Action::Detect { region: cfg.red_region, target: bite_color() },
            Pending::BitePoll => Action::Wait { ms: cfg.detection_interval_ms },
            Pending::ReelClick => Action::Click,
            Pending::CatchCheck => Action::Detect {
                region: cfg.yellow_region,
                target: caught_color(),
            },
            Pending::ConfirmDelay => Action::Wait { ms: cfg.detection_interval_ms },
            Pending::CatchConfirm => Action::Detect {
                region: cfg.yellow_region,
                target: caught_color(),
            },
            Pending::ReelPoll => Action::Wait { ms: cfg.autoclick_interval_ms },
            Pending::CatchRodReset => Action::ResetRod,
            Pending::HungerRead => Action::ReadHunger { region: cfg.hunger_region },
            Pending::Feed => Action::EatFood,
            Pending::ErrorBackoff => Action::Wait { ms: backoff_ms(s.consecutive_errors) as u64 },
            Pending::PauseIdle => Action::Wait { ms: PAUSE_POLL_MS },
        }
    }
}

/// Rates of the session as seen at time `now`.
pub open spec fn with_rates(s: BotState, now: u64) -> BotState {
    match s.start_time_ms {
        Some(st) => {
            let e = elapsed(st, now);
            if e > 0 {
                let per_hour = (s.fish_count * 3600000) / e;
                let lost = s.errors_count * 2000;
                BotState {
                    fish_per_hour: if per_hour > u64::MAX {
                        u64::MAX
                    } else {
                        per_hour as u64
                    },
                    uptime_percentage: if lost >= e {
                        0
                    } else {
                        (((e - lost) * 100) / e) as u64
                    },
                    ..s
                }
            } else {
                s
            }
        },
        None => s,
    }
}

/// A new cast cycle begins at `now`.
pub open spec fn cast(s: BotState, now: u64, status: Activity) -> BotState {
    BotState {
        current_phase: FishingPhase::Casting,
        status,
        pending: Pending::CastClick,
        cycle_started_ms: now,
        ..s
    }
}

/// The cycle ended without a failure.
pub open spec fn cycle_done(s: BotState, now: u64) -> BotState {
    with_rates(BotState { consecutive_errors: 0, ..s }, now)
}

/// A capture or input call failed.
pub open spec fn failure(s: BotState, now: u64) -> BotState {
    let c = (s.consecutive_errors + 1) as u32;
    let base = with_rates(
        BotState {
            consecutive_errors: c,
            errors_count: bump(s.errors_count as int, u32::MAX as int) as u32,
            current_streak: 0,
            ..s
        },
        now,
    );
    if c >= MAX_CONSECUTIVE_ERRORS {
        BotState {
            running: false,
            current_phase: FishingPhase::Idle,
            status: Activity::TooManyErrors,
            pending: Pending::Nothing,
            ..base
        }
    } else {
        BotState {
            current_phase: FishingPhase::Error,
            status: Activity::Failure,
            pending: Pending::ErrorBackoff,
            ..base
        }
    }
}

/// A catch was confirmed.
pub open spec fn landed(s: BotState, now: u64) -> BotState {
    let streak = bump(s.current_streak as int, u32::MAX as int) as u32;
    cycle_done(
        BotState {
            fish_count: bump(s.fish_count as int, u64::MAX as int) as u64,
            current_streak: streak,
            session_best_streak: if streak > s.session_best_streak {
                streak
            } else {
                s.session_best_streak
            },
            current_phase: FishingPhase::Caught,
            status: Activity::Landed,
            pending: Pending::CatchRodReset,
            ..s
        },
        now,
    )
}

/// The hunger reading an event carries; anything but a reading counts as unreadable.
pub open spec fn reading_of(e: Event) -> Option<u32> {
    match e {
        Event::Hunger(h) => h,
        _ => None,
    }
}

/// One transition of a running, unpaused session.
pub open spec fn next_active(s: BotState, cfg: BotConfig, e: Event, now: u64) -> BotState {
    match s.pending {
        Pending::Nothing => s,
        Pending::StartupDelay => BotState {
            current_phase: FishingPhase::Casting,
            pending: Pending::RodReset,
            status: Activity::PreparingRod,
            ..s
        },
        Pending::RodReset => if e == Event::Done {
            cast(s, now, Activity::Casting)
        } else {
            failure(s, now)
        },
        Pending::CastClick => if e == Event::Done {
            BotState { pending: Pending::CastSettle, last_action_ms: Some(now), ..s }
        } else {
            failure(s, now)
        },
        Pending::CastSettle => BotState {
            current_phase: FishingPhase::WaitingForBite,
            status: Activity::WaitingForBite,
            pending: Pending::BiteCheck,
            wait_started_ms: now,
            ..s
        },
        Pending::BiteCheck => match e {
            Event::Detected(true) => BotState {
                current_phase: FishingPhase::Reeling,
                status: Activity::Reeling,
                pending: Pending::ReelClick,
                wait_started_ms: now,
                ..s
            },
            Event::Detected(false) => BotState { pending: Pending::BitePoll, ..s },
            _ => failure(s, now),
        },
        Pending::BitePoll => if elapsed(s.wait_started_ms, now) > bite_timeout_ms(
            cfg.rod_lure_milli as int,
        ) {
            cast(cycle_done(s, now), now, Activity::NoBite)
        } else {
            BotState { pending: Pending::BiteCheck, ..s }
        },
        Pending::ReelClick => if e == Event::Done {
            BotState { pending: Pending::CatchCheck, last_action_ms: Some(now), ..s }
        } else {
            failure(s, now)
        },
        Pending::CatchCheck => match e {
            Event::Detected(true) => BotState { pending: Pending::ConfirmDelay, ..s },
            Event::Detected(false) => BotState { pending: Pending::ReelPoll, ..s },
            _ => failure(s, now),
        },
        Pending::ConfirmDelay => BotState { pending: Pending::CatchConfirm, ..s },
        Pending::CatchConfirm => match e {
            Event::Detected(true) => landed(s, now),
            Event::Detected(false) => BotState { pending: Pending::ReelPoll, ..s },
            _ => failure(s, now),
        },
        Pending::ReelPoll => if elapsed(s.wait_started_ms, now) > cfg.max_fishing_timeout_ms {
            cast(cycle_done(s, now), now, Activity::Escaped)
        } else {
            BotState { pending: Pending::ReelClick, ..s }
        },
        Pending::CatchRodReset => if e != Event::Done {
            failure(s, now)
        } else if feed_due(s.fish_count, cfg.fish_per_feed) {
            BotState {
                current_phase: FishingPhase::Feeding,
                status: Activity::CheckingHunger,
                pending: Pending::HungerRead,
                ..s
            }
        } else {
            cast(s, now, Activity::Casting)
        },
        Pending::HungerRead => if !(e is Hunger) {
            failure(s, now)
        } else {
            let h = reading_of(e);
            match h {
                Some(v) => if v >= HUNGER_FULL {
                    cast(BotState { last_hunger: h, ..s }, now, Activity::HungerOk)
                } else {
                    BotState { last_hunger: h, status: Activity::Feeding, pending: Pending::Feed, ..s }
                },
                None => BotState {
                    last_hunger: h,
                    status: Activity::FeedingBlind,
                    pending: Pending::Feed,
                    ..s
                },
            }
        },
        Pending::Feed => if e == Event::Done {
            cast(s, now, Activity::Casting)
        } else {
            failure(s, now)
        },
        Pending::ErrorBackoff => cast(s, now, Activity::Casting),
        Pending::PauseIdle => cast(s, now, Activity::Casting),
    }
}

/// One transition of the session on event `e` reported at time `now`.
pub open spec fn next_state(s: BotState, cfg: BotConfig, e: Event, now: u64) -> BotState {
    if !s.running {
        s
    } else if s.paused {
        BotState { pending: Pending::PauseIdle, status: Activity::Paused, ..s }
    } else {
        next_active(s, cfg, e, now)
    }
}

fn elapsed_ms(since: u64, now: u64) -> (r: u64)
    ensures
        r == elapsed(since, now),
{
    if now >= since {
        now - since
    } else {
        0
    }
}

fn rates_at(s: BotState, now: u64) -> (r: BotState)
    ensures
        r == with_rates(s, now),
{
    match s.start_time_ms {
        Some(st) => {
            let e = elapsed_ms(st, now);
            if e > 0 {
                let per_hour: u128 = (s.fish_count as u128 * 3600000) / (e as u128);
                let lost: u64 = s.errors_count as u64 * 2000;
                let uptime: u64 = if lost >= e {
                    0
                } else {
                    let kept = (e - lost) as u128;
                    let pct = (kept * 100) / (e as u128);
                    assert(pct <= 100) by (nonlinear_arith)
                        requires
                            pct == (kept * 100) / (e as int),
                            kept <= e,
                            e > 0,
                    ;
                    pct as u64
                };
                BotState {
                    fish_per_hour: if per_hour > u64::MAX as u128 {
                        u64::MAX
                    } else {
                        per_hour as u64
                    },
                    uptime_percentage: uptime,
                    ..s
                }
            } else {
                s
            }
        },
        None => s,
    }
}

fn exec_cast(s: BotState, now: u64, status: Activity) -> (r: BotState)
    ensures
        r == cast(s, now, status),
{
    BotState {
        current_phase: FishingPhase::Casting,
        status,
        pending: Pending::CastClick,
        cycle_started_ms: now,
        ..s
    }
}

fn exec_cycle_done(s: BotState, now: u64) -> (r: BotState)
    ensures
        r == cycle_done(s, now),
{
    rates_at(BotState { consecutive_errors: 0, ..s }, now)
}

fn exec_failure(s: BotState, now: u64) -> (r: BotState)
    requires
        s.consecutive_errors < MAX_CONSECUTIVE_ERRORS,
    ensures
        r == failure(s, now),
{
    let c = s.consecutive_errors + 1;
    let base = rates_at(
        BotState {
            consecutive_errors: c,
            errors_count: s.errors_count.saturating_add(1),
            current_streak: 0,
            ..s
        },
        now,
    );
    if c >= MAX_CONSECUTIVE_ERRORS {
        BotState {
            running: false,
            current_phase: FishingPhase::Idle,
            status: Activity::TooManyErrors,
            pending: Pending::Nothing,
            ..base
        }
    } else {
        BotState {
            current_phase: FishingPhase::Error,
            status: Activity::Failure,
            pending: Pending::ErrorBackoff,
            ..base
        }
    }
}

fn exec_landed(s: BotState, now: u64) -> (r: BotState)
    ensures
        r == landed(s, now),
{
    let streak = s.current_streak.saturating_add(1);
    exec_cycle_done(
        BotState {
            fish_count: s.fish_count.saturating_add(1),
            current_streak: streak,
            session_best_streak: if streak > s.session_best_streak {
                streak
            } else {
                s.session_best_streak
            },
            current_phase: FishingPhase::Caught,
            status: Activity::Landed,
            pending: Pending::CatchRodReset,
            ..s
        },
        now,
    )
}

/// Whether a feed is due after the `fish`-th catch.
pub fn is_feed_due(fish: u64, fish_per_feed: u32) -> (r: bool)
    ensures
        r == feed_due(fish, fish_per_feed),
{
    fish_per_feed > 0 && fish % (fish_per_feed as u64) == 0
}

/// The transition of a running, unpaused session.
pub fn advance_active(s: BotState, cfg: &BotConfig, e: Event, now: u64) -> (r: BotState)
    requires
        s.consecutive_errors < MAX_CONSECUTIVE_ERRORS,
    ensures
        r == next_active(s, *cfg, e, now),
{
    match s.pending {
        Pending::Nothing => s,
        Pending::StartupDelay => BotState {
            current_phase: FishingPhase::Casting,
            pending: Pending::RodReset,
            status: Activity::PreparingRod,
            ..s
        },
        Pending::RodReset => if e == Event::Done {
            exec_cast(s, now, Activity::Casting)
        } else {
            exec_failure(s, now)
        },
        Pending::CastClick => if e == Event::Done {
            BotState { pending: Pending::CastSettle, last_action_ms: Some(now), ..s }
        } else {
            exec_failure(s, now)
        },
        Pending::CastSettle => BotState {
            current_phase: FishingPhase::WaitingForBite,
            status: Activity::WaitingForBite,
            pending: Pending::BiteCheck,
            wait_started_ms: now,
            ..s
        },
        Pending::BiteCheck => match e {
            Event::Detected(true) => BotState {
                current_phase: FishingPhase::Reeling,
                status: Activity::Reeling,
                pending: Pending::ReelClick,
                wait_started_ms: now,
                ..s
            },
            Event::Detected(false) => BotState { pending: Pending::BitePoll, ..s },
            _ => exec_failure(s, now),
        },
        Pending::BitePoll => {
            let timeout = bite_timeout_for_lure(cfg.rod_lure_milli);
            if elapsed_ms(s.wait_started_ms, now) > timeout {
                exec_cast(exec_cycle_done(s, now), now, Activity::NoBite)
            } else {
                BotState { pending: Pending::BiteCheck, ..s }
            }
        },
        Pending::ReelClick => if e == Event::Done {
            BotState { pending: Pending::CatchCheck, last_action_ms: Some(now), ..s }
        } else {
            exec_failure(s, now)
        },
        Pending::CatchCheck => match e {
            Event::Detected(true) => BotState { pending: Pending::ConfirmDelay, ..s },
            Event::Detected(false) => BotState { pending: Pending::ReelPoll, ..s },
            _ => exec_failure(s, now),
        },
        Pending::ConfirmDelay => BotState { pending: Pending::CatchConfirm, ..s },
        Pending::CatchConfirm => match e {
            Event::Detected(true) => exec_landed(s, now),
            Event::Detected(false) => BotState { pending: Pending::ReelPoll, ..s },
            _ => exec_failure(s, now),
        },
        Pending::ReelPoll => if elapsed_ms(s.wait_started_ms, now) > cfg.max_fishing_timeout_ms {
            exec_cast(exec_cycle_done(s, now), now, Activity::Escaped)
        } else {
            BotState { pending: Pending::ReelClick, ..s }
        },
        Pending::CatchRodReset => if e != Event::Done {
            exec_failure(s, now)
        } else if is_feed_due(s.fish_count, cfg.fish_per_feed) {
            BotState {
                current_phase: FishingPhase::Feeding,
                status: Activity::CheckingHunger,
                pending: Pending::HungerRead,
                ..s
            }
        } else {
            exec_cast(s, now, Activity::Casting)
        },
        Pending::HungerRead => {
            let h = match e {
                Event::Hunger(h) => h,
                _ => {
                    return exec_failure(s, now);
                },
            };
            match h {
                Some(v) => if v >= HUNGER_FULL {
                    exec_cast(BotState { last_hunger: h, ..s }, now, Activity::HungerOk)
                } else {
                    BotState { last_hunger: h, status: Activity::Feeding, pending: Pending::Feed, ..s }
                },
                None => BotState {
                    last_hunger: h,
                    status: Activity::FeedingBlind,
                    pending: Pending::Feed,
                    ..s
                },
            }
        },
        Pending::Feed => if e == Event::Done {
            exec_cast(s, now, Activity::Casting)
        } else {
            exec_failure(s, now)
        },
        Pending::ErrorBackoff => exec_cast(s, now, Activity::Casting),
        Pending::PauseIdle => exec_cast(s, now, Activity::Casting),
    }
}

/// The action that answers the pending call of `s`.
pub fn next_action(s: &BotState, cfg: &BotConfig) -> (a: Action)
    ensures
        a == action_for(*s, *cfg),
{
    if !s.running {
        return Action::Halt;
    }
    match s.pending {
        Pending::Nothing => Action::Halt,
        Pending::StartupDelay => Action::Wait { ms: cfg.startup_delay_ms },
        Pending::RodReset => Action::ResetRod,
        Pending::CastClick => Action::Click,
        Pending::CastSettle => Action::Wait { ms: CAST_SETTLE_MS },
        Pending::BiteCheck => Action::Detect {
            region: cfg.red_region,
            target: Color::red_exclamation(),
        },
        Pending::BitePoll => Action::Wait { ms: cfg.detection_interval_ms },
        Pending::ReelClick => Action::Click,
        Pending::CatchCheck => Action::Detect {
            region: cfg.yellow_region,
            target: Color::yellow_caught(),
        },
        Pending::ConfirmDelay => Action::Wait { ms: cfg.detection_interval_ms },
        Pending::CatchConfirm => Action::Detect {
            region: cfg.yellow_region,
            target: Color::yellow_caught(),
        },
        Pending::ReelPoll => Action::Wait { ms: cfg.autoclick_interval_ms },
        Pending::CatchRodReset => Action::ResetRod,
        Pending::HungerRead => Action::ReadHunger { region: cfg.hunger_region },
        Pending::Feed => Action::EatFood,
        Pending::ErrorBackoff => {
            let c = s.consecutive_errors as u64;
            let ms = if c > MAX_BACKOFF_MS / BACKOFF_STEP_MS {
                MAX_BACKOFF_MS
            } else {
                c * BACKOFF_STEP_MS
            };
            Action::Wait { ms }
        },
        Pending::PauseIdle => Action::Wait { ms: PAUSE_POLL_MS },
    }
}

} // verus!
