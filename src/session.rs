use vstd::prelude::*;
use vstd::string::*;
use crate::bot::AdvancedFishingBot;
use crate::phase::{Activity, elapsed};

verus! {

/// Snapshot of a session published to observers.
#[derive(Clone, Debug)]
pub struct SessionState {
    pub running: bool,
    pub last_action: String,
    pub fish_caught: u64,
    pub hunger_level: u8,
    pub errors_count: u32,
    pub uptime_minutes: u64,
}

impl Default for SessionState {
    fn default() -> (s: SessionState)
        ensures
            !s.running,
            s.last_action@ == "Idle"@,
            s.fish_caught == 0,
            s.hunger_level == 100,
            s.errors_count == 0,
            s.uptime_minutes == 0,
    {
        SessionState {
            running: false,
            last_action: String::from_str("Idle"),
            fish_caught: 0,
            hunger_level: 100,
            errors_count: 0,
            uptime_minutes: 0,
        }
    }
}

/// Human-readable description of an activity.
pub open spec fn activity_label(a: Activity) -> Seq<char> {
    match a {
        Activity::Ready => "Ready to start fishing"@,
        Activity::Starting => "Starting fishing bot..."@,
        Activity::PreparingRod => "Preparing fishing rod..."@,
        Activity::Casting => "Casting fishing line..."@,
        Activity::WaitingForBite => "Waiting for fish bite..."@,
        Activity::NoBite => "No bite detected - recasting..."@,
        Activity::Reeling => "Fish bite detected! Reeling in..."@,
        Activity::Escaped => "Reeling timeout - fish escaped."@,
        Activity::Landed => "Fish caught!"@,
        Activity::CheckingHunger => "Checking hunger level..."@,
        Activity::HungerOk => "Hunger is fine - no feeding needed"@,
        Activity::Feeding => "Feeding character..."@,
        Activity::FeedingBlind => "Could not read hunger - feeding to be safe..."@,
        Activity::Failure => "Operation failed - backing off"@,
        Activity::TooManyErrors => "Too many consecutive errors - stopping for safety"@,
        Activity::Paused => "Bot paused"@,
        Activity::Resumed => "Bot resumed"@,
        Activity::Stopped => "Stopped"@,
    }
}

/// Describes an activity for observers.
pub fn describe_activity(a: Activity) -> (s: String)
    ensures
        s@ == activity_label(a),
{
    match a {
        Activity::Ready => String::from_str("Ready to start fishing"),
        Activity::Starting => String::from_str("Starting fishing bot..."),
        Activity::PreparingRod => String::from_str("Preparing fishing rod..."),
        Activity::Casting => String::from_str("Casting fishing line..."),
        Activity::WaitingForBite => String::from_str("Waiting for fish bite..."),
        Activity::NoBite => String::from_str("No bite detected - recasting..."),
        Activity::Reeling => String::from_str("Fish bite detected! Reeling in..."),
        Activity::Escaped => String::from_str("Reeling timeout - fish escaped."),
        Activity::Landed => String::from_str("Fish caught!"),
        Activity::CheckingHunger => String::from_str("Checking hunger level..."),
        Activity::HungerOk => String::from_str("Hunger is fine - no feeding needed"),
        Activity::Feeding => String::from_str("Feeding character..."),
        Activity::FeedingBlind => String::from_str(
            "Could not read hunger - feeding to be safe...",
        ),
        Activity::Failure => String::from_str("Operation failed - backing off"),
        Activity::TooManyErrors => String::from_str(
            "Too many consecutive errors - stopping for safety",
        ),
        Activity::Paused => String::from_str("Bot paused"),
        Activity::Resumed => String::from_str("Bot resumed"),
        Activity::Stopped => String::from_str("Stopped"),
    }
}

impl AdvancedFishingBot {
    /// The observer snapshot at `now`: hunger shows 100 until a reading was
    /// taken and is capped at 100; uptime counts whole minutes of the session.
    pub fn session_state(&self, now: u64) -> (s: SessionState)
        ensures
            s.running == self.state.running,
            s.last_action@ == activity_label(self.state.status),
            s.fish_caught == self.state.fish_count,
            s.hunger_level == match self.state.last_hunger {
                Some(h) => if h > 100 {
                    100
                } else {
                    h as int
                },
                None => 100,
            },
            s.errors_count == self.state.errors_count,
            s.uptime_minutes == match self.state.start_time_ms {
                Some(st) => elapsed(st, now) / 60000,
                None => 0,
            },
    {
        let hunger: u8 = match self.state.last_hunger {
            Some(h) => if h > 100 {
                100
            } else {
                h as u8
            },
            None => 100,
        };
        let minutes: u64 = match self.state.start_time_ms {
            Some(st) => if now >= st {
                (now - st) / 60000
            } else {
                0
            },
            None => 0,
        };
        SessionState {
            running: self.state.running,
            last_action: describe_activity(self.state.status),
            fish_caught: self.state.fish_count,
            hunger_level: hunger,
            errors_count: self.state.errors_count,
            uptime_minutes: minutes,
        }
    }
}

} // verus!
