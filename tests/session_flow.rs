use fishing_bot::bot::{AdvancedFishingBot, Notice};
use fishing_bot::color::Color;
use fishing_bot::config::BotConfig;
use fishing_bot::phase::{Action, Activity, Event, FishingPhase};
use fishing_bot::session::SessionState;
use fishing_bot::stats::LifetimeStats;

fn bot() -> AdvancedFishingBot {
    AdvancedFishingBot::new(BotConfig::default(), LifetimeStats::default())
}

/// Runs a bot from start until it casts for the first time.
fn started_and_casting(now: u64) -> AdvancedFishingBot {
    let mut b = bot();
    b.start(now);
    assert_eq!(b.current_action(), Action::Wait { ms: 3000 });
    assert_eq!(b.state.current_phase, FishingPhase::Idle);
    assert_eq!(b.step(Event::Done, now + 3000), Action::ResetRod);
    assert_eq!(b.state.current_phase, FishingPhase::Casting);
    assert_eq!(b.step(Event::Done, now + 3600), Action::Click);
    b
}

/// Drives one cycle from a cast to a confirmed catch.
fn catch_one(b: &mut AdvancedFishingBot, t: u64) -> Action {
    assert_eq!(b.step(Event::Done, t), Action::Wait { ms: 100 });
    let cfg = b.config.clone();
    assert_eq!(
        b.step(Event::Done, t + 100),
        Action::Detect { region: cfg.red_region, target: Color::red_exclamation() }
    );
    assert_eq!(b.step(Event::Detected(true), t + 150), Action::Click);
    assert_eq!(
        b.step(Event::Done, t + 160),
        Action::Detect { region: cfg.yellow_region, target: Color::yellow_caught() }
    );
    assert_eq!(b.step(Event::Detected(true), t + 170), Action::Wait { ms: 50 });
    b.step(Event::Done, t + 220);
    assert_eq!(b.step(Event::Detected(true), t + 230), Action::ResetRod);
    assert_eq!(b.state.current_phase, FishingPhase::Caught);
    b.step(Event::Done, t + 1000)
}

#[test]
fn start_reaches_casting_after_startup_delay() {
    let b = started_and_casting(0);
    assert!(b.state.running);
    assert_eq!(b.state.current_phase, FishingPhase::Casting);
    assert_eq!(b.notices, vec![Notice::Started]);
}

#[test]
fn start_while_running_is_a_no_op() {
    let mut b = started_and_casting(0);
    let before = b.state;
    b.start(99_999);
    assert_eq!(b.state, before);
    assert_eq!(b.notices.len(), 1);
}

#[test]
fn bite_timeout_recasts_once() {
    let mut b = started_and_casting(0);
    b.step(Event::Done, 4000);
    b.step(Event::Done, 4100);
    assert_eq!(b.state.current_phase, FishingPhase::WaitingForBite);
    // Default lure 1.0 gives a 65 s timeout.
    assert_eq!(b.step(Event::Detected(false), 5000), Action::Wait { ms: 50 });
    b.step(Event::Done, 4100 + 65_000);
    assert_eq!(b.state.current_phase, FishingPhase::WaitingForBite);
    b.step(Event::Detected(false), 4100 + 65_001);
    assert_eq!(b.step(Event::Done, 4100 + 65_001), Action::Click);
    assert_eq!(b.state.current_phase, FishingPhase::Casting);
    assert_eq!(b.state.status, Activity::NoBite);
    assert_eq!(b.monitor.total_operations, 1);
    assert_eq!(b.monitor.successful_operations, 1);
    // The next wait starts a fresh timeout.
    b.step(Event::Done, 70_000);
    b.step(Event::Done, 70_100);
    b.step(Event::Detected(false), 70_200);
    b.step(Event::Done, 70_300);
    assert_eq!(b.state.current_phase, FishingPhase::WaitingForBite);
}

#[test]
fn five_consecutive_errors_stop_the_session() {
    let mut b = started_and_casting(0);
    for k in 1..=4u32 {
        let a = b.step(Event::Failed, 10_000 * k as u64);
        assert_eq!(b.state.current_phase, FishingPhase::Error);
        assert_eq!(a, Action::Wait { ms: 1000 * k as u64 });
        assert_eq!(b.step(Event::Done, 10_000 * k as u64 + 5000), Action::Click);
    }
    assert_eq!(b.step(Event::Failed, 60_000), Action::Halt);
    assert!(!b.state.running);
    assert_eq!(b.state.current_phase, FishingPhase::Idle);
    assert_eq!(b.state.errors_count, 5);
    assert_eq!(b.state.current_streak, 0);
    assert_eq!(b.monitor.error_count, 5);
    let critical = b
        .notices
        .iter()
        .filter(|n| matches!(n, Notice::CriticalError { .. }))
        .count();
    assert_eq!(critical, 3);
    assert_eq!(b.step(Event::Done, 70_000), Action::Halt);
}

#[test]
fn success_resets_consecutive_errors() {
    let mut b = started_and_casting(0);
    b.step(Event::Failed, 1000);
    b.step(Event::Done, 2000);
    assert_eq!(b.state.consecutive_errors, 1);
    catch_one(&mut b, 3000);
    assert_eq!(b.state.consecutive_errors, 0);
    assert_eq!(b.state.errors_count, 1);
}

#[test]
fn flicker_is_rejected_by_confirmation() {
    let mut b = started_and_casting(0);
    b.step(Event::Done, 10);
    b.step(Event::Done, 110);
    b.step(Event::Detected(true), 120);
    b.step(Event::Done, 130);
    b.step(Event::Detected(true), 140);
    b.step(Event::Done, 190);
    assert_eq!(b.step(Event::Detected(false), 200), Action::Wait { ms: 70 });
    assert_eq!(b.state.fish_count, 0);
    assert_eq!(b.step(Event::Done, 270), Action::Click);
    assert_eq!(b.state.current_phase, FishingPhase::Reeling);
}

#[test]
fn reel_timeout_lets_fish_escape() {
    let mut b = started_and_casting(0);
    b.step(Event::Done, 10);
    b.step(Event::Done, 110);
    b.step(Event::Detected(true), 120);
    b.step(Event::Done, 130);
    b.step(Event::Detected(false), 140);
    assert_eq!(b.step(Event::Done, 120 + 25_001), Action::Click);
    assert_eq!(b.state.current_phase, FishingPhase::Casting);
    assert_eq!(b.state.status, Activity::Escaped);
}

#[test]
fn feeding_every_fifth_fish() {
    let mut b = started_and_casting(0);
    let mut t = 10_000;
    for fish in 1..=15u64 {
        let next = catch_one(&mut b, t);
        assert_eq!(b.state.fish_count, fish);
        if fish % 5 == 0 {
            assert_eq!(b.state.current_phase, FishingPhase::Feeding);
            assert_eq!(next, Action::ReadHunger { region: b.config.hunger_region });
            assert_eq!(b.step(Event::Hunger(Some(40)), t + 1100), Action::EatFood);
            assert_eq!(b.step(Event::Done, t + 2000), Action::Click);
        } else {
            assert_ne!(b.state.current_phase, FishingPhase::Feeding);
            assert_eq!(next, Action::Click);
        }
        t += 10_000;
    }
    assert_eq!(b.lifetime_stats.total_fish_caught, 15);
    assert_eq!(b.lifetime_stats.total_feeds, 3);
    assert_eq!(b.state.last_hunger, Some(40));
    assert!(b.notices.contains(&Notice::Milestone { fish: 10 }));
    assert!(b.notices.contains(&Notice::Fed { hunger: 40 }));
    assert_eq!(b.state.current_streak, 15);
    assert_eq!(b.state.session_best_streak, 15);
}

#[test]
fn unreadable_hunger_feeds_defensively() {
    let mut cfg = BotConfig::default();
    cfg.fish_per_feed = 1;
    let mut b = AdvancedFishingBot::new(cfg, LifetimeStats::default());
    b.start(0);
    b.step(Event::Done, 3000);
    b.step(Event::Done, 3500);
    catch_one(&mut b, 4000);
    assert_eq!(b.step(Event::Hunger(None), 6000), Action::EatFood);
    assert_eq!(b.state.status, Activity::FeedingBlind);
    assert_eq!(b.lifetime_stats.total_feeds, 0);
    assert!(b.notices.contains(&Notice::FedBlind));
    assert_eq!(b.step(Event::Done, 7000), Action::Click);
}

#[test]
fn full_hunger_skips_feeding() {
    let mut cfg = BotConfig::default();
    cfg.fish_per_feed = 1;
    let mut b = AdvancedFishingBot::new(cfg, LifetimeStats::default());
    b.start(0);
    b.step(Event::Done, 3000);
    b.step(Event::Done, 3500);
    catch_one(&mut b, 4000);
    assert_eq!(b.step(Event::Hunger(Some(100)), 6000), Action::Click);
    assert_eq!(b.state.status, Activity::HungerOk);
}

#[test]
fn zero_fish_per_feed_never_feeds() {
    let mut cfg = BotConfig::default();
    cfg.fish_per_feed = 0;
    let mut b = AdvancedFishingBot::new(cfg, LifetimeStats::default());
    b.start(0);
    b.step(Event::Done, 3000);
    b.step(Event::Done, 3500);
    assert_eq!(catch_one(&mut b, 4000), Action::Click);
}

#[test]
fn pause_holds_and_resume_recasts() {
    let mut b = started_and_casting(0);
    b.pause();
    assert!(b.state.paused);
    assert_eq!(b.step(Event::Done, 5000), Action::Wait { ms: 500 });
    b.pause();
    assert_eq!(b.state.status, Activity::Resumed);
    assert_eq!(b.step(Event::Done, 5500), Action::Click);
    assert_eq!(b.state.current_phase, FishingPhase::Casting);
    assert_eq!(b.take_notices(), vec![Notice::Started, Notice::Paused, Notice::Resumed]);
    assert!(b.notices.is_empty());
}

#[test]
fn stop_merges_session_into_lifetime() {
    let mut b = started_and_casting(1_000);
    catch_one(&mut b, 10_000);
    b.stop(1_000 + 3_723_000);
    assert!(!b.state.running);
    assert_eq!(b.state.current_phase, FishingPhase::Idle);
    assert_eq!(b.lifetime_stats.total_runtime_seconds, 3723);
    assert_eq!(b.lifetime_stats.sessions_completed, 1);
    assert_eq!(b.lifetime_stats.best_session_fish, 1);
    assert_eq!(
        b.notices.last(),
        Some(&Notice::SessionSummary { fish: 1, runtime_seconds: 3723, best_streak: 1 })
    );
    assert_eq!(b.current_action(), Action::Halt);
    b.stop(9_999_999);
    assert_eq!(b.lifetime_stats.sessions_completed, 1);
}

#[test]
fn performance_and_elapsed_queries() {
    let mut b = started_and_casting(0);
    assert_eq!(b.get_performance_stats(), (100, 0, 0));
    assert_eq!(b.get_last_action_elapsed(4000), None);
    b.step(Event::Failed, 4000);
    b.step(Event::Done, 5000);
    b.step(Event::Done, 6000);
    assert_eq!(b.get_last_action_elapsed(6500), Some(500));
    let (rate, avg, errors) = b.get_performance_stats();
    assert_eq!(rate, 0);
    assert_eq!(avg, 4000 - 3600);
    assert_eq!(errors, 1);
}

#[test]
fn session_snapshot_reports_counters() {
    let d = SessionState::default();
    assert!(!d.running);
    assert_eq!(d.last_action, "Idle");
    assert_eq!(d.hunger_level, 100);
    let mut b = started_and_casting(0);
    catch_one(&mut b, 10_000);
    let s = b.session_state(180_000);
    assert!(s.running);
    assert_eq!(s.fish_caught, 1);
    assert_eq!(s.uptime_minutes, 3);
    assert_eq!(s.hunger_level, 100);
    assert_eq!(s.last_action, "Casting fishing line...");
    assert_eq!(b.get_lifetime_stats().total_fish_caught, 1);
    assert_eq!(b.get_state().fish_count, 1);
}

#[test]
fn fresh_state_is_idle() {
    let s = fishing_bot::phase::BotState::default();
    assert!(!s.running);
    assert_eq!(s.current_phase, FishingPhase::Idle);
    assert_eq!(s.status, Activity::Ready);
    assert_eq!(s.uptime_percentage, 100);
    assert_eq!(bot().state, s);
}

#[test]
fn failed_rod_reset_counts_as_error() {
    let mut b = bot();
    b.start(0);
    b.step(Event::Done, 3000);
    assert_eq!(b.step(Event::Failed, 3600), Action::Wait { ms: 1000 });
    assert_eq!(b.state.current_phase, FishingPhase::Error);
    assert_eq!(b.state.errors_count, 1);
    assert_eq!(b.step(Event::Done, 4600), Action::Click);
}

#[test]
fn failed_hunger_capture_counts_as_error() {
    let mut cfg = BotConfig::default();
    cfg.fish_per_feed = 1;
    let mut b = AdvancedFishingBot::new(cfg, LifetimeStats::default());
    b.start(0);
    b.step(Event::Done, 3000);
    b.step(Event::Done, 3500);
    catch_one(&mut b, 4000);
    assert_eq!(b.step(Event::Failed, 6000), Action::Wait { ms: 1000 });
    assert_eq!(b.state.current_phase, FishingPhase::Error);
    assert_eq!(b.state.consecutive_errors, 1);
    assert_eq!(b.lifetime_stats.total_feeds, 0);
}

#[test]
fn failed_feed_counts_as_error() {
    let mut cfg = BotConfig::default();
    cfg.fish_per_feed = 1;
    let mut b = AdvancedFishingBot::new(cfg, LifetimeStats::default());
    b.start(0);
    b.step(Event::Done, 3000);
    b.step(Event::Done, 3500);
    catch_one(&mut b, 4000);
    assert_eq!(b.step(Event::Hunger(Some(20)), 6000), Action::EatFood);
    b.step(Event::Failed, 7000);
    assert_eq!(b.state.current_phase, FishingPhase::Error);
    assert_eq!(b.state.errors_count, 1);
}
