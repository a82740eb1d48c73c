use fishing_bot::config::{BotConfig, Region, bite_timeout_for_lure, preset_regions};
use fishing_bot::input::{InputError, InputStep, RobloxInputController, key_code};
use fishing_bot::perf::PerformanceMonitor;
use fishing_bot::stats::LifetimeStats;

#[test]
fn bite_timeout_values() {
    assert_eq!(bite_timeout_for_lure(0), 180_000);
    assert_eq!(bite_timeout_for_lure(500), 125_000);
    assert_eq!(bite_timeout_for_lure(1000), 65_000);
    assert_eq!(bite_timeout_for_lure(1001), 59_980);
    assert_eq!(bite_timeout_for_lure(2000), 40_000);
    assert_eq!(bite_timeout_for_lure(3500), 10_000);
    assert_eq!(bite_timeout_for_lure(u32::MAX), 10_000);
}

#[test]
fn bite_timeout_stays_in_range_and_decreases() {
    let mut prev = u64::MAX;
    for lure in (0..=5000u32).step_by(7) {
        let t = bite_timeout_for_lure(lure);
        assert!((10_000..=180_000).contains(&t));
        assert!(t <= prev);
        prev = t;
    }
    assert!(bite_timeout_for_lure(100) > bite_timeout_for_lure(900));
    assert!(bite_timeout_for_lure(1100) > bite_timeout_for_lure(2900));
}

#[test]
fn default_config_and_bite_time() {
    let c = BotConfig::default();
    assert_eq!(c.color_tolerance, 10);
    assert_eq!(c.fish_per_feed, 5);
    assert_eq!(c.region_preset, "3440x1440");
    assert!(c.webhook_url.is_empty());
    assert_eq!(c.calculate_max_bite_time(), 65_000);
    assert_eq!(c.red_region, Region { x: 1321, y: 99, width: 768, height: 546 });
}

#[test]
fn resolution_presets() {
    let mut c = BotConfig::default();
    c.apply_resolution_preset("1920x1080");
    assert_eq!(c.region_preset, "1920x1080");
    assert_eq!(c.red_region, Region { x: 598, y: 29, width: 901, height: 477 });
    assert_eq!(c.yellow_region, Region { x: 1649, y: 632, width: 270, height: 447 });
    assert_eq!(c.hunger_region, Region { x: 212, y: 984, width: 21, height: 18 });
    c.apply_resolution_preset("custom");
    assert_eq!(c.region_preset, "custom");
    assert_eq!(c.hunger_region, Region { x: 212, y: 984, width: 21, height: 18 });
    assert!(preset_regions("800x600").is_none());
    assert_eq!(preset_regions("3440x1440").unwrap().2, Region { x: 274, y: 1301, width: 43, height: 36 });
}

#[test]
fn lifetime_counters() {
    let mut s = LifetimeStats::default();
    s.add_fish(3);
    s.add_runtime(7260);
    s.complete_session(3);
    s.complete_session(1);
    s.add_feed();
    assert_eq!(s.total_fish_caught, 3);
    assert_eq!(s.sessions_completed, 2);
    assert_eq!(s.best_session_fish, 3);
    assert_eq!(s.total_feeds, 1);
    assert_eq!(s.get_formatted_runtime(), "2h 1m");
    s.mark_saved("2024-01-01T00:00:00Z".to_string());
    assert_eq!(s.average_fish_per_hour, 1);
    assert_eq!(s.last_updated, "2024-01-01T00:00:00Z");
    s.add_fish(u64::MAX);
    assert_eq!(s.total_fish_caught, u64::MAX);
}

#[test]
fn formatted_runtime_of_zero() {
    assert_eq!(LifetimeStats::default().get_formatted_runtime(), "0h 0m");
}

#[test]
fn performance_window_and_rates() {
    let mut m = PerformanceMonitor::new();
    assert_eq!(m.get_success_rate(), 100);
    assert_eq!(m.get_average_operation_time(), 0);
    for i in 0..150u64 {
        m.record_operation(i, i % 4 != 0, i);
    }
    assert_eq!(m.operation_times.len(), 100);
    assert_eq!(m.operation_times[0], 50);
    assert_eq!(m.get_average_operation_time(), (50..150u64).sum::<u64>() / 100);
    assert_eq!(m.total_operations, 150);
    assert_eq!(m.error_count, 38);
    assert_eq!(m.get_success_rate(), 112 * 100 / 150);
    assert_eq!(m.last_error_ms, Some(148));
}

#[test]
fn key_bindings() {
    assert_eq!(key_code('5'), Ok(0x35));
    assert_eq!(key_code('6'), Ok(0x36));
    assert_eq!(key_code('x'), Err(InputError::UnsupportedKey('x')));
}

#[test]
fn failsafe_corner() {
    let armed = RobloxInputController::new(true);
    assert_eq!(armed.check_failsafe(Some((2, 3))), Err(InputError::FailsafeTriggered));
    assert_eq!(armed.check_failsafe(Some((5, 0))), Ok(()));
    assert_eq!(armed.check_failsafe(None), Ok(()));
    let off = RobloxInputController::new(false);
    assert_eq!(off.check_failsafe(Some((0, 0))), Ok(()));
    let mut c = RobloxInputController::new(true);
    assert_eq!(c.get_last_action_time(), None);
    c.mark_action(77);
    assert_eq!(c.get_last_action_time(), Some(77));
}

#[test]
fn input_sequences() {
    let c = RobloxInputController::new(true);
    assert_eq!(
        c.reset_rod(),
        vec![
            InputStep::Key('5'),
            InputStep::Pause { ms: 200 },
            InputStep::Key('5'),
            InputStep::Pause { ms: 200 },
        ]
    );
    let food = c.eat_food();
    assert_eq!(food.len(), 8);
    assert_eq!(food[0], InputStep::Click);
    assert_eq!(food[2], InputStep::Key('6'));
    assert_eq!(food[6], InputStep::Key('5'));
}

#[test]
fn timeout_description_text() {
    let mut c = BotConfig::default();
    assert_eq!(c.get_timeout_description(), "Lure 1.0: ~65s timeout");
    c.rod_lure_milli = 2500;
    assert_eq!(c.get_timeout_description(), "Lure 2.5: ~30s timeout");
    c.rod_lure_milli = 0;
    assert_eq!(c.get_timeout_description(), "Lure 0.0: ~180s timeout");
}

#[test]
fn press_key_checks_failsafe_first() {
    let c = RobloxInputController::new(true);
    assert_eq!(c.press_key('x', Some((0, 0))), Err(InputError::FailsafeTriggered));
    assert_eq!(c.press_key('x', Some((100, 100))), Err(InputError::UnsupportedKey('x')));
    assert_eq!(c.press_key('6', Some((100, 100))), Ok(0x36));
    assert_eq!(RobloxInputController::new(false).press_key('5', Some((0, 0))), Ok(0x35));
}
