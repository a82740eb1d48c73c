use vstd::prelude::*;
use vstd::string::*;
use crate::stats::{decimal, decimal_spec};

verus! {

/// A fixed capture rectangle on the primary display.
#[derive(Clone, Copy, Debug, PartialEq, Eq, Structural)]
pub struct Region {
    pub x: i32,
    pub y: i32,
    pub width: u32,
    pub height: u32,
}

/// Shortest wait for a bite, in milliseconds.
pub const MIN_BITE_TIMEOUT_MS: u64 = 10000;

/// Longest wait for a bite, in milliseconds.
pub const MAX_BITE_TIMEOUT_MS: u64 = 180000;

/// Lure values are stored in thousandths: 1000 stands for a lure of 1.0.
pub const LURE_UNIT: u32 = 1000;

pub open spec fn clamp(v: int, lo: int, hi: int) -> int {
    if v < lo {
        lo
    } else if v > hi {
        hi
    } else {
        v
    }
}

/// Bite timeout in milliseconds for a lure of `lure / 1000`:
/// `clamp(60 000 × m + 5 000, 10 000, 180 000)` with `m = 3 − 2·lure` up to a
/// lure of 1.0 and `m = 1.25 − lure / 3` above it.
pub open spec fn bite_timeout_ms(lure: int) -> int {
    let raw = if lure <= 1000 {
        185000 - 120 * lure
    } else {
        80000 - 20 * lure
    };
    clamp(raw, MIN_BITE_TIMEOUT_MS as int, MAX_BITE_TIMEOUT_MS as int)
}

/// Bite timeout, in milliseconds, for a lure given in thousandths.
pub fn bite_timeout_for_lure(lure_milli: u32) -> (ms: u64)
    ensures
        ms == bite_timeout_ms(lure_milli as int),
{
    let lure = lure_milli as i64;
    let raw: i64 = if lure <= 1000 {
        185000 - 120 * lure
    } else {
        80000 - 20 * lure
    };
    if raw < MIN_BITE_TIMEOUT_MS as i64 {
        MIN_BITE_TIMEOUT_MS
    } else if raw > MAX_BITE_TIMEOUT_MS as i64 {
        MAX_BITE_TIMEOUT_MS
    } else {
        raw as u64
    }
}

/// The timeout stays within 10 s and 180 s for every lure.
pub proof fn lemma_bite_timeout_bounded(lure: int)
    ensures
        10000 <= bite_timeout_ms(lure) <= 180000,
{
}

/// Up to a lure of 1.0 a higher lure gives a strictly shorter wait, once the
/// larger of the two lures is above 0.041, where the 180 s ceiling stops binding.
pub proof fn lemma_bite_timeout_decreasing_low(a: int, b: int)
    requires
        0 < a < b <= 1000,
        b >= 42,
    ensures
        bite_timeout_ms(a) > bite_timeout_ms(b),
{
}

/// Above a lure of 1.0 a higher lure gives a strictly shorter wait, as long as
/// the smaller of the two lures is below 3.5, where the 10 s floor starts binding.
pub proof fn lemma_bite_timeout_decreasing_high(a: int, b: int)
    requires
        1000 < a < b,
        a < 3500,
    ensures
        bite_timeout_ms(a) > bite_timeout_ms(b),
{
}

/// At a lure of exactly 1.0 the first branch applies (65 s); just above it the
/// second branch takes over with a wait of under 60 s.
pub proof fn lemma_bite_timeout_branch_boundary()
    ensures
        bite_timeout_ms(1000) == 65000,
        bite_timeout_ms(1001) == 59980,
        forall|v: int| 1000 < v ==> #[trigger] bite_timeout_ms(v) < 60000,
{
}

/// Text describing the bite timeout of a lure given in thousandths.
pub open spec fn timeout_description(lure: int) -> Seq<char> {
    let tenths = (lure + 50) / 100;
    let secs = (bite_timeout_ms(lure) + 500) / 1000;
    "Lure "@ + decimal_spec((tenths / 10) as nat) + "."@ + decimal_spec((tenths % 10) as nat)
        + ": ~"@ + decimal_spec(secs as nat) + "s timeout"@
}

/// Settings of the bot, owned by the caller and read by the core.
#[derive(Clone, Debug)]
pub struct BotConfig {
    pub color_tolerance: u8,
    pub autoclick_interval_ms: u64,
    pub fish_per_feed: u32,
    pub webhook_url: String,
    pub screenshot_interval_mins: u32,
    pub screenshot_enabled: bool,
    pub red_region: Region,
    pub yellow_region: Region,
    pub hunger_region: Region,
    pub region_preset: String,
    pub startup_delay_ms: u64,
    pub detection_interval_ms: u64,
    pub max_fishing_timeout_ms: u64,
    /// Lure value in thousandths (1000 is a lure of 1.0).
    pub rod_lure_milli: u32,
    pub always_on_top: bool,
    pub auto_save_enabled: bool,
    pub failsafe_enabled: bool,
    pub advanced_detection: bool,
}

/// Bite, catch and hunger regions for a 3440×1440 display.
pub open spec fn ultrawide_regions() -> (Region, Region, Region) {
    (
        Region { x: 1321, y: 99, width: 768, height: 546 },
        Region { x: 3097, y: 1234, width: 342, height: 205 },
        Region { x: 274, y: 1301, width: 43, height: 36 },
    )
}

/// Bite, catch and hunger regions for a 1920×1080 display.
pub open spec fn full_hd_regions() -> (Region, Region, Region) {
    (
        Region { x: 598, y: 29, width: 901, height: 477 },
        Region { x: 1649, y: 632, width: 270, height: 447 },
        Region { x: 212, y: 984, width: 21, height: 18 },
    )
}

/// Regions of the preset called `name`, if there is one.
pub open spec fn preset_regions_spec(name: Seq<char>) -> Option<(Region, Region, Region)> {
    if name == "3440x1440"@ {
        Some(ultrawide_regions())
    } else if name == "1920x1080"@ {
        Some(full_hd_regions())
    } else {
        None
    }
}

/// Bite, catch and hunger regions of a named display preset.
pub fn preset_regions(name: &str) -> (r: Option<(Region, Region, Region)>)
    ensures
        r == preset_regions_spec(name@),
{
    let given = String::from_str(name);
    let ultrawide = String::from_str("3440x1440");
    let full_hd = String::from_str("1920x1080");
    proof {
        reveal_strlit("3440x1440");
        reveal_strlit("1920x1080");
    }
    if given == ultrawide {
        Some(
            (
                Region { x: 1321, y: 99, width: 768, height: 546 },
                Region { x: 3097, y: 1234, width: 342, height: 205 },
                Region { x: 274, y: 1301, width: 43, height: 36 },
            ),
        )
    } else if given == full_hd {
        Some(
            (
                Region { x: 598, y: 29, width: 901, height: 477 },
                Region { x: 1649, y: 632, width: 270, height: 447 },
                Region { x: 212, y: 984, width: 21, height: 18 },
            ),
        )
    } else {
        None
    }
}

impl Default for BotConfig {
    fn default() -> (c: BotConfig)
        ensures
            c.color_tolerance == 10,
            c.autoclick_interval_ms == 70,
            c.fish_per_feed == 5,
            c.webhook_url@.len() == 0,
            c.screenshot_interval_mins == 60,
            c.screenshot_enabled,
            (c.red_region, c.yellow_region, c.hunger_region) == ultrawide_regions(),
            c.region_preset@ == "3440x1440"@,
            c.startup_delay_ms == 3000,
            c.detection_interval_ms == 50,
            c.max_fishing_timeout_ms == 25000,
            c.rod_lure_milli == 1000,
            !c.always_on_top,
            c.auto_save_enabled,
            c.failsafe_enabled,
            !c.advanced_detection,
    {
        BotConfig {
            color_tolerance: 10,
            autoclick_interval_ms: 70,
            fish_per_feed: 5,
            webhook_url: String::new(),
            screenshot_interval_mins: 60,
            screenshot_enabled: true,
            red_region: Region { x: 1321, y: 99, width: 768, height: 546 },
            yellow_region: Region { x: 3097, y: 1234, width: 342, height: 205 },
            hunger_region: Region { x: 274, y: 1301, width: 43, height: 36 },
            region_preset: String::from_str("3440x1440"),
            startup_delay_ms: 3000,
            detection_interval_ms: 50,
            max_fishing_timeout_ms: 25000,
            rod_lure_milli: 1000,
            always_on_top: false,
            auto_save_enabled: true,
            failsafe_enabled: true,
            advanced_detection: false,
        }
    }
}

impl BotConfig {
    /// How long to wait for a bite before recasting, in milliseconds.
    pub fn calculate_max_bite_time(&self) -> (ms: u64)
        ensures
            ms == bite_timeout_ms(self.rod_lure_milli as int),
    {
        bite_timeout_for_lure(self.rod_lure_milli)
    }

    /// The lure to one decimal and the bite timeout to the nearest second, as
    /// `"Lure <l>: ~<s>s timeout"`; halves round up.
    pub fn get_timeout_description(&self) -> (s: String)
        ensures
            s@ == timeout_description(self.rod_lure_milli as int),
    {
        let tenths = (self.rod_lure_milli as u64 + 50) / 100;
        let secs = (self.calculate_max_bite_time() + 500) / 1000;
        let mut s = String::from_str("Lure ");
        let whole = decimal(tenths / 10);
        s.append(whole.as_str());
        s.append(".");
        let frac = decimal(tenths % 10);
        s.append(frac.as_str());
        s.append(": ~");
        let t = decimal(secs);
        s.append(t.as_str());
        s.append("s timeout");
        s
    }

    /// Selects a display preset: a known name replaces the three regions, any
    /// name is recorded as the current preset.
    pub fn apply_resolution_preset(&mut self, preset: &str)
        ensures
            final(self).region_preset@ == preset@,
            preset_regions_spec(preset@) matches Some(rs) ==> (
            final(self).red_region,
            final(self).yellow_region,
            final(self).hunger_region,
            ) == rs,
            preset_regions_spec(preset@) is None ==> final(self).red_region == old(self).red_region
                && final(self).yellow_region == old(self).yellow_region
                && final(self).hunger_region == old(self).hunger_region,
            final(self).color_tolerance == old(self).color_tolerance,
            final(self).autoclick_interval_ms == old(self).autoclick_interval_ms,
            final(self).fish_per_feed == old(self).fish_per_feed,
            final(self).webhook_url == old(self).webhook_url,
            final(self).screenshot_interval_mins == old(self).screenshot_interval_mins,
            final(self).screenshot_enabled == old(self).screenshot_enabled,
            final(self).startup_delay_ms == old(self).startup_delay_ms,
            final(self).detection_interval_ms == old(self).detection_interval_ms,
            final(self).max_fishing_timeout_ms == old(self).max_fishing_timeout_ms,
            final(self).rod_lure_milli == old(self).rod_lure_milli,
            final(self).always_on_top == old(self).always_on_top,
            final(self).auto_save_enabled == old(self).auto_save_enabled,
            final(self).failsafe_enabled == old(self).failsafe_enabled,
            final(self).advanced_detection == old(self).advanced_detection,
    {
        match preset_regions(preset) {
            Some((red, yellow, hunger)) => {
                self.red_region = red;
                self.yellow_region = yellow;
                self.hunger_region = hunger;
            },
            None => {},
        }
        self.region_preset = String::from_str(preset);
    }
}

} // verus!
