//! Detection, decision and bookkeeping core of an automated fishing assistant.
//!
//! The library watches pixel buffers captured from fixed screen regions,
//! classifies them against reference colours, reads a hunger gauge through a
//! text-recognition pass, and drives a cast / bite / reel state machine. All
//! screen capture, synthetic input, text recognition and network delivery is
//! performed by the caller, which hands the outcomes back as plain values.

pub mod bot;
pub mod classifier;
pub mod color;
pub mod config;
pub mod detector;
pub mod input;
pub mod ocr;
pub mod parse;
pub mod perf;
pub mod phase;
pub mod pixels;
pub mod session;
pub mod stats;
pub mod webhook;

pub use bot::{AdvancedFishingBot, Notice};
pub use classifier::{ClusterParams, count_matching_pixels};
pub use color::Color;
pub use config::{BotConfig, Region};
pub use detector::AdvancedDetector;
pub use input::RobloxInputController;
pub use ocr::{EnhancedOCRHandler, GrayBuffer};
pub use parse::{parse_hunger_text, parse_hunger_value};
pub use perf::PerformanceMonitor;
pub use phase::{Action, BotState, Event, FishingPhase};
pub use pixels::PixelBuffer;
pub use session::SessionState;
pub use stats::LifetimeStats;
pub use webhook::{WebhookManager, WebhookMessage};
