use vstd::prelude::*;

verus! {

/// Application settings that the controller starts with.
pub struct AppSettings {
    /// Lower bound of the trigger bot delay, in milliseconds.
    pub default_trigger_bot_delay_min: u32,
    /// Upper bound of the trigger bot delay, in milliseconds.
    pub default_trigger_bot_delay_max: u32,
}

/// Default lower bound of the trigger bot delay (human-like reaction time).
pub const DEFAULT_TRIGGER_BOT_DELAY_MIN: u32 = 180;

/// Default upper bound of the trigger bot delay (human-like reaction time).
pub const DEFAULT_TRIGGER_BOT_DELAY_MAX: u32 = 250;

impl AppSettings {
    /// The settings with the human-like default trigger bot delays.
    pub fn new() -> (settings: Self)
        ensures
            settings.default_trigger_bot_delay_min == 180,
            settings.default_trigger_bot_delay_max == 250,
            settings.default_trigger_bot_delay_min < settings.default_trigger_bot_delay_max,
    {
        Self {
            default_trigger_bot_delay_min: DEFAULT_TRIGGER_BOT_DELAY_MIN,
            default_trigger_bot_delay_max: DEFAULT_TRIGGER_BOT_DELAY_MAX,
        }
    }
}

} // verus!
