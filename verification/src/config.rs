//! Configuration values and their defaults.
//!
//! A configuration read from a file or from command-line flags may leave
//! any field unset. [`merge_config`] resolves such a partial configuration
//! into a complete one by filling every missing field with its default;
//! [`apply_flags`] overlays one partial configuration on another, as the
//! settings command does with command-line flags over the stored file.

use crate::button::MouseButton;
use vstd::prelude::*;
use vstd::string::StringExecFns;

verus! {

/// Default click interval in milliseconds.
pub const DEFAULT_INTERVAL_MS: u64 = 50;

/// Default number of additional presses per activated tick.
pub const DEFAULT_REPEAT: u32 = 1;

/// A partial configuration: every field may be missing.
#[derive(Clone, Debug, PartialEq, Eq)]
pub struct ConfigValues {
    /// Milliseconds between activated click bursts.
    pub interval: Option<u64>,
    /// The mouse button to click.
    pub button: Option<MouseButton>,
    /// Additional presses per activated tick.
    pub repeat: Option<u32>,
    /// The toggle hotkey binding string.
    pub toggle: Option<String>,
    /// The quit hotkey binding string.
    pub quit: Option<String>,
}

/// A fully resolved configuration: every field has a value.
#[derive(Clone, Debug, PartialEq, Eq)]
pub struct MergedConfig {
    /// Milliseconds between activated click bursts.
    pub interval: u64,
    /// The mouse button to click.
    pub button: MouseButton,
    /// Additional presses per activated tick.
    pub repeat: u32,
    /// The toggle hotkey binding string.
    pub toggle: String,
    /// The quit hotkey binding string.
    pub quit: String,
}

impl ConfigValues {
    /// A configuration with every field missing.
    pub fn empty() -> (c: ConfigValues)
        ensures
            c.interval is None,
            c.button is None,
            c.repeat is None,
            c.toggle is None,
            c.quit is None,
    {
        ConfigValues { interval: None, button: None, repeat: None, toggle: None, quit: None }
    }
}

/// Resolve a partial configuration by filling every missing field with
/// its default: a 50 ms interval, the left button, one additional press,
/// "Alt T" to toggle and "Alt Q" to quit.
pub fn merge_config(c: ConfigValues) -> (m: MergedConfig)
    ensures
        m.interval == (match c.interval {
            Some(v) => v,
            None => DEFAULT_INTERVAL_MS,
        }),
        m.button == (match c.button {
            Some(v) => v,
            None => MouseButton::Left,
        }),
        m.repeat == (match c.repeat {
            Some(v) => v,
            None => DEFAULT_REPEAT,
        }),
        m.toggle@ == (match c.toggle {
            Some(v) => v@,
            None => "Alt T"@,
        }),
        m.quit@ == (match c.quit {
            Some(v) => v@,
            None => "Alt Q"@,
        }),
{
    let ConfigValues { interval, button, repeat, toggle, quit } = c;
    MergedConfig {
        interval: match interval {
            Some(v) => v,
            None => DEFAULT_INTERVAL_MS,
        },
        button: match button {
            Some(v) => v,
            None => MouseButton::Left,
        },
        repeat: match repeat {
            Some(v) => v,
            None => DEFAULT_REPEAT,
        },
        toggle: match toggle {
            Some(v) => v,
            None => String::from_str("Alt T"),
        },
        quit: match quit {
            Some(v) => v,
            None => String::from_str("Alt Q"),
        },
    }
}

/// Overlay command-line flags on a stored configuration: a given flag
/// replaces the stored value, an absent flag keeps it.
pub fn apply_flags(config: &mut ConfigValues, flags: ConfigValues)
    ensures
        final(config).interval == (match flags.interval {
            Some(v) => Some(v),
            None => old(config).interval,
        }),
        final(config).button == (match flags.button {
            Some(v) => Some(v),
            None => old(config).button,
        }),
        final(config).repeat == (match flags.repeat {
            Some(v) => Some(v),
            None => old(config).repeat,
        }),
        final(config).toggle == (match flags.toggle {
            Some(v) => Some(v),
            None => old(config).toggle,
        }),
        final(config).quit == (match flags.quit {
            Some(v) => Some(v),
            None => old(config).quit,
        }),
{
    let ConfigValues { interval, button, repeat, toggle, quit } = flags;
    if let Some(v) = interval {
        config.interval = Some(v);
    }
    if let Some(v) = button {
        config.button = Some(v);
    }
    if let Some(v) = repeat {
        config.repeat = Some(v);
    }
    if let Some(v) = toggle {
        config.toggle = Some(v);
    }
    if let Some(v) = quit {
        config.quit = Some(v);
    }
}

} // verus!
