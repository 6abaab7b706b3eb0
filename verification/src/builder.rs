//! Configuration of the engine: how the window is polled, whether debug
//! information is shown, the window's title and size, and the clock settings.
//! The window itself and the GPU stack are outside collaborators; only the
//! plain values that configure this core live here.

use vstd::prelude::*;

use crate::time::TimeSettings;

verus! {

/// How the driving thread asks the window for its next message: polling
/// returns at once, waiting blocks until a message arrives.
#[derive(Clone, Copy, PartialEq, Eq, Structural, Debug)]
pub enum Polling {
    Poll,
    Wait,
}

/// Whether timing diagnostics are surfaced to the user.
#[derive(Clone, Copy, PartialEq, Eq, Structural, Debug)]
pub enum DebugInfo {
    Shown,
    Hidden,
}

/// The engine's settings, built up by the `with_` methods.
#[derive(Debug)]
pub struct FoxySettings {
    pub time: TimeSettings,
    pub title: String,
    pub width: u32,
    pub height: u32,
    pub polling: Polling,
    pub debug_info: DebugInfo,
}

impl FoxySettings {
    /// Replaces the window configuration: title, size and polling mode.
    pub fn with_window(self, title: String, width: u32, height: u32, polling: Polling) -> (s:
        FoxySettings)
        ensures
            s.title == title,
            s.width == width,
            s.height == height,
            s.polling == polling,
            s.time == self.time,
            s.debug_info == self.debug_info,
    {
        FoxySettings { title, width, height, polling, ..self }
    }

    /// Replaces the clock settings.
    pub fn with_time(self, time: TimeSettings) -> (s: FoxySettings)
        ensures
            s.time == time,
            s.title == self.title,
            s.width == self.width,
            s.height == self.height,
            s.polling == self.polling,
            s.debug_info == self.debug_info,
    {
        FoxySettings { time, ..self }
    }

    /// Replaces the debug-information switch.
    pub fn with_debug_info(self, debug_info: DebugInfo) -> (s: FoxySettings)
        ensures
            s.debug_info == debug_info,
            s.time == self.time,
            s.title == self.title,
            s.width == self.width,
            s.height == self.height,
            s.polling == self.polling,
    {
        FoxySettings { debug_info, ..self }
    }
}

impl Default for FoxySettings {
    /// The default configuration: the 128 Hz clock, an 800 by 500 window,
    /// blocking polls, diagnostics hidden.
    fn default() -> (s: FoxySettings)
        ensures
            s.time.tick_rate == 128,
            s.time.max_catch_up_ticks == 1024,
            s.time.wf(),
            s.title@ == "Foxy Window"@,
            s.width == 800,
            s.height == 500,
            s.polling == Polling::Wait,
            s.debug_info == DebugInfo::Hidden,
    {
        FoxySettings {
            time: TimeSettings::new(),
            title: "Foxy Window".to_owned(),
            width: 800,
            height: 500,
            polling: Polling::Wait,
            debug_info: DebugInfo::Hidden,
        }
    }
}

} // verus!
