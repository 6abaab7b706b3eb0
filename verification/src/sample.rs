//! A minimal sample application over the engine: the settings it asks for,
//! and a variable-rate update that watches for key messages. A real driver
//! owns one of these and calls `update` once per frame with the carried
//! window message.

use vstd::prelude::*;

use crate::builder::{DebugInfo, FoxySettings, Polling};
use crate::game::Foxy;
use crate::message::WindowMessage;

verus! {

/// The sample application: remembers how many key messages its updates saw.
#[derive(Clone, Copy, PartialEq, Eq, Structural, Debug)]
pub struct App {
    pub key_events: u64,
}

impl App {
    /// The settings the sample asks the engine for.
    pub fn settings() -> (s: FoxySettings)
        ensures
            s.title@ == "App"@,
            s.width == 800,
            s.height == 500,
            s.polling == Polling::Poll,
            s.debug_info == DebugInfo::Shown,
            s.time.wf(),
    {
        FoxySettings::default().with_window("App".to_owned(), 800, 500, Polling::Poll)
            .with_debug_info(DebugInfo::Shown)
    }

    /// A fresh sample, no key message seen yet.
    pub fn new(_foxy: &mut Foxy) -> (app: App)
        ensures
            app.key_events == 0,
    {
        App { key_events: 0 }
    }

    /// The variable-rate update: notices key messages and nothing else.
    pub fn update(&mut self, _foxy: &mut Foxy, event: &Option<WindowMessage>)
        requires
            old(self).key_events < u64::MAX,
        ensures
            final(self).key_events == if event matches Some(WindowMessage::Key { .. }) {
                old(self).key_events + 1
            } else {
                old(self).key_events as int
            },
    {
        match event {
            Some(WindowMessage::Key { .. }) => {
                self.key_events = self.key_events + 1;
            },
            _ => {},
        }
    }
}

} // verus!
