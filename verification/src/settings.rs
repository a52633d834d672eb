//! The user's preferences.
//!
//! The record is kept in a file between runs. Reading and writing that file
//! is the caller's business; this module holds the record, its default, and
//! the rule for what a load yields.

use vstd::prelude::*;

verus! {

/// How the frame rate is governed.
#[derive(Debug, PartialEq, Eq, Structural, Clone, Copy)]
pub enum FpsPref {
    /// Frames follow the display's refresh.
    VSync,
    /// Frames are presented at once, at most this many per second.
    Immediate(u32),
}

/// The preference record.
#[derive(Debug, PartialEq, Eq, Structural, Clone, Copy)]
pub struct Settings {
    pub fps_pref: FpsPref,
}

impl Settings {
    /// The preferences of a first run: frames follow the display's refresh.
    pub open spec fn standard() -> Settings {
        Settings { fps_pref: FpsPref::VSync }
    }

    /// What a load yields: the record that was read and parsed, or the
    /// default where there is none because the file could not be read or its
    /// content is no valid record.
    pub fn loaded_or_default(loaded: Option<Settings>) -> (settings: Settings)
        ensures
            loaded is Some ==> settings == loaded->0,
            loaded is None ==> settings == Settings::standard(),
    {
        match loaded {
            Some(settings) => settings,
            None => Settings::default(),
        }
    }
}

impl Default for Settings {
    fn default() -> (settings: Self)
        ensures
            settings == Settings::standard(),
    {
        Self { fps_pref: FpsPref::VSync }
    }
}

} // verus!
