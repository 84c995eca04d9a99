//! How the preset indicator presents the state of the current preset.
use vstd::prelude::*;

verus! {

/// The state of the current preset as the indicator shows it.
#[derive(Clone, Copy, Debug, PartialEq, Eq, Structural)]
pub enum PresetMode {
    /// The settings match the preset.
    Normal,
    /// The settings were changed since the preset was loaded.
    Dirty,
    /// The user is choosing a preset.
    Selecting,
}

impl PresetMode {
    /// Whether the indicator is drawn in the highlight colour rather than the
    /// normal one: only while a preset is being chosen.
    pub fn is_highlighted(&self) -> (r: bool)
        ensures
            r == (*self == PresetMode::Selecting),
    {
        match self {
            PresetMode::Selecting => true,
            PresetMode::Normal | PresetMode::Dirty => false,
        }
    }

    /// Whether the indicator marks the preset as changed.
    pub fn shows_dirty_marker(&self) -> (r: bool)
        ensures
            r == (*self == PresetMode::Dirty),
    {
        match self {
            PresetMode::Dirty => true,
            PresetMode::Normal | PresetMode::Selecting => false,
        }
    }
}

} // verus!
