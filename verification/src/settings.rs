//! Plain configuration and state types shared with the surrounding
//! application: hotkey bindings, region selection, view selection and
//! update progress. The I/O that fills and persists them lives outside
//! the library.
use vstd::prelude::*;

verus! {

/// One configured hotkey: a modifier bit set and a key name.
#[derive(Debug, Clone)]
pub struct HotkeyConfig {
    /// The modifier keys, as the bit set the hotkey backend uses.
    pub modifiers: u32,
    /// The key, by name.
    pub key_name: String,
}

/// The user's hotkey bindings; each action may be unbound.
#[derive(Debug, Clone)]
pub struct HotkeySettings {
    /// Toggle click-through mode.
    pub toggle_click_through: Option<HotkeyConfig>,
    /// Switch to the monster view.
    pub switch_to_mob_view: Option<HotkeyConfig>,
    /// Switch to the combat view.
    pub switch_to_combat_view: Option<HotkeyConfig>,
    /// Minimise the window.
    pub minimize_window: Option<HotkeyConfig>,
    /// Reset the combat statistics.
    pub reset_stats: Option<HotkeyConfig>,
}

/// The selectable mob-timer regions.
#[derive(Debug, Clone, Copy, PartialEq, Eq, Structural)]
pub enum MobTimersRegion {
    /// The development region.
    DEV,
    /// Mainland China.
    CN,
    /// The international region.
    INT,
    /// Taiwan.
    TW,
    /// North America.
    NA,
    /// Japan and Korea.
    JPKR,
    /// Southeast Asia.
    SEA,
}

/// The actions a global hotkey can trigger.
#[derive(Debug, Clone, Copy, PartialEq, Eq, Hash, Structural)]
pub enum HotkeyAction {
    /// Toggle click-through mode.
    ToggleClickThrough,
    /// Switch to the monster view.
    SwitchToMobView,
    /// Switch to the combat view.
    SwitchToCombatView,
    /// Minimise the window.
    MinimizeWindow,
    /// Reset the combat statistics.
    ResetStats,
}

/// Which main view is shown.
#[derive(Debug, Clone, Copy, PartialEq, Eq, Structural)]
pub enum ViewMode {
    /// The combat statistics view.
    Combat,
    /// The boss timers view.
    Bosses,
    /// The settings view.
    Settings,
}

/// Whether a hotkey is being recorded, and for which action.
#[derive(Debug, Clone, Copy)]
pub struct HotkeyRecordingState {
    /// The action a new binding is being recorded for, if any.
    pub action: Option<HotkeyAction>,
    /// Whether the previous tick was already recording.
    pub was_recording: bool,
}

impl Default for HotkeyRecordingState {
    /// Not recording.
    fn default() -> (r: HotkeyRecordingState)
        ensures
            r.action is None,
            !r.was_recording,
    {
        HotkeyRecordingState { action: None, was_recording: false }
    }
}

/// Where a self-update stands.
#[derive(Debug, Clone)]
pub enum UpdateStatus {
    /// Looking for a newer release.
    Checking,
    /// A newer release exists, with its version.
    Available(String),
    /// The running version is the newest.
    UpToDate,
    /// An update is being installed.
    Updating,
    /// An update was installed, with its version.
    Updated(String),
    /// The check or update failed, with the reason.
    Error(String),
}

} // verus!
