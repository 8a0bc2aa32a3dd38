//! The event vocabulary of the session engine.
//!
//! A multiplexer outside the engine merges a fixed-rate clock with raw
//! terminal input into one ordered stream of [`Event`]s. Views answer
//! events with [`AppEvent`] commands; the controller turns commands into
//! state changes and into [`DaemonRequest`]s for the surrounding loop to
//! carry out against the daemon.

use vstd::prelude::*;

verus! {

/// Ticks a view lets pass between two of its refresh requests; at the
/// clock's rate this polls the daemon a few times a second while drawing
/// at full rate.
pub const REFRESH_AFTER_TICK: u8 = 10;

/// A decoded key, as the engine sees it after the raw terminal input is
/// mapped to plain values.
#[derive(Clone, Copy, Debug, PartialEq, Eq)]
pub enum KeyCode {
    Up,
    Down,
    Left,
    Right,
    Enter,
    Esc,
    Delete,
    Home,
    End,
    PageUp,
    PageDown,
    Char(char),
    Other,
}

/// One key press: the decoded key and whether control was held.
#[derive(Clone, Copy, Debug, PartialEq, Eq)]
pub struct KeyPress {
    pub code: KeyCode,
    pub ctrl: bool,
}

impl KeyPress {
    /// A plain press of the given key, without modifiers.
    pub fn plain(code: KeyCode) -> (r: KeyPress)
        ensures
            r == (KeyPress { code, ctrl: false }),
    {
        KeyPress { code, ctrl: false }
    }
}

/// A command emitted by a view or by the controller itself. Ownership moves
/// from the emitting view to the controller.
#[derive(Clone, Debug, PartialEq, Eq)]
pub enum AppEvent {
    Quit,
    UpdateContainers,
    UpdateContainerInfo(String),
    RestartContainer(String),
    StopContainer(String),
    KillContainer(String),
    RemoveContainer(String),
    GoToContainerDetails(String),
    UpdateVolumes,
    RemoveVolume(String, bool),
    UpdateNetworks,
    RemoveNetwork(String),
    UpdateImages,
    RemoveImage(String, bool),
    Back,
}

/// One entry of the merged event stream.
#[derive(Clone, Debug, PartialEq, Eq)]
pub enum Event {
    /// The fixed-rate clock fired.
    Tick,
    /// A key arrived from the terminal.
    Input(KeyPress),
    /// A command fed back into the stream by the controller.
    App(AppEvent),
}

/// One call for the surrounding loop to make against the daemon. The
/// engine never performs the call itself; it only decides which call is
/// due and folds the outcome back into its state.
#[derive(Clone, Debug, PartialEq, Eq)]
pub enum DaemonRequest {
    ListContainers,
    InspectContainer(String),
    RestartContainer(String),
    StopContainer(String),
    KillContainer(String),
    RemoveContainer(String),
    ListVolumes,
    RemoveVolume(String, bool),
    ListNetworks,
    RemoveNetwork(String),
    ListImages,
    RemoveImage(String, bool),
}

} // verus!
