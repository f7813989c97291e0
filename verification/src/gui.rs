//! GUI layers, button types and canvas colors.
#![allow(non_upper_case_globals)]

pub mod canvas;

use vstd::prelude::*;

verus! {

/// Gui layers (the firmware code of a layer, wrapped).
#[derive(Debug, Copy, Clone, Hash, PartialEq, Eq, Structural)]
pub struct GuiLayer(pub u8);

/// Code of the desktop layer, for internal use. Like fullscreen but with status bar.
pub const GuiLayerDesktop: u8 = 0;
/// Code of the window layer, status bar is shown.
pub const GuiLayerWindow: u8 = 1;
/// Code of the status bar left-side layer, auto-layout.
pub const GuiLayerStatusBarLeft: u8 = 2;
/// Code of the status bar right-side layer, auto-layout.
pub const GuiLayerStatusBarRight: u8 = 3;
/// Code of the fullscreen layer, no status bar.
pub const GuiLayerFullscreen: u8 = 4;
/// Code of the special value after the last layer. Don't use or move.
pub const GuiLayerMAX: u8 = 5;

/// Button of a GUI element (the firmware code of a button, wrapped).
#[derive(Debug, Copy, Clone, Hash, PartialEq, Eq, Structural)]
pub struct GuiButtonType(pub u8);

/// Code of the left button.
pub const GuiButtonTypeLeft: u8 = 0;
/// Code of the center button.
pub const GuiButtonTypeCenter: u8 = 1;
/// Code of the right button.
pub const GuiButtonTypeRight: u8 = 2;

/// An input event of the firmware: a key and what happened to it.
#[derive(Debug, Copy, Clone, PartialEq, Eq, Structural)]
pub struct InputEvent {
    /// Sequence number tying together the events of one key press.
    pub sequence: u32,
    /// Firmware code of the key.
    pub key: u8,
    /// Firmware code of the event type (press, release, short, long, repeat).
    pub type_: u8,
}

/// The GUI service record.
#[derive(Debug, Copy, Clone, PartialEq, Eq, Structural)]
pub struct Gui {
    /// Id of the thread running the service.
    pub thread_id: usize,
    /// Input event waiting to be processed.
    pub input_channel: Option<InputEvent>,
    /// A redraw was requested.
    pub request_redraw: bool,
    /// The service was asked to stop.
    pub stop: bool,
}

/// What one pass of the GUI service loop does.
#[derive(Debug, Copy, Clone, PartialEq, Eq, Structural)]
pub struct GuiServiceStep {
    /// Input event to process, taken out of the record.
    pub process_input: Option<InputEvent>,
    /// Redraw the screen.
    pub redraw: bool,
    /// Leave the service loop.
    pub leave: bool,
}

impl Gui {
    /// The record as the service starts: no thread yet, nothing pending.
    pub fn new() -> (g: Gui)
        ensures
            g.thread_id == 0,
            g.input_channel is None,
            !g.request_redraw,
            !g.stop,
    {
        Gui { thread_id: 0, input_channel: None, request_redraw: false, stop: false }
    }

    /// One pass of the service loop: the waiting input event is taken out to
    /// be processed, a requested redraw is done, and a stop request ends the
    /// loop after that. A redraw request stays set, as the service leaves it.
    pub fn service_step(&mut self) -> (s: GuiServiceStep)
        ensures
            s.process_input == old(self).input_channel,
            s.redraw == old(self).request_redraw,
            s.leave == old(self).stop,
            final(self).input_channel is None,
            final(self).thread_id == old(self).thread_id,
            final(self).request_redraw == old(self).request_redraw,
            final(self).stop == old(self).stop,
    {
        let process_input = self.input_channel.take();
        GuiServiceStep { process_input, redraw: self.request_redraw, leave: self.stop }
    }
}

} // verus!
