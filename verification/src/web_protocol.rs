//! Messages and states exchanged with the Web and OSC control surfaces.
use vstd::prelude::*;

verus! {

/// LED state of a channel on an OSC control surface.
#[derive(Debug, Clone, Copy, PartialEq, Eq)]
pub enum ChannelLedState {
    /// Unlit.
    Off,
    /// Red.
    Mute,
    /// Green.
    Solo,
}

impl ChannelLedState {
    /// Wire value of the state: 0 = off, 1 = mute, 2 = solo.
    pub fn code(self) -> (c: u8)
        ensures
            c == led_code(self),
    {
        match self {
            ChannelLedState::Off => 0,
            ChannelLedState::Mute => 1,
            ChannelLedState::Solo => 2,
        }
    }
}

/// Wire value of an LED state.
pub open spec fn led_code(s: ChannelLedState) -> u8 {
    match s {
        ChannelLedState::Off => 0,
        ChannelLedState::Mute => 1,
        ChannelLedState::Solo => 2,
    }
}

/// State of one channel as pushed to Web clients.
#[derive(Debug, Clone)]
pub struct ChannelState {
    /// Channel name.
    pub name: String,
    /// Channel index.
    pub index: usize,
    /// 0 = off, 1 = mute (red), 2 = solo (green).
    pub state: u8,
    /// Whether this is a SUB channel.
    pub is_sub: bool,
}

/// Start or stop request for the Web server.
#[derive(Debug, Clone, Copy, PartialEq, Eq)]
pub enum WebRestartAction {
    /// Start the server.
    Start,
    /// Stop the server.
    Stop,
}

} // verus!
