use vstd::prelude::*;

pub mod bitmask;
pub mod channel_names;
pub mod channel_logic;
pub mod channel_set;
pub mod clock;
pub mod config;
pub mod config_manager;
pub mod editor_actions;
pub mod editor_state;
pub mod interaction;
pub mod interaction_laws;
pub mod keyboard;
pub mod layout_cache;
pub mod logger;
pub mod network_protocol;
pub mod network_sync;
pub mod osc;
pub mod osc_input;
pub mod packaging;
pub mod param_events;
pub mod osc_feedback;
pub mod resize;
pub mod text;
pub mod web;
pub mod web_protocol;

verus! {

} // verus!
