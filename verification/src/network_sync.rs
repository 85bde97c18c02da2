//! Master/Slave state sharing: the Slave side's rules for packets from the
//! Master (stale and reordered packets, connection state, reconnect delays
//! and the heartbeat timeout). The transport runs elsewhere.
use vstd::prelude::*;
use crate::config::AppConfig;
use crate::interaction::{InteractionManager, view_of_network_state};
use crate::network_protocol::{NetworkInteractionState, NETWORK_STATE_MAGIC};

verus! {

/// First delay before reconnecting to the Master.
pub const RECONNECT_DELAY_START_MS: u64 = 500;
/// Longest delay before reconnecting.
pub const MAX_RECONNECT_DELAY_MS: u64 = 5000;
/// Silence after which a connected Slave gives up on the Master.
pub const HEARTBEAT_TIMEOUT_MS: u64 = 2000;
/// A timestamp this far ahead of the last one restarts the ordering.
pub const TIMESTAMP_JUMP_MS: u64 = 3_600_000;
/// Receive errors in a row after which the Slave reconnects.
pub const MAX_CONSECUTIVE_ERRORS: u64 = 5;

/// What the Slave does with a state received from the Master.
#[derive(Debug, Clone, Copy, PartialEq, Eq)]
pub enum PacketOutcome {
    /// Not a stamped state: ignored.
    Ignored,
    /// Older than the last applied state: dropped.
    OutOfOrder,
    /// Applied; `newly_connected` when the link was not up before.
    Applied { newly_connected: bool },
}

/// The Slave side of the link to the Master.
#[derive(Debug, Clone, Copy)]
pub struct SlaveLink {
    /// Timestamp of the last applied state (0: none).
    pub last_timestamp: u64,
    pub connected: bool,
    pub recv_count: u64,
    pub out_of_order_count: u64,
    pub consecutive_errors: u64,
    /// Delay before the next reconnection attempt.
    pub reconnect_delay_ms: u64,
}

/// The timestamp that a new state is ordered against: the last one, or none
/// (0) when the new one jumps more than `TIMESTAMP_JUMP_MS` ahead of it.
pub open spec fn ordering_base(last: u64, ts: u64) -> u64 {
    if last != 0 && ts > last && ts - last > TIMESTAMP_JUMP_MS { 0 } else { last }
}

impl SlaveLink {
    /// A link that is down, has applied nothing and waits the first delay.
    pub fn new() -> (l: Self)
        ensures
            l.last_timestamp == 0 && !l.connected,
            l.recv_count == 0 && l.out_of_order_count == 0 && l.consecutive_errors == 0,
            l.reconnect_delay_ms == RECONNECT_DELAY_START_MS,
    {
        SlaveLink {
            last_timestamp: 0,
            connected: false,
            recv_count: 0,
            out_of_order_count: 0,
            consecutive_errors: 0,
            reconnect_delay_ms: RECONNECT_DELAY_START_MS,
        }
    }

    /// (Re)starting the link: down, nothing applied yet.
    pub fn restart(&mut self)
        ensures
            *final(self) == (SlaveLink { last_timestamp: 0, connected: false, ..*old(self) }),
    {
        self.connected = false;
        self.last_timestamp = 0;
    }

    /// A connection attempt failed: returns the delay to wait, and doubles
    /// the next one up to `MAX_RECONNECT_DELAY_MS`.
    pub fn on_connect_failed(&mut self) -> (wait_ms: u64)
        ensures
            wait_ms == old(self).reconnect_delay_ms,
            *final(self) == (SlaveLink {
                reconnect_delay_ms: if old(self).reconnect_delay_ms >= MAX_RECONNECT_DELAY_MS / 2 {
                    MAX_RECONNECT_DELAY_MS
                } else {
                    (old(self).reconnect_delay_ms * 2) as u64
                },
                ..*old(self)
            }),
    {
        let wait = self.reconnect_delay_ms;
        self.reconnect_delay_ms = if wait >= MAX_RECONNECT_DELAY_MS / 2 { MAX_RECONNECT_DELAY_MS } else { wait * 2 };
        wait
    }

    /// Connected and subscribed: the delay starts over.
    pub fn on_connected(&mut self)
        ensures
            *final(self) == (SlaveLink { reconnect_delay_ms: RECONNECT_DELAY_START_MS, ..*old(self) }),
    {
        self.reconnect_delay_ms = RECONNECT_DELAY_START_MS;
    }

    /// A message arrived: the error streak ends.
    pub fn on_message(&mut self)
        ensures
            *final(self) == (SlaveLink { consecutive_errors: 0, ..*old(self) }),
    {
        self.consecutive_errors = 0;
    }

    /// The instance stopped being a Slave: the link is down.
    pub fn on_role_left(&mut self)
        ensures
            *final(self) == (SlaveLink { connected: false, ..*old(self) }),
    {
        self.connected = false;
    }

    /// A receive error: the link is down; true when the streak calls for a
    /// reconnection.
    pub fn on_recv_error(&mut self) -> (reconnect: bool)
        ensures
            final(self).consecutive_errors == old(self).consecutive_errors.wrapping_add(1),
            !final(self).connected,
            *final(self) == (SlaveLink { consecutive_errors: final(self).consecutive_errors, connected: false,
                ..*old(self) }),
            reconnect == (final(self).consecutive_errors >= MAX_CONSECUTIVE_ERRORS),
    {
        self.consecutive_errors = self.consecutive_errors.wrapping_add(1);
        self.connected = false;
        self.consecutive_errors >= MAX_CONSECUTIVE_ERRORS
    }

    /// A state decoded from the Master. A stamped state older than the last
    /// applied one is dropped (after a jump of more than an hour the order
    /// starts over); otherwise it is applied and the link is up.
    pub fn on_state(&mut self, state: &NetworkInteractionState, interaction: &mut InteractionManager)
        -> (r: PacketOutcome)
        requires
            old(interaction).wf(),
        ensures
            final(interaction).wf(),
            state.magic != NETWORK_STATE_MAGIC ==> r == PacketOutcome::Ignored
                && *final(self) == *old(self) && *final(interaction) == *old(interaction),
            state.magic == NETWORK_STATE_MAGIC && ({
                let base = ordering_base(old(self).last_timestamp, state.timestamp);
                state.timestamp < base && base != 0
            }) ==> r == PacketOutcome::OutOfOrder
                && *final(interaction) == *old(interaction)
                && *final(self) == (SlaveLink {
                    last_timestamp: ordering_base(old(self).last_timestamp, state.timestamp),
                    out_of_order_count: old(self).out_of_order_count.wrapping_add(1),
                    ..*old(self)
                }),
            state.magic == NETWORK_STATE_MAGIC && !({
                let base = ordering_base(old(self).last_timestamp, state.timestamp);
                state.timestamp < base && base != 0
            }) ==> r == (PacketOutcome::Applied { newly_connected: !old(self).connected })
                && final(interaction)@ == view_of_network_state(*state)
                && final(interaction).network_values() == (Some(state.master_gain_bits), Some(state.dim),
                    Some(state.cut), Some(state.layout), Some(state.sub_layout))
                && *final(self) == (SlaveLink {
                    last_timestamp: state.timestamp,
                    connected: true,
                    recv_count: old(self).recv_count.wrapping_add(1),
                    ..*old(self)
                }),
    {
        if !state.is_valid() {
            return PacketOutcome::Ignored;
        }
        let prev = self.last_timestamp;
        let diff = state.timestamp.saturating_sub(prev);
        if prev != 0 && diff > TIMESTAMP_JUMP_MS {
            self.last_timestamp = 0;
        }
        let base = self.last_timestamp;
        if state.timestamp < base && base != 0 {
            self.out_of_order_count = self.out_of_order_count.wrapping_add(1);
            return PacketOutcome::OutOfOrder;
        }
        self.last_timestamp = state.timestamp;
        interaction.from_network_state(state);
        self.recv_count = self.recv_count.wrapping_add(1);
        let newly_connected = !self.connected;
        self.connected = true;
        PacketOutcome::Applied { newly_connected }
    }

    /// No message for `silent_ms`. A connected link silent for more than
    /// `HEARTBEAT_TIMEOUT_MS` gives up: it goes down, the received values are
    /// dropped and a network restart is requested with `config`; then true
    /// (stop the link). Otherwise nothing changes and false.
    pub fn on_timeout(&mut self, silent_ms: u64, interaction: &mut InteractionManager, config: AppConfig)
        -> (stop: bool)
        requires
            old(interaction).wf(),
        ensures
            final(interaction).wf(),
            stop == (silent_ms > HEARTBEAT_TIMEOUT_MS && old(self).connected),
            !stop ==> *final(self) == *old(self) && *final(interaction) == *old(interaction),
            stop ==> *final(self) == (SlaveLink { connected: false, ..*old(self) })
                && final(interaction)@ == old(interaction)@
                && final(interaction).network_values() == (None::<u32>, None::<bool>, None::<bool>, None::<i32>, None::<i32>)
                && final(interaction).network_restart() == (true, Some(config)),
    {
        if silent_ms > HEARTBEAT_TIMEOUT_MS && self.connected {
            self.connected = false;
            interaction.clear_network_state();
            interaction.request_network_restart(config);
            true
        } else {
            false
        }
    }
}

} // verus!
