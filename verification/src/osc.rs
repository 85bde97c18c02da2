//! OSC control surface: shared OSC state, incoming command handling and the
//! packets that outgoing messages become.
use vstd::prelude::*;
use vstd::string::StrSliceExecFns;
use crate::channel_names::str_eq;
use crate::channel_set::{string_views, lemma_map_push, lemma_map_prefix_step};
use crate::config_manager::{Layout, ChannelInfo};
use crate::interaction::{InteractionManager, InteractionView, ChannelMarker, display_of, main_names, after_solo_button,
    after_mute_button, after_channel_click, after_set_channel_state, after_set_channel_sound, PrimaryMode, CompareMode};
use crate::web_protocol::{ChannelLedState, led_code};

verus! {

/// Message for the OSC send thread. Volumes are carried as `f32` bit patterns.
#[derive(Debug, Clone)]
pub enum OscOutMessage {
    /// LED state of a channel.
    ChannelLed { channel: String, state: ChannelLedState },
    /// Solo mode button (active or blinking phase on).
    ModeSolo { on: bool },
    /// Mute mode button (active or blinking phase on).
    ModeMute { on: bool },
    /// Master volume (bits of an `f32` in 0.0..=1.0).
    MasterVolume { value_bits: u32 },
    Dim { on: bool },
    Cut { on: bool },
    Mono { on: bool },
    LfeAdd10dB { on: bool },
    LowBoost { on: bool },
    HighBoost { on: bool },
    /// Full state broadcast (on initialisation).
    BroadcastAll {
        channel_count: usize,
        master_volume_bits: u32,
        dim: bool,
        cut: bool,
        /// (channel name, 0 = off / 1 = mute / 2 = solo).
        channel_states: Vec<(String, u8)>,
        solo_active: bool,
        mute_active: bool,
    },
}

/// LED state that the display of channel `n` calls for.
pub open spec fn led_state_of(v: InteractionView, n: Seq<char>) -> ChannelLedState {
    match display_of(v, n).marker {
        Some(ChannelMarker::Solo) => ChannelLedState::Solo,
        Some(ChannelMarker::Mute) => ChannelLedState::Mute,
        None => ChannelLedState::Off,
    }
}

/// OSC state shared between the OSC threads, the audio thread and the editor.
pub struct OscSharedState {
    /// Channel count of the current layout.
    pub channel_count: usize,
    /// Channel names of the current layout.
    pub current_channel_names: Vec<String>,
    /// Channel names of the previous layout (to clear removed channels).
    pub prev_channel_names: Vec<String>,
    /// Solo mode to activate on the next group-dial command.
    pub pending_solo: bool,
    /// Mute mode to activate on the next group-dial command.
    pub pending_mute: bool,
    /// Current cut state (for toggling).
    pub current_cut: bool,
    /// Whether the OSC send thread is connected; messages are dropped otherwise.
    pub sender_connected: bool,
    /// Messages waiting for the send thread, oldest first.
    pub outbox: Vec<OscOutMessage>,
    /// Master volume received over OSC (bits of an `f32`).
    pub master_volume_bits: u32,
    pub dim: bool,
    pub cut: bool,
    pub mono: bool,
    pub lfe_add_10db: bool,
    pub low_boost: bool,
    pub high_boost: bool,
    /// The volume changed and was not taken yet.
    pub volume_pending: bool,
    /// The dim state changed and was not taken yet.
    pub dim_pending: bool,
    /// The cut state changed and was not taken yet.
    pub cut_pending: bool,
    /// Whether the OSC receive port is bound.
    pub recv_port_bound: bool,
    /// The editor should repaint.
    pub repaint_requested: bool,
}

/// `s2` is `s1` with `msgs` queued when the sender is connected.
pub open spec fn queued(s1: OscSharedState, s2: OscSharedState, msgs: Seq<OscOutMessage>) -> bool {
    &&& s2 == (OscSharedState { outbox: s2.outbox, ..s1 })
    &&& s2.outbox@ == if s1.sender_connected { s1.outbox@ + msgs } else { s1.outbox@ }
}

/// LED messages for every current channel, then Off for each channel of the
/// previous layout that the current layout no longer has.
pub open spec fn led_messages(v: InteractionView, curr: Seq<String>, prev: Seq<String>) -> Seq<OscOutMessage> {
    curr.map_values(|n: String| OscOutMessage::ChannelLed { channel: n, state: led_state_of(v, n@) })
        + prev.filter(|n: String| !string_views(curr).contains(n@))
            .map_values(|n: String| OscOutMessage::ChannelLed { channel: n, state: ChannelLedState::Off })
}

impl OscSharedState {
    /// A state with nothing pending, no channel and no sender.
    pub fn new() -> (s: Self)
        ensures
            s.channel_count == 0,
            s.current_channel_names@.len() == 0,
            s.prev_channel_names@.len() == 0,
            !s.pending_solo && !s.pending_mute && !s.current_cut,
            !s.sender_connected,
            s.outbox@.len() == 0,
            s.master_volume_bits == 0,
            !s.dim && !s.cut && !s.mono && !s.lfe_add_10db && !s.low_boost && !s.high_boost,
            !s.volume_pending && !s.dim_pending && !s.cut_pending,
            !s.recv_port_bound && !s.repaint_requested,
    {
        OscSharedState {
            channel_count: 0,
            current_channel_names: Vec::new(),
            prev_channel_names: Vec::new(),
            pending_solo: false,
            pending_mute: false,
            current_cut: false,
            sender_connected: false,
            outbox: Vec::new(),
            master_volume_bits: 0,
            dim: false,
            cut: false,
            mono: false,
            lfe_add_10db: false,
            low_boost: false,
            high_boost: false,
            volume_pending: false,
            dim_pending: false,
            cut_pending: false,
            recv_port_bound: false,
            repaint_requested: false,
        }
    }

    pub(crate) fn send(&mut self, msg: OscOutMessage)
        ensures
            queued(*old(self), *final(self), seq![msg]),
    {
        if self.sender_connected {
            self.outbox.push(msg);
            proof {
                assert(final(self).outbox@ =~= old(self).outbox@ + seq![msg]);
            }
        }
    }

    /// Queues the Solo mode button state.
    pub fn send_mode_solo(&mut self, on: bool)
        ensures
            queued(*old(self), *final(self), seq![OscOutMessage::ModeSolo { on }]),
    {
        self.send(OscOutMessage::ModeSolo { on });
    }

    /// Queues the Mute mode button state.
    pub fn send_mode_mute(&mut self, on: bool)
        ensures
            queued(*old(self), *final(self), seq![OscOutMessage::ModeMute { on }]),
    {
        self.send(OscOutMessage::ModeMute { on });
    }

    /// Queues the LED state of a channel.
    pub fn send_channel_led_by_name(&mut self, ch_name: &str, state: ChannelLedState)
        ensures
            *final(self) == (OscSharedState { outbox: final(self).outbox, ..*old(self) }),
            old(self).sender_connected ==> final(self).outbox@.len() == old(self).outbox@.len() + 1
                && final(self).outbox@.take(old(self).outbox@.len() as int) == old(self).outbox@
                && (final(self).outbox@.last() matches OscOutMessage::ChannelLed { channel, state: st }
                    && channel@ == ch_name@ && st == state),
            !old(self).sender_connected ==> final(self).outbox@ == old(self).outbox@,
    {
        let msg = OscOutMessage::ChannelLed { channel: String::from_str(ch_name), state };
        self.send(msg);
        proof {
            if old(self).sender_connected {
                assert(final(self).outbox@.take(old(self).outbox@.len() as int) =~= old(self).outbox@);
            }
        }
    }

    /// Queues the master volume (bits of an `f32`).
    pub fn send_master_volume(&mut self, value_bits: u32)
        ensures
            queued(*old(self), *final(self), seq![OscOutMessage::MasterVolume { value_bits }]),
    {
        self.send(OscOutMessage::MasterVolume { value_bits });
    }

    pub fn send_dim(&mut self, on: bool)
        ensures
            queued(*old(self), *final(self), seq![OscOutMessage::Dim { on }]),
    {
        self.send(OscOutMessage::Dim { on });
    }

    pub fn send_cut(&mut self, on: bool)
        ensures
            queued(*old(self), *final(self), seq![OscOutMessage::Cut { on }]),
    {
        self.send(OscOutMessage::Cut { on });
    }

    pub fn send_mono(&mut self, on: bool)
        ensures
            queued(*old(self), *final(self), seq![OscOutMessage::Mono { on }]),
    {
        self.send(OscOutMessage::Mono { on });
    }

    pub fn send_lfe_add_10db(&mut self, on: bool)
        ensures
            queued(*old(self), *final(self), seq![OscOutMessage::LfeAdd10dB { on }]),
    {
        self.send(OscOutMessage::LfeAdd10dB { on });
    }

    pub fn send_low_boost(&mut self, on: bool)
        ensures
            queued(*old(self), *final(self), seq![OscOutMessage::LowBoost { on }]),
    {
        self.send(OscOutMessage::LowBoost { on });
    }

    pub fn send_high_boost(&mut self, on: bool)
        ensures
            queued(*old(self), *final(self), seq![OscOutMessage::HighBoost { on }]),
    {
        self.send(OscOutMessage::HighBoost { on });
    }

    /// Master volume received over OSC: stored, marked pending, repaint requested.
    pub fn set_master_volume(&mut self, value_bits: u32)
        ensures
            *final(self) == (OscSharedState { master_volume_bits: value_bits, volume_pending: true,
                repaint_requested: true, ..*old(self) }),
    {
        self.master_volume_bits = value_bits;
        self.volume_pending = true;
        self.repaint_requested = true;
    }

    /// Dim state received over OSC: stored, marked pending, repaint requested.
    pub fn set_dim(&mut self, on: bool)
        ensures
            *final(self) == (OscSharedState { dim: on, dim_pending: true, repaint_requested: true, ..*old(self) }),
    {
        self.dim = on;
        self.dim_pending = true;
        self.repaint_requested = true;
    }

    /// Cut state received over OSC: stored, marked pending, repaint requested.
    pub fn set_cut(&mut self, on: bool)
        ensures
            *final(self) == (OscSharedState { cut: on, cut_pending: true, repaint_requested: true, ..*old(self) }),
    {
        self.cut = on;
        self.cut_pending = true;
        self.repaint_requested = true;
    }

    pub fn set_mono(&mut self, on: bool)
        ensures
            *final(self) == (OscSharedState { mono: on, ..*old(self) }),
    {
        self.mono = on;
    }

    pub fn get_mono(&self) -> (r: bool)
        ensures
            r == self.mono,
    {
        self.mono
    }

    pub fn set_lfe_add_10db(&mut self, on: bool)
        ensures
            *final(self) == (OscSharedState { lfe_add_10db: on, ..*old(self) }),
    {
        self.lfe_add_10db = on;
    }

    pub fn get_lfe_add_10db(&self) -> (r: bool)
        ensures
            r == self.lfe_add_10db,
    {
        self.lfe_add_10db
    }

    pub fn set_low_boost(&mut self, on: bool)
        ensures
            *final(self) == (OscSharedState { low_boost: on, ..*old(self) }),
    {
        self.low_boost = on;
    }

    pub fn get_low_boost(&self) -> (r: bool)
        ensures
            r == self.low_boost,
    {
        self.low_boost
    }

    pub fn set_high_boost(&mut self, on: bool)
        ensures
            *final(self) == (OscSharedState { high_boost: on, ..*old(self) }),
    {
        self.high_boost = on;
    }

    pub fn get_high_boost(&self) -> (r: bool)
        ensures
            r == self.high_boost,
    {
        self.high_boost
    }

    pub fn get_dim(&self) -> (r: bool)
        ensures
            r == self.dim,
    {
        self.dim
    }

    pub fn get_cut(&self) -> (r: bool)
        ensures
            r == self.cut,
    {
        self.cut
    }

    /// Whether a volume, dim or cut change is pending (flags kept).
    pub fn has_osc_override(&self) -> (r: bool)
        ensures
            r == (self.volume_pending || self.dim_pending || self.cut_pending),
    {
        self.volume_pending || self.dim_pending || self.cut_pending
    }

    /// (volume bits, dim, cut) when any of them is pending.
    pub fn get_override_snapshot(&self) -> (r: Option<(u32, bool, bool)>)
        ensures
            r == if self.volume_pending || self.dim_pending || self.cut_pending {
                Some((self.master_volume_bits, self.dim, self.cut))
            } else {
                None
            },
    {
        if self.volume_pending || self.dim_pending || self.cut_pending {
            Some((self.master_volume_bits, self.dim, self.cut))
        } else {
            None
        }
    }

    /// Takes the repaint request.
    pub fn take_repaint_request(&mut self) -> (r: bool)
        ensures
            r == old(self).repaint_requested,
            *final(self) == (OscSharedState { repaint_requested: false, ..*old(self) }),
    {
        let r = self.repaint_requested;
        self.repaint_requested = false;
        r
    }

    /// Takes the pending volume (bits of an `f32`).
    pub fn take_pending_volume(&mut self) -> (r: Option<u32>)
        ensures
            r == if old(self).volume_pending { Some(old(self).master_volume_bits) } else { None },
            *final(self) == (OscSharedState { volume_pending: false, ..*old(self) }),
    {
        if self.volume_pending {
            self.volume_pending = false;
            Some(self.master_volume_bits)
        } else {
            None
        }
    }

    /// Takes the pending dim state.
    pub fn take_pending_dim(&mut self) -> (r: Option<bool>)
        ensures
            r == if old(self).dim_pending { Some(old(self).dim) } else { None },
            *final(self) == (OscSharedState { dim_pending: false, ..*old(self) }),
    {
        if self.dim_pending {
            self.dim_pending = false;
            Some(self.dim)
        } else {
            None
        }
    }

    /// Takes the pending cut state.
    pub fn take_pending_cut(&mut self) -> (r: Option<bool>)
        ensures
            r == if old(self).cut_pending { Some(old(self).cut) } else { None },
            *final(self) == (OscSharedState { cut_pending: false, ..*old(self) }),
    {
        if self.cut_pending {
            self.cut_pending = false;
            Some(self.cut)
        } else {
            None
        }
    }

    /// Records the cut state of the plugin.
    pub fn sync_cut_state(&mut self, cut: bool)
        ensures
            *final(self) == (OscSharedState { current_cut: cut, ..*old(self) }),
    {
        self.current_cut = cut;
    }
}

} // verus!

verus! {

/// Names of a layout's channels: main channels, then SUB channels.
pub open spec fn layout_channel_names(l: Layout) -> Seq<Seq<char>> {
    l.main_channels@.map_values(|c: ChannelInfo| c.name@) + l.sub_channels@.map_values(|c: ChannelInfo| c.name@)
}

fn contains_name(names: &Vec<String>, name: &String) -> (r: bool)
    ensures
        r == string_views(names@).contains(name@),
{
    let mut i: usize = 0;
    while i < names.len()
        invariant
            i <= names@.len(),
            forall|j: int| 0 <= j < i ==> names@[j]@ != name@,
        decreases names@.len() - i,
    {
        if str_eq(names[i].as_str(), name.as_str()) {
            proof { assert(string_views(names@)[i as int] == name@); }
            return true;
        }
        i = i + 1;
    }
    false
}

impl OscSharedState {
    /// Takes the channel names of a new layout; the old names become the
    /// previous ones.
    pub fn update_layout_channels(&mut self, layout: &Layout)
        ensures
            *final(self) == (OscSharedState {
                channel_count: layout.total_channels,
                current_channel_names: final(self).current_channel_names,
                prev_channel_names: final(self).prev_channel_names,
                ..*old(self)
            }),
            final(self).prev_channel_names@ == old(self).current_channel_names@,
            string_views(final(self).current_channel_names@) == layout_channel_names(*layout),
    {
        let mut names: Vec<String> = Vec::new();
        let mut i: usize = 0;
        while i < layout.main_channels.len()
            invariant
                i <= layout.main_channels@.len(),
                string_views(names@) == layout.main_channels@.subrange(0, i as int).map_values(|c: ChannelInfo| c.name@),
            decreases layout.main_channels@.len() - i,
        {
            let ghost before = names@;
            let nm = layout.main_channels[i].name.clone();
            names.push(nm);
            proof {
                lemma_map_push(before, nm, |s: String| s@);
                lemma_map_prefix_step(layout.main_channels@, i as int, |c: ChannelInfo| c.name@);
            }
            i = i + 1;
        }
        let mut j: usize = 0;
        proof {
            assert(layout.main_channels@.subrange(0, layout.main_channels@.len() as int) =~= layout.main_channels@);
        }
        while j < layout.sub_channels.len()
            invariant
                j <= layout.sub_channels@.len(),
                string_views(names@) == layout.main_channels@.map_values(|c: ChannelInfo| c.name@)
                    + layout.sub_channels@.subrange(0, j as int).map_values(|c: ChannelInfo| c.name@),
            decreases layout.sub_channels@.len() - j,
        {
            let ghost before = names@;
            let nm = layout.sub_channels[j].name.clone();
            names.push(nm);
            proof {
                lemma_map_push(before, nm, |s: String| s@);
                lemma_map_prefix_step(layout.sub_channels@, j as int, |c: ChannelInfo| c.name@);
                assert(string_views(names@) =~= layout.main_channels@.map_values(|c: ChannelInfo| c.name@)
                    + layout.sub_channels@.subrange(0, j + 1).map_values(|c: ChannelInfo| c.name@));
            }
            j = j + 1;
        }
        proof {
            assert(layout.sub_channels@.subrange(0, layout.sub_channels@.len() as int) =~= layout.sub_channels@);
        }
        let mut swapped = names;
        std::mem::swap(&mut self.current_channel_names, &mut swapped);
        self.prev_channel_names = swapped;
        self.channel_count = layout.total_channels;
    }

    fn queue_current_leds(&mut self, interaction: &InteractionManager)
        requires
            interaction.wf(),
        ensures
            queued(*old(self), *final(self), old(self).current_channel_names@.map_values(
                |m: String| OscOutMessage::ChannelLed { channel: m, state: led_state_of(interaction@, m@) })),
    {
        let ghost s0 = *self;
        let ghost f = |m: String| OscOutMessage::ChannelLed { channel: m, state: led_state_of(interaction@, m@) };
        let n = self.current_channel_names.len();
        let mut i: usize = 0;
        while i < n
            invariant
                i <= n,
                n == s0.current_channel_names@.len(),
                interaction.wf(),
                f == (|m: String| OscOutMessage::ChannelLed { channel: m, state: led_state_of(interaction@, m@) }),
                *self == (OscSharedState { outbox: self.outbox, ..s0 }),
                self.outbox@ == if s0.sender_connected {
                    s0.outbox@ + s0.current_channel_names@.subrange(0, i as int).map_values(f)
                } else {
                    s0.outbox@
                },
            decreases n - i,
        {
            let name = self.current_channel_names[i].clone();
            let state = if interaction.is_channel_solo(name.as_str()) {
                ChannelLedState::Solo
            } else if interaction.is_channel_muted(name.as_str()) {
                ChannelLedState::Mute
            } else {
                ChannelLedState::Off
            };
            proof {
                assert(state == led_state_of(interaction@, name@));
                lemma_map_prefix_step(s0.current_channel_names@, i as int, f);
            }
            self.send(OscOutMessage::ChannelLed { channel: name, state });
            i = i + 1;
        }
        proof {
            assert(s0.current_channel_names@.subrange(0, n as int) =~= s0.current_channel_names@);
        }
    }

    fn queue_removed_offs(&mut self)
        ensures
            queued(*old(self), *final(self), old(self).prev_channel_names@
                .filter(|p: String| !string_views(old(self).current_channel_names@).contains(p@))
                .map_values(|p: String| OscOutMessage::ChannelLed { channel: p, state: ChannelLedState::Off })),
    {
        let ghost s0 = *self;
        let ghost keep = |p: String| !string_views(s0.current_channel_names@).contains(p@);
        let ghost g = |p: String| OscOutMessage::ChannelLed { channel: p, state: ChannelLedState::Off };
        let m = self.prev_channel_names.len();
        let mut k: usize = 0;
        proof {
            assert(s0.prev_channel_names@.subrange(0, 0).filter(keep) =~= Seq::<String>::empty());
        }
        while k < m
            invariant
                k <= m,
                m == s0.prev_channel_names@.len(),
                keep == (|p: String| !string_views(s0.current_channel_names@).contains(p@)),
                g == (|p: String| OscOutMessage::ChannelLed { channel: p, state: ChannelLedState::Off }),
                *self == (OscSharedState { outbox: self.outbox, ..s0 }),
                self.outbox@ == if s0.sender_connected {
                    s0.outbox@ + s0.prev_channel_names@.subrange(0, k as int).filter(keep).map_values(g)
                } else {
                    s0.outbox@
                },
            decreases m - k,
        {
            let name = self.prev_channel_names[k].clone();
            let present = contains_name(&self.current_channel_names, &name);
            let ghost pre = s0.prev_channel_names@.subrange(0, k as int);
            let ghost post = s0.prev_channel_names@.subrange(0, k + 1);
            proof {
                assert(post =~= pre.push(name));
                assert(post.drop_last() =~= pre);
                reveal(Seq::filter);
                assert(post.filter(keep) == if keep(name) { pre.filter(keep).push(name) } else { pre.filter(keep) });
                if keep(name) {
                    lemma_map_push(pre.filter(keep), name, g);
                }
            }
            if !present {
                self.send(OscOutMessage::ChannelLed { channel: name, state: ChannelLedState::Off });
            }
            k = k + 1;
        }
        proof {
            assert(s0.prev_channel_names@.subrange(0, m as int) =~= s0.prev_channel_names@);
        }
    }

    /// Queues the LED state of every channel of the current layout, then Off
    /// for each channel of the previous layout that is gone. Nothing is sent
    /// while no channel names are known.
    pub fn broadcast_channel_states(&mut self, interaction: &InteractionManager)
        requires
            interaction.wf(),
        ensures
            old(self).current_channel_names@.len() == 0 ==> *final(self) == *old(self),
            old(self).current_channel_names@.len() > 0 ==> queued(*old(self), *final(self),
                led_messages(interaction@, old(self).current_channel_names@, old(self).prev_channel_names@)),
            queued(*old(self), *final(self), channel_broadcast(interaction@, *old(self))),
    {
        if self.current_channel_names.len() == 0 {
            proof {
                assert(self.outbox@ + Seq::<OscOutMessage>::empty() =~= self.outbox@);
            }
            return;
        }
        self.queue_current_leds(interaction);
        self.queue_removed_offs();
        proof {
            let a = old(self).current_channel_names@.map_values(
                |m: String| OscOutMessage::ChannelLed { channel: m, state: led_state_of(interaction@, m@) });
            let b = old(self).prev_channel_names@
                .filter(|p: String| !string_views(old(self).current_channel_names@).contains(p@))
                .map_values(|p: String| OscOutMessage::ChannelLed { channel: p, state: ChannelLedState::Off });
            if old(self).sender_connected {
                assert(final(self).outbox@ =~= old(self).outbox@ + (a + b));
            }
        }
    }
}

} // verus!

verus! {

/// Lemma: a batch followed by the Solo and the Mute button messages queues
/// their concatenation.
pub proof fn lemma_queued_then_buttons(s0: OscSharedState, s1: OscSharedState, s2: OscSharedState,
    s3: OscSharedState, a: Seq<OscOutMessage>, x: OscOutMessage, y: OscOutMessage)
    requires
        queued(s0, s1, a),
        queued(s1, s2, seq![x]),
        queued(s2, s3, seq![y]),
    ensures
        queued(s0, s3, a + seq![x, y]),
{
    if s0.sender_connected {
        assert(s3.outbox@ =~= s0.outbox@ + (a + seq![x, y]));
    }
}

/// Lemma: the Solo and the Mute button messages followed by a batch queue
/// their concatenation.
pub proof fn lemma_buttons_then_queued(s0: OscSharedState, s1: OscSharedState, s2: OscSharedState,
    s3: OscSharedState, x: OscOutMessage, y: OscOutMessage, a: Seq<OscOutMessage>)
    requires
        queued(s0, s1, seq![x]),
        queued(s1, s2, seq![y]),
        queued(s2, s3, a),
    ensures
        queued(s0, s3, seq![x, y] + a),
{
    if s0.sender_connected {
        assert(s3.outbox@ =~= s0.outbox@ + (seq![x, y] + a));
    }
}

/// The plain values an incoming OSC argument carries: whether it is above
/// 0.5, its value rounded to `u8` (saturating), and the bits of its value
/// clamped to 0.0..=1.0.
#[derive(Debug, Clone, Copy)]
pub struct OscValue {
    pub above_half: bool,
    pub rounded: u8,
    pub volume_bits: u32,
}

/// Control addressed by an incoming OSC message.
#[derive(Debug, Clone, Copy, PartialEq, Eq)]
pub enum OscAddress {
    ModeSolo,
    ModeMute,
    MasterVolume,
    Dim,
    Cut,
    Mono,
    LfeAdd10dB,
    LowBoost,
    HighBoost,
    /// "/Monitor/Channel/<name>".
    Channel,
    Unknown,
}

/// Length of the "/Monitor/Channel/" prefix.
pub const CHANNEL_PREFIX_LEN: usize = 17;

/// The control that an OSC address names.
pub open spec fn osc_address_of(a: Seq<char>) -> OscAddress {
    if a == "/Monitor/Mode/Solo"@ {
        OscAddress::ModeSolo
    } else if a == "/Monitor/Mode/Mute"@ {
        OscAddress::ModeMute
    } else if a == "/Monitor/Master/Volume"@ {
        OscAddress::MasterVolume
    } else if a == "/Monitor/Master/Dim"@ {
        OscAddress::Dim
    } else if a == "/Monitor/Master/Cut"@ {
        OscAddress::Cut
    } else if a == "/Monitor/Master/Effect/Mono"@ {
        OscAddress::Mono
    } else if a == "/Monitor/LFE/Add_10dB"@ {
        OscAddress::LfeAdd10dB
    } else if a == "/Monitor/Master/Effect/Low_Boost"@ {
        OscAddress::LowBoost
    } else if a == "/Monitor/Master/Effect/High_Boost"@ {
        OscAddress::HighBoost
    } else if a.len() >= 17 && a.take(17) == "/Monitor/Channel/"@ {
        OscAddress::Channel
    } else {
        OscAddress::Unknown
    }
}

/// The control that an OSC address names.
pub fn parse_osc_address(addr: &str) -> (r: OscAddress)
    ensures
        r == osc_address_of(addr@),
{
    if str_eq(addr, "/Monitor/Mode/Solo") {
        OscAddress::ModeSolo
    } else if str_eq(addr, "/Monitor/Mode/Mute") {
        OscAddress::ModeMute
    } else if str_eq(addr, "/Monitor/Master/Volume") {
        OscAddress::MasterVolume
    } else if str_eq(addr, "/Monitor/Master/Dim") {
        OscAddress::Dim
    } else if str_eq(addr, "/Monitor/Master/Cut") {
        OscAddress::Cut
    } else if str_eq(addr, "/Monitor/Master/Effect/Mono") {
        OscAddress::Mono
    } else if str_eq(addr, "/Monitor/LFE/Add_10dB") {
        OscAddress::LfeAdd10dB
    } else if str_eq(addr, "/Monitor/Master/Effect/Low_Boost") {
        OscAddress::LowBoost
    } else if str_eq(addr, "/Monitor/Master/Effect/High_Boost") {
        OscAddress::HighBoost
    } else if addr.unicode_len() >= CHANNEL_PREFIX_LEN
        && str_eq(addr.substring_char(0, CHANNEL_PREFIX_LEN), "/Monitor/Channel/") {
        proof {
            assert(addr@.subrange(0, 17) =~= addr@.take(17));
        }
        OscAddress::Channel
    } else {
        proof {
            if addr@.len() >= 17 {
                assert(addr@.subrange(0, 17) =~= addr@.take(17));
            }
        }
        OscAddress::Unknown
    }
}

/// Messages of a channel-state broadcast in state `v` (none while no channel
/// names are known).
pub open spec fn channel_broadcast(v: InteractionView, s: OscSharedState) -> Seq<OscOutMessage> {
    if s.current_channel_names@.len() == 0 {
        Seq::empty()
    } else {
        led_messages(v, s.current_channel_names@, s.prev_channel_names@)
    }
}

pub open spec fn solo_active(v: InteractionView) -> bool {
    v.primary == PrimaryMode::Solo || v.compare == CompareMode::Solo
}

pub open spec fn mute_active(v: InteractionView) -> bool {
    v.primary == PrimaryMode::Mute || v.compare == CompareMode::Mute
}

/// Effect of an OSC Solo-mode command.
pub open spec fn mode_solo_effect(value: OscValue, i0: InteractionManager, i1: InteractionManager,
    s0: OscSharedState, s1: OscSharedState) -> bool {
    &&& i1.wf()
    &&& i1.same_side_state(&i0)
    &&& value.above_half && value.rounded == 1 ==> {
        &&& i1@ == after_solo_button(i0@)
        &&& queued(s0, s1, seq![OscOutMessage::ModeSolo { on: solo_active(i1@) },
                OscOutMessage::ModeMute { on: mute_active(i1@) }] + channel_broadcast(i1@, s0))
    }
    &&& !(value.above_half && value.rounded == 1) ==> i1@ == i0@
    &&& value.above_half && value.rounded == 2 && !solo_active(i0@)
        ==> s1 == (OscSharedState { pending_solo: true, ..s0 })
    &&& !(value.above_half && (value.rounded == 1 || (value.rounded == 2 && !solo_active(i0@)))) ==> s1 == s0
}

/// Effect of an OSC Mute-mode command.
pub open spec fn mode_mute_effect(value: OscValue, i0: InteractionManager, i1: InteractionManager,
    s0: OscSharedState, s1: OscSharedState) -> bool {
    &&& i1.wf()
    &&& i1.same_side_state(&i0)
    &&& value.above_half && value.rounded == 1 ==> {
        &&& i1@ == after_mute_button(i0@)
        &&& queued(s0, s1, seq![OscOutMessage::ModeSolo { on: solo_active(i1@) },
                OscOutMessage::ModeMute { on: mute_active(i1@) }] + channel_broadcast(i1@, s0))
    }
    &&& !(value.above_half && value.rounded == 1) ==> i1@ == i0@
    &&& value.above_half && value.rounded == 2 && !mute_active(i0@)
        ==> s1 == (OscSharedState { pending_mute: true, ..s0 })
    &&& !(value.above_half && (value.rounded == 1 || (value.rounded == 2 && !mute_active(i0@)))) ==> s1 == s0
}

/// Effect of an OSC dim command.
pub open spec fn dim_effect(value: OscValue, s0: OscSharedState, s1: OscSharedState) -> bool {
    let d = toggle_value(value.rounded, s0.dim);
    queued(OscSharedState { dim: d, dim_pending: true, repaint_requested: true, ..s0 }, s1,
        seq![OscOutMessage::Dim { on: d }])
}

/// Effect of an OSC cut command.
pub open spec fn cut_effect(value: OscValue, s0: OscSharedState, s1: OscSharedState) -> bool {
    let c = toggle_value(value.rounded, s0.current_cut);
    queued(OscSharedState { current_cut: c, cut: c, cut_pending: true, repaint_requested: true, ..s0 }, s1,
        seq![OscOutMessage::Cut { on: c }])
}

/// OSC /Monitor/Mode/Solo: value 1 toggles Solo and reports the mode buttons
/// and channel LEDs; value 2 arms Solo for the next group-dial command when
/// Solo is not active. Values up to 0.5 are ignored.
pub fn handle_mode_solo(value: OscValue, interaction: &mut InteractionManager, state: &mut OscSharedState)
    requires
        old(interaction).wf(),
    ensures
        mode_solo_effect(value, *old(interaction), *final(interaction), *old(state), *final(state)),
{
    if value.above_half {
        if value.rounded == 1 {
            interaction.toggle_solo_mode();
            let ghost s0 = *state;
            state.send_mode_solo(interaction.is_solo_active());
            let ghost s1 = *state;
            state.send_mode_mute(interaction.is_mute_active());
            let ghost s2 = *state;
            state.broadcast_channel_states(interaction);
            proof {
                lemma_buttons_then_queued(s0, s1, s2, *state, OscOutMessage::ModeSolo { on: solo_active(interaction@) },
                    OscOutMessage::ModeMute { on: mute_active(interaction@) }, channel_broadcast(interaction@, s2));
            }
        } else if value.rounded == 2 && !interaction.is_solo_active() {
            state.pending_solo = true;
        }
    }
}

/// OSC /Monitor/Mode/Mute: value 1 toggles Mute and reports the mode buttons
/// and channel LEDs; value 2 arms Mute for the next group-dial command when
/// Mute is not active. Values up to 0.5 are ignored.
pub fn handle_mode_mute(value: OscValue, interaction: &mut InteractionManager, state: &mut OscSharedState)
    requires
        old(interaction).wf(),
    ensures
        mode_mute_effect(value, *old(interaction), *final(interaction), *old(state), *final(state)),
{
    if value.above_half {
        if value.rounded == 1 {
            interaction.toggle_mute_mode();
            let ghost s0 = *state;
            state.send_mode_solo(interaction.is_solo_active());
            let ghost s1 = *state;
            state.send_mode_mute(interaction.is_mute_active());
            let ghost s2 = *state;
            state.broadcast_channel_states(interaction);
            proof {
                lemma_buttons_then_queued(s0, s1, s2, *state, OscOutMessage::ModeSolo { on: solo_active(interaction@) },
                    OscOutMessage::ModeMute { on: mute_active(interaction@) }, channel_broadcast(interaction@, s2));
            }
        } else if value.rounded == 2 && !interaction.is_mute_active() {
            state.pending_mute = true;
        }
    }
}

/// OSC /Monitor/Master/Volume: stores the clamped volume.
pub fn handle_master_volume(value: OscValue, state: &mut OscSharedState)
    ensures
        *final(state) == (OscSharedState { master_volume_bits: value.volume_bits, volume_pending: true,
            repaint_requested: true, ..*old(state) }),
{
    state.set_master_volume(value.volume_bits);
}

/// Dim or cut state that an OSC value selects: 1 toggles `current`, 2 or
/// more switches on, 0 switches off.
pub open spec fn toggle_value(rounded: u8, current: bool) -> bool {
    if rounded == 1 { !current } else { rounded >= 2 }
}

/// OSC /Monitor/Master/Dim: sets dim (1 toggles) and reports it.
pub fn handle_dim(value: OscValue, state: &mut OscSharedState)
    ensures
        dim_effect(value, *old(state), *final(state)),
{
    let new_dim = if value.rounded == 1 { !state.dim } else { value.rounded >= 2 };
    state.set_dim(new_dim);
    state.send_dim(new_dim);
}

/// OSC /Monitor/Master/Cut: sets cut (1 toggles the current cut) and reports it.
pub fn handle_cut(value: OscValue, state: &mut OscSharedState)
    ensures
        cut_effect(value, *old(state), *final(state)),
{
    let new_cut = if value.rounded == 1 { !state.current_cut } else { value.rounded >= 2 };
    state.current_cut = new_cut;
    state.set_cut(new_cut);
    state.send_cut(new_cut);
}

/// OSC /Monitor/Master/Effect/Mono: on above 0.5, reported back.
pub fn handle_mono(value: OscValue, state: &mut OscSharedState)
    ensures
        queued(OscSharedState { mono: value.above_half, ..*old(state) }, *final(state),
            seq![OscOutMessage::Mono { on: value.above_half }]),
{
    state.set_mono(value.above_half);
    state.send_mono(value.above_half);
}

/// OSC /Monitor/LFE/Add_10dB: on above 0.5, reported back.
pub fn handle_lfe_add_10db(value: OscValue, state: &mut OscSharedState)
    ensures
        queued(OscSharedState { lfe_add_10db: value.above_half, ..*old(state) }, *final(state),
            seq![OscOutMessage::LfeAdd10dB { on: value.above_half }]),
{
    state.set_lfe_add_10db(value.above_half);
    state.send_lfe_add_10db(value.above_half);
}

/// OSC /Monitor/Master/Effect/Low_Boost: on above 0.5, reported back.
pub fn handle_low_boost(value: OscValue, state: &mut OscSharedState)
    ensures
        queued(OscSharedState { low_boost: value.above_half, ..*old(state) }, *final(state),
            seq![OscOutMessage::LowBoost { on: value.above_half }]),
{
    state.set_low_boost(value.above_half);
    state.send_low_boost(value.above_half);
}

/// OSC /Monitor/Master/Effect/High_Boost: on above 0.5, reported back.
pub fn handle_high_boost(value: OscValue, state: &mut OscSharedState)
    ensures
        queued(OscSharedState { high_boost: value.above_half, ..*old(state) }, *final(state),
            seq![OscOutMessage::HighBoost { on: value.above_half }]),
{
    state.set_high_boost(value.above_half);
    state.send_high_boost(value.above_half);
}

} // verus!

verus! {

/// Interaction state after an OSC channel command with rounded value `r`,
/// given the pending Solo/Mute arming flags `ps`/`pm`: values 10 and up first
/// activate an armed mode; then 1 clicks the channel, 0 and 2 set its state,
/// 10 gives it sound (leaving an emptied mode), 11 silences it, and 12
/// silences it (leaving an emptied mode).
pub open spec fn after_channel_command(v: InteractionView, ps: bool, pm: bool, n: Seq<char>, r: u8) -> InteractionView {
    let v1 = if r >= 10 && ps && !solo_active(v) { after_solo_button(v) } else { v };
    let v2 = if r >= 10 && pm && !mute_active(v1) { after_mute_button(v1) } else { v1 };
    if r == 1 {
        after_channel_click(v2, n)
    } else if r == 0 || r == 2 {
        after_set_channel_state(v2, n, r)
    } else if r == 10 {
        after_set_channel_sound(v2, n, true, true)
    } else if r == 11 {
        after_set_channel_sound(v2, n, false, false)
    } else if r == 12 {
        after_set_channel_sound(v2, n, false, true)
    } else {
        v2
    }
}

/// Effect of an OSC channel command on channel `n`.
pub open spec fn channel_command_effect(n: Seq<char>, value: OscValue, i0: InteractionManager, i1: InteractionManager,
    s0: OscSharedState, s1: OscSharedState) -> bool {
    &&& i1.wf()
    &&& i1.same_side_state(&i0)
    &&& if !string_views(s0.current_channel_names@).contains(n) {
        i1@ == i0@ && s1 == s0
    } else {
        let mid = if value.rounded >= 10 {
            OscSharedState { pending_solo: false, pending_mute: false, ..s0 }
        } else {
            s0
        };
        &&& i1@ == after_channel_command(i0@, s0.pending_solo, s0.pending_mute, n, value.rounded)
        &&& queued(mid, s1, channel_broadcast(i1@, mid)
            + seq![OscOutMessage::ModeSolo { on: solo_active(i1@) }, OscOutMessage::ModeMute { on: mute_active(i1@) }])
    }
}

/// OSC /Monitor/Channel/<name>: applies a channel command to a channel of the
/// current layout, then reports the channel LEDs and the mode buttons.
/// Unknown channels are ignored.
fn apply_channel_command(channel_name: &str, state_val: u8, interaction: &mut InteractionManager,
    state: &mut OscSharedState)
    requires
        old(interaction).wf(),
    ensures
        final(interaction).wf(),
        final(interaction).same_side_state(old(interaction)),
        final(interaction)@ == after_channel_command(old(interaction)@, old(state).pending_solo,
            old(state).pending_mute, channel_name@, state_val),
        *final(state) == if state_val >= 10 {
            OscSharedState { pending_solo: false, pending_mute: false, ..*old(state) }
        } else {
            *old(state)
        },
{
    if state_val >= 10 {
        let pending_solo = state.pending_solo;
        let pending_mute = state.pending_mute;
        state.pending_solo = false;
        state.pending_mute = false;
        if pending_solo && !interaction.is_solo_active() {
            interaction.toggle_solo_mode();
        }
        if pending_mute && !interaction.is_mute_active() {
            interaction.toggle_mute_mode();
        }
    }
    if state_val == 1 {
        interaction.handle_click(channel_name);
    } else if state_val == 0 || state_val == 2 {
        interaction.set_channel_state(channel_name, state_val);
    } else if state_val == 10 {
        interaction.set_channel_sound(channel_name, true, true);
    } else if state_val == 11 {
        interaction.set_channel_sound(channel_name, false, false);
    } else if state_val == 12 {
        interaction.set_channel_sound(channel_name, false, true);
    }
}

fn report_after_channel_command(interaction: &InteractionManager, state: &mut OscSharedState)
    requires
        interaction.wf(),
    ensures
        queued(*old(state), *final(state), channel_broadcast(interaction@, *old(state))
            + seq![OscOutMessage::ModeSolo { on: solo_active(interaction@) }, OscOutMessage::ModeMute { on: mute_active(interaction@) }]),
{
    let ghost s1 = *state;
    state.broadcast_channel_states(interaction);
    let ghost s2 = *state;
    state.send_mode_solo(interaction.is_solo_active());
    let ghost s3 = *state;
    state.send_mode_mute(interaction.is_mute_active());
    proof {
        lemma_queued_then_buttons(s1, s2, s3, *state, channel_broadcast(interaction@, s1),
            OscOutMessage::ModeSolo { on: solo_active(interaction@) },
            OscOutMessage::ModeMute { on: mute_active(interaction@) });
    }
}

/// OSC /Monitor/Channel/<name>: applies a channel command to a channel of the
/// current layout, then reports the channel LEDs and the mode buttons.
/// Unknown channels are ignored.
pub fn handle_channel_click(channel_name: &str, value: OscValue, interaction: &mut InteractionManager,
    state: &mut OscSharedState)
    requires
        old(interaction).wf(),
    ensures
        channel_command_effect(channel_name@, value, *old(interaction), *final(interaction), *old(state), *final(state)),
{
    let name = String::from_str(channel_name);
    if !contains_name(&state.current_channel_names, &name) {
        return;
    }
    apply_channel_command(channel_name, value.rounded, interaction, state);
    report_after_channel_command(interaction, state);
}

/// Dispatches an incoming OSC message by its address.
pub fn handle_osc_message(addr: &str, value: OscValue, interaction: &mut InteractionManager,
    state: &mut OscSharedState)
    requires
        old(interaction).wf(),
    ensures
        final(interaction).wf(),
        match osc_address_of(addr@) {
            OscAddress::ModeSolo => mode_solo_effect(value, *old(interaction), *final(interaction), *old(state), *final(state)),
            OscAddress::ModeMute => mode_mute_effect(value, *old(interaction), *final(interaction), *old(state), *final(state)),
            OscAddress::MasterVolume => *final(interaction) == *old(interaction)
                && *final(state) == (OscSharedState { master_volume_bits: value.volume_bits, volume_pending: true,
                    repaint_requested: true, ..*old(state) }),
            OscAddress::Dim => *final(interaction) == *old(interaction) && dim_effect(value, *old(state), *final(state)),
            OscAddress::Cut => *final(interaction) == *old(interaction) && cut_effect(value, *old(state), *final(state)),
            OscAddress::Mono => *final(interaction) == *old(interaction)
                && queued(OscSharedState { mono: value.above_half, ..*old(state) }, *final(state),
                    seq![OscOutMessage::Mono { on: value.above_half }]),
            OscAddress::LfeAdd10dB => *final(interaction) == *old(interaction)
                && queued(OscSharedState { lfe_add_10db: value.above_half, ..*old(state) }, *final(state),
                    seq![OscOutMessage::LfeAdd10dB { on: value.above_half }]),
            OscAddress::LowBoost => *final(interaction) == *old(interaction)
                && queued(OscSharedState { low_boost: value.above_half, ..*old(state) }, *final(state),
                    seq![OscOutMessage::LowBoost { on: value.above_half }]),
            OscAddress::HighBoost => *final(interaction) == *old(interaction)
                && queued(OscSharedState { high_boost: value.above_half, ..*old(state) }, *final(state),
                    seq![OscOutMessage::HighBoost { on: value.above_half }]),
            OscAddress::Channel => channel_command_effect(addr@.skip(17), value, *old(interaction),
                *final(interaction), *old(state), *final(state)),
            OscAddress::Unknown => *final(interaction) == *old(interaction) && *final(state) == *old(state),
        },
{
    match parse_osc_address(addr) {
        OscAddress::ModeSolo => handle_mode_solo(value, interaction, state),
        OscAddress::ModeMute => handle_mode_mute(value, interaction, state),
        OscAddress::MasterVolume => handle_master_volume(value, state),
        OscAddress::Dim => handle_dim(value, state),
        OscAddress::Cut => handle_cut(value, state),
        OscAddress::Mono => handle_mono(value, state),
        OscAddress::LfeAdd10dB => handle_lfe_add_10db(value, state),
        OscAddress::LowBoost => handle_low_boost(value, state),
        OscAddress::HighBoost => handle_high_boost(value, state),
        OscAddress::Channel => {
            let n = addr.unicode_len();
            let ch_name = addr.substring_char(CHANNEL_PREFIX_LEN, n);
            proof { assert(ch_name@ =~= addr@.skip(17)); }
            handle_channel_click(ch_name, value, interaction, state);
        },
        OscAddress::Unknown => {},
    }
}

} // verus!

verus! {

/// Argument of an outgoing OSC packet (sent as one `f32`).
#[derive(Debug, Clone, Copy, PartialEq, Eq)]
pub enum OscArg {
    /// 1.0 for on, 0.0 for off.
    Flag(bool),
    /// An LED state code (0.0, 1.0 or 2.0).
    Led(u8),
    /// The `f32` with these bits.
    VolumeBits(u32),
}

/// An outgoing OSC packet: address and argument.
#[derive(Debug, Clone)]
pub struct OscPacketOut {
    pub address: String,
    pub arg: OscArg,
}

pub open spec fn packet_views(v: Seq<OscPacketOut>) -> Seq<(Seq<char>, OscArg)> {
    v.map_values(|p: OscPacketOut| (p.address@, p.arg))
}

/// Packet of a channel's LED state.
pub open spec fn channel_packet(n: Seq<char>, code: u8) -> (Seq<char>, OscArg) {
    ("/Monitor/Channel/"@ + n, OscArg::Led(code))
}

/// Packets that an outgoing message becomes.
pub open spec fn packets_of(m: OscOutMessage) -> Seq<(Seq<char>, OscArg)> {
    match m {
        OscOutMessage::ChannelLed { channel, state } => seq![channel_packet(channel@, led_code(state))],
        OscOutMessage::ModeSolo { on } => seq![("/Monitor/Mode/Solo"@, OscArg::Flag(on))],
        OscOutMessage::ModeMute { on } => seq![("/Monitor/Mode/Mute"@, OscArg::Flag(on))],
        OscOutMessage::MasterVolume { value_bits } => seq![("/Monitor/Master/Volume"@, OscArg::VolumeBits(value_bits))],
        OscOutMessage::Dim { on } => seq![("/Monitor/Master/Dim"@, OscArg::Flag(on))],
        OscOutMessage::Cut { on } => seq![("/Monitor/Master/Cut"@, OscArg::Flag(on))],
        OscOutMessage::Mono { on } => seq![("/Monitor/Master/Effect/Mono"@, OscArg::Flag(on))],
        OscOutMessage::LfeAdd10dB { on } => seq![("/Monitor/LFE/Add_10dB"@, OscArg::Flag(on))],
        OscOutMessage::LowBoost { on } => seq![("/Monitor/Master/Effect/Low_Boost"@, OscArg::Flag(on))],
        OscOutMessage::HighBoost { on } => seq![("/Monitor/Master/Effect/High_Boost"@, OscArg::Flag(on))],
        OscOutMessage::BroadcastAll { channel_count, master_volume_bits, dim, cut, channel_states, solo_active, mute_active } =>
            seq![
                ("/Monitor/Mode/Solo"@, OscArg::Flag(solo_active)),
                ("/Monitor/Mode/Mute"@, OscArg::Flag(mute_active)),
                ("/Monitor/Master/Volume"@, OscArg::VolumeBits(master_volume_bits)),
                ("/Monitor/Master/Dim"@, OscArg::Flag(dim)),
                ("/Monitor/Master/Cut"@, OscArg::Flag(cut)),
            ] + channel_states@.map_values(|e: (String, u8)| channel_packet(e.0@, e.1)),
    }
}

fn packet(address: &str, arg: OscArg) -> (p: OscPacketOut)
    ensures
        p.address@ == address@,
        p.arg == arg,
{
    OscPacketOut { address: String::from_str(address), arg }
}

fn channel_led_packet(channel: &str, code: u8) -> (p: OscPacketOut)
    ensures
        (p.address@, p.arg) == channel_packet(channel@, code),
{
    let mut address = String::from_str("/Monitor/Channel/");
    address.append(channel);
    OscPacketOut { address, arg: OscArg::Led(code) }
}

/// The packets that an outgoing message becomes; the send thread sends each
/// to the hardware target and, when one is set, to the Web target.
pub fn outgoing_packets(msg: &OscOutMessage) -> (v: Vec<OscPacketOut>)
    ensures
        packet_views(v@) == packets_of(*msg),
{
    let mut v: Vec<OscPacketOut> = Vec::new();
    match msg {
        OscOutMessage::ChannelLed { channel, state } => {
            v.push(channel_led_packet(channel.as_str(), state.code()));
        },
        OscOutMessage::ModeSolo { on } => v.push(packet("/Monitor/Mode/Solo", OscArg::Flag(*on))),
        OscOutMessage::ModeMute { on } => v.push(packet("/Monitor/Mode/Mute", OscArg::Flag(*on))),
        OscOutMessage::MasterVolume { value_bits } => v.push(packet("/Monitor/Master/Volume", OscArg::VolumeBits(*value_bits))),
        OscOutMessage::Dim { on } => v.push(packet("/Monitor/Master/Dim", OscArg::Flag(*on))),
        OscOutMessage::Cut { on } => v.push(packet("/Monitor/Master/Cut", OscArg::Flag(*on))),
        OscOutMessage::Mono { on } => v.push(packet("/Monitor/Master/Effect/Mono", OscArg::Flag(*on))),
        OscOutMessage::LfeAdd10dB { on } => v.push(packet("/Monitor/LFE/Add_10dB", OscArg::Flag(*on))),
        OscOutMessage::LowBoost { on } => v.push(packet("/Monitor/Master/Effect/Low_Boost", OscArg::Flag(*on))),
        OscOutMessage::HighBoost { on } => v.push(packet("/Monitor/Master/Effect/High_Boost", OscArg::Flag(*on))),
        OscOutMessage::BroadcastAll { channel_count: _, master_volume_bits, dim, cut, channel_states, solo_active, mute_active } => {
            v.push(packet("/Monitor/Mode/Solo", OscArg::Flag(*solo_active)));
            v.push(packet("/Monitor/Mode/Mute", OscArg::Flag(*mute_active)));
            v.push(packet("/Monitor/Master/Volume", OscArg::VolumeBits(*master_volume_bits)));
            v.push(packet("/Monitor/Master/Dim", OscArg::Flag(*dim)));
            v.push(packet("/Monitor/Master/Cut", OscArg::Flag(*cut)));
            let ghost head = packet_views(v@);
            let mut i: usize = 0;
            while i < channel_states.len()
                invariant
                    i <= channel_states@.len(),
                    v@.len() == 5 + i,
                    packet_views(v@) == head + channel_states@.subrange(0, i as int).map_values(
                        |e: (String, u8)| channel_packet(e.0@, e.1)),
                decreases channel_states@.len() - i,
            {
                let ghost before = v@;
                let p = channel_led_packet(channel_states[i].0.as_str(), channel_states[i].1);
                v.push(p);
                proof {
                    lemma_map_push(before, p, |p: OscPacketOut| (p.address@, p.arg));
                    lemma_map_prefix_step(channel_states@, i as int, |e: (String, u8)| channel_packet(e.0@, e.1));
                }
                i = i + 1;
            }
            proof {
                assert(channel_states@.subrange(0, channel_states@.len() as int) =~= channel_states@);
                assert(head =~= seq![
                    ("/Monitor/Mode/Solo"@, OscArg::Flag(*solo_active)),
                    ("/Monitor/Mode/Mute"@, OscArg::Flag(*mute_active)),
                    ("/Monitor/Master/Volume"@, OscArg::VolumeBits(*master_volume_bits)),
                    ("/Monitor/Master/Dim"@, OscArg::Flag(*dim)),
                    ("/Monitor/Master/Cut"@, OscArg::Flag(*cut)),
                ]);
            }
        },
    }
    proof {
        if !(msg is BroadcastAll) {
            assert(packet_views(v@) =~= packets_of(*msg));
        }
    }
    v
}

/// Highest set bit of a nonzero byte.
pub open spec fn top_bit(c: u8) -> u32 {
    if c >= 128 { 7 } else if c >= 64 { 6 } else if c >= 32 { 5 } else if c >= 16 { 4 }
    else if c >= 8 { 3 } else if c >= 4 { 2 } else if c >= 2 { 1 } else { 0 }
}

/// Bit pattern of the IEEE 754 single-precision number equal to `c`: zero
/// for 0; otherwise exponent `127 + e` and the bits of `c` below its top
/// bit `e` as the leading fraction bits.
pub open spec fn u8_f32_bits(c: u8) -> u32 {
    if c == 0 {
        0
    } else {
        (((127 + top_bit(c)) as u32) << 23u32) | (((c as u32) << ((23 - top_bit(c)) as u32)) & 0x7F_FFFFu32)
    }
}

/// Bit pattern of the `f32` an outgoing argument is sent as: 1.0 or 0.0 for
/// a flag, the code as a number for an LED state, the bits themselves for a
/// volume.
pub open spec fn arg_bits(a: OscArg) -> u32 {
    match a {
        OscArg::Flag(on) => if on { 0x3F80_0000 } else { 0 },
        OscArg::Led(code) => u8_f32_bits(code),
        OscArg::VolumeBits(bits) => bits,
    }
}

fn byte_f32_bits(c: u8) -> (b: u32)
    ensures
        b == u8_f32_bits(c),
{
    if c == 0 {
        return 0;
    }
    let e: u32 = if c >= 128 { 7 } else if c >= 64 { 6 } else if c >= 32 { 5 } else if c >= 16 { 4 }
        else if c >= 8 { 3 } else if c >= 4 { 2 } else if c >= 2 { 1 } else { 0 };
    ((127 + e) << 23u32) | (((c as u32) << (23 - e)) & 0x7F_FFFFu32)
}

/// The bit pattern of the `f32` an outgoing argument is sent as.
pub fn osc_arg_bits(a: OscArg) -> (b: u32)
    ensures
        b == arg_bits(a),
{
    match a {
        OscArg::Flag(on) => if on { 0x3F80_0000 } else { 0 },
        OscArg::Led(code) => byte_f32_bits(code),
        OscArg::VolumeBits(bits) => bits,
    }
}

/// An OSC Dim command sets dim from its value: 0 switches it off and 2 or
/// more on, whatever it was; 1 flips it. The new state is left pending for
/// the host and, with a sender, reported back to the surface; nothing else
/// changes.
pub proof fn law_dim_command(value: OscValue, s0: OscSharedState, s1: OscSharedState)
    requires
        dim_effect(value, s0, s1),
    ensures
        value.rounded == 0 ==> !s1.dim,
        value.rounded >= 2 ==> s1.dim,
        value.rounded == 1 ==> s1.dim == !s0.dim,
        s1.dim_pending,
        s1.current_cut == s0.current_cut && s1.cut == s0.cut && s1.cut_pending == s0.cut_pending,
        s1.outbox@ == if s0.sender_connected { s0.outbox@.push(OscOutMessage::Dim { on: s1.dim }) } else { s0.outbox@ },
{
    assert(s0.outbox@ + seq![OscOutMessage::Dim { on: s1.dim }] =~= s0.outbox@.push(OscOutMessage::Dim { on: s1.dim }));
}

/// An OSC Cut command sets cut from its value: 0 switches it off and 2 or
/// more on, whatever it was; 1 flips the current cut. The new state is left
/// pending for the host and, with a sender, reported back to the surface;
/// dim is left alone.
pub proof fn law_cut_command(value: OscValue, s0: OscSharedState, s1: OscSharedState)
    requires
        cut_effect(value, s0, s1),
    ensures
        value.rounded == 0 ==> !s1.cut,
        value.rounded >= 2 ==> s1.cut,
        value.rounded == 1 ==> s1.cut == !s0.current_cut,
        s1.current_cut == s1.cut,
        s1.cut_pending,
        s1.dim == s0.dim && s1.dim_pending == s0.dim_pending,
        s1.outbox@ == if s0.sender_connected { s0.outbox@.push(OscOutMessage::Cut { on: s1.cut }) } else { s0.outbox@ },
{
    assert(s0.outbox@ + seq![OscOutMessage::Cut { on: s1.cut }] =~= s0.outbox@.push(OscOutMessage::Cut { on: s1.cut }));
}

} // verus!
