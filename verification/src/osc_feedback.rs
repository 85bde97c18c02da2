//! What the OSC side sends on its own: the blink steps of the compare mode
//! and the full-state broadcast.
use vstd::prelude::*;
use crate::channel_set::{string_views, lemma_map_prefix_step};
use crate::interaction::{InteractionManager, InteractionView, CompareMode, main_names};
use crate::osc::{OscOutMessage, OscSharedState, queued, led_state_of, solo_active, mute_active};
use crate::web_protocol::{ChannelLedState, led_code};

verus! {

/// The channel names whose LEDs blink: the main channels of the compare mode's set.
pub open spec fn blinking_names(v: InteractionView) -> Set<Seq<char>> {
    match v.compare {
        CompareMode::Solo => main_names(v.solo),
        CompareMode::Mute => main_names(v.mute),
        CompareMode::Off => Set::<Seq<char>>::empty(),
    }
}

/// LED state of a blinking channel in a phase: lit in the compare mode's
/// colour in the on phase, unlit in the off phase.
pub open spec fn blink_led_state(v: InteractionView, phase: bool) -> ChannelLedState {
    if !phase {
        ChannelLedState::Off
    } else if v.compare == CompareMode::Solo {
        ChannelLedState::Solo
    } else {
        ChannelLedState::Mute
    }
}

/// The blinking mode buttons in a phase: Solo, then Mute.
pub open spec fn blink_mode_messages(v: InteractionView, phase: bool) -> Seq<OscOutMessage> {
    (if v.compare == CompareMode::Solo { seq![OscOutMessage::ModeSolo { on: phase }] } else { Seq::empty() })
        + (if v.compare == CompareMode::Mute { seq![OscOutMessage::ModeMute { on: phase }] } else { Seq::empty() })
}

/// The messages of one blink step: an LED message for each blinking channel
/// (in some order, each once), then the blinking mode buttons.
pub open spec fn is_blink_batch(v: InteractionView, phase: bool, msgs: Seq<OscOutMessage>) -> bool {
    exists|names: Seq<String>|
        {
            &&& string_views(names).no_duplicates()
            &&& string_views(names).to_set() == blinking_names(v)
            &&& msgs == #[trigger] blink_leds(v, phase, names) + blink_mode_messages(v, phase)
        }
}

/// An LED message in the blink state of the phase for each of `names`.
pub open spec fn blink_leds(v: InteractionView, phase: bool, names: Seq<String>) -> Seq<OscOutMessage> {
    names.map_values(|n: String| OscOutMessage::ChannelLed { channel: n, state: blink_led_state(v, phase) })
}

/// The messages that one blink step sends in the phase `new_phase`.
pub fn blink_messages(interaction: &InteractionManager, new_phase: bool) -> (msgs: Vec<OscOutMessage>)
    requires
        interaction.wf(),
    ensures
        is_blink_batch(interaction@, new_phase, msgs@),
{
    let names = interaction.get_blinking_channels();
    let ghost v = interaction@;
    let ghost f = |n: String| OscOutMessage::ChannelLed { channel: n, state: blink_led_state(v, new_phase) };
    let state = if !new_phase {
        ChannelLedState::Off
    } else if interaction.is_solo_blinking() {
        ChannelLedState::Solo
    } else {
        ChannelLedState::Mute
    };
    let mut msgs: Vec<OscOutMessage> = Vec::new();
    let mut i: usize = 0;
    while i < names.len()
        invariant
            i <= names@.len(),
            state == blink_led_state(v, new_phase),
            f == (|n: String| OscOutMessage::ChannelLed { channel: n, state: blink_led_state(v, new_phase) }),
            msgs@ == names@.subrange(0, i as int).map_values(f),
        decreases names@.len() - i,
    {
        let ghost before = msgs@;
        let n = names[i].clone();
        msgs.push(OscOutMessage::ChannelLed { channel: n, state });
        proof {
            lemma_map_prefix_step(names@, i as int, f);
        }
        i = i + 1;
    }
    let ghost leds = msgs@;
    if interaction.is_solo_blinking() {
        msgs.push(OscOutMessage::ModeSolo { on: new_phase });
    }
    if interaction.is_mute_blinking() {
        msgs.push(OscOutMessage::ModeMute { on: new_phase });
    }
    proof {
        assert(names@.subrange(0, names@.len() as int) =~= names@);
        assert(leds == blink_leds(v, new_phase, names@));
        assert(msgs@ =~= blink_leds(v, new_phase, names@) + blink_mode_messages(v, new_phase));
        assert(blinking_names(v) == string_views(names@).to_set());
    }
    msgs
}

impl OscSharedState {
    /// Queues the messages of one blink step in the phase `new_phase`.
    pub fn queue_blink(&mut self, interaction: &InteractionManager, new_phase: bool)
        requires
            interaction.wf(),
        ensures
            exists|msgs: Seq<OscOutMessage>| is_blink_batch(interaction@, new_phase, msgs)
                && #[trigger] queued(*old(self), *final(self), msgs),
    {
        let msgs = blink_messages(interaction, new_phase);
        self.send_all(msgs);
    }

    fn send_all(&mut self, msgs: Vec<OscOutMessage>)
        ensures
            queued(*old(self), *final(self), msgs@),
    {
        if self.sender_connected {
            let mut rest = msgs;
            self.outbox.append(&mut rest);
        }
    }
}

/// Wire code of a channel's LED state: 2 for Solo, 1 for Mute, 0 otherwise.
pub open spec fn channel_state_code(v: InteractionView, n: Seq<char>) -> u8 {
    led_code(led_state_of(v, n))
}

/// `m` is the full-state broadcast for the channel names `names` and the
/// given master values; without an interaction view no channel state is
/// listed and neither mode reads as active.
pub open spec fn is_broadcast(m: OscOutMessage, names: Seq<String>, count: usize, volume_bits: u32, dim_on: bool,
    cut_on: bool, v: Option<InteractionView>) -> bool {
    &&& m is BroadcastAll
    &&& m->channel_count == count
    &&& m->master_volume_bits == volume_bits
    &&& m->dim == dim_on
    &&& m->cut == cut_on
    &&& m->channel_states@ == match v {
        Some(v) => names.map_values(|n: String| (n, channel_state_code(v, n@))),
        None => Seq::<(String, u8)>::empty(),
    }
    &&& m->solo_active == match v { Some(v) => solo_active(v), None => false }
    &&& m->mute_active == match v { Some(v) => mute_active(v), None => false }
}

impl OscSharedState {
    /// Queues a broadcast of the full state to the hardware: the mode buttons,
    /// the master values and the LED state of every current channel.
    pub fn broadcast_state(&mut self, channel_count: usize, master_volume_bits: u32, dim: bool, cut: bool,
        interaction: Option<&InteractionManager>)
        requires
            interaction matches Some(m) ==> m.wf(),
        ensures
            exists|m: OscOutMessage|
                is_broadcast(m, old(self).current_channel_names@, channel_count, master_volume_bits, dim, cut,
                    match interaction { Some(i) => Some(i@), None => None })
                && #[trigger] queued(*old(self), *final(self), seq![m]),
    {
        let mut channel_states: Vec<(String, u8)> = Vec::new();
        let mut solo = false;
        let mut mute = false;
        if let Some(im) = interaction {
            let ghost f = |n: String| (n, channel_state_code(im@, n@));
            let mut i: usize = 0;
            while i < self.current_channel_names.len()
                invariant
                    i <= self.current_channel_names@.len(),
                    im.wf(),
                    f == (|n: String| (n, channel_state_code(im@, n@))),
                    channel_states@ == self.current_channel_names@.subrange(0, i as int).map_values(f),
                decreases self.current_channel_names@.len() - i,
            {
                let name = self.current_channel_names[i].clone();
                let code: u8 = if im.is_channel_solo(name.as_str()) {
                    2
                } else if im.is_channel_muted(name.as_str()) {
                    1
                } else {
                    0
                };
                proof {
                    assert(code == channel_state_code(im@, name@));
                    lemma_map_prefix_step(self.current_channel_names@, i as int, f);
                }
                channel_states.push((name, code));
                i = i + 1;
            }
            proof {
                assert(self.current_channel_names@.subrange(0, self.current_channel_names@.len() as int)
                    =~= self.current_channel_names@);
            }
            solo = im.is_solo_active();
            mute = im.is_mute_active();
        }
        let msg = OscOutMessage::BroadcastAll {
            channel_count,
            master_volume_bits,
            dim,
            cut,
            channel_states,
            solo_active: solo,
            mute_active: mute,
        };
        proof {
            if interaction is None {
                assert(channel_states@ =~= Seq::<(String, u8)>::empty());
            }
        }
        self.send(msg);
    }
}

} // verus!
