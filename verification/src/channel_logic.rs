//! Per-channel routing decisions of the audio path: which channels are muted
//! and which gain factor each channel gets.
use vstd::prelude::*;
use crate::bitmask::{bit32, lemma_bit32_or, lemma_bit32_zero};
use crate::channel_names::{is_sub_name, starts_with_sub, str_eq};
use crate::config_manager::{Layout, ChannelLookupEntry, entry_text};
use crate::interaction::{RenderSnapshot, snapshot_name_state};

verus! {

/// Gain factor of a channel.
#[derive(Debug, Clone, Copy, PartialEq, Eq)]
pub enum ChannelGain {
    /// Factor 0.
    Silent,
    /// Factor 1.
    Unity,
    /// Factor 3.16228 (+10 dB), for the LFE channel with LFE +10 dB on.
    LfeBoost,
    /// Factor 1.5, for SUB channels with Low Boost on.
    SubBoost,
}

/// Channel decisions of one processing block.
#[derive(Debug, Clone, Copy)]
pub struct RenderPlan {
    /// Bit `i` set: channel `i` is muted.
    pub channel_mute_mask: u32,
    /// Gain factor of each channel.
    pub channel_gains: [ChannelGain; 32],
}

/// Gain factor of a channel that is on (`on`) or off, named `text` (when `valid`).
pub open spec fn gain_of(on: bool, valid: bool, text: Seq<char>, lfe_boost: bool, low_boost: bool) -> ChannelGain {
    if !on {
        ChannelGain::Silent
    } else if valid && lfe_boost && text == seq!['L', 'F', 'E'] {
        ChannelGain::LfeBoost
    } else if valid && low_boost && is_sub_name(text) {
        ChannelGain::SubBoost
    } else {
        ChannelGain::Unity
    }
}

/// Number of channels the plan covers: the layout's channels, at most 32.
pub open spec fn covered(l: Layout) -> int {
    if l.total_channels < 32 { l.total_channels as int } else { 32 }
}

/// The plan in automation mode: each channel follows its Enable parameter.
pub open spec fn automation_plan_ok(p: RenderPlan, l: Layout, enables: Seq<bool>, lfe_boost: bool, low_boost: bool) -> bool {
    forall|i: int| 0 <= i < 32 ==> if i < covered(l) {
        &&& p.channel_gains@[i] == gain_of(enables[i], l.channel_by_index@[i].valid,
            entry_text(l.channel_by_index@[i]), lfe_boost, low_boost)
        &&& bit32(p.channel_mute_mask, i as u32) == !enables[i]
    } else {
        &&& p.channel_gains@[i] == ChannelGain::Silent
        &&& !bit32(p.channel_mute_mask, i as u32)
    }
}

/// The plan in manual mode: each named channel follows the interaction
/// snapshot, its Solo and Mute membership read by name.
pub open spec fn manual_plan_ok(p: RenderPlan, l: Layout, s: RenderSnapshot, lfe_boost: bool, low_boost: bool) -> bool {
    forall|i: int| 0 <= i < 32 ==> if i < covered(l) && l.channel_by_index@[i].valid {
        let text = entry_text(l.channel_by_index@[i]);
        let on = snapshot_name_state(s, text);
        &&& p.channel_gains@[i] == gain_of(on, true, text, lfe_boost, low_boost)
        &&& bit32(p.channel_mute_mask, i as u32) == !on
    } else {
        &&& p.channel_gains@[i] == ChannelGain::Silent
        &&& !bit32(p.channel_mute_mask, i as u32)
    }
}

/// Lookup entries of a layout hold at most eight bytes.
pub open spec fn lookup_lengths_ok(l: Layout) -> bool {
    forall|i: int| 0 <= i < 32 ==> (#[trigger] l.channel_by_index@[i]).name_len <= 8
}

pub struct ChannelLogic;

impl ChannelLogic {
    fn gain_for(on: bool, entry: &ChannelLookupEntry, lfe_boost: bool, low_boost: bool) -> (g: ChannelGain)
        requires
            entry.name_len <= 8,
        ensures
            g == gain_of(on, entry.valid, entry_text(*entry), lfe_boost, low_boost),
    {
        if !on {
            return ChannelGain::Silent;
        }
        if (lfe_boost || low_boost) && entry.valid {
            let name = entry.as_str();
            proof { reveal_strlit("LFE"); assert("LFE"@ =~= seq!['L', 'F', 'E']); }
            if lfe_boost && str_eq(name, "LFE") {
                return ChannelGain::LfeBoost;
            }
            if low_boost && starts_with_sub(name) {
                return ChannelGain::SubBoost;
            }
        }
        ChannelGain::Unity
    }

    /// Channel decisions for a block. In automation mode each channel follows
    /// its Enable parameter (`channel_enables`); otherwise each named channel
    /// follows the interaction snapshot, by its name. LFE +10 dB and Low Boost select the
    /// gain factors of the LFE and SUB channels.
    pub fn compute(
        layout: &Layout,
        snapshot: &RenderSnapshot,
        channel_enables: &[bool; 32],
        lfe_boost: bool,
        low_boost: bool,
    ) -> (p: RenderPlan)
        requires
            lookup_lengths_ok(*layout),
        ensures
            snapshot.automation_mode ==> automation_plan_ok(p, *layout, channel_enables@, lfe_boost, low_boost),
            !snapshot.automation_mode ==> manual_plan_ok(p, *layout, *snapshot, lfe_boost, low_boost),
    {
        let mut gains = [ChannelGain::Silent; 32];
        let mut mask: u32 = 0;
        let limit: usize = if layout.total_channels < 32 { layout.total_channels } else { 32 };
        proof {
            assert forall|j: u32| j < 32 implies !bit32(mask, j) by { lemma_bit32_zero(j); }
        }
        let mut i: usize = 0;
        while i < limit
            invariant
                i <= limit,
                limit == covered(*layout),
                lookup_lengths_ok(*layout),
                forall|j: int| i <= j < 32 ==> gains@[j] == ChannelGain::Silent,
                forall|j: u32| i <= j < 32 ==> !#[trigger] bit32(mask, j),
                snapshot.automation_mode ==> forall|j: int| 0 <= j < i ==> {
                    &&& gains@[j] == gain_of(channel_enables@[j], layout.channel_by_index@[j].valid,
                        entry_text(layout.channel_by_index@[j]), lfe_boost, low_boost)
                    &&& bit32(mask, j as u32) == !channel_enables@[j]
                },
                !snapshot.automation_mode ==> forall|j: int| 0 <= j < i ==> if layout.channel_by_index@[j].valid {
                    let text = entry_text(layout.channel_by_index@[j]);
                    let on = snapshot_name_state(*snapshot, text);
                    &&& gains@[j] == gain_of(on, true, text, lfe_boost, low_boost)
                    &&& bit32(mask, j as u32) == !on
                } else {
                    &&& gains@[j] == ChannelGain::Silent
                    &&& !bit32(mask, j as u32)
                },
            decreases limit - i,
        {
            let entry = &layout.channel_by_index[i];
            let old_mask = mask;
            let ghost old_gains = gains@;
            let ghost mut muted_now = false;
            proof { assert(layout.channel_by_index@[i as int].name_len <= 8); }
            if snapshot.automation_mode {
                let enable = channel_enables[i];
                gains[i] = Self::gain_for(enable, entry, lfe_boost, low_boost);
                if !enable {
                    mask = mask | (1u32 << (i as u32));
                    proof { muted_now = true; }
                }
            } else if entry.valid {
                let has_sound = snapshot.get_channel_state_by_name(entry.as_str());
                gains[i] = Self::gain_for(has_sound, entry, lfe_boost, low_boost);
                if !has_sound {
                    mask = mask | (1u32 << (i as u32));
                    proof { muted_now = true; }
                }
            }
            proof {
                assert forall|j: u32| j < 32 implies bit32(mask, j) == (bit32(old_mask, j) || (j == i && muted_now)) by {
                    if muted_now {
                        lemma_bit32_or(old_mask, i as u32, j);
                    }
                }
                assert(bit32(mask, i as u32) == muted_now);
                assert forall|j: int| 0 <= j < i implies gains@[j] == old_gains[j] && bit32(mask, j as u32) == bit32(old_mask, j as u32) by {
                    assert(bit32(mask, j as u32) == (bit32(old_mask, j as u32) || (j as u32 == i && muted_now)));
                }
                assert(*entry == layout.channel_by_index@[i as int]);
                if snapshot.automation_mode {
                    assert(gains@[i as int] == gain_of(channel_enables@[i as int], layout.channel_by_index@[i as int].valid,
                        entry_text(layout.channel_by_index@[i as int]), lfe_boost, low_boost));
                    assert(bit32(mask, i as u32) == !channel_enables@[i as int]);
                    assert forall|j: int| 0 <= j < i + 1 implies {
                        &&& gains@[j] == gain_of(channel_enables@[j], layout.channel_by_index@[j].valid,
                            entry_text(layout.channel_by_index@[j]), lfe_boost, low_boost)
                        &&& bit32(mask, j as u32) == !channel_enables@[j]
                    } by {
                        if j < i {
                            assert(gains@[j] == old_gains[j]);
                            assert(bit32(mask, j as u32) == bit32(old_mask, j as u32));
                        }
                    }
                } else {
                    assert forall|j: int| 0 <= j < i + 1 implies if layout.channel_by_index@[j].valid {
                        let text = entry_text(layout.channel_by_index@[j]);
                        let on = snapshot_name_state(*snapshot, text);
                        &&& gains@[j] == gain_of(on, true, text, lfe_boost, low_boost)
                        &&& bit32(mask, j as u32) == !on
                    } else {
                        &&& gains@[j] == ChannelGain::Silent
                        &&& !bit32(mask, j as u32)
                    } by {
                        if j < i {
                            assert(gains@[j] == old_gains[j]);
                            assert(bit32(mask, j as u32) == bit32(old_mask, j as u32));
                        } else {
                            assert(j == i);
                            assert(!bit32(old_mask, i as u32));
                        }
                    }
                }
            }
            i = i + 1;
        }
        RenderPlan { channel_mute_mask: mask, channel_gains: gains }
    }
}

/// Gain classes: a channel that is off is silent. A channel that is on is
/// at +10 dB when it is the LFE channel and LFE +10 dB is on, whatever Low
/// Boost says; at the Low Boost factor when it is a SUB channel and Low
/// Boost is on, whatever LFE +10 dB says; and at unity otherwise (also when
/// it has no name).
pub proof fn law_gain_classes(on: bool, valid: bool, text: Seq<char>, lfe_boost: bool, low_boost: bool)
    ensures
        !on ==> gain_of(on, valid, text, lfe_boost, low_boost) == ChannelGain::Silent,
        on && valid && text == seq!['L', 'F', 'E'] ==> gain_of(on, valid, text, lfe_boost, low_boost)
            == if lfe_boost { ChannelGain::LfeBoost } else { ChannelGain::Unity },
        on && valid && is_sub_name(text) ==> gain_of(on, valid, text, lfe_boost, low_boost)
            == if low_boost { ChannelGain::SubBoost } else { ChannelGain::Unity },
        on && !(valid && (text == seq!['L', 'F', 'E'] || is_sub_name(text)))
            ==> gain_of(on, valid, text, lfe_boost, low_boost) == ChannelGain::Unity,
{
}

/// In a plan, a channel of the layout is muted exactly when its gain is
/// silent, and a sounding named channel gets its gain class: +10 dB for the
/// LFE channel exactly when LFE +10 dB is on, the Low Boost factor for a SUB
/// channel exactly when Low Boost is on, unity for the others.
pub proof fn law_plan_gains(p: RenderPlan, l: Layout, s: RenderSnapshot, enables: Seq<bool>, lfe_boost: bool,
    low_boost: bool, i: int)
    requires
        s.automation_mode ==> automation_plan_ok(p, l, enables, lfe_boost, low_boost),
        !s.automation_mode ==> manual_plan_ok(p, l, s, lfe_boost, low_boost),
        0 <= i < covered(l),
        l.channel_by_index@[i].valid,
    ensures
        bit32(p.channel_mute_mask, i as u32) == (p.channel_gains@[i] == ChannelGain::Silent),
        !bit32(p.channel_mute_mask, i as u32) ==> p.channel_gains@[i] == if entry_text(l.channel_by_index@[i])
            == seq!['L', 'F', 'E'] {
            if lfe_boost { ChannelGain::LfeBoost } else { ChannelGain::Unity }
        } else if is_sub_name(entry_text(l.channel_by_index@[i])) {
            if low_boost { ChannelGain::SubBoost } else { ChannelGain::Unity }
        } else {
            ChannelGain::Unity
        },
{
    let text = entry_text(l.channel_by_index@[i]);
    if s.automation_mode {
        law_gain_classes(enables[i], true, text, lfe_boost, low_boost);
    } else {
        law_gain_classes(snapshot_name_state(s, text), true, text, lfe_boost, low_boost);
    }
}

} // verus!
