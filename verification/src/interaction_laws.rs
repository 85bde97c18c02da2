//! Properties of the interaction state machine that relate several operations.
use vstd::prelude::*;
use crate::bitmask::{bit32, bit8, lemma_low12_zero, lemma_sub4_zero};
use crate::channel_names::{is_sub_name, standard_names, standard_index, lemma_standard_names_distinct,
    lemma_standard_index_of};
use crate::channel_set::{set_has_main, set_has_sub};
use crate::channel_logic::{RenderPlan, manual_plan_ok, covered, gain_of};
use crate::config_manager::{Layout, entry_text};
use crate::interaction::{DoubleClickDetector, RenderSnapshot, InteractionView, InteractionManager, snapshot_matches, snapshot_channel_state,
    snapshot_name_state,
    ActiveContext, ChannelMarker, display_of, after_solo_button, after_mute_button, after_channel_click, cleared, active_context, PrimaryMode, CompareMode,
    view_of_network_state, primary_code, compare_code, primary_from_code, compare_from_code};
use crate::network_protocol::{mask_names, sub_mask_names, sub_name_set, NetworkInteractionState};
use crate::network_protocol::{mask_represents, sub_mask_represents, standard_name_set};

verus! {

proof fn lemma_main_any(m: u32, s: Set<Seq<char>>)
    requires
        mask_represents(m, s),
        s.subset_of(standard_name_set()),
    ensures
        (m & 0xFFFu32 != 0) == set_has_main(s),
{
    lemma_low12_zero(m);
    lemma_standard_names_distinct();
    if set_has_main(s) {
        let n = choose|n: Seq<char>| s.contains(n) && !is_sub_name(n);
        assert(standard_name_set().contains(n));
        let i = choose|i: int| 0 <= i < 16 && standard_names()[i] == n;
        assert(i < 12);
        assert(bit32(m, i as u32));
    }
    if m & 0xFFFu32 != 0 {
        let j = choose|j: u32| j < 12 && bit32(m, j);
        let n = standard_names()[j as int];
        assert(s.contains(n) && !is_sub_name(n));
    }
}

proof fn lemma_sub_any(m: u32, s: Set<Seq<char>>)
    requires
        mask_represents(m, s),
        s.subset_of(standard_name_set()),
    ensures
        ((m >> 12u32) & 0xFu32 != 0) == set_has_sub(s),
{
    lemma_sub4_zero(m);
    lemma_standard_names_distinct();
    if set_has_sub(s) {
        let n = choose|n: Seq<char>| s.contains(n) && is_sub_name(n);
        assert(standard_name_set().contains(n));
        let i = choose|i: int| 0 <= i < 16 && standard_names()[i] == n;
        assert(i >= 12);
        assert(bit32(m, i as u32));
    }
    if (m >> 12u32) & 0xFu32 != 0 {
        let j = choose|j: u32| 12 <= j < 16 && bit32(m, j);
        let n = standard_names()[j as int];
        assert(s.contains(n) && is_sub_name(n));
    }
}

/// The snapshot read by the audio thread agrees with the display: for a
/// standard channel addressed by its position in the standard order, the
/// snapshot lets the channel pass exactly when its display says it has sound,
/// provided the Solo and Mute sets hold standard channel names only.
pub proof fn law_snapshot_agrees_with_display(s: RenderSnapshot, v: InteractionView, k: u32)
    requires
        snapshot_matches(s, v),
        k < 16,
        v.solo.subset_of(standard_name_set()),
        v.mute.subset_of(standard_name_set()),
    ensures
        snapshot_channel_state(s, standard_names()[k as int], k) == display_of(v, standard_names()[k as int]).has_sound,
{
    let n = standard_names()[k as int];
    lemma_standard_names_distinct();
    lemma_standard_index_of(k as int);
    lemma_main_any(s.solo_mask, v.solo);
    lemma_main_any(s.mute_mask, v.mute);
    lemma_sub_any(s.solo_mask, v.solo);
    lemma_sub_any(s.mute_mask, v.mute);
    assert(bit32(s.solo_mask, k) == v.solo.contains(n));
    assert(bit32(s.mute_mask, k) == v.mute.contains(n));
    if k >= 12 {
        let b = (k - 12) as u8;
        assert(standard_names()[12 + b] == n);
        assert(bit8(s.user_mute_sub_mask, b) == v.user_mute.contains(n));
    }
}

/// The same agreement, for a well-formed manager.
pub proof fn law_manager_snapshot_agrees_with_display(m: &InteractionManager, k: u32)
    requires
        m.wf(),
        k < 16,
        m@.solo.subset_of(standard_name_set()),
        m@.mute.subset_of(standard_name_set()),
    ensures
        snapshot_channel_state(m.snapshot(), standard_names()[k as int], k)
            == display_of(m@, standard_names()[k as int]).has_sound,
{
    m.lemma_wf_snapshot();
    law_snapshot_agrees_with_display(m.snapshot(), m@, k);
}


/// Reading a channel by name agrees with the display: for any standard
/// channel name, the snapshot lets the channel pass exactly when its display
/// says it has sound, provided the Solo and Mute sets hold standard channel
/// names only.
pub proof fn law_snapshot_by_name_agrees_with_display(s: RenderSnapshot, v: InteractionView, n: Seq<char>)
    requires
        snapshot_matches(s, v),
        standard_name_set().contains(n),
        v.solo.subset_of(standard_name_set()),
        v.mute.subset_of(standard_name_set()),
    ensures
        snapshot_name_state(s, n) == display_of(v, n).has_sound,
{
    let k = choose|i: int| 0 <= i < 16 && standard_names()[i] == n;
    lemma_standard_index_of(k);
    law_snapshot_agrees_with_display(s, v, k as u32);
}

/// In manual mode the audio plan follows the display: a channel of the layout
/// with a standard name is muted exactly when its display has no sound, and
/// its gain is that of a channel that is on exactly when the display has sound.
pub proof fn law_manual_plan_follows_display(p: RenderPlan, l: Layout, s: RenderSnapshot, v: InteractionView,
    lfe_boost: bool, low_boost: bool, i: int)
    requires
        manual_plan_ok(p, l, s, lfe_boost, low_boost),
        snapshot_matches(s, v),
        v.solo.subset_of(standard_name_set()),
        v.mute.subset_of(standard_name_set()),
        0 <= i < covered(l),
        l.channel_by_index@[i].valid,
        standard_name_set().contains(entry_text(l.channel_by_index@[i])),
    ensures
        bit32(p.channel_mute_mask, i as u32)
            == !display_of(v, entry_text(l.channel_by_index@[i])).has_sound,
        p.channel_gains@[i] == gain_of(display_of(v, entry_text(l.channel_by_index@[i])).has_sound, true,
            entry_text(l.channel_by_index@[i]), lfe_boost, low_boost),
{
    law_snapshot_by_name_agrees_with_display(s, v, entry_text(l.channel_by_index@[i]));
}

/// From idle, pressing SOLO twice returns to idle with everything cleared.
pub proof fn law_solo_button_twice_from_idle(v: InteractionView)
    requires
        v.primary == PrimaryMode::Off,
        v.compare == CompareMode::Off,
    ensures
        after_solo_button(after_solo_button(v)) == cleared(v),
{
}

/// From idle, pressing MUTE twice returns to idle with everything cleared.
pub proof fn law_mute_button_twice_from_idle(v: InteractionView)
    requires
        v.primary == PrimaryMode::Off,
        v.compare == CompareMode::Off,
    ensures
        after_mute_button(after_mute_button(v)) == cleared(v),
{
}

/// Entering and leaving the Solo compare mode (two SOLO presses under a Mute
/// primary mode) leaves the modes, the Mute set, the user mutes and the
/// memories as they were.
pub proof fn law_solo_compare_round_trip_keeps_mute_context(v: InteractionView)
    requires
        v.primary == PrimaryMode::Mute,
        v.compare == CompareMode::Off,
    ensures
        ({
            let w = after_solo_button(after_solo_button(v));
            &&& w.primary == v.primary
            &&& w.compare == v.compare
            &&& w.mute == v.mute
            &&& w.user_mute == v.user_mute
            &&& w.solo_memory == v.solo_memory
            &&& w.mute_memory == v.mute_memory
        }),
{
}

/// Entering and leaving the Mute compare mode (two MUTE presses under a Solo
/// primary mode) leaves the modes, the Solo set, the user mutes and the
/// memories as they were.
pub proof fn law_mute_compare_round_trip_keeps_solo_context(v: InteractionView)
    requires
        v.primary == PrimaryMode::Solo,
        v.compare == CompareMode::Off,
    ensures
        ({
            let w = after_mute_button(after_mute_button(v));
            &&& w.primary == v.primary
            &&& w.compare == v.compare
            &&& w.solo == v.solo
            &&& w.user_mute == v.user_mute
            &&& w.solo_memory == v.solo_memory
            &&& w.mute_memory == v.mute_memory
        }),
{
}

/// Entering a compare mode without memory copies the main channels of the
/// primary set: Solo compare under Mute starts from the muted main channels.
pub proof fn law_compare_entry_copies_main_channels(v: InteractionView)
    requires
        v.primary == PrimaryMode::Mute,
        v.compare == CompareMode::Off,
        !v.solo_memory,
    ensures
        after_solo_button(v).solo == v.mute.filter(|n: Seq<char>| !is_sub_name(n)),
        after_solo_button(v).compare == CompareMode::Solo,
{
}

/// Clicking the same channel twice restores both sets and the modes.
pub proof fn law_channel_click_twice_restores_sets(v: InteractionView, n: Seq<char>)
    ensures
        ({
            let w = after_channel_click(after_channel_click(v, n), n);
            &&& w.solo == v.solo
            &&& w.mute == v.mute
            &&& w.primary == v.primary
            &&& w.compare == v.compare
            &&& w.user_mute == v.user_mute
        }),
{
    let w1 = after_channel_click(v, n);
    let w = after_channel_click(w1, n);
    assert(active_context(w1) == active_context(v));
    assert(w.solo =~= v.solo);
    assert(w.mute =~= v.mute);
}

/// With no mode active every channel is displayed as sounding, and the
/// snapshot lets every channel pass.
pub proof fn law_idle_passes_everything(v: InteractionView, s: RenderSnapshot, n: Seq<char>, idx: u32)
    requires
        v.primary == PrimaryMode::Off,
        snapshot_matches(s, v),
    ensures
        display_of(v, n).has_sound,
        snapshot_channel_state(s, n, idx),
{
}

proof fn lemma_mask_names_of(m: u32, s: Set<Seq<char>>)
    requires
        mask_represents(m, s),
        s.subset_of(standard_name_set()),
    ensures
        mask_names(m) == s,
{
    lemma_standard_names_distinct();
    assert forall|n: Seq<char>| mask_names(m).contains(n) <==> s.contains(n) by {
        if s.contains(n) {
            assert(standard_name_set().contains(n));
            let i = choose|i: int| 0 <= i < 16 && standard_names()[i] == n;
            assert(bit32(m, i as u32));
            assert(standard_names()[(i as u32) as int] == n);
        }
        if mask_names(m).contains(n) {
            let i = choose|i: u32| i < 16 && standard_names()[i as int] == n && bit32(m, i);
        }
    }
    assert(mask_names(m) =~= s);
}

proof fn lemma_sub_mask_names_of(m: u8, s: Set<Seq<char>>)
    requires
        sub_mask_represents(m, s),
        s.subset_of(sub_name_set()),
    ensures
        sub_mask_names(m) == s,
{
    assert forall|n: Seq<char>| sub_mask_names(m).contains(n) <==> s.contains(n) by {
        if s.contains(n) {
            assert(sub_name_set().contains(n));
            let i = choose|i: int| 12 <= i < 16 && standard_names()[i] == n;
            let b = (i - 12) as u8;
            assert(standard_names()[12 + b] == n);
            assert(bit8(m, b));
        }
        if sub_mask_names(m).contains(n) {
            let i = choose|i: u8| i < 4 && standard_names()[12 + i] == n && bit8(m, i);
        }
    }
    assert(sub_mask_names(m) =~= s);
}

/// A Slave that imports the network state exported by a Master ends in the
/// Master's interaction state, provided the Master's sets hold standard
/// channel names only (and its user mutes standard SUB names only).
pub proof fn law_network_round_trip(v: InteractionView, s: NetworkInteractionState)
    requires
        s.primary == primary_code(v.primary),
        s.compare == compare_code(v.compare),
        mask_represents(s.solo_mask, v.solo),
        mask_represents(s.mute_mask, v.mute),
        sub_mask_represents(s.user_mute_sub_mask, v.user_mute),
        s.solo_has_memory == v.solo_memory,
        s.mute_has_memory == v.mute_memory,
        s.automation_mode == v.automation,
        v.solo.subset_of(standard_name_set()),
        v.mute.subset_of(standard_name_set()),
        v.user_mute.subset_of(sub_name_set()),
    ensures
        view_of_network_state(s) == v,
{
    lemma_mask_names_of(s.solo_mask, v.solo);
    lemma_mask_names_of(s.mute_mask, v.mute);
    lemma_sub_mask_names_of(s.user_mute_sub_mask, v.user_mute);
}

/// On a detector that remembers no click, a first click is single and a
/// second click on the same channel less than 300 ms later is a double
/// click, after which no click is remembered.
pub proof fn law_quick_second_click_is_double(d0: DoubleClickDetector, d1: DoubleClickDetector,
    d2: DoubleClickDetector, channel: usize, t1: u64, t2: u64, r1: bool, r2: bool)
    requires
        d0.last_channel() is None,
        d0.click_step(d1, channel, t1, r1),
        d1.click_step(d2, channel, t2, r2),
        t1 <= t2 < t1 + 300_000_000,
    ensures
        !r1,
        r2,
        d2.last_channel() is None,
        !d2.has_last_time(),
{
}

/// A second click on the same channel that comes 300 ms or more after the
/// first is not a double click: it becomes the remembered click.
pub proof fn law_slow_second_click_is_single(d0: DoubleClickDetector, d1: DoubleClickDetector,
    d2: DoubleClickDetector, channel: usize, t1: u64, t2: u64, r1: bool, r2: bool)
    requires
        d0.last_channel() is None,
        d0.click_step(d1, channel, t1, r1),
        d1.click_step(d2, channel, t2, r2),
        t2 >= t1 + 300_000_000,
    ensures
        !r1,
        !r2,
        d2.last_channel() == Some(channel),
        d2.last_time() == Some(t2),
{
}

/// Two clicks in a row are never both double clicks: a double click leaves
/// no click remembered.
pub proof fn law_no_two_double_clicks_in_a_row(d0: DoubleClickDetector, d1: DoubleClickDetector,
    d2: DoubleClickDetector, c1: usize, c2: usize, t1: u64, t2: u64, r1: bool, r2: bool)
    requires
        d0.click_step(d1, c1, t1, r1),
        d1.click_step(d2, c2, t2, r2),
    ensures
        !(r1 && r2),
{
}

/// The click after a single click (one that returned false, on channel `c0`
/// at `t0`) is a double click exactly when it is on `c0` and less than
/// 300 ms after `t0` (a reading before `t0` counts as no time at all).
pub proof fn law_click_after_single_click(d0: DoubleClickDetector, d1: DoubleClickDetector,
    d2: DoubleClickDetector, c0: usize, t0: u64, c: usize, t: u64, r2: bool)
    requires
        d0.click_step(d1, c0, t0, false),
        d1.click_step(d2, c, t, r2),
    ensures
        r2 == (c == c0 && (if t >= t0 { t - t0 } else { 0 }) < 300_000_000),
{
}

/// The click after a double click, and the first click of a detector that
/// remembers no click, are never double clicks.
pub proof fn law_click_without_remembered_click_is_single(d1: DoubleClickDetector, d2: DoubleClickDetector,
    c: usize, t: u64, r2: bool)
    requires
        d1.last_channel() is None,
        d1.click_step(d2, c, t, r2),
    ensures
        !r2,
{
}

/// Pressing MUTE while Mute is the primary mode (with Solo as compare mode
/// or with none) leaves everything: both modes off, the Solo and Mute sets,
/// the memories and the user mutes empty; only the automation flag stays.
pub proof fn law_mute_primary_button_exits_all(v: InteractionView)
    requires
        v.primary == PrimaryMode::Mute,
        v.compare != CompareMode::Mute,
    ensures
        ({
            let w = after_mute_button(v);
            &&& w.primary == PrimaryMode::Off
            &&& w.compare == CompareMode::Off
            &&& w.solo.is_empty()
            &&& w.mute.is_empty()
            &&& w.user_mute.is_empty()
            &&& !w.solo_memory
            &&& !w.mute_memory
            &&& w.automation == v.automation
        }),
{
}

/// Pressing SOLO while Solo is the primary mode (with Mute as compare mode
/// or with none) leaves everything: both modes off, the Solo and Mute sets,
/// the memories and the user mutes empty; only the automation flag stays.
pub proof fn law_solo_primary_button_exits_all(v: InteractionView)
    requires
        v.primary == PrimaryMode::Solo,
        v.compare != CompareMode::Solo,
    ensures
        ({
            let w = after_solo_button(v);
            &&& w.primary == PrimaryMode::Off
            &&& w.compare == CompareMode::Off
            &&& w.solo.is_empty()
            &&& w.mute.is_empty()
            &&& w.user_mute.is_empty()
            &&& !w.solo_memory
            &&& !w.mute_memory
            &&& w.automation == v.automation
        }),
{
}

/// Pressing the button of the compare mode leaves only the compare mode:
/// the primary mode, both sets, the memories and the user mutes stay.
pub proof fn law_compare_button_leaves_only_compare(v: InteractionView)
    ensures
        v.primary == PrimaryMode::Mute && v.compare == CompareMode::Solo ==> after_solo_button(v)
            == (InteractionView { compare: CompareMode::Off, ..v }),
        v.primary == PrimaryMode::Solo && v.compare == CompareMode::Mute ==> after_mute_button(v)
            == (InteractionView { compare: CompareMode::Off, ..v }),
{
}

/// From idle, a mode button makes its mode the primary one and changes
/// nothing else.
pub proof fn law_button_from_idle_enters_primary(v: InteractionView)
    requires
        v.primary == PrimaryMode::Off,
        v.compare == CompareMode::Off,
    ensures
        after_solo_button(v) == (InteractionView { primary: PrimaryMode::Solo, ..v }),
        after_mute_button(v) == (InteractionView { primary: PrimaryMode::Mute, ..v }),
{
}

/// Entering a compare mode keeps the primary mode and its set; the compare
/// set is the remembered one when it was edited in an earlier compare mode,
/// otherwise the main channels of the primary set.
pub proof fn law_compare_entry(v: InteractionView, n: Seq<char>)
    ensures
        v.primary == PrimaryMode::Mute && v.compare == CompareMode::Off ==> ({
            let w = after_solo_button(v);
            &&& w.primary == PrimaryMode::Mute
            &&& w.compare == CompareMode::Solo
            &&& w.mute == v.mute
            &&& w.solo.contains(n) == if v.solo_memory { v.solo.contains(n) } else {
                v.mute.contains(n) && !is_sub_name(n)
            }
        }),
        v.primary == PrimaryMode::Solo && v.compare == CompareMode::Off ==> ({
            let w = after_mute_button(v);
            &&& w.primary == PrimaryMode::Solo
            &&& w.compare == CompareMode::Mute
            &&& w.solo == v.solo
            &&& w.mute.contains(n) == if v.mute_memory { v.mute.contains(n) } else {
                v.solo.contains(n) && !is_sub_name(n)
            }
        }),
{
}

/// A channel click toggles the channel in the set of the active context
/// (the compare mode first, then the primary mode), keeps every other name
/// of that set, the other set and the modes, and does nothing when no mode
/// is active. An edit in a compare mode marks that set as remembered; an
/// edit of the primary set without a compare mode makes the other set's
/// memory stale.
pub proof fn law_channel_click_effect(v: InteractionView, n: Seq<char>, m: Seq<char>)
    ensures
        ({
            let w = after_channel_click(v, n);
            &&& active_context(v) is None ==> w == v
            &&& w.primary == v.primary && w.compare == v.compare && w.user_mute == v.user_mute
            &&& active_context(v) matches Some(ActiveContext::Solo) ==> {
                &&& w.mute == v.mute
                &&& w.solo.contains(m) == if m == n { !v.solo.contains(m) } else { v.solo.contains(m) }
            }
            &&& active_context(v) matches Some(ActiveContext::Mute) ==> {
                &&& w.solo == v.solo
                &&& w.mute.contains(m) == if m == n { !v.mute.contains(m) } else { v.mute.contains(m) }
            }
            &&& v.primary == PrimaryMode::Mute && v.compare == CompareMode::Solo ==> w.solo_memory
                && w.mute_memory == v.mute_memory
            &&& v.primary == PrimaryMode::Solo && v.compare == CompareMode::Mute ==> w.mute_memory
                && w.solo_memory == v.solo_memory
            &&& v.primary == PrimaryMode::Solo && v.compare == CompareMode::Off ==> !w.mute_memory
                && w.solo_memory == v.solo_memory
            &&& v.primary == PrimaryMode::Mute && v.compare == CompareMode::Off ==> !w.solo_memory
                && w.mute_memory == v.mute_memory
        }),
{
}

/// An edit of the Solo set made in Solo compare mode (under a Mute primary
/// mode) survives leaving and re-entering Solo compare.
pub proof fn law_solo_compare_edit_is_remembered(v: InteractionView, n: Seq<char>)
    requires
        v.primary == PrimaryMode::Mute,
        v.compare == CompareMode::Solo,
    ensures
        ({
            let w1 = after_channel_click(v, n);
            let w3 = after_solo_button(after_solo_button(w1));
            &&& w3.primary == PrimaryMode::Mute
            &&& w3.compare == CompareMode::Solo
            &&& w3.solo == w1.solo
            &&& w3.mute == v.mute
        }),
{
}

/// An edit of the Mute set made in Mute compare mode (under a Solo primary
/// mode) survives leaving and re-entering Mute compare.
pub proof fn law_mute_compare_edit_is_remembered(v: InteractionView, n: Seq<char>)
    requires
        v.primary == PrimaryMode::Solo,
        v.compare == CompareMode::Mute,
    ensures
        ({
            let w1 = after_channel_click(v, n);
            let w3 = after_mute_button(after_mute_button(w1));
            &&& w3.primary == PrimaryMode::Solo
            &&& w3.compare == CompareMode::Mute
            &&& w3.mute == w1.mute
            &&& w3.solo == v.solo
        }),
{
}

/// Display of a main channel while a mode is active, in terms of the set
/// of the active context: a channel in it shows the context's marker (Solo:
/// green and sounding; Mute: red and silent); a channel outside it shows the
/// opposite marker when the set holds some main channel, and no marker,
/// sounding, when it holds none. Only selected channels of a compare mode
/// blink.
pub proof fn law_main_channel_display(v: InteractionView, n: Seq<char>)
    requires
        v.primary != PrimaryMode::Off,
        !is_sub_name(n),
    ensures
        ({
            let d = display_of(v, n);
            &&& active_context(v) matches Some(ActiveContext::Solo) ==> {
                &&& v.solo.contains(n) ==> d.marker == Some(ChannelMarker::Solo) && d.has_sound
                &&& !v.solo.contains(n) && (exists|m: Seq<char>| v.solo.contains(m) && !is_sub_name(m))
                    ==> d.marker == Some(ChannelMarker::Mute) && !d.has_sound
                &&& !(exists|m: Seq<char>| v.solo.contains(m) && !is_sub_name(m)) ==> d.marker is None && d.has_sound
                &&& d.is_blinking == (v.compare != CompareMode::Off && v.solo.contains(n))
            }
            &&& active_context(v) matches Some(ActiveContext::Mute) ==> {
                &&& v.mute.contains(n) ==> d.marker == Some(ChannelMarker::Mute) && !d.has_sound
                &&& !v.mute.contains(n) && (exists|m: Seq<char>| v.mute.contains(m) && !is_sub_name(m))
                    ==> d.marker == Some(ChannelMarker::Solo) && d.has_sound
                &&& !(exists|m: Seq<char>| v.mute.contains(m) && !is_sub_name(m)) ==> d.marker is None && d.has_sound
                &&& d.is_blinking == (v.compare != CompareMode::Off && v.mute.contains(n))
            }
        }),
{
}

/// Display of a SUB channel while a mode is active: a user-muted SUB is red
/// and silent; otherwise it follows the primary mode's set (never the
/// compare set): when that set holds no SUB channel the SUB sounds, and when
/// it does, the SUB sounds exactly when it is in a Solo set or outside a
/// Mute set. A SUB channel never blinks.
pub proof fn law_sub_channel_display(v: InteractionView, n: Seq<char>)
    requires
        v.primary != PrimaryMode::Off,
        is_sub_name(n),
    ensures
        ({
            let d = display_of(v, n);
            let set = if v.primary == PrimaryMode::Solo { v.solo } else { v.mute };
            &&& !d.is_blinking
            &&& v.user_mute.contains(n) ==> d.marker == Some(ChannelMarker::Mute) && !d.has_sound
            &&& !v.user_mute.contains(n) && !(exists|m: Seq<char>| set.contains(m) && is_sub_name(m)) ==> d.has_sound
            &&& !v.user_mute.contains(n) && (exists|m: Seq<char>| set.contains(m) && is_sub_name(m))
                ==> d.has_sound == (set.contains(n) == (v.primary == PrimaryMode::Solo))
            &&& d.marker is Some || d.has_sound
            &&& d.has_sound == (d.marker != Some(ChannelMarker::Mute))
        }),
{
}

} // verus!
