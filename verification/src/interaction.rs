//! The Solo/Mute interaction state machine.
//!
//! A primary mode (Solo or Mute, lit steadily) may carry a compare mode (the
//! other one, blinking). Channel operations always act on the active context:
//! the compare mode when there is one, else the primary mode.
use vstd::prelude::*;
use crate::bitmask::{bit32, bit8, lemma_low12_zero, lemma_sub4_zero};
use crate::channel_names::{is_sub_name, standard_index, starts_with_sub, find_standard_index};
use crate::channel_set::{ChannelSet, set_has_main, set_has_sub, string_views};
use crate::clock::{instant_now, duration_since, duration_as_nanos};
use crate::network_protocol::{mask_represents, sub_mask_represents, mask_names, sub_mask_names, NetworkInteractionState, NETWORK_STATE_MAGIC};
use crate::config::AppConfig;
use crate::web_protocol::WebRestartAction;

verus! {

/// Primary mode: the mode entered first, lit steadily.
#[derive(Debug, Clone, Copy, PartialEq, Eq)]
pub enum PrimaryMode {
    /// No primary mode.
    Off,
    /// Solo is the primary mode (steady green).
    Solo,
    /// Mute is the primary mode (steady red).
    Mute,
}

impl Default for PrimaryMode {
    fn default() -> (m: Self)
        ensures
            m == PrimaryMode::Off,
    {
        PrimaryMode::Off
    }
}

/// Compare mode: the mode entered on top of the primary one, blinking.
#[derive(Debug, Clone, Copy, PartialEq, Eq)]
pub enum CompareMode {
    /// No compare mode.
    Off,
    /// Solo is the compare mode (blinking green).
    Solo,
    /// Mute is the compare mode (blinking red).
    Mute,
}

impl Default for CompareMode {
    fn default() -> (m: Self)
        ensures
            m == CompareMode::Off,
    {
        CompareMode::Off
    }
}

/// Wire code of a primary mode: 0 = None, 1 = Solo, 2 = Mute.
pub open spec fn primary_code(m: PrimaryMode) -> u8 {
    match m {
        PrimaryMode::Off => 0,
        PrimaryMode::Solo => 1,
        PrimaryMode::Mute => 2,
    }
}

/// Wire code of a compare mode: 0 = None, 1 = Solo, 2 = Mute.
pub open spec fn compare_code(m: CompareMode) -> u8 {
    match m {
        CompareMode::Off => 0,
        CompareMode::Solo => 1,
        CompareMode::Mute => 2,
    }
}

/// Snapshot of the interaction state read by the audio thread.
#[derive(Clone, Copy, Debug)]
pub struct RenderSnapshot {
    /// Primary mode: 0 = None, 1 = Solo, 2 = Mute.
    pub primary: u8,
    /// Compare mode: 0 = None, 1 = Solo, 2 = Mute.
    pub compare: u8,
    /// Whether the plugin is in automation mode.
    pub automation_mode: bool,
    /// Solo channels as a mask over the standard channel order.
    pub solo_mask: u32,
    /// Mute channels as a mask over the standard channel order.
    pub mute_mask: u32,
    /// User-muted SUB channels (bits 0..3 = SUB_F, SUB_B, SUB_L, SUB_R).
    pub user_mute_sub_mask: u8,
}

impl Default for RenderSnapshot {
    fn default() -> (s: Self)
        ensures
            s.primary == 0,
            s.compare == 0,
            !s.automation_mode,
            s.solo_mask == 0,
            s.mute_mask == 0,
            s.user_mute_sub_mask == 0,
    {
        RenderSnapshot {
            primary: 0,
            compare: 0,
            automation_mode: false,
            solo_mask: 0,
            mute_mask: 0,
            user_mute_sub_mask: 0,
        }
    }
}

/// Whether the channel `name` passes audio under snapshot `s`, given whether
/// it counts as a member of the Solo set (`in_solo`) and of the Mute set
/// (`in_mute`). Main channels follow the active context (compare mode first);
/// SUB channels follow the primary mode's set, and a user-muted SUB is silent.
pub open spec fn snapshot_state_given(s: RenderSnapshot, name: Seq<char>, in_solo: bool, in_mute: bool) -> bool {
    if s.primary == 0 {
        true
    } else if is_sub_name(name) {
        let b = standard_index(name) - 12;
        if b < 0 {
            true
        } else if bit8(s.user_mute_sub_mask, b as u8) {
            false
        } else {
            let solo_ctx = s.primary == 1;
            let m = if solo_ctx { s.solo_mask } else { s.mute_mask };
            let in_set = if solo_ctx { in_solo } else { in_mute };
            let sub_any = (m >> 12u32) & 0xFu32 != 0;
            let main_any = m & 0xFFFu32 != 0;
            if !main_any && !sub_any {
                true
            } else if !sub_any {
                true
            } else if solo_ctx {
                in_set
            } else {
                !in_set
            }
        }
    } else {
        let (solo_ctx, m) = if s.compare == 1 {
            (true, s.solo_mask)
        } else if s.compare == 2 {
            (false, s.mute_mask)
        } else if s.primary == 1 {
            (true, s.solo_mask)
        } else {
            (false, s.mute_mask)
        };
        let in_set = if solo_ctx { in_solo } else { in_mute };
        if m & 0xFFFu32 == 0 {
            true
        } else if solo_ctx {
            in_set
        } else {
            !in_set
        }
    }
}

/// Whether the channel `name` at bit position `idx` passes audio under snapshot `s`.
pub open spec fn snapshot_channel_state(s: RenderSnapshot, name: Seq<char>, idx: u32) -> bool {
    snapshot_state_given(s, name, bit32(s.solo_mask, idx), bit32(s.mute_mask, idx))
}

/// Whether mask `m` holds the standard channel `name` (at its position in the
/// standard order); never for a name outside that order.
pub open spec fn mask_has_name(m: u32, name: Seq<char>) -> bool {
    0 <= standard_index(name) < 16 && bit32(m, standard_index(name) as u32)
}

/// Whether the channel `name` passes audio under snapshot `s`, its set
/// membership read at its position in the standard order.
pub open spec fn snapshot_name_state(s: RenderSnapshot, name: Seq<char>) -> bool {
    snapshot_state_given(s, name, mask_has_name(s.solo_mask, name), mask_has_name(s.mute_mask, name))
}

impl RenderSnapshot {
    /// Whether the channel passes audio: `ch_name` is its name and `ch_idx` its
    /// bit position in the masks.
    pub fn get_channel_state(&self, ch_name: &str, ch_idx: usize) -> (r: bool)
        requires
            ch_idx < 32,
        ensures
            r == snapshot_channel_state(*self, ch_name@, ch_idx as u32),
    {
        let idx = ch_idx as u32;
        let in_solo = (self.solo_mask >> idx) & 1 == 1;
        let in_mute = (self.mute_mask >> idx) & 1 == 1;
        self.state_given(ch_name, in_solo, in_mute)
    }

    /// Whether the channel named `ch_name` passes audio, its Solo and Mute
    /// bits read at its position in the standard order (a name outside that
    /// order is in neither set).
    pub fn get_channel_state_by_name(&self, ch_name: &str) -> (r: bool)
        ensures
            r == snapshot_name_state(*self, ch_name@),
    {
        match find_standard_index(ch_name) {
            Some(k) => {
                let idx = k as u32;
                let in_solo = (self.solo_mask >> idx) & 1 == 1;
                let in_mute = (self.mute_mask >> idx) & 1 == 1;
                self.state_given(ch_name, in_solo, in_mute)
            },
            None => self.state_given(ch_name, false, false),
        }
    }

    fn state_given(&self, ch_name: &str, in_solo: bool, in_mute: bool) -> (r: bool)
        ensures
            r == snapshot_state_given(*self, ch_name@, in_solo, in_mute),
    {
        if self.primary == 0 {
            return true;
        }
        if starts_with_sub(ch_name) {
            let sub_bit: u8 = match find_standard_index(ch_name) {
                Some(i) => {
                    if i >= 12 {
                        (i - 12) as u8
                    } else {
                        return true;
                    }
                },
                None => {
                    return true;
                },
            };
            if (self.user_mute_sub_mask >> sub_bit) & 1 == 1 {
                return false;
            }
            let (context_is_solo, active_mask) = if self.primary == 1 {
                (true, self.solo_mask)
            } else {
                (false, self.mute_mask)
            };
            let is_in_set = if context_is_solo { in_solo } else { in_mute };
            let sub_mask = active_mask >> 12u32;
            let sub_set_has_any = sub_mask & 0xF != 0;
            let main_set_has_any = active_mask & 0xFFF != 0;
            if !main_set_has_any && !sub_set_has_any {
                return true;
            }
            if context_is_solo {
                if sub_set_has_any { is_in_set } else { true }
            } else {
                if sub_set_has_any { !is_in_set } else { true }
            }
        } else {
            let (context_is_solo, active_mask) = if self.compare == 1 {
                (true, self.solo_mask)
            } else if self.compare == 2 {
                (false, self.mute_mask)
            } else if self.primary == 1 {
                (true, self.solo_mask)
            } else {
                (false, self.mute_mask)
            };
            let is_in_set = if context_is_solo { in_solo } else { in_mute };
            let main_set_has_any = active_mask & 0xFFF != 0;
            if !main_set_has_any {
                return true;
            }
            if context_is_solo { is_in_set } else { !is_in_set }
        }
    }
}

/// Whether a click on `channel` at `now` (nanoseconds) completes a double
/// click: the remembered click was on the same channel, at `last_time`, less
/// than `DOUBLE_CLICK_THRESHOLD_NANOS` before (no time at all when `now`
/// comes first).
pub open spec fn is_double_click(last_channel: Option<usize>, last_time: Option<u64>, channel: usize, now: u64) -> bool {
    &&& last_channel == Some(channel)
    &&& last_time matches Some(t)
    &&& (if now >= t { now - t } else { 0 }) < DOUBLE_CLICK_THRESHOLD_NANOS
}

/// Two clicks on one channel less than this far apart (300 ms, in
/// nanoseconds) make a double click.
pub const DOUBLE_CLICK_THRESHOLD_NANOS: u64 = 300_000_000;

/// Detects two clicks on the same channel within the double-click threshold (300 ms).
pub struct DoubleClickDetector {
    origin: std::time::Instant,
    last_click_time: Option<u64>,
    last_click_channel: Option<usize>,
}

impl DoubleClickDetector {
    /// The channel of the remembered click, if any.
    pub closed spec fn last_channel(&self) -> Option<usize> {
        self.last_click_channel
    }

    /// The time of the remembered click, if any, in nanoseconds since the
    /// detector's clock origin.
    pub closed spec fn last_time(&self) -> Option<u64> {
        self.last_click_time
    }

    /// Whether a click time is remembered.
    pub open spec fn has_last_time(&self) -> bool {
        self.last_time() is Some
    }

    /// The point in time from which the detector counts.
    pub closed spec fn origin(&self) -> std::time::Instant {
        self.origin
    }

    /// Whether a click on `channel` at `now` completes a double click.
    pub open spec fn completes(&self, channel: usize, now: u64) -> bool {
        is_double_click(self.last_channel(), self.last_time(), channel, now)
    }

    /// `after` is `self` after a click on `channel` at `now` that returned
    /// `r`: a double click forgets the remembered click; any other click
    /// becomes the remembered one. The origin stays.
    pub open spec fn click_step(&self, after: Self, channel: usize, now: u64, r: bool) -> bool {
        &&& r == self.completes(channel, now)
        &&& r ==> (after.last_channel() is None) && (after.last_time() is None)
        &&& !r ==> after.last_channel() == Some(channel) && after.last_time() == Some(now)
        &&& after.origin() == self.origin()
    }

    /// A detector that remembers no click, with a threshold of 300 ms.
    pub fn new() -> (d: Self)
        ensures
            (d.last_channel() is None),
            !d.has_last_time(),
    {
        DoubleClickDetector {
            origin: instant_now(),
            last_click_time: None,
            last_click_channel: None,
        }
    }

    /// Registers a click on `channel` at `now`, in nanoseconds since the
    /// detector's origin; true when it completes a double click, that is
    /// when the remembered click was on the same channel less than the
    /// threshold before. A double click forgets the remembered click; any
    /// other click becomes the remembered one.
    pub fn check_at(&mut self, channel: usize, now: u64) -> (r: bool)
        ensures
            old(self).click_step(*final(self), channel, now, r),
    {
        if let (Some(last_time), Some(last_ch)) = (self.last_click_time, self.last_click_channel) {
            let elapsed: u64 = if now >= last_time { now - last_time } else { 0 };
            if last_ch == channel && elapsed < DOUBLE_CLICK_THRESHOLD_NANOS {
                self.last_click_time = None;
                self.last_click_channel = None;
                return true;
            }
        }
        self.last_click_time = Some(now);
        self.last_click_channel = Some(channel);
        false
    }

    /// Registers a click on `channel` now, as `check_at` does with the time
    /// read from the monotonic clock (nanoseconds since the detector's
    /// origin, saturated to 64 bits).
    pub fn check(&mut self, channel: usize) -> (r: bool)
        ensures
            exists|now: u64| old(self).click_step(*final(self), channel, now, r),
    {
        let elapsed = duration_as_nanos(&duration_since(&instant_now(), &self.origin));
        let now: u64 = if elapsed > 0xFFFF_FFFF_FFFF_FFFFu128 { 0xFFFF_FFFF_FFFF_FFFFu64 } else { elapsed as u64 };
        self.check_at(channel, now)
    }
}

/// Display marker of a channel.
#[derive(Debug, Clone, Copy, PartialEq, Eq)]
pub enum ChannelMarker {
    Solo,
    Mute,
}

/// Kind of click on a SUB channel.
#[derive(Debug, Clone, Copy, PartialEq, Eq)]
pub enum SubClickType {
    SingleClick,
    DoubleClick,
}

/// Display state of a channel.
#[derive(Debug, Clone, Copy)]
pub struct ChannelDisplay {
    /// Whether the channel passes audio.
    pub has_sound: bool,
    /// S or M marker, if any.
    pub marker: Option<ChannelMarker>,
    /// Whether the channel blinks (a selected channel of the compare mode).
    pub is_blinking: bool,
}

} // verus!

verus! {

/// The abstract interaction state.
pub struct InteractionView {
    pub primary: PrimaryMode,
    pub compare: CompareMode,
    /// Solo context (channel names).
    pub solo: Set<Seq<char>>,
    /// Mute context (channel names).
    pub mute: Set<Seq<char>>,
    /// Whether the Solo set was edited while Solo was the compare mode.
    pub solo_memory: bool,
    /// Whether the Mute set was edited while Mute was the compare mode.
    pub mute_memory: bool,
    /// SUB channels forced silent by a double click.
    pub user_mute: Set<Seq<char>>,
    pub automation: bool,
}

/// The context that channel operations act on.
pub enum ActiveContext {
    Solo,
    Mute,
}

/// The context channel operations act on: the compare mode first, then the primary mode.
pub open spec fn active_context(v: InteractionView) -> Option<ActiveContext> {
    match v.compare {
        CompareMode::Solo => Some(ActiveContext::Solo),
        CompareMode::Mute => Some(ActiveContext::Mute),
        CompareMode::Off => match v.primary {
            PrimaryMode::Solo => Some(ActiveContext::Solo),
            PrimaryMode::Mute => Some(ActiveContext::Mute),
            PrimaryMode::Off => None,
        },
    }
}

/// The names of `s` that are not SUB names.
pub open spec fn main_names(s: Set<Seq<char>>) -> Set<Seq<char>> {
    s.filter(|n: Seq<char>| !is_sub_name(n))
}

/// Both modes off, all sets and memories cleared; the automation flag is kept.
pub open spec fn cleared(v: InteractionView) -> InteractionView {
    InteractionView {
        primary: PrimaryMode::Off,
        compare: CompareMode::Off,
        solo: Set::empty(),
        mute: Set::empty(),
        solo_memory: false,
        mute_memory: false,
        user_mute: Set::empty(),
        automation: v.automation,
    }
}

/// State after a press of the SOLO button.
pub open spec fn after_solo_button(v: InteractionView) -> InteractionView {
    match (v.primary, v.compare) {
        (PrimaryMode::Off, CompareMode::Off) => InteractionView { primary: PrimaryMode::Solo, ..v },
        (PrimaryMode::Solo, CompareMode::Off) => cleared(v),
        (PrimaryMode::Mute, CompareMode::Off) => InteractionView {
            compare: CompareMode::Solo,
            solo: if v.solo_memory { v.solo } else { main_names(v.mute) },
            ..v
        },
        (PrimaryMode::Mute, CompareMode::Solo) => InteractionView { compare: CompareMode::Off, ..v },
        (PrimaryMode::Solo, CompareMode::Mute) => cleared(v),
        _ => v,
    }
}

/// State after a press of the MUTE button.
pub open spec fn after_mute_button(v: InteractionView) -> InteractionView {
    match (v.primary, v.compare) {
        (PrimaryMode::Off, CompareMode::Off) => InteractionView { primary: PrimaryMode::Mute, ..v },
        (PrimaryMode::Mute, CompareMode::Off) => cleared(v),
        (PrimaryMode::Solo, CompareMode::Off) => InteractionView {
            compare: CompareMode::Mute,
            mute: if v.mute_memory { v.mute } else { main_names(v.solo) },
            ..v
        },
        (PrimaryMode::Solo, CompareMode::Mute) => InteractionView { compare: CompareMode::Off, ..v },
        (PrimaryMode::Mute, CompareMode::Solo) => cleared(v),
        _ => v,
    }
}

/// Toggles `n` in `s`.
pub open spec fn toggled(s: Set<Seq<char>>, n: Seq<char>) -> Set<Seq<char>> {
    if s.contains(n) { s.remove(n) } else { s.insert(n) }
}

/// State after a click on channel `n`.
pub open spec fn after_channel_click(v: InteractionView, n: Seq<char>) -> InteractionView {
    match active_context(v) {
        None => v,
        Some(ActiveContext::Solo) => InteractionView {
            solo: toggled(v.solo, n),
            mute_memory: if v.primary == PrimaryMode::Solo && v.compare == CompareMode::Off { false } else { v.mute_memory },
            solo_memory: if v.primary == PrimaryMode::Mute && v.compare == CompareMode::Solo { true } else { v.solo_memory },
            ..v
        },
        Some(ActiveContext::Mute) => InteractionView {
            mute: toggled(v.mute, n),
            solo_memory: if v.primary == PrimaryMode::Mute && v.compare == CompareMode::Off { false } else { v.solo_memory },
            mute_memory: if v.primary == PrimaryMode::Solo && v.compare == CompareMode::Mute { true } else { v.mute_memory },
            ..v
        },
    }
}

/// State after an OSC target-state command on channel `n`
/// (0 = off, 1 = mute, 2 = solo, in the active context).
pub open spec fn after_set_channel_state(v: InteractionView, n: Seq<char>, state: u8) -> InteractionView {
    match active_context(v) {
        None => v,
        Some(ActiveContext::Solo) => if state == 0 {
            InteractionView { solo: v.solo.remove(n), ..v }
        } else if state == 2 {
            InteractionView { solo: v.solo.insert(n), ..v }
        } else {
            v
        },
        Some(ActiveContext::Mute) => if state == 0 {
            InteractionView { mute: v.mute.remove(n), ..v }
        } else if state == 1 {
            InteractionView { mute: v.mute.insert(n), ..v }
        } else {
            v
        },
    }
}

/// Primary mode left when its set became empty.
pub open spec fn exit_empty_mode(v: InteractionView) -> InteractionView {
    if v.solo.is_empty() && v.primary == PrimaryMode::Solo {
        InteractionView { primary: PrimaryMode::Off, ..v }
    } else if v.mute.is_empty() && v.primary == PrimaryMode::Mute {
        InteractionView { primary: PrimaryMode::Off, ..v }
    } else {
        v
    }
}

/// State after a "sound on / sound off" command on channel `n`.
pub open spec fn after_set_channel_sound(v: InteractionView, n: Seq<char>, has_sound: bool, can_exit_if_empty: bool) -> InteractionView {
    match active_context(v) {
        None => v,
        Some(ctx) => {
            let w = match ctx {
                ActiveContext::Solo => InteractionView {
                    solo: if has_sound { v.solo.insert(n) } else { v.solo.remove(n) },
                    ..v
                },
                ActiveContext::Mute => InteractionView {
                    mute: if has_sound { v.mute.remove(n) } else { v.mute.insert(n) },
                    ..v
                },
            };
            if can_exit_if_empty { exit_empty_mode(w) } else { w }
        },
    }
}

/// Display state of channel `n` in state `v`.
pub open spec fn display_of(v: InteractionView, n: Seq<char>) -> ChannelDisplay {
    if v.primary == PrimaryMode::Off {
        ChannelDisplay { has_sound: true, marker: None, is_blinking: false }
    } else if is_sub_name(n) {
        if v.user_mute.contains(n) {
            ChannelDisplay { has_sound: false, marker: Some(ChannelMarker::Mute), is_blinking: false }
        } else {
            let solo_ctx = v.primary == PrimaryMode::Solo;
            let set = if solo_ctx { v.solo } else { v.mute };
            let sub_any = set_has_sub(set);
            let main_any = set_has_main(set);
            if !main_any && !sub_any {
                ChannelDisplay { has_sound: true, marker: None, is_blinking: false }
            } else {
                let solo_marker = !sub_any || (set.contains(n) == solo_ctx);
                ChannelDisplay {
                    has_sound: solo_marker,
                    marker: Some(if solo_marker { ChannelMarker::Solo } else { ChannelMarker::Mute }),
                    is_blinking: false,
                }
            }
        }
    } else {
        let compare_mode = v.compare != CompareMode::Off;
        let solo_ctx = v.compare == CompareMode::Solo || (v.compare == CompareMode::Off && v.primary == PrimaryMode::Solo);
        let set = if solo_ctx { v.solo } else { v.mute };
        let in_set = set.contains(n);
        let marker = if in_set {
            Some(if solo_ctx { ChannelMarker::Solo } else { ChannelMarker::Mute })
        } else if set_has_main(set) {
            Some(if solo_ctx { ChannelMarker::Mute } else { ChannelMarker::Solo })
        } else {
            None
        };
        ChannelDisplay {
            has_sound: marker != Some(ChannelMarker::Mute),
            marker,
            is_blinking: compare_mode && in_set,
        }
    }
}

/// Whether snapshot `s` encodes state `v`.
pub open spec fn snapshot_matches(s: RenderSnapshot, v: InteractionView) -> bool {
    &&& s.primary == primary_code(v.primary)
    &&& s.compare == compare_code(v.compare)
    &&& s.automation_mode == v.automation
    &&& mask_represents(s.solo_mask, v.solo)
    &&& mask_represents(s.mute_mask, v.mute)
    &&& sub_mask_represents(s.user_mute_sub_mask, v.user_mute)
}

} // verus!

verus! {

/// The interaction state machine of one plugin instance.
pub struct InteractionManager {
    primary: PrimaryMode,
    compare: CompareMode,
    solo_set: ChannelSet,
    mute_set: ChannelSet,
    solo_has_memory: bool,
    mute_has_memory: bool,
    user_mute_sub: ChannelSet,
    double_click: DoubleClickDetector,
    blink_counter: u32,
    automation_mode: bool,
    network_master_gain: Option<u32>,
    network_dim: Option<bool>,
    network_cut: Option<bool>,
    network_layout: Option<i32>,
    network_sub_layout: Option<i32>,
    osc_restart_config: Option<AppConfig>,
    osc_restart_pending: bool,
    network_restart_config: Option<AppConfig>,
    network_restart_pending: bool,
    web_restart_action: Option<WebRestartAction>,
    web_restart_pending: bool,
    render_snapshot: RenderSnapshot,
}

impl View for InteractionManager {
    type V = InteractionView;

    closed spec fn view(&self) -> InteractionView {
        InteractionView {
            primary: self.primary,
            compare: self.compare,
            solo: self.solo_set@,
            mute: self.mute_set@,
            solo_memory: self.solo_has_memory,
            mute_memory: self.mute_has_memory,
            user_mute: self.user_mute_sub@,
            automation: self.automation_mode,
        }
    }
}

impl InteractionManager {
    /// Well-formedness: the sets hold no duplicate and the render snapshot
    /// encodes the current state.
    pub closed spec fn wf(&self) -> bool {
        &&& self.solo_set.wf()
        &&& self.mute_set.wf()
        &&& self.user_mute_sub.wf()
        &&& snapshot_matches(self.render_snapshot, self@)
    }

    /// A well-formed manager's snapshot encodes its state.
    pub proof fn lemma_wf_snapshot(&self)
        requires
            self.wf(),
        ensures
            snapshot_matches(self.snapshot(), self@),
    {
    }

    /// The snapshot last published for the audio thread.
    pub closed spec fn snapshot(&self) -> RenderSnapshot {
        self.render_snapshot
    }

    /// The blink animation counter.
    pub closed spec fn blink(&self) -> u32 {
        self.blink_counter
    }

    /// The double-click detector.
    pub closed spec fn detector(&self) -> DoubleClickDetector {
        self.double_click
    }

    /// Values received from the Master and not yet taken:
    /// (gain bits, dim, cut, layout, SUB layout).
    pub closed spec fn network_values(&self) -> (Option<u32>, Option<bool>, Option<bool>, Option<i32>, Option<i32>) {
        (self.network_master_gain, self.network_dim, self.network_cut, self.network_layout, self.network_sub_layout)
    }

    /// Pending OSC restart: (flag, configuration).
    pub closed spec fn osc_restart(&self) -> (bool, Option<AppConfig>) {
        (self.osc_restart_pending, self.osc_restart_config)
    }

    /// Pending network restart: (flag, configuration).
    pub closed spec fn network_restart(&self) -> (bool, Option<AppConfig>) {
        (self.network_restart_pending, self.network_restart_config)
    }

    /// Pending Web restart: (flag, action).
    pub closed spec fn web_restart(&self) -> (bool, Option<WebRestartAction>) {
        (self.web_restart_pending, self.web_restart_action)
    }

    /// Everything but the interaction state proper is left as it was.
    pub open spec fn same_side_state(&self, other: &Self) -> bool {
        &&& self.blink() == other.blink()
        &&& self.detector() == other.detector()
        &&& self.network_values() == other.network_values()
        &&& self.osc_restart() == other.osc_restart()
        &&& self.network_restart() == other.network_restart()
        &&& self.web_restart() == other.web_restart()
    }

    /// An idle manager: no mode, empty sets, nothing pending.
    pub fn new() -> (m: Self)
        ensures
            m.wf(),
            m@ == cleared(m@),
            !m@.automation,
            m.blink() == 0,
            (m.detector().last_channel() is None),
            !m.detector().has_last_time(),
            m.network_values() == (None::<u32>, None::<bool>, None::<bool>, None::<i32>, None::<i32>),
            m.osc_restart() == (false, None::<AppConfig>),
            m.network_restart() == (false, None::<AppConfig>),
            m.web_restart() == (false, None::<WebRestartAction>),
    {
        let mut m = InteractionManager {
            primary: PrimaryMode::Off,
            compare: CompareMode::Off,
            solo_set: ChannelSet::new(),
            mute_set: ChannelSet::new(),
            solo_has_memory: false,
            mute_has_memory: false,
            user_mute_sub: ChannelSet::new(),
            double_click: DoubleClickDetector::new(),
            blink_counter: 0,
            automation_mode: false,
            network_master_gain: None,
            network_dim: None,
            network_cut: None,
            network_layout: None,
            network_sub_layout: None,
            osc_restart_config: None,
            osc_restart_pending: false,
            network_restart_config: None,
            network_restart_pending: false,
            web_restart_action: None,
            web_restart_pending: false,
            render_snapshot: RenderSnapshot::default(),
        };
        m.update_snapshot();
        m
    }

    /// Recomputes the render snapshot from the current state.
    fn update_snapshot(&mut self)
        requires
            old(self).solo_set.wf(),
            old(self).mute_set.wf(),
            old(self).user_mute_sub.wf(),
        ensures
            final(self).wf(),
            final(self)@ == old(self)@,
            final(self).same_side_state(old(self)),
    {
        let primary: u8 = match self.primary {
            PrimaryMode::Off => 0,
            PrimaryMode::Solo => 1,
            PrimaryMode::Mute => 2,
        };
        let compare: u8 = match self.compare {
            CompareMode::Off => 0,
            CompareMode::Solo => 1,
            CompareMode::Mute => 2,
        };
        let solo_mask = NetworkInteractionState::channel_set_to_mask(&self.solo_set);
        let mute_mask = NetworkInteractionState::channel_set_to_mask(&self.mute_set);
        let user_mute_sub_mask = NetworkInteractionState::sub_set_to_mask(&self.user_mute_sub);
        self.render_snapshot = RenderSnapshot {
            primary,
            compare,
            automation_mode: self.automation_mode,
            solo_mask,
            mute_mask,
            user_mute_sub_mask,
        };
    }

    // ---------- queries ----------

    /// Whether no primary mode is active.
    pub fn is_idle(&self) -> (r: bool)
        ensures
            r == (self@.primary == PrimaryMode::Off),
    {
        matches!(self.primary, PrimaryMode::Off)
    }

    pub fn get_primary(&self) -> (m: PrimaryMode)
        ensures
            m == self@.primary,
    {
        self.primary
    }

    pub fn get_compare(&self) -> (m: CompareMode)
        ensures
            m == self@.compare,
    {
        self.compare
    }

    /// Whether the SOLO button is lit steadily.
    pub fn is_solo_steady(&self) -> (r: bool)
        ensures
            r == (self@.primary == PrimaryMode::Solo),
    {
        matches!(self.primary, PrimaryMode::Solo)
    }

    /// Whether the SOLO button blinks.
    pub fn is_solo_blinking(&self) -> (r: bool)
        ensures
            r == (self@.compare == CompareMode::Solo),
    {
        matches!(self.compare, CompareMode::Solo)
    }

    /// Whether the MUTE button is lit steadily.
    pub fn is_mute_steady(&self) -> (r: bool)
        ensures
            r == (self@.primary == PrimaryMode::Mute),
    {
        matches!(self.primary, PrimaryMode::Mute)
    }

    /// Whether the MUTE button blinks.
    pub fn is_mute_blinking(&self) -> (r: bool)
        ensures
            r == (self@.compare == CompareMode::Mute),
    {
        matches!(self.compare, CompareMode::Mute)
    }

    /// A copy of the Solo set.
    pub fn get_solo_set(&self) -> (s: ChannelSet)
        requires
            self.wf(),
        ensures
            s.wf(),
            s@ == self@.solo,
    {
        self.solo_set.duplicate()
    }

    /// A copy of the Mute set.
    pub fn get_mute_set(&self) -> (s: ChannelSet)
        requires
            self.wf(),
        ensures
            s.wf(),
            s@ == self@.mute,
    {
        self.mute_set.duplicate()
    }

    pub fn is_in_solo_set(&self, ch_name: &str) -> (r: bool)
        ensures
            r == self@.solo.contains(ch_name@),
    {
        self.solo_set.contains(ch_name)
    }

    pub fn is_in_mute_set(&self, ch_name: &str) -> (r: bool)
        ensures
            r == self@.mute.contains(ch_name@),
    {
        self.mute_set.contains(ch_name)
    }

    /// The snapshot for the audio thread; it encodes the current state.
    pub fn get_snapshot(&self) -> (s: RenderSnapshot)
        requires
            self.wf(),
        ensures
            s == self.snapshot(),
            snapshot_matches(s, self@),
    {
        self.render_snapshot
    }

    pub fn is_automation_mode(&self) -> (r: bool)
        ensures
            r == self@.automation,
    {
        self.automation_mode
    }
}

} // verus!

verus! {

impl InteractionManager {
    /// Clears modes, sets and memories; keeps the automation flag.
    fn reset_to_idle(&mut self)
        requires
            old(self).solo_set.wf(),
            old(self).mute_set.wf(),
            old(self).user_mute_sub.wf(),
        ensures
            final(self).solo_set.wf(),
            final(self).mute_set.wf(),
            final(self).user_mute_sub.wf(),
            final(self)@ == cleared(old(self)@),
            final(self).same_side_state(old(self)),
    {
        self.primary = PrimaryMode::Off;
        self.compare = CompareMode::Off;
        self.solo_set.clear();
        self.mute_set.clear();
        self.solo_has_memory = false;
        self.mute_has_memory = false;
        self.user_mute_sub.clear();
    }

    /// Enters automation mode, clearing the whole interaction state.
    pub fn enter_automation_mode(&mut self)
        requires
            old(self).wf(),
        ensures
            final(self).wf(),
            final(self)@ == cleared((InteractionView { automation: true, ..old(self)@ })),
            final(self).same_side_state(old(self)),
    {
        self.reset_to_idle();
        self.automation_mode = true;
        self.update_snapshot();
    }

    /// Leaves automation mode; the state stays idle.
    pub fn exit_automation_mode(&mut self)
        requires
            old(self).wf(),
        ensures
            final(self).wf(),
            final(self)@ == (InteractionView { automation: false, ..old(self)@ }),
            final(self).same_side_state(old(self)),
    {
        self.automation_mode = false;
        self.update_snapshot();
    }

    /// Clears the state when the layout changes, so that channels of the old
    /// layout do not leak into the new one.
    pub fn clear_on_layout_change(&mut self)
        requires
            old(self).wf(),
        ensures
            final(self).wf(),
            final(self)@ == cleared(old(self)@),
            final(self).same_side_state(old(self)),
    {
        self.reset_to_idle();
        self.update_snapshot();
    }

    /// The main (non-SUB) channels of `source`, used when a compare mode starts.
    fn copy_set(source: &ChannelSet) -> (r: ChannelSet)
        requires
            source.wf(),
        ensures
            r.wf(),
            r@ == main_names(source@),
    {
        source.main_only()
    }

    /// SOLO button press.
    pub fn on_solo_button_click(&mut self)
        requires
            old(self).wf(),
        ensures
            final(self).wf(),
            final(self)@ == after_solo_button(old(self)@),
            final(self).same_side_state(old(self)),
    {
        match (self.primary, self.compare) {
            (PrimaryMode::Off, CompareMode::Off) => {
                self.primary = PrimaryMode::Solo;
            },
            (PrimaryMode::Solo, CompareMode::Off) => {
                self.reset_to_idle();
            },
            (PrimaryMode::Mute, CompareMode::Off) => {
                if !self.solo_has_memory {
                    self.solo_set = Self::copy_set(&self.mute_set);
                }
                self.compare = CompareMode::Solo;
            },
            (PrimaryMode::Mute, CompareMode::Solo) => {
                self.compare = CompareMode::Off;
            },
            (PrimaryMode::Solo, CompareMode::Mute) => {
                self.reset_to_idle();
            },
            _ => {},
        }
        self.update_snapshot();
    }

    /// MUTE button press.
    pub fn on_mute_button_click(&mut self)
        requires
            old(self).wf(),
        ensures
            final(self).wf(),
            final(self)@ == after_mute_button(old(self)@),
            final(self).same_side_state(old(self)),
    {
        match (self.primary, self.compare) {
            (PrimaryMode::Off, CompareMode::Off) => {
                self.primary = PrimaryMode::Mute;
            },
            (PrimaryMode::Mute, CompareMode::Off) => {
                self.reset_to_idle();
            },
            (PrimaryMode::Solo, CompareMode::Off) => {
                if !self.mute_has_memory {
                    self.mute_set = Self::copy_set(&self.solo_set);
                }
                self.compare = CompareMode::Mute;
            },
            (PrimaryMode::Solo, CompareMode::Mute) => {
                self.compare = CompareMode::Off;
            },
            (PrimaryMode::Mute, CompareMode::Solo) => {
                self.reset_to_idle();
            },
            _ => {},
        }
        self.update_snapshot();
    }

    /// The context that channel operations act on (compare mode first).
    fn get_active_context(&self) -> (c: Option<ActiveContext>)
        ensures
            c == active_context(self@),
    {
        match self.compare {
            CompareMode::Solo => return Some(ActiveContext::Solo),
            CompareMode::Mute => return Some(ActiveContext::Mute),
            CompareMode::Off => {},
        }
        match self.primary {
            PrimaryMode::Solo => Some(ActiveContext::Solo),
            PrimaryMode::Mute => Some(ActiveContext::Mute),
            PrimaryMode::Off => None,
        }
    }

    /// Click on a channel: toggles it in the active context. Returns false,
    /// changing nothing, when no mode is active.
    pub fn on_channel_click(&mut self, ch_name: &str) -> (r: bool)
        requires
            old(self).wf(),
        ensures
            final(self).wf(),
            r == (active_context(old(self)@) is Some),
            final(self)@ == after_channel_click(old(self)@, ch_name@),
            final(self).same_side_state(old(self)),
    {
        let primary = self.primary;
        let compare = self.compare;
        match self.get_active_context() {
            None => false,
            Some(ActiveContext::Solo) => {
                self.solo_set.toggle(ch_name);
                match (primary, compare) {
                    (PrimaryMode::Solo, CompareMode::Off) => {
                        self.mute_has_memory = false;
                    },
                    (PrimaryMode::Mute, CompareMode::Solo) => {
                        self.solo_has_memory = true;
                    },
                    _ => {},
                }
                self.update_snapshot();
                true
            },
            Some(ActiveContext::Mute) => {
                self.mute_set.toggle(ch_name);
                match (primary, compare) {
                    (PrimaryMode::Mute, CompareMode::Off) => {
                        self.solo_has_memory = false;
                    },
                    (PrimaryMode::Solo, CompareMode::Mute) => {
                        self.mute_has_memory = true;
                    },
                    _ => {},
                }
                self.update_snapshot();
                true
            },
        }
    }

    /// Sets a channel to a target state in the active context
    /// (0 = off, 1 = mute, 2 = solo); other values are ignored.
    pub fn set_channel_state(&mut self, ch_name: &str, state: u8)
        requires
            old(self).wf(),
        ensures
            final(self).wf(),
            final(self)@ == after_set_channel_state(old(self)@, ch_name@, state),
            final(self).same_side_state(old(self)),
    {
        match self.get_active_context() {
            None => {},
            Some(ActiveContext::Solo) => {
                if state == 0 {
                    self.solo_set.set(ch_name, false);
                } else if state == 2 {
                    self.solo_set.set(ch_name, true);
                }
            },
            Some(ActiveContext::Mute) => {
                if state == 0 {
                    self.mute_set.set(ch_name, false);
                } else if state == 1 {
                    self.mute_set.set(ch_name, true);
                }
            },
        }
        self.update_snapshot();
    }

    /// Leaves a primary mode whose set became empty.
    fn check_and_exit_empty_mode(&mut self)
        requires
            old(self).solo_set.wf(),
            old(self).mute_set.wf(),
        ensures
            final(self).solo_set == old(self).solo_set,
            final(self).mute_set == old(self).mute_set,
            final(self).user_mute_sub == old(self).user_mute_sub,
            final(self)@ == exit_empty_mode(old(self)@),
            final(self).same_side_state(old(self)),
    {
        let solo_empty = self.solo_set.is_empty();
        let mute_empty = self.mute_set.is_empty();
        if solo_empty && matches!(self.primary, PrimaryMode::Solo) {
            self.primary = PrimaryMode::Off;
        }
        if mute_empty && matches!(self.primary, PrimaryMode::Mute) {
            self.primary = PrimaryMode::Off;
        }
    }

    /// Sets whether a channel is heard, in the terms of the active context
    /// (Solo: heard = in the set; Mute: heard = not in the set). With
    /// `can_exit_if_empty`, a primary mode whose set became empty is left.
    /// Ignored when no mode is active.
    pub fn set_channel_sound(&mut self, ch_name: &str, has_sound: bool, can_exit_if_empty: bool)
        requires
            old(self).wf(),
        ensures
            final(self).wf(),
            final(self)@ == after_set_channel_sound(old(self)@, ch_name@, has_sound, can_exit_if_empty),
            final(self).same_side_state(old(self)),
    {
        match self.get_active_context() {
            Some(ActiveContext::Solo) => {
                self.solo_set.set(ch_name, has_sound);
            },
            Some(ActiveContext::Mute) => {
                self.mute_set.set(ch_name, !has_sound);
            },
            None => {
                return;
            },
        }
        if can_exit_if_empty {
            self.check_and_exit_empty_mode();
        }
        self.update_snapshot();
    }

    /// Double click on a SUB channel: toggles its user mute. Returns false,
    /// changing nothing, for a name that does not start with "SUB".
    pub fn on_sub_double_click(&mut self, ch_name: &str) -> (r: bool)
        requires
            old(self).wf(),
        ensures
            final(self).wf(),
            r == is_sub_name(ch_name@),
            final(self)@ == (if r {
                InteractionView { user_mute: toggled(old(self)@.user_mute, ch_name@), ..old(self)@ }
            } else {
                old(self)@
            }),
            final(self).same_side_state(old(self)),
    {
        if starts_with_sub(ch_name) {
            self.user_mute_sub.toggle(ch_name);
            self.update_snapshot();
            true
        } else {
            false
        }
    }

    /// Classifies a click on SUB channel `ch`, made now, as single or double
    /// (see `DoubleClickDetector::check`).
    pub fn detect_sub_click(&mut self, ch: usize) -> (t: SubClickType)
        requires
            old(self).wf(),
        ensures
            final(self).wf(),
            final(self)@ == old(self)@,
            ({
                let double = t == SubClickType::DoubleClick;
                exists|now: u64| old(self).detector().click_step(final(self).detector(), ch, now, double)
            }),
            final(self).snapshot() == old(self).snapshot(),
    {
        let ghost d0 = self.double_click;
        let double = self.double_click.check(ch);
        let t = if double { SubClickType::DoubleClick } else { SubClickType::SingleClick };
        proof {
            let now = choose|now: u64| d0.click_step(self.double_click, ch, now, double);
            assert(double == (t == SubClickType::DoubleClick));
            assert(d0.click_step(self.double_click, ch, now, t == SubClickType::DoubleClick));
        }
        t
    }
}

} // verus!

verus! {

impl InteractionManager {
    /// Display state of a channel.
    /// Main channels follow the active context (compare mode first); SUB
    /// channels always follow the primary mode's set, and a user-muted SUB is
    /// silent. Only selected channels of a compare mode blink.
    pub fn get_channel_display(&self, ch_name: &str) -> (d: ChannelDisplay)
        requires
            self.wf(),
        ensures
            d == display_of(self@, ch_name@),
    {
        let is_sub = starts_with_sub(ch_name);
        if matches!(self.primary, PrimaryMode::Off) {
            return ChannelDisplay { has_sound: true, marker: None, is_blinking: false };
        }
        if is_sub {
            if self.user_mute_sub.contains(ch_name) {
                return ChannelDisplay {
                    has_sound: false,
                    marker: Some(ChannelMarker::Mute),
                    is_blinking: false,
                };
            }
            let solo_ctx = matches!(self.primary, PrimaryMode::Solo);
            let active_set = if solo_ctx { &self.solo_set } else { &self.mute_set };
            let is_in_sub_set = active_set.contains(ch_name);
            let sub_set_has_any = active_set.has_any_sub();
            let main_set_has_any = active_set.has_any_main();
            if !main_set_has_any && !sub_set_has_any {
                return ChannelDisplay { has_sound: true, marker: None, is_blinking: false };
            }
            let marker = if solo_ctx {
                if sub_set_has_any {
                    if is_in_sub_set { ChannelMarker::Solo } else { ChannelMarker::Mute }
                } else {
                    ChannelMarker::Solo
                }
            } else {
                if sub_set_has_any {
                    if is_in_sub_set { ChannelMarker::Mute } else { ChannelMarker::Solo }
                } else {
                    ChannelMarker::Solo
                }
            };
            return ChannelDisplay {
                has_sound: matches!(marker, ChannelMarker::Solo),
                marker: Some(marker),
                is_blinking: false,
            };
        }
        let (solo_ctx, is_compare_mode) = match self.compare {
            CompareMode::Solo => (true, true),
            CompareMode::Mute => (false, true),
            CompareMode::Off => (matches!(self.primary, PrimaryMode::Solo), false),
        };
        let active_set = if solo_ctx { &self.solo_set } else { &self.mute_set };
        let is_in_main_set = active_set.contains(ch_name);
        let main_set_has_any = active_set.has_any_main();
        let marker = if solo_ctx {
            if is_in_main_set {
                Some(ChannelMarker::Solo)
            } else if main_set_has_any {
                Some(ChannelMarker::Mute)
            } else {
                None
            }
        } else {
            if is_in_main_set {
                Some(ChannelMarker::Mute)
            } else if main_set_has_any {
                Some(ChannelMarker::Solo)
            } else {
                None
            }
        };
        let has_sound = !matches!(marker, Some(ChannelMarker::Mute));
        ChannelDisplay { has_sound, marker, is_blinking: is_compare_mode && is_in_main_set }
    }

    /// Advances the blink animation counter (wrapping).
    pub fn tick_blink(&mut self)
        requires
            old(self).wf(),
        ensures
            final(self).wf(),
            final(self)@ == old(self)@,
            final(self).snapshot() == old(self).snapshot(),
            final(self).blink() == old(self).blink().wrapping_add(1),
            final(self).detector() == old(self).detector(),
            final(self).network_values() == old(self).network_values(),
    {
        self.blink_counter = self.blink_counter.wrapping_add(1);
    }

    /// Whether blinking items are shown in the current animation phase
    /// (phases of 15 ticks alternate, starting with shown).
    pub fn should_blink_show(&self) -> (r: bool)
        ensures
            r == ((self.blink() / 15) % 2 == 0),
    {
        (self.blink_counter / 15) % 2 == 0
    }

    /// Same as a SOLO button press (OSC /Monitor/Mode/Solo).
    pub fn toggle_solo_mode(&mut self)
        requires
            old(self).wf(),
        ensures
            final(self).wf(),
            final(self)@ == after_solo_button(old(self)@),
            final(self).same_side_state(old(self)),
    {
        self.on_solo_button_click();
    }

    /// Same as a MUTE button press (OSC /Monitor/Mode/Mute).
    pub fn toggle_mute_mode(&mut self)
        requires
            old(self).wf(),
        ensures
            final(self).wf(),
            final(self)@ == after_mute_button(old(self)@),
            final(self).same_side_state(old(self)),
    {
        self.on_mute_button_click();
    }

    /// Same as a channel click (OSC channel message).
    pub fn handle_click(&mut self, ch_name: &str)
        requires
            old(self).wf(),
        ensures
            final(self).wf(),
            final(self)@ == after_channel_click(old(self)@, ch_name@),
            final(self).same_side_state(old(self)),
    {
        self.on_channel_click(ch_name);
    }

    /// Whether Solo is active as primary or compare mode.
    pub fn is_solo_active(&self) -> (r: bool)
        ensures
            r == (self@.primary == PrimaryMode::Solo || self@.compare == CompareMode::Solo),
    {
        matches!(self.primary, PrimaryMode::Solo) || matches!(self.compare, CompareMode::Solo)
    }

    /// Whether Mute is active as primary or compare mode.
    pub fn is_mute_active(&self) -> (r: bool)
        ensures
            r == (self@.primary == PrimaryMode::Mute || self@.compare == CompareMode::Mute),
    {
        matches!(self.primary, PrimaryMode::Mute) || matches!(self.compare, CompareMode::Mute)
    }

    /// Names of the channels that blink: the main channels of the compare
    /// mode's set, each once; none without a compare mode.
    pub fn get_blinking_channels(&self) -> (v: Vec<String>)
        requires
            self.wf(),
        ensures
            string_views(v@).no_duplicates(),
            string_views(v@).to_set() == (match self@.compare {
                CompareMode::Solo => main_names(self@.solo),
                CompareMode::Mute => main_names(self@.mute),
                CompareMode::Off => Set::<Seq<char>>::empty(),
            }),
    {
        match self.compare {
            CompareMode::Solo => self.solo_set.main_only().into_names(),
            CompareMode::Mute => self.mute_set.main_only().into_names(),
            CompareMode::Off => {
                let v: Vec<String> = Vec::new();
                proof {
                    assert(string_views(v@) =~= Seq::<Seq<char>>::empty());
                    assert(string_views(v@).to_set() =~= Set::<Seq<char>>::empty());
                }
                v
            },
        }
    }

    /// Whether the channel shows the Solo LED.
    pub fn is_channel_solo(&self, ch_name: &str) -> (r: bool)
        requires
            self.wf(),
        ensures
            r == (display_of(self@, ch_name@).marker == Some(ChannelMarker::Solo)),
    {
        let display = self.get_channel_display(ch_name);
        matches!(display.marker, Some(ChannelMarker::Solo))
    }

    /// Whether the channel shows the Mute LED.
    pub fn is_channel_muted(&self, ch_name: &str) -> (r: bool)
        requires
            self.wf(),
        ensures
            r == (display_of(self@, ch_name@).marker == Some(ChannelMarker::Mute)),
    {
        let display = self.get_channel_display(ch_name);
        matches!(display.marker, Some(ChannelMarker::Mute))
    }
}

} // verus!

verus! {

/// Primary mode decoded from its wire code (unknown codes read as Off).
pub open spec fn primary_from_code(c: u8) -> PrimaryMode {
    if c == 1 { PrimaryMode::Solo } else if c == 2 { PrimaryMode::Mute } else { PrimaryMode::Off }
}

/// Compare mode decoded from its wire code (unknown codes read as Off).
pub open spec fn compare_from_code(c: u8) -> CompareMode {
    if c == 1 { CompareMode::Solo } else if c == 2 { CompareMode::Mute } else { CompareMode::Off }
}

/// The interaction state that a network state describes.
pub open spec fn view_of_network_state(s: NetworkInteractionState) -> InteractionView {
    InteractionView {
        primary: primary_from_code(s.primary),
        compare: compare_from_code(s.compare),
        solo: mask_names(s.solo_mask),
        mute: mask_names(s.mute_mask),
        solo_memory: s.solo_has_memory,
        mute_memory: s.mute_has_memory,
        user_mute: sub_mask_names(s.user_mute_sub_mask),
        automation: s.automation_mode,
    }
}

impl InteractionManager {
    /// Exports the state for the network (Master side), stamped with the
    /// current time and the magic number.
    pub fn to_network_state(
        &self,
        master_gain_bits: u32,
        dim: bool,
        cut: bool,
        layout: i32,
        sub_layout: i32,
    ) -> (s: NetworkInteractionState)
        requires
            self.wf(),
        ensures
            s.primary == primary_code(self@.primary),
            s.compare == compare_code(self@.compare),
            mask_represents(s.solo_mask, self@.solo),
            mask_represents(s.mute_mask, self@.mute),
            sub_mask_represents(s.user_mute_sub_mask, self@.user_mute),
            s.master_gain_bits == master_gain_bits,
            s.dim == dim,
            s.cut == cut,
            s.layout == layout,
            s.sub_layout == sub_layout,
            s.solo_has_memory == self@.solo_memory,
            s.mute_has_memory == self@.mute_memory,
            s.automation_mode == self@.automation,
            s.magic == NETWORK_STATE_MAGIC,
    {
        let primary: u8 = match self.primary {
            PrimaryMode::Off => 0,
            PrimaryMode::Solo => 1,
            PrimaryMode::Mute => 2,
        };
        let compare: u8 = match self.compare {
            CompareMode::Off => 0,
            CompareMode::Solo => 1,
            CompareMode::Mute => 2,
        };
        NetworkInteractionState {
            primary,
            compare,
            solo_mask: NetworkInteractionState::channel_set_to_mask(&self.solo_set),
            mute_mask: NetworkInteractionState::channel_set_to_mask(&self.mute_set),
            user_mute_sub_mask: NetworkInteractionState::sub_set_to_mask(&self.user_mute_sub),
            master_gain_bits,
            dim,
            cut,
            layout,
            sub_layout,
            solo_has_memory: self.solo_has_memory,
            mute_has_memory: self.mute_has_memory,
            automation_mode: self.automation_mode,
            timestamp: 0,
            magic: 0,
        }.with_timestamp()
    }

    /// Imports a state received from the Master (Slave side). A state without
    /// the magic number is ignored. The received gain, dim, cut and layouts
    /// become pending values for the editor to take.
    pub fn from_network_state(&mut self, state: &NetworkInteractionState)
        requires
            old(self).wf(),
        ensures
            final(self).wf(),
            state.magic != NETWORK_STATE_MAGIC ==> final(self)@ == old(self)@
                && final(self).network_values() == old(self).network_values(),
            state.magic == NETWORK_STATE_MAGIC ==> final(self)@ == view_of_network_state(*state)
                && final(self).network_values() == (Some(state.master_gain_bits), Some(state.dim),
                    Some(state.cut), Some(state.layout), Some(state.sub_layout)),
            final(self).blink() == old(self).blink(),
            final(self).detector() == old(self).detector(),
            final(self).osc_restart() == old(self).osc_restart(),
            final(self).network_restart() == old(self).network_restart(),
            final(self).web_restart() == old(self).web_restart(),
    {
        if !state.is_valid() {
            return;
        }
        let new_primary = if state.primary == 1 {
            PrimaryMode::Solo
        } else if state.primary == 2 {
            PrimaryMode::Mute
        } else {
            PrimaryMode::Off
        };
        let new_compare = if state.compare == 1 {
            CompareMode::Solo
        } else if state.compare == 2 {
            CompareMode::Mute
        } else {
            CompareMode::Off
        };
        self.primary = new_primary;
        self.compare = new_compare;
        self.solo_set = NetworkInteractionState::mask_to_channel_set(state.solo_mask);
        self.mute_set = NetworkInteractionState::mask_to_channel_set(state.mute_mask);
        self.user_mute_sub = NetworkInteractionState::mask_to_sub_set(state.user_mute_sub_mask);
        self.solo_has_memory = state.solo_has_memory;
        self.mute_has_memory = state.mute_has_memory;
        self.automation_mode = state.automation_mode;
        self.network_master_gain = Some(state.master_gain_bits);
        self.network_dim = Some(state.dim);
        self.network_cut = Some(state.cut);
        self.network_layout = Some(state.layout);
        self.network_sub_layout = Some(state.sub_layout);
        self.update_snapshot();
    }

    /// Takes the master gain (as `f32` bits) received from the Master, if any.
    pub fn take_network_master_gain(&mut self) -> (r: Option<u32>)
        requires
            old(self).wf(),
        ensures
            final(self).wf(),
            final(self)@ == old(self)@,
            r == old(self).network_values().0,
            final(self).network_values() == (None::<u32>, old(self).network_values().1,
                old(self).network_values().2, old(self).network_values().3, old(self).network_values().4),
            final(self).snapshot() == old(self).snapshot(),
    {
        self.network_master_gain.take()
    }

    /// Takes the dim state received from the Master, if any.
    pub fn take_network_dim(&mut self) -> (r: Option<bool>)
        requires
            old(self).wf(),
        ensures
            final(self).wf(),
            final(self)@ == old(self)@,
            r == old(self).network_values().1,
            final(self).network_values() == (old(self).network_values().0, None::<bool>,
                old(self).network_values().2, old(self).network_values().3, old(self).network_values().4),
            final(self).snapshot() == old(self).snapshot(),
    {
        self.network_dim.take()
    }

    /// Takes the cut state received from the Master, if any.
    pub fn take_network_cut(&mut self) -> (r: Option<bool>)
        requires
            old(self).wf(),
        ensures
            final(self).wf(),
            final(self)@ == old(self)@,
            r == old(self).network_values().2,
            final(self).network_values() == (old(self).network_values().0, old(self).network_values().1,
                None::<bool>, old(self).network_values().3, old(self).network_values().4),
            final(self).snapshot() == old(self).snapshot(),
    {
        self.network_cut.take()
    }

    /// Takes the speaker layout index received from the Master, if any.
    pub fn take_network_layout(&mut self) -> (r: Option<i32>)
        requires
            old(self).wf(),
        ensures
            final(self).wf(),
            final(self)@ == old(self)@,
            r == old(self).network_values().3,
            final(self).network_values() == (old(self).network_values().0, old(self).network_values().1,
                old(self).network_values().2, None::<i32>, old(self).network_values().4),
            final(self).snapshot() == old(self).snapshot(),
    {
        self.network_layout.take()
    }

    /// Takes the SUB layout index received from the Master, if any.
    pub fn take_network_sub_layout(&mut self) -> (r: Option<i32>)
        requires
            old(self).wf(),
        ensures
            final(self).wf(),
            final(self)@ == old(self)@,
            r == old(self).network_values().4,
            final(self).network_values() == (old(self).network_values().0, old(self).network_values().1,
                old(self).network_values().2, old(self).network_values().3, None::<i32>),
            final(self).snapshot() == old(self).snapshot(),
    {
        self.network_sub_layout.take()
    }

    /// Drops every value received from the Master (on timeout or disconnect).
    pub fn clear_network_state(&mut self)
        requires
            old(self).wf(),
        ensures
            final(self).wf(),
            final(self)@ == old(self)@,
            final(self).network_values() == (None::<u32>, None::<bool>, None::<bool>, None::<i32>, None::<i32>),
            final(self).snapshot() == old(self).snapshot(),
    {
        self.network_master_gain = None;
        self.network_dim = None;
        self.network_cut = None;
        self.network_layout = None;
        self.network_sub_layout = None;
    }

    /// Requests an OSC restart with a new configuration.
    pub fn request_osc_restart(&mut self, new_config: AppConfig)
        requires
            old(self).wf(),
        ensures
            final(self).wf(),
            final(self)@ == old(self)@,
            final(self).osc_restart() == (true, Some(new_config)),
            final(self).network_restart() == old(self).network_restart(),
            final(self).web_restart() == old(self).web_restart(),
    {
        self.osc_restart_config = Some(new_config);
        self.osc_restart_pending = true;
    }

    /// Whether an OSC restart is pending.
    pub fn has_osc_restart_pending(&self) -> (r: bool)
        ensures
            r == self.osc_restart().0,
    {
        self.osc_restart_pending
    }

    /// Takes the pending OSC restart configuration; None when no restart is
    /// flagged. The flag is cleared when a configuration is taken.
    pub fn take_osc_restart_request(&mut self) -> (r: Option<AppConfig>)
        requires
            old(self).wf(),
        ensures
            final(self).wf(),
            final(self)@ == old(self)@,
            !old(self).osc_restart().0 ==> r is None && final(self).osc_restart() == old(self).osc_restart(),
            old(self).osc_restart().0 ==> r == old(self).osc_restart().1
                && final(self).osc_restart() == ((r is None), None::<AppConfig>),
            final(self).network_restart() == old(self).network_restart(),
            final(self).web_restart() == old(self).web_restart(),
    {
        if !self.osc_restart_pending {
            return None;
        }
        let config = self.osc_restart_config.take();
        if config.is_some() {
            self.osc_restart_pending = false;
        }
        config
    }

    /// Requests a network restart with a new configuration.
    pub fn request_network_restart(&mut self, new_config: AppConfig)
        requires
            old(self).wf(),
        ensures
            final(self).wf(),
            final(self)@ == old(self)@,
            final(self).network_restart() == (true, Some(new_config)),
            final(self).osc_restart() == old(self).osc_restart(),
            final(self).web_restart() == old(self).web_restart(),
            final(self).network_values() == old(self).network_values(),
    {
        self.network_restart_config = Some(new_config);
        self.network_restart_pending = true;
    }

    /// Whether a network restart is pending.
    pub fn has_network_restart_pending(&self) -> (r: bool)
        ensures
            r == self.network_restart().0,
    {
        self.network_restart_pending
    }

    /// Takes the pending network restart configuration; None when no restart
    /// is flagged. The flag is cleared when a configuration is taken.
    pub fn take_network_restart_request(&mut self) -> (r: Option<AppConfig>)
        requires
            old(self).wf(),
        ensures
            final(self).wf(),
            final(self)@ == old(self)@,
            !old(self).network_restart().0 ==> r is None && final(self).network_restart() == old(self).network_restart(),
            old(self).network_restart().0 ==> r == old(self).network_restart().1
                && final(self).network_restart() == ((r is None), None::<AppConfig>),
            final(self).osc_restart() == old(self).osc_restart(),
            final(self).web_restart() == old(self).web_restart(),
    {
        if !self.network_restart_pending {
            return None;
        }
        let config = self.network_restart_config.take();
        if config.is_some() {
            self.network_restart_pending = false;
        }
        config
    }

    /// Requests a start or stop of the Web server.
    pub fn request_web_restart(&mut self, action: WebRestartAction)
        requires
            old(self).wf(),
        ensures
            final(self).wf(),
            final(self)@ == old(self)@,
            final(self).web_restart() == (true, Some(action)),
            final(self).osc_restart() == old(self).osc_restart(),
            final(self).network_restart() == old(self).network_restart(),
    {
        self.web_restart_action = Some(action);
        self.web_restart_pending = true;
    }

    /// Whether a Web restart is pending.
    pub fn has_web_restart_pending(&self) -> (r: bool)
        ensures
            r == self.web_restart().0,
    {
        self.web_restart_pending
    }

    /// Takes the pending Web restart action; None when no restart is flagged.
    /// The flag is cleared when an action is taken.
    pub fn take_web_restart_request(&mut self) -> (r: Option<WebRestartAction>)
        requires
            old(self).wf(),
        ensures
            final(self).wf(),
            final(self)@ == old(self)@,
            !old(self).web_restart().0 ==> r is None && final(self).web_restart() == old(self).web_restart(),
            old(self).web_restart().0 ==> r == old(self).web_restart().1
                && final(self).web_restart() == ((r is None), None::<WebRestartAction>),
            final(self).osc_restart() == old(self).osc_restart(),
            final(self).network_restart() == old(self).network_restart(),
    {
        if !self.web_restart_pending {
            return None;
        }
        let action = self.web_restart_action.take();
        if action.is_some() {
            self.web_restart_pending = false;
        }
        action
    }
}

} // verus!
