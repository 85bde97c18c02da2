//! What the editor shows and decides on each refresh: the channel buttons,
//! the mode buttons' blinking, which controls are enabled, the texts of the
//! status fields, and what a layout or role change calls for.
use vstd::prelude::*;
use vstd::string::StringExecFns;
use crate::channel_set::{lemma_map_push, lemma_map_prefix_step};
use crate::config_manager::{Layout, ChannelInfo, MAX_CHANNELS};
use crate::interaction::{InteractionManager, InteractionView, ChannelMarker, CompareMode, PrimaryMode,
    display_of, cleared};
use crate::text::{trim, parse_u16, trimmed, parse_u16_spec};
use crate::web::{WebSharedState, address_of};

verus! {

/// The role of a plugin instance in a Master/Slave pair.
#[derive(Debug, Clone, Copy, PartialEq, Eq, Structural)]
pub enum PluginRole {
    Standalone,
    Master,
    Slave,
}

/// How a solo is heard.
#[derive(Debug, Clone, Copy, PartialEq, Eq, Structural)]
pub enum SoloMode {
    /// Solo in place.
    SIP,
    /// Pre-fader listen.
    PFL,
}

/// Index of a role in the editor's role selector.
pub open spec fn role_index_of(r: PluginRole) -> i32 {
    match r {
        PluginRole::Standalone => 0,
        PluginRole::Master => 1,
        PluginRole::Slave => 2,
    }
}

/// Index of a role in the editor's role selector.
pub fn role_index(role: PluginRole) -> (i: i32)
    ensures
        i == role_index_of(role),
{
    match role {
        PluginRole::Standalone => 0,
        PluginRole::Master => 1,
        PluginRole::Slave => 2,
    }
}

/// Label of a role.
pub fn role_to_text(role: PluginRole) -> (s: &'static str)
    ensures
        s@ == match role {
            PluginRole::Standalone => "Standalone"@,
            PluginRole::Master => "Master (Source)"@,
            PluginRole::Slave => "Slave (Monitor)"@,
        },
{
    match role {
        PluginRole::Standalone => "Standalone",
        PluginRole::Master => "Master (Source)",
        PluginRole::Slave => "Slave (Monitor)",
    }
}

/// Label of a solo mode.
pub fn solo_mode_to_text(mode: SoloMode) -> (s: &'static str)
    ensures
        s@ == match mode {
            SoloMode::SIP => "SIP (Solo In Place)"@,
            SoloMode::PFL => "PFL (Pre Fader Listen)"@,
        },
{
    match mode {
        SoloMode::SIP => "SIP (Solo In Place)",
        SoloMode::PFL => "PFL (Pre Fader Listen)",
    }
}

/// A port typed in a text field: the trimmed text read as a `u16`, else the
/// fallback.
pub fn parse_port(input: &str, fallback: u16) -> (p: u16)
    ensures
        p == match parse_u16_spec(trimmed(input@)) {
            Some(v) => v,
            None => fallback,
        },
{
    match parse_u16(trim(input)) {
        Some(v) => v,
        None => fallback,
    }
}

/// One channel button of the editor.
#[derive(Clone, Debug, PartialEq, Eq)]
pub struct ChannelUiSnapshot {
    pub name: String,
    /// 0 = unlit, 1 = mute (red), 2 = solo (green).
    pub state: i32,
    pub blinking: bool,
    pub grid_pos: i32,
    pub is_sub: bool,
    pub channel_index: i32,
    /// Position among the SUB channels; -1 for a main channel.
    pub sub_relative_index: i32,
}

/// The button state of a channel: its marker's colour, unlit while it blinks
/// in the off phase.
pub open spec fn button_state(v: InteractionView, n: Seq<char>, blink_show: bool) -> i32 {
    let d = display_of(v, n);
    if d.is_blinking && !blink_show {
        0
    } else {
        match d.marker {
            Some(ChannelMarker::Mute) => 1,
            Some(ChannelMarker::Solo) => 2,
            None => 0,
        }
    }
}

/// `b` is the button of channel `c`, the `sub_index`-th SUB channel when
/// `is_sub`, a main channel otherwise.
pub open spec fn is_button_of(b: ChannelUiSnapshot, c: ChannelInfo, v: InteractionView, blink_show: bool,
    is_sub: bool, sub_index: int) -> bool {
    &&& b.name@ == c.name@
    &&& b.state == button_state(v, c.name@, blink_show)
    &&& b.blinking == display_of(v, c.name@).is_blinking
    &&& b.grid_pos == c.grid_pos as i32
    &&& b.is_sub == is_sub
    &&& b.channel_index == c.channel_index as i32
    &&& b.sub_relative_index == if is_sub { sub_index as i32 } else { -1i32 }
}

fn channel_button(interaction: &InteractionManager, c: &ChannelInfo, blink_show: bool, is_sub: bool,
    sub_index: usize) -> (b: ChannelUiSnapshot)
    requires
        interaction.wf(),
    ensures
        is_button_of(b, *c, interaction@, blink_show, is_sub, sub_index as int),
{
    let display = interaction.get_channel_display(c.name.as_str());
    let mut state: i32 = match display.marker {
        Some(ChannelMarker::Mute) => 1,
        Some(ChannelMarker::Solo) => 2,
        None => 0,
    };
    if display.is_blinking && !blink_show {
        state = 0;
    }
    ChannelUiSnapshot {
        name: c.name.clone(),
        state,
        blinking: display.is_blinking,
        grid_pos: c.grid_pos as i32,
        is_sub,
        channel_index: c.channel_index as i32,
        sub_relative_index: if is_sub { sub_index as i32 } else { -1 },
    }
}

/// The channel buttons of a layout: one per main channel, then one per SUB
/// channel, in the layout's order.
pub fn channel_ui_snapshots(interaction: &InteractionManager, layout: &Layout, blink_show: bool)
    -> (v: Vec<ChannelUiSnapshot>)
    requires
        interaction.wf(),
    ensures
        v@.len() == layout.main_channels@.len() + layout.sub_channels@.len(),
        forall|i: int| 0 <= i < layout.main_channels@.len() ==>
            is_button_of(#[trigger] v@[i], layout.main_channels@[i], interaction@, blink_show, false, i),
        forall|j: int| 0 <= j < layout.sub_channels@.len() ==>
            is_button_of(#[trigger] v@[layout.main_channels@.len() + j], layout.sub_channels@[j], interaction@,
                blink_show, true, j),
{
    let mut v: Vec<ChannelUiSnapshot> = Vec::new();
    let nm = layout.main_channels.len();
    let mut i: usize = 0;
    while i < nm
        invariant
            nm == layout.main_channels@.len(),
            i <= nm,
            interaction.wf(),
            v@.len() == i,
            forall|k: int| 0 <= k < i ==>
                is_button_of(#[trigger] v@[k], layout.main_channels@[k], interaction@, blink_show, false, k),
        decreases nm - i,
    {
        let b = channel_button(interaction, &layout.main_channels[i], blink_show, false, i);
        v.push(b);
        i = i + 1;
    }
    let ns = layout.sub_channels.len();
    let mut j: usize = 0;
    while j < ns
        invariant
            nm == layout.main_channels@.len(),
            ns == layout.sub_channels@.len(),
            j <= ns,
            interaction.wf(),
            v@.len() == nm + j,
            forall|k: int| 0 <= k < nm ==>
                is_button_of(#[trigger] v@[k], layout.main_channels@[k], interaction@, blink_show, false, k),
            forall|k: int| 0 <= k < j ==>
                is_button_of(#[trigger] v@[nm + k], layout.sub_channels@[k], interaction@, blink_show, true, k),
        decreases ns - j,
    {
        let b = channel_button(interaction, &layout.sub_channels[j], blink_show, true, j);
        v.push(b);
        proof {
            assert(v@[nm + j as int] == b);
        }
        j = j + 1;
    }
    v
}

/// Whether the SOLO and MUTE buttons are lit: a blinking mode follows the
/// blink phase, a steady one is lit.
pub open spec fn mode_buttons_lit(v: InteractionView, blink_show: bool) -> (bool, bool) {
    (
        if v.compare == CompareMode::Solo { blink_show } else { v.primary == PrimaryMode::Solo },
        if v.compare == CompareMode::Mute { blink_show } else { v.primary == PrimaryMode::Mute },
    )
}

/// Whether the SOLO and MUTE buttons are lit in the current blink phase.
pub fn mode_button_visibility(interaction: &InteractionManager) -> (r: (bool, bool))
    ensures
        r == mode_buttons_lit(interaction@, (interaction.blink() / 15) % 2 == 0),
{
    let blink_show = interaction.should_blink_show();
    let solo = if interaction.is_solo_blinking() { blink_show } else { interaction.is_solo_steady() };
    let mute = if interaction.is_mute_blinking() { blink_show } else { interaction.is_mute_steady() };
    (solo, mute)
}

/// Which editor controls accept input.
#[derive(Debug, Clone, Copy, PartialEq, Eq, Structural)]
pub struct UiPermissions {
    pub can_change_role: bool,
    pub can_change_layout: bool,
    pub controls_enabled: bool,
    pub channel_interaction_enabled: bool,
    pub automation_toggle_enabled: bool,
}

/// The role can always change; a slave is driven by its master, and
/// automation drives the channels and the layout; the automation switch is
/// offered to a standalone instance only.
pub fn ui_permissions(role: PluginRole, is_automation: bool) -> (p: UiPermissions)
    ensures
        p.can_change_role,
        p.can_change_layout == (!is_automation && role != PluginRole::Slave),
        p.controls_enabled == (role != PluginRole::Slave),
        p.channel_interaction_enabled == (!is_automation && role != PluginRole::Slave),
        p.automation_toggle_enabled == (role == PluginRole::Standalone),
{
    let is_slave = role == PluginRole::Slave;
    UiPermissions {
        can_change_role: true,
        can_change_layout: !is_automation && !is_slave,
        controls_enabled: !is_slave,
        channel_interaction_enabled: !is_automation && !is_slave,
        automation_toggle_enabled: role == PluginRole::Standalone,
    }
}

/// The name at a selector index (negative indexes read as 0), or "Unknown".
pub fn name_at_or_unknown(names: &Vec<String>, index: i32) -> (s: String)
    ensures
        s@ == if (if index < 0 { 0 } else { index as int }) < names@.len() {
            names@[if index < 0 { 0 } else { index as int }]@
        } else {
            "Unknown"@
        },
{
    let i: usize = if index < 0 { 0 } else { index as usize };
    if i < names.len() {
        names[i].clone()
    } else {
        String::from_str("Unknown")
    }
}

/// A selector index clamped to the entries of a list of `count` names (to 0
/// for an empty list).
pub fn clamp_selector_index(index: i32, count: usize) -> (r: i32)
    requires
        count <= i32::MAX,
    ensures
        r == if index < 0 { 0 } else if count == 0 { 0 } else if index >= count { (count - 1) as i32 } else { index },
{
    let max: i32 = if count == 0 { 0 } else { (count - 1) as i32 };
    if index < 0 {
        0
    } else if index > max {
        max
    } else {
        index
    }
}

/// The event log text: the lines joined by newlines, or a notice when empty.
pub open spec fn joined_lines(lines: Seq<Seq<char>>) -> Seq<char>
    decreases lines.len(),
{
    if lines.len() == 0 {
        Seq::empty()
    } else if lines.len() == 1 {
        lines[0]
    } else {
        joined_lines(lines.drop_last()) + "\n"@ + lines.last()
    }
}

/// The event log text of the editor.
pub fn event_log_text(logs: &Vec<String>) -> (s: String)
    ensures
        s@ == if logs@.len() == 0 {
            "No events recorded."@
        } else {
            joined_lines(logs@.map_values(|l: String| l@))
        },
{
    if logs.len() == 0 {
        return String::from_str("No events recorded.");
    }
    let ghost f = |l: String| l@;
    let mut s = logs[0].clone();
    let mut i: usize = 1;
    proof {
        assert(logs@.subrange(0, 1).map_values(f) =~= seq![logs@[0]@]);
    }
    while i < logs.len()
        invariant
            1 <= i <= logs@.len(),
            f == (|l: String| l@),
            s@ == joined_lines(logs@.subrange(0, i as int).map_values(f)),
        decreases logs@.len() - i,
    {
        s.append("\n");
        s.append(logs[i].as_str());
        proof {
            let pre = logs@.subrange(0, i as int).map_values(f);
            let post = logs@.subrange(0, i + 1).map_values(f);
            lemma_map_prefix_step(logs@, i as int, f);
            assert(post.drop_last() =~= pre);
        }
        i = i + 1;
    }
    proof {
        assert(logs@.subrange(0, logs@.len() as int) =~= logs@);
    }
    s
}

/// The Web server field: its address, or "not running".
pub fn web_address_text(web: &WebSharedState) -> (s: String)
    ensures
        s@ == match address_of(*web) {
            Some(a) => a,
            None => "not running"@,
        },
{
    match web.get_address() {
        Some(a) => a,
        None => String::from_str("not running"),
    }
}

} // verus!

verus! {

/// What the editor remembers between refreshes.
pub struct PollState {
    pub prev_layout: i32,
    pub prev_sub_layout: i32,
    pub prev_role: i32,
    pub prev_grid_width: i32,
    pub prev_grid_height: i32,
    pub prev_channels: Vec<ChannelUiSnapshot>,
    pub speaker_names: Vec<String>,
    pub sub_names: Vec<String>,
}

/// What a refresh has to do about the layout and the role.
#[derive(Debug, Clone, Copy, PartialEq, Eq, Structural)]
pub struct RefreshPlan {
    /// Reload the layout's channels (first refresh or layout change).
    pub reload_layout: bool,
    /// The layout or the SUB layout differs from the last refresh.
    pub layout_changed: bool,
    /// The role differs from the last refresh (not on the first one).
    pub role_changed: bool,
}

impl PollState {
    /// Nothing seen yet, with the names of the speaker and SUB layouts.
    pub fn new(speaker_names: Vec<String>, sub_names: Vec<String>) -> (s: Self)
        ensures
            s.prev_layout == -1 && s.prev_sub_layout == -1 && s.prev_role == -1,
            s.prev_grid_width == -1 && s.prev_grid_height == -1,
            s.prev_channels@.len() == 0,
            s.speaker_names == speaker_names,
            s.sub_names == sub_names,
    {
        PollState {
            prev_layout: -1,
            prev_sub_layout: -1,
            prev_role: -1,
            prev_grid_width: -1,
            prev_grid_height: -1,
            prev_channels: Vec::new(),
            speaker_names,
            sub_names,
        }
    }

    /// Records the current layout, SUB layout and role index and says what
    /// changed since the last refresh.
    pub fn observe(&mut self, layout: i32, sub_layout: i32, role: i32) -> (p: RefreshPlan)
        ensures
            p.layout_changed == (old(self).prev_layout != layout || old(self).prev_sub_layout != sub_layout),
            p.reload_layout == (old(self).prev_layout < 0 || old(self).prev_sub_layout < 0 || p.layout_changed),
            p.role_changed == (old(self).prev_role >= 0 && old(self).prev_role != role),
            *final(self) == (PollState { prev_layout: layout, prev_sub_layout: sub_layout, prev_role: role,
                ..*old(self) }),
    {
        let first_load = self.prev_layout < 0 || self.prev_sub_layout < 0;
        let layout_changed = self.prev_layout != layout || self.prev_sub_layout != sub_layout;
        let role_changed = self.prev_role >= 0 && self.prev_role != role;
        self.prev_layout = layout;
        self.prev_sub_layout = sub_layout;
        self.prev_role = role;
        RefreshPlan { reload_layout: first_load || layout_changed, layout_changed, role_changed }
    }

    /// Records the grid size to show and says whether its width and its
    /// height differ from the last one recorded (both do on the first call).
    pub fn observe_grid(&mut self, width: i32, height: i32) -> (r: (bool, bool))
        ensures
            r.0 == (old(self).prev_grid_width != width),
            r.1 == (old(self).prev_grid_height != height),
            *final(self) == (PollState { prev_grid_width: width, prev_grid_height: height, ..*old(self) }),
    {
        let width_changed = self.prev_grid_width != width;
        let height_changed = self.prev_grid_height != height;
        self.prev_grid_width = width;
        self.prev_grid_height = height;
        (width_changed, height_changed)
    }
}

/// Clears the interaction state for a layout change unless automation drives it.
pub fn clear_for_layout_change(interaction: &mut InteractionManager)
    requires
        old(interaction).wf(),
    ensures
        final(interaction).wf(),
        final(interaction)@ == if old(interaction)@.automation { old(interaction)@ } else { cleared(old(interaction)@) },
        final(interaction).same_side_state(old(interaction)),
{
    if !interaction.is_automation_mode() {
        interaction.clear_on_layout_change();
    }
}

/// A layout index received from the Master: when it differs from the
/// current one, the interaction state is cleared and the index returned for
/// the parameter; otherwise nothing changes.
pub fn adopt_network_layout(interaction: &mut InteractionManager, received: Option<i32>, current: i32)
    -> (r: Option<i32>)
    requires
        old(interaction).wf(),
    ensures
        final(interaction).wf(),
        final(interaction).same_side_state(old(interaction)),
        r == match received {
            Some(i) => if i != current { Some(i) } else { None },
            None => None,
        },
        final(interaction)@ == if r is Some { cleared(old(interaction)@) } else { old(interaction)@ },
{
    match received {
        Some(idx) => {
            if idx != current {
                interaction.clear_on_layout_change();
                Some(idx)
            } else {
                None
            }
        },
        None => None,
    }
}

/// Leaves automation mode when the role becomes Master or Slave; true when
/// it did.
pub fn prepare_role_change(interaction: &mut InteractionManager, next_role: PluginRole) -> (exited: bool)
    requires
        old(interaction).wf(),
    ensures
        final(interaction).wf(),
        final(interaction).same_side_state(old(interaction)),
        exited == (next_role != PluginRole::Standalone && old(interaction)@.automation),
        final(interaction)@ == if exited {
            InteractionView { automation: false, ..old(interaction)@ }
        } else {
            old(interaction)@
        },
{
    if next_role != PluginRole::Standalone && interaction.is_automation_mode() {
        interaction.exit_automation_mode();
        true
    } else {
        false
    }
}

/// The channel-enable parameter values of a layout: for each main, then SUB
/// channel with an index below `MAX_CHANNELS`, its index and whether it
/// passes audio.
pub open spec fn enable_updates(v: InteractionView, channels: Seq<ChannelInfo>) -> Seq<(usize, bool)>
    decreases channels.len(),
{
    if channels.len() == 0 {
        Seq::empty()
    } else {
        let rest = enable_updates(v, channels.drop_last());
        let c = channels.last();
        if c.channel_index < MAX_CHANNELS {
            rest.push((c.channel_index, display_of(v, c.name@).has_sound))
        } else {
            rest
        }
    }
}

fn push_enable_updates(interaction: &InteractionManager, channels: &Vec<ChannelInfo>,
    out: &mut Vec<(usize, bool)>)
    requires
        interaction.wf(),
    ensures
        final(out)@ == old(out)@ + enable_updates(interaction@, channels@),
{
    let mut i: usize = 0;
    while i < channels.len()
        invariant
            i <= channels@.len(),
            interaction.wf(),
            out@ == old(out)@ + enable_updates(interaction@, channels@.subrange(0, i as int)),
        decreases channels@.len() - i,
    {
        let c = &channels[i];
        proof {
            assert(channels@.subrange(0, i + 1).drop_last() =~= channels@.subrange(0, i as int));
        }
        if c.channel_index < MAX_CHANNELS {
            let display = interaction.get_channel_display(c.name.as_str());
            out.push((c.channel_index, display.has_sound));
        }
        proof {
            assert(out@ =~= old(out)@ + enable_updates(interaction@, channels@.subrange(0, i + 1)));
        }
        i = i + 1;
    }
    proof {
        assert(channels@.subrange(0, channels@.len() as int) =~= channels@);
    }
}

/// The channel-enable parameter values to push for a layout.
pub fn channel_enable_updates(interaction: &InteractionManager, layout: &Layout) -> (v: Vec<(usize, bool)>)
    requires
        interaction.wf(),
    ensures
        v@ == enable_updates(interaction@, layout.main_channels@ + layout.sub_channels@),
{
    let mut v: Vec<(usize, bool)> = Vec::new();
    push_enable_updates(interaction, &layout.main_channels, &mut v);
    push_enable_updates(interaction, &layout.sub_channels, &mut v);
    proof {
        lemma_enable_updates_append(interaction@, layout.main_channels@, layout.sub_channels@);
        assert(v@ =~= enable_updates(interaction@, layout.main_channels@ + layout.sub_channels@));
    }
    v
}

proof fn lemma_enable_updates_append(v: InteractionView, a: Seq<ChannelInfo>, b: Seq<ChannelInfo>)
    ensures
        enable_updates(v, a + b) == enable_updates(v, a) + enable_updates(v, b),
    decreases b.len(),
{
    if b.len() == 0 {
        assert(a + b =~= a);
        assert(enable_updates(v, b) =~= Seq::<(usize, bool)>::empty());
        assert(enable_updates(v, a) + enable_updates(v, b) =~= enable_updates(v, a));
    } else {
        lemma_enable_updates_append(v, a, b.drop_last());
        assert((a + b).drop_last() =~= a + b.drop_last());
        assert((a + b).last() == b.last());
        let ra = enable_updates(v, a);
        let rb = enable_updates(v, b.drop_last());
        let c = b.last();
        if c.channel_index < MAX_CHANNELS {
            assert((ra + rb).push((c.channel_index, display_of(v, c.name@).has_sound))
                =~= ra + rb.push((c.channel_index, display_of(v, c.name@).has_sound)));
        }
    }
}

} // verus!
