//! What the editor's controls do: stepping and picking roles, solo modes
//! and layouts, clicks on channel buttons, the mode buttons, the automation
//! switch, the Web server switch and saving the settings form.
use vstd::prelude::*;
use crate::config::{AppConfig, same_config};
use crate::config_manager::{Layout, ChannelInfo};
use vstd::string::StringExecFns;
use crate::editor_state::{PluginRole, SoloMode, parse_port, role_index_of};
use crate::interaction::{InteractionManager, InteractionView, SubClickType, after_channel_click, after_solo_button,
    after_mute_button, toggled, cleared};
use crate::channel_names::is_sub_name;
use crate::osc::{OscSharedState, OscOutMessage, queued, solo_active, mute_active, channel_broadcast};
use crate::text::{trimmed, parse_u16_spec};
use crate::web_protocol::WebRestartAction;

verus! {

/// `current + direction` clamped to `0..=max`, when that differs from `current`.
pub open spec fn stepped(current: int, direction: int, max: int) -> Option<int> {
    let next = if current + direction < 0 { 0 } else if current + direction > max { max } else { current + direction };
    if next == current { None } else { Some(next) }
}

fn step_index(current: i32, direction: i32, max: i32) -> (r: Option<i32>)
    requires
        0 <= max,
    ensures
        r == match stepped(current as int, direction as int, max as int) {
            Some(n) => Some(n as i32),
            None => None,
        },
{
    let sum: i64 = current as i64 + direction as i64;
    let next: i32 = if sum < 0 { 0 } else if sum > max as i64 { max } else { sum as i32 };
    if next == current { None } else { Some(next) }
}

pub open spec fn role_of_index(i: int) -> PluginRole {
    if i == 0 { PluginRole::Standalone } else if i == 1 { PluginRole::Master } else { PluginRole::Slave }
}

/// The role one step from `current` in `direction` (roles in the order
/// Standalone, Master, Slave; the ends do not wrap), if it differs.
pub fn cycle_role(current: PluginRole, direction: i32) -> (r: Option<PluginRole>)
    ensures
        r == match stepped(role_index_of(current) as int, direction as int, 2) {
            Some(n) => Some(role_of_index(n)),
            None => None,
        },
{
    let idx: i32 = match current {
        PluginRole::Standalone => 0,
        PluginRole::Master => 1,
        PluginRole::Slave => 2,
    };
    match step_index(idx, direction, 2) {
        Some(0) => Some(PluginRole::Standalone),
        Some(1) => Some(PluginRole::Master),
        Some(_) => Some(PluginRole::Slave),
        None => None,
    }
}

/// The solo mode one step from `current` (SIP, then PFL), if it differs.
pub fn cycle_solo_mode(current: SoloMode, direction: i32) -> (r: Option<SoloMode>)
    ensures
        r == match stepped(if current == SoloMode::SIP { 0int } else { 1int }, direction as int, 1) {
            Some(n) => Some(if n == 0 { SoloMode::SIP } else { SoloMode::PFL }),
            None => None,
        },
{
    let idx: i32 = match current {
        SoloMode::SIP => 0,
        SoloMode::PFL => 1,
    };
    match step_index(idx, direction, 1) {
        Some(0) => Some(SoloMode::SIP),
        Some(_) => Some(SoloMode::PFL),
        None => None,
    }
}

/// The role a selector entry names, when it differs from the current one.
pub fn select_role(index: i32, current: PluginRole) -> (r: Option<PluginRole>)
    ensures
        r == if 0 <= index <= 2 && role_of_index(index as int) != current { Some(role_of_index(index as int)) } else { None },
{
    let next = if index == 0 {
        PluginRole::Standalone
    } else if index == 1 {
        PluginRole::Master
    } else if index == 2 {
        PluginRole::Slave
    } else {
        return None;
    };
    if next == current { None } else { Some(next) }
}

/// The layout index one step from `current` among `count` layouts, if it
/// differs; a slave, automation mode or an empty list change nothing.
pub fn cycle_layout(current: i32, direction: i32, count: usize, is_slave: bool, is_automation: bool)
    -> (r: Option<i32>)
    requires
        count <= i32::MAX,
    ensures
        r == if is_slave || is_automation || count == 0 {
            None
        } else {
            match stepped(current as int, direction as int, count - 1) {
                Some(n) => Some(n as i32),
                None => None,
            }
        },
{
    if is_slave || is_automation || count == 0 {
        return None;
    }
    step_index(current, direction, (count - 1) as i32)
}

/// The layout index picked in a selector (negative reads as 0), if it
/// differs; a slave or automation mode change nothing.
pub fn select_layout(index: i32, current: i32, is_slave: bool, is_automation: bool) -> (r: Option<i32>)
    ensures
        r == if is_slave || is_automation {
            None
        } else {
            let next = if index < 0 { 0 } else { index };
            if next == current { None } else { Some(next) }
        },
{
    if is_slave || is_automation {
        return None;
    }
    let next = if index < 0 { 0 } else { index };
    if next == current { None } else { Some(next) }
}

/// The position of the first channel of `cs` with buffer index `idx`.
pub open spec fn position_of_index(cs: Seq<ChannelInfo>, idx: int) -> Option<int> {
    if exists|i: int| 0 <= i < cs.len() && cs[i].channel_index == idx {
        Some(choose|i: int| 0 <= i < cs.len() && cs[i].channel_index == idx
            && forall|j: int| 0 <= j < i ==> cs[j].channel_index != idx)
    } else {
        None
    }
}

fn find_by_index(cs: &Vec<ChannelInfo>, idx: usize) -> (r: Option<usize>)
    ensures
        match r {
            Some(i) => i < cs@.len() && cs@[i as int].channel_index == idx
                && forall|j: int| 0 <= j < i ==> cs@[j].channel_index != idx,
            None => forall|j: int| 0 <= j < cs@.len() ==> cs@[j].channel_index != idx,
        },
{
    let mut i: usize = 0;
    while i < cs.len()
        invariant
            i <= cs@.len(),
            forall|j: int| 0 <= j < i ==> cs@[j].channel_index != idx,
        decreases cs@.len() - i,
    {
        if cs[i].channel_index == idx {
            return Some(i);
        }
        i = i + 1;
    }
    None
}

/// A click on a main channel button (by buffer index; negative reads as
/// 0). Ignored for a slave, in automation mode and for an index no main
/// channel has; otherwise the channel is clicked. True when the state changed.
pub fn click_main_channel(interaction: &mut InteractionManager, layout: &Layout, channel_index: i32, is_slave: bool)
    -> (handled: bool)
    requires
        old(interaction).wf(),
    ensures
        final(interaction).wf(),
        final(interaction).same_side_state(old(interaction)),
        ({
            let idx = if channel_index < 0 { 0int } else { channel_index as int };
            let found = exists|i: int| 0 <= i < layout.main_channels@.len()
                && layout.main_channels@[i].channel_index == idx;
            if is_slave || old(interaction)@.automation || !found {
                !handled && final(interaction)@ == old(interaction)@
            } else {
                exists|i: int| 0 <= i < layout.main_channels@.len()
                    && layout.main_channels@[i].channel_index == idx
                    && (forall|j: int| 0 <= j < i ==> layout.main_channels@[j].channel_index != idx)
                    && final(interaction)@ == after_channel_click(old(interaction)@, #[trigger] layout.main_channels@[i].name@)
                    && handled == (crate::interaction::active_context(old(interaction)@) is Some)
            }
        }),
{
    if is_slave || interaction.is_automation_mode() {
        return false;
    }
    let idx: usize = if channel_index < 0 { 0 } else { channel_index as usize };
    match find_by_index(&layout.main_channels, idx) {
        Some(i) => {
            let handled = interaction.on_channel_click(layout.main_channels[i].name.as_str());
            handled
        },
        None => false,
    }
}

/// The SUB channel a SUB button click addresses: by buffer index, else by
/// position among the SUB channels.
pub open spec fn resolved_sub(cs: Seq<ChannelInfo>, sub_index: int, channel_index: int) -> Option<int> {
    match position_of_index(cs, channel_index) {
        Some(i) => Some(i),
        None => if 0 <= sub_index < cs.len() { Some(sub_index) } else { None },
    }
}

/// The first position found by a search is the one `position_of_index` names.
proof fn lemma_position_of_index(cs: Seq<ChannelInfo>, idx: int, found: Option<usize>)
    requires
        match found {
            Some(i) => i < cs.len() && cs[i as int].channel_index == idx
                && forall|j: int| 0 <= j < i ==> cs[j].channel_index != idx,
            None => forall|j: int| 0 <= j < cs.len() ==> cs[j].channel_index != idx,
        },
    ensures
        position_of_index(cs, idx) == match found { Some(i) => Some(i as int), None => None::<int> },
{
    if let Some(i) = found {
        let k = choose|k: int| 0 <= k < cs.len() && cs[k].channel_index == idx
            && forall|j: int| 0 <= j < k ==> cs[j].channel_index != idx;
        assert(0 <= i < cs.len() && cs[i as int].channel_index == idx
            && forall|j: int| 0 <= j < i ==> cs[j].channel_index != idx);
        if k < i {
            assert(cs[k].channel_index != idx);
        } else if k > i {
            assert(cs[i as int].channel_index != idx);
        }
    }
}

/// A click made at `now` on SUB channel `i`, named `name`, took manager `m0`
/// to `m1` and returned `handled`: a double click toggles the channel's user
/// mute (only a name starting with "SUB"), a single click clicks it in the
/// active context.
pub open spec fn sub_click_outcome(m0: InteractionManager, m1: InteractionManager, i: usize, name: Seq<char>, now: u64,
    handled: bool) -> bool {
    let double = m0.detector().completes(i, now);
    &&& m0.detector().click_step(m1.detector(), i, now, double)
    &&& if double {
        &&& handled == is_sub_name(name)
        &&& m1@ == if handled {
            InteractionView { user_mute: toggled(m0@.user_mute, name), ..m0@ }
        } else {
            m0@
        }
    } else {
        &&& m1@ == after_channel_click(m0@, name)
        &&& handled == (crate::interaction::active_context(m0@) is Some)
    }
}

/// For some reading `now` of the clock, the click on SUB channel `i` took
/// `m0` to `m1` and returned `handled` as `sub_click_outcome` says.
pub open spec fn clicked_at_some_time(m0: InteractionManager, m1: InteractionManager, i: usize, name: Seq<char>,
    handled: bool) -> bool {
    exists|now: u64| #[trigger] sub_click_outcome(m0, m1, i, name, now, handled)
}

/// A click, made now, on the SUB channel at position `i`, named `name`:
/// classified by the double-click detector, then clicked or user-muted.
fn click_sub_named(interaction: &mut InteractionManager, name: &str, i: usize) -> (r: bool)
    requires
        old(interaction).wf(),
    ensures
        final(interaction).wf(),
        clicked_at_some_time(*old(interaction), *final(interaction), i, name@, r),
{
    let ghost m0 = *interaction;
    let kind = interaction.detect_sub_click(i);
    let ghost m1 = *interaction;
    let ghost double = kind == SubClickType::DoubleClick;
    let r = match kind {
        SubClickType::SingleClick => interaction.on_channel_click(name),
        SubClickType::DoubleClick => interaction.on_sub_double_click(name),
    };
    proof {
        let now = choose|now: u64| m0.detector().click_step(m1.detector(), i, now, double);
        assert(m0.detector().click_step(m1.detector(), i, now, double));
        assert(interaction.detector() == m1.detector());
        assert(sub_click_outcome(m0, *interaction, i, name@, now, r));
        assert(clicked_at_some_time(m0, *interaction, i, name@, r));
    }
    r
}

/// A click on a SUB channel button: the SUB channel is found by buffer index,
/// else by SUB position (negative values read as 0). A single click clicks
/// it; a double click toggles its user mute. Ignored for a slave, in
/// automation mode and when no SUB channel matches. True when the state changed.
pub fn click_sub_channel(interaction: &mut InteractionManager, layout: &Layout, sub_relative_index: i32,
    channel_index: i32, is_slave: bool) -> (handled: bool)
    requires
        old(interaction).wf(),
    ensures
        final(interaction).wf(),
        ({
            let sub = if sub_relative_index < 0 { 0int } else { sub_relative_index as int };
            let ch = if channel_index < 0 { 0int } else { channel_index as int };
            match resolved_sub(layout.sub_channels@, sub, ch) {
                None => !handled && final(interaction)@ == old(interaction)@,
                Some(i) => if is_slave || old(interaction)@.automation {
                    !handled && *final(interaction) == *old(interaction)
                } else {
                    clicked_at_some_time(*old(interaction), *final(interaction), i as usize,
                        layout.sub_channels@[i].name@, handled)
                },
            }
        }),
{
    if is_slave || interaction.is_automation_mode() {
        return false;
    }
    let sub_idx: usize = if sub_relative_index < 0 { 0 } else { sub_relative_index as usize };
    let ch_idx: usize = if channel_index < 0 { 0 } else { channel_index as usize };
    let found = find_by_index(&layout.sub_channels, ch_idx);
    proof {
        lemma_position_of_index(layout.sub_channels@, ch_idx as int, found);
    }
    let resolved = match found {
        Some(i) => Some(i),
        None => if sub_idx < layout.sub_channels.len() { Some(sub_idx) } else { None },
    };
    match resolved {
        Some(i) => {
            let name = layout.sub_channels[i].name.as_str();
            let r = click_sub_named(interaction, name, i);
            proof {
                let sub = if sub_relative_index < 0 { 0int } else { sub_relative_index as int };
                let ch = if channel_index < 0 { 0int } else { channel_index as int };
                assert(resolved_sub(layout.sub_channels@, sub, ch) == Some(i as int));
                assert(name@ == layout.sub_channels@[i as int].name@);
            }
            r
        },
        None => false,
    }
}

/// A secondary click on a SUB channel button (by buffer index; negative
/// reads as 0) toggles its user mute. Ignored for a slave, in automation
/// mode and for an index no SUB channel has. True when the state changed.
pub fn secondary_click_sub_channel(interaction: &mut InteractionManager, layout: &Layout, channel_index: i32,
    is_slave: bool) -> (handled: bool)
    requires
        old(interaction).wf(),
    ensures
        final(interaction).wf(),
        final(interaction).same_side_state(old(interaction)),
        ({
            let idx = if channel_index < 0 { 0int } else { channel_index as int };
            let found = exists|i: int| 0 <= i < layout.sub_channels@.len()
                && layout.sub_channels@[i].channel_index == idx;
            if is_slave || old(interaction)@.automation || !found {
                !handled && final(interaction)@ == old(interaction)@
            } else {
                exists|i: int| 0 <= i < layout.sub_channels@.len()
                    && layout.sub_channels@[i].channel_index == idx
                    && (forall|j: int| 0 <= j < i ==> layout.sub_channels@[j].channel_index != idx)
                    && handled == is_sub_name(#[trigger] layout.sub_channels@[i].name@)
                    && final(interaction)@ == if handled {
                        InteractionView { user_mute: toggled(old(interaction)@.user_mute, layout.sub_channels@[i].name@),
                            ..old(interaction)@ }
                    } else {
                        old(interaction)@
                    }
            }
        }),
{
    if is_slave || interaction.is_automation_mode() {
        return false;
    }
    let idx: usize = if channel_index < 0 { 0 } else { channel_index as usize };
    match find_by_index(&layout.sub_channels, idx) {
        Some(i) => interaction.on_sub_double_click(layout.sub_channels[i].name.as_str()),
        None => false,
    }
}

/// The editor's SOLO button: ignored for a slave; otherwise the button is
/// pressed, then the Solo button state, Mute off when Mute is not active,
/// and the channel LEDs are queued.
pub fn press_solo_button(interaction: &mut InteractionManager, osc_state: &mut OscSharedState, is_slave: bool)
    requires
        old(interaction).wf(),
    ensures
        final(interaction).wf(),
        final(interaction).same_side_state(old(interaction)),
        is_slave ==> *final(interaction) == *old(interaction) && *final(osc_state) == *old(osc_state),
        !is_slave ==> final(interaction)@ == after_solo_button(old(interaction)@)
            && queued(*old(osc_state), *final(osc_state),
                seq![OscOutMessage::ModeSolo { on: solo_active(final(interaction)@) }]
                + (if mute_active(final(interaction)@) { Seq::empty() } else { seq![OscOutMessage::ModeMute { on: false }] })
                + channel_broadcast(final(interaction)@, *old(osc_state))),
{
    if is_slave {
        return;
    }
    interaction.on_solo_button_click();
    let ghost s0 = *osc_state;
    osc_state.send_mode_solo(interaction.is_solo_active());
    let ghost s1 = *osc_state;
    if !interaction.is_mute_active() {
        osc_state.send_mode_mute(false);
    }
    let ghost s2 = *osc_state;
    osc_state.broadcast_channel_states(interaction);
    proof {
        let a = seq![OscOutMessage::ModeSolo { on: solo_active(interaction@) }];
        let b = if mute_active(interaction@) { Seq::<OscOutMessage>::empty() } else { seq![OscOutMessage::ModeMute { on: false }] };
        let c = channel_broadcast(interaction@, s2);
        if s0.sender_connected {
            assert(osc_state.outbox@ =~= s0.outbox@ + (a + b + c));
        } else {
            assert(osc_state.outbox@ =~= s0.outbox@);
        }
    }
}

/// The editor's MUTE button: ignored for a slave; otherwise the button is
/// pressed, then the Mute button state, Solo off when Solo is not active,
/// and the channel LEDs are queued.
pub fn press_mute_button(interaction: &mut InteractionManager, osc_state: &mut OscSharedState, is_slave: bool)
    requires
        old(interaction).wf(),
    ensures
        final(interaction).wf(),
        final(interaction).same_side_state(old(interaction)),
        is_slave ==> *final(interaction) == *old(interaction) && *final(osc_state) == *old(osc_state),
        !is_slave ==> final(interaction)@ == after_mute_button(old(interaction)@)
            && queued(*old(osc_state), *final(osc_state),
                seq![OscOutMessage::ModeMute { on: mute_active(final(interaction)@) }]
                + (if solo_active(final(interaction)@) { Seq::empty() } else { seq![OscOutMessage::ModeSolo { on: false }] })
                + channel_broadcast(final(interaction)@, *old(osc_state))),
{
    if is_slave {
        return;
    }
    interaction.on_mute_button_click();
    let ghost s0 = *osc_state;
    osc_state.send_mode_mute(interaction.is_mute_active());
    if !interaction.is_solo_active() {
        osc_state.send_mode_solo(false);
    }
    let ghost s2 = *osc_state;
    osc_state.broadcast_channel_states(interaction);
    proof {
        let a = seq![OscOutMessage::ModeMute { on: mute_active(interaction@) }];
        let b = if solo_active(interaction@) { Seq::<OscOutMessage>::empty() } else { seq![OscOutMessage::ModeSolo { on: false }] };
        let c = channel_broadcast(interaction@, s2);
        if s0.sender_connected {
            assert(osc_state.outbox@ =~= s0.outbox@ + (a + b + c));
        } else {
            assert(osc_state.outbox@ =~= s0.outbox@);
        }
    }
}

/// The automation switch: only a standalone instance has it; switching on
/// enters automation mode (clearing the interaction state), switching off
/// leaves it. Returns whether the switch applied (the channel parameters are
/// then synchronised when it was switched off).
pub fn set_automation_mode(interaction: &mut InteractionManager, enabled: bool, role: PluginRole) -> (applied: bool)
    requires
        old(interaction).wf(),
    ensures
        final(interaction).wf(),
        final(interaction).same_side_state(old(interaction)),
        applied == (role == PluginRole::Standalone),
        final(interaction)@ == if !applied {
            old(interaction)@
        } else if enabled {
            cleared((InteractionView { automation: true, ..old(interaction)@ }))
        } else {
            InteractionView { automation: false, ..old(interaction)@ }
        },
{
    if role != PluginRole::Standalone {
        return false;
    }
    if enabled {
        interaction.enter_automation_mode();
    } else {
        interaction.exit_automation_mode();
    }
    true
}

/// The Web switch: asks to stop a running server, to start a stopped one.
pub fn toggle_web(interaction: &mut InteractionManager, web_running: bool)
    requires
        old(interaction).wf(),
    ensures
        final(interaction).wf(),
        final(interaction)@ == old(interaction)@,
        final(interaction).web_restart() == (true, Some(if web_running {
            WebRestartAction::Stop
        } else {
            WebRestartAction::Start
        })),
{
    if web_running {
        interaction.request_web_restart(WebRestartAction::Stop);
    } else {
        interaction.request_web_restart(WebRestartAction::Start);
    }
}

/// A port read from a form field: the trimmed text as a `u16`, else `old`.
pub open spec fn port_from_text(text: Seq<char>, old: u16) -> u16 {
    match parse_u16_spec(trimmed(text)) {
        Some(v) => v,
        None => old,
    }
}

/// The configuration from the settings form: the three ports (each kept
/// when its text is not a port) and the Master's address as typed.
pub fn settings_from_form(config: &AppConfig, send_port: &str, receive_port: &str, network_port: &str,
    master_ip: &str) -> (c: AppConfig)
    ensures
        c.osc_send_port == port_from_text(send_port@, config.osc_send_port),
        c.osc_receive_port == port_from_text(receive_port@, config.osc_receive_port),
        c.network_port == port_from_text(network_port@, config.network_port),
        c.master_ip@ == master_ip@,
        c.default_speaker_layout@ == config.default_speaker_layout@,
        c.default_sub_layout@ == config.default_sub_layout@,
        c.log_directory@ == config.log_directory@,
{
    AppConfig {
        osc_send_port: parse_port(send_port, config.osc_send_port),
        osc_receive_port: parse_port(receive_port, config.osc_receive_port),
        network_port: parse_port(network_port, config.network_port),
        master_ip: String::from_str(master_ip),
        default_speaker_layout: String::from_str(config.default_speaker_layout.as_str()),
        default_sub_layout: String::from_str(config.default_sub_layout.as_str()),
        log_directory: String::from_str(config.log_directory.as_str()),
    }
}

/// After the settings were saved: OSC restarts with them, the network too
/// unless the instance is standalone, and the Web server is (re)started.
pub fn request_restarts_after_save(interaction: &mut InteractionManager, config: AppConfig, role: PluginRole)
    requires
        old(interaction).wf(),
    ensures
        final(interaction).wf(),
        final(interaction)@ == old(interaction)@,
        final(interaction).osc_restart() == (true, Some(config)),
        role != PluginRole::Standalone ==> final(interaction).network_restart().0
            && (final(interaction).network_restart().1 matches Some(c) && same_config(c, config)),
        role == PluginRole::Standalone ==> final(interaction).network_restart() == old(interaction).network_restart(),
        final(interaction).web_restart() == (true, Some(WebRestartAction::Start)),
{
    let copy = AppConfig {
        osc_send_port: config.osc_send_port,
        osc_receive_port: config.osc_receive_port,
        network_port: config.network_port,
        master_ip: String::from_str(config.master_ip.as_str()),
        default_speaker_layout: String::from_str(config.default_speaker_layout.as_str()),
        default_sub_layout: String::from_str(config.default_sub_layout.as_str()),
        log_directory: String::from_str(config.log_directory.as_str()),
    };
    interaction.request_osc_restart(config);
    if role != PluginRole::Standalone {
        interaction.request_network_restart(copy);
    }
    interaction.request_web_restart(WebRestartAction::Start);
}

} // verus!
