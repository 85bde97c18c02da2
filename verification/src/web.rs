//! The Web control surface: commands from Web clients, the channel groups of
//! the group encoders, the state pushed to clients and the server address.
use vstd::prelude::*;
use vstd::string::StringExecFns;
use crate::channel_names::{standard_names, standard_channel_name, str_eq, starts_with_sub, is_sub_name};
use crate::channel_set::{string_views, lemma_map_push, lemma_map_prefix_step};
use crate::interaction::{InteractionManager, InteractionView, ActiveContext, active_context, toggled, after_solo_button, after_mute_button,
    after_channel_click, primary_code, compare_code};
use crate::osc::OscSharedState;
use crate::osc_feedback::channel_state_code;
use crate::text::{decimal_string, decimal_text};
use crate::web_protocol::ChannelState;

verus! {

/// A command from a Web client. The volume is carried as the bits of an
/// `f32` already clamped to 0.0..=1.0.
#[derive(Debug, Clone)]
pub enum WebCommand {
    ToggleSolo,
    ToggleMute,
    ChannelClick { channel: String },
    SetVolume { value_bits: u32 },
    ToggleDim,
    ToggleCut,
    SetDim { on: bool },
    SetCut { on: bool },
    ToggleMono,
    ToggleLowBoost,
    ToggleHighBoost,
    ToggleLfeAdd10dB,
    /// Group encoder turned: 1 = right (sound / Solo), -1 = left (Mute).
    GroupDial { group: String, direction: i8 },
    /// Group encoder pressed: clicks every channel of the group.
    GroupClick { group: String },
}

/// The channels shown to Web clients, in order: the standard channels, then
/// the four bottom channels.
pub open spec fn web_channel_names() -> Seq<Seq<char>> {
    standard_names() + seq![
        seq!['L', 'B', 'F'],
        seq!['R', 'B', 'F'],
        seq!['L', 'B', 'B'],
        seq!['R', 'B', 'B'],
    ]
}

/// The positions in `web_channel_names()` that a group (already upper case)
/// covers; unknown groups cover none.
pub open spec fn group_range(upper: Seq<char>) -> (int, int) {
    if upper == "FRONT"@ {
        (0, 2)
    } else if upper == "CENTER"@ {
        (2, 3)
    } else if upper == "LFE"@ {
        (3, 4)
    } else if upper == "SUB"@ {
        (12, 16)
    } else if upper == "SURROUND"@ {
        (4, 6)
    } else if upper == "REAR"@ {
        (6, 8)
    } else if upper == "TOP"@ {
        (8, 12)
    } else if upper == "BOTTOM"@ {
        (16, 20)
    } else {
        (0, 0)
    }
}

/// The channels of a group whose name is already upper case.
pub open spec fn group_members(upper: Seq<char>) -> Seq<Seq<char>> {
    web_channel_names().subrange(group_range(upper).0, group_range(upper).1)
}

/// What `str::to_uppercase` returns for a string (Unicode upper-case mapping).
pub uninterp spec fn uppercase_of(s: Seq<char>) -> Seq<char>;

/// `str::to_uppercase`. Claimed: the result is `uppercase_of` of the
/// argument's characters, a function of them alone; what that mapping is
/// is left to the Unicode tables of std.
#[verifier::external_body]
fn to_uppercase(s: &str) -> (r: String)
    ensures
        r@ == uppercase_of(s@),
{
    s.to_uppercase()
}

/// The name of the channel at position `i` of `web_channel_names()`.
fn web_channel_name(i: usize) -> (s: &'static str)
    requires
        i < 20,
    ensures
        s@ == web_channel_names()[i as int],
{
    if i < 16 {
        standard_channel_name(i)
    } else if i == 16 {
        proof { reveal_strlit("LBF"); }
        "LBF"
    } else if i == 17 {
        proof { reveal_strlit("RBF"); }
        "RBF"
    } else if i == 18 {
        proof { reveal_strlit("LBB"); }
        "LBB"
    } else {
        proof { reveal_strlit("RBB"); }
        "RBB"
    }
}

/// The channels of a group whose name is already upper case.
pub fn group_channels_of(upper: &str) -> (v: Vec<String>)
    ensures
        string_views(v@) == group_members(upper@),
{
    let (lo, hi): (usize, usize) = if str_eq(upper, "FRONT") {
        (0, 2)
    } else if str_eq(upper, "CENTER") {
        (2, 3)
    } else if str_eq(upper, "LFE") {
        (3, 4)
    } else if str_eq(upper, "SUB") {
        (12, 16)
    } else if str_eq(upper, "SURROUND") {
        (4, 6)
    } else if str_eq(upper, "REAR") {
        (6, 8)
    } else if str_eq(upper, "TOP") {
        (8, 12)
    } else if str_eq(upper, "BOTTOM") {
        (16, 20)
    } else {
        (0, 0)
    };
    assert(group_range(upper@) == (lo as int, hi as int));
    let mut v: Vec<String> = Vec::new();
    let mut i: usize = lo;
    while i < hi
        invariant
            lo <= i <= hi <= 20,
            string_views(v@) == web_channel_names().subrange(lo as int, i as int),
        decreases hi - i,
    {
        let ghost before = v@;
        let name = String::from_str(web_channel_name(i));
        v.push(name);
        proof {
            lemma_map_push(before, name, |s: String| s@);
            assert(web_channel_names().subrange(lo as int, i + 1)
                =~= web_channel_names().subrange(lo as int, i as int).push(web_channel_names()[i as int]));
        }
        i = i + 1;
    }
    v
}

/// The channels of a group, its name compared without case: FRONT, CENTER,
/// LFE, SUB, SURROUND, REAR, TOP or BOTTOM; none for another name.
pub fn get_group_channels(group: &str) -> (v: Vec<String>)
    ensures
        string_views(v@) == group_members(uppercase_of(group@)),
{
    let upper = to_uppercase(group);
    group_channels_of(upper.as_str())
}

/// The view after clicking each of `names` in turn.
pub open spec fn clicks(v: InteractionView, names: Seq<Seq<char>>) -> InteractionView
    decreases names.len(),
{
    if names.len() == 0 {
        v
    } else {
        after_channel_click(clicks(v, names.drop_last()), names.last())
    }
}

/// What a Web command does to the interaction manager and the OSC state.
/// A slave instance ignores every command.
pub open spec fn web_command_effect(cmd: WebCommand, is_slave: bool, i0: InteractionManager,
    i1: InteractionManager, s0: OscSharedState, s1: OscSharedState) -> bool {
    if is_slave {
        i1 == i0 && s1 == s0
    } else {
        match cmd {
            WebCommand::ToggleSolo => i1@ == after_solo_button(i0@) && i1.same_side_state(&i0) && s1 == s0,
            WebCommand::ToggleMute => i1@ == after_mute_button(i0@) && i1.same_side_state(&i0) && s1 == s0,
            WebCommand::ChannelClick { channel } =>
                i1@ == after_channel_click(i0@, channel@) && i1.same_side_state(&i0) && s1 == s0,
            WebCommand::SetVolume { value_bits } => i1 == i0 && s1 == (OscSharedState {
                master_volume_bits: value_bits, volume_pending: true, repaint_requested: true, ..s0 }),
            WebCommand::ToggleDim => i1 == i0 && s1 == (OscSharedState {
                dim: !s0.dim, dim_pending: true, repaint_requested: true, ..s0 }),
            WebCommand::SetDim { on } => i1 == i0 && s1 == (OscSharedState {
                dim: on, dim_pending: true, repaint_requested: true, ..s0 }),
            WebCommand::ToggleCut => i1 == i0 && s1 == (OscSharedState {
                cut: !s0.cut, cut_pending: true, repaint_requested: true, ..s0 }),
            WebCommand::SetCut { on } => i1 == i0 && s1 == (OscSharedState {
                cut: on, cut_pending: true, repaint_requested: true, ..s0 }),
            WebCommand::ToggleMono => i1 == i0 && s1 == (OscSharedState { mono: !s0.mono, ..s0 }),
            WebCommand::ToggleLowBoost => i1 == i0 && s1 == (OscSharedState { low_boost: !s0.low_boost, ..s0 }),
            WebCommand::ToggleHighBoost => i1 == i0 && s1 == (OscSharedState { high_boost: !s0.high_boost, ..s0 }),
            WebCommand::ToggleLfeAdd10dB => i1 == i0 && s1 == (OscSharedState {
                lfe_add_10db: !s0.lfe_add_10db, ..s0 }),
            WebCommand::GroupDial { .. } => i1 == i0 && s1 == s0,
            WebCommand::GroupClick { group } =>
                i1@ == clicks(i0@, group_members(uppercase_of(group@))) && i1.same_side_state(&i0) && s1 == s0,
        }
    }
}

/// Clicks each channel of `names` in turn.
fn click_all(names: &Vec<String>, interaction: &mut InteractionManager)
    requires
        old(interaction).wf(),
    ensures
        final(interaction).wf(),
        final(interaction)@ == clicks(old(interaction)@, string_views(names@)),
        final(interaction).same_side_state(old(interaction)),
{
    let ghost i0 = *interaction;
    let mut i: usize = 0;
    while i < names.len()
        invariant
            i <= names@.len(),
            interaction.wf(),
            interaction@ == clicks(i0@, string_views(names@).subrange(0, i as int)),
            interaction.same_side_state(&i0),
        decreases names@.len() - i,
    {
        interaction.on_channel_click(names[i].as_str());
        proof {
            let pre = string_views(names@).subrange(0, i as int);
            let post = string_views(names@).subrange(0, i + 1);
            assert(post.drop_last() =~= pre);
            assert(post.last() == names@[i as int]@);
        }
        i = i + 1;
    }
    proof {
        assert(string_views(names@).subrange(0, names@.len() as int) =~= string_views(names@));
    }
}

/// Carries out a command from a Web client. Volume, dim, cut and the effects
/// go through the OSC state's pending values; a slave instance rejects every
/// command. A group-dial command changes nothing.
pub fn handle_command_direct(cmd: WebCommand, is_slave: bool, interaction: &mut InteractionManager,
    osc_state: &mut OscSharedState)
    requires
        old(interaction).wf(),
    ensures
        final(interaction).wf(),
        web_command_effect(cmd, is_slave, *old(interaction), *final(interaction), *old(osc_state), *final(osc_state)),
{
    if is_slave {
        return;
    }
    match cmd {
        WebCommand::ToggleSolo => interaction.on_solo_button_click(),
        WebCommand::ToggleMute => interaction.on_mute_button_click(),
        WebCommand::ChannelClick { channel } => {
            interaction.on_channel_click(channel.as_str());
        },
        WebCommand::SetVolume { value_bits } => osc_state.set_master_volume(value_bits),
        WebCommand::ToggleDim => {
            let current = osc_state.get_dim();
            osc_state.set_dim(!current);
        },
        WebCommand::SetDim { on } => osc_state.set_dim(on),
        WebCommand::ToggleCut => {
            let current = osc_state.get_cut();
            osc_state.set_cut(!current);
        },
        WebCommand::SetCut { on } => osc_state.set_cut(on),
        WebCommand::ToggleMono => {
            let current = osc_state.get_mono();
            osc_state.set_mono(!current);
        },
        WebCommand::ToggleLowBoost => {
            let current = osc_state.get_low_boost();
            osc_state.set_low_boost(!current);
        },
        WebCommand::ToggleHighBoost => {
            let current = osc_state.get_high_boost();
            osc_state.set_high_boost(!current);
        },
        WebCommand::ToggleLfeAdd10dB => {
            let current = osc_state.get_lfe_add_10db();
            osc_state.set_lfe_add_10db(!current);
        },
        WebCommand::GroupDial { group: _, direction: _ } => {},
        WebCommand::GroupClick { group } => {
            let channels = get_group_channels(group.as_str());
            click_all(&channels, interaction);
        },
    }
}

} // verus!

verus! {

/// `c` is the Web state entry of the channel at position `i` of
/// `web_channel_names()`.
pub open spec fn is_web_channel_state(v: InteractionView, c: ChannelState, i: int) -> bool {
    &&& c.name@ == web_channel_names()[i]
    &&& c.index == i
    &&& c.state == channel_state_code(v, web_channel_names()[i])
    &&& c.is_sub == is_sub_name(web_channel_names()[i])
}

/// The state of every channel shown to Web clients, in the order of
/// `web_channel_names()`: 2 = Solo LED, 1 = Mute LED, 0 = unlit.
pub fn build_channel_states(interaction: &InteractionManager) -> (v: Vec<ChannelState>)
    requires
        interaction.wf(),
    ensures
        v@.len() == 20,
        forall|i: int| 0 <= i < 20 ==> is_web_channel_state(interaction@, #[trigger] v@[i], i),
{
    let mut v: Vec<ChannelState> = Vec::new();
    let mut i: usize = 0;
    while i < 20
        invariant
            i <= 20,
            interaction.wf(),
            v@.len() == i,
            forall|k: int| 0 <= k < i ==> is_web_channel_state(interaction@, #[trigger] v@[k], k),
        decreases 20 - i,
    {
        let name = web_channel_name(i);
        let state: u8 = if interaction.is_channel_solo(name) {
            2
        } else if interaction.is_channel_muted(name) {
            1
        } else {
            0
        };
        let is_sub = starts_with_sub(name);
        v.push(ChannelState { name: String::from_str(name), index: i, state, is_sub });
        i = i + 1;
    }
    v
}

/// The full state pushed to Web clients. The master volume is carried as the
/// bits of an `f32`.
#[derive(Debug, Clone)]
pub struct WebState {
    /// Primary mode: 0 = none, 1 = Solo, 2 = Mute.
    pub primary: u8,
    /// Compare mode, coded as the primary mode.
    pub compare: u8,
    pub solo_mask: u32,
    pub mute_mask: u32,
    pub master_volume_bits: u32,
    pub dim: bool,
    pub cut: bool,
    pub mono: bool,
    pub low_boost: bool,
    pub high_boost: bool,
    pub lfe_add_10db: bool,
    pub channels: Vec<ChannelState>,
}

/// The switches of the audio parameters that Web clients see.
#[derive(Debug, Clone, Copy)]
pub struct WebSwitches {
    pub dim: bool,
    pub cut: bool,
    pub mono: bool,
    pub low_boost: bool,
    pub high_boost: bool,
    pub lfe_add_10db: bool,
}

/// The state pushed to Web clients: the modes and masks of the interaction
/// snapshot, the master volume of the OSC state, the parameter switches and
/// the channel states.
pub fn build_web_state(interaction: &InteractionManager, osc_state: &OscSharedState, switches: WebSwitches)
    -> (s: WebState)
    requires
        interaction.wf(),
    ensures
        s.primary == primary_code(interaction@.primary),
        s.compare == compare_code(interaction@.compare),
        s.solo_mask == interaction.snapshot().solo_mask,
        s.mute_mask == interaction.snapshot().mute_mask,
        s.master_volume_bits == osc_state.master_volume_bits,
        s.dim == switches.dim && s.cut == switches.cut && s.mono == switches.mono,
        s.low_boost == switches.low_boost && s.high_boost == switches.high_boost,
        s.lfe_add_10db == switches.lfe_add_10db,
        s.channels@.len() == 20,
        forall|i: int| 0 <= i < 20 ==> is_web_channel_state(interaction@, #[trigger] s.channels@[i], i),
{
    let snapshot = interaction.get_snapshot();
    WebState {
        primary: snapshot.primary,
        compare: snapshot.compare,
        solo_mask: snapshot.solo_mask,
        mute_mask: snapshot.mute_mask,
        master_volume_bits: osc_state.master_volume_bits,
        dim: switches.dim,
        cut: switches.cut,
        mono: switches.mono,
        low_boost: switches.low_boost,
        high_boost: switches.high_boost,
        lfe_add_10db: switches.lfe_add_10db,
        channels: build_channel_states(interaction),
    }
}

/// State of the Web server shared with the editor.
#[derive(Debug, Clone)]
pub struct WebSharedState {
    /// HTTP port (0 while not started).
    pub port: u16,
    pub is_running: bool,
    /// Local IP address (empty when unknown).
    pub local_ip: String,
    /// Web OSC receive port (0 while not started).
    pub osc_recv_port: u16,
    /// Channel names of the current layout.
    pub channel_names: Vec<String>,
    pub osc_recv_port_bound: bool,
    pub clients_count: u16,
}

/// The address of a running server: its IP (127.0.0.1 when unknown), a
/// colon and its port.
pub open spec fn address_of(s: WebSharedState) -> Option<Seq<char>> {
    if s.is_running {
        let ip = if s.local_ip@.len() == 0 { "127.0.0.1"@ } else { s.local_ip@ };
        Some(ip + ":"@ + decimal_text(s.port as nat))
    } else {
        None
    }
}

impl WebSharedState {
    /// A stopped server with no address, port or channel.
    pub fn new() -> (s: Self)
        ensures
            s.port == 0 && !s.is_running && s.local_ip@.len() == 0,
            s.osc_recv_port == 0 && s.channel_names@.len() == 0,
            !s.osc_recv_port_bound && s.clients_count == 0,
    {
        WebSharedState {
            port: 0,
            is_running: false,
            local_ip: String::new(),
            osc_recv_port: 0,
            channel_names: Vec::new(),
            osc_recv_port_bound: false,
            clients_count: 0,
        }
    }

    /// The address of the running server ("ip:port"); None while stopped.
    pub fn get_address(&self) -> (r: Option<String>)
        ensures
            match r {
                Some(a) => address_of(*self) == Some(a@),
                None => address_of(*self) is None,
            },
    {
        if self.is_running {
            let mut a = if self.local_ip.as_str().is_empty() {
                String::from_str("127.0.0.1")
            } else {
                self.local_ip.clone()
            };
            a.append(":");
            let port = decimal_string(self.port as u64);
            a.append(port.as_str());
            Some(a)
        } else {
            None
        }
    }
}

impl Default for WebSharedState {
    fn default() -> (s: Self)
        ensures
            s.port == 0 && !s.is_running && s.local_ip@.len() == 0,
            s.osc_recv_port == 0 && s.channel_names@.len() == 0,
            !s.osc_recv_port_bound && s.clients_count == 0,
    {
        Self::new()
    }
}

} // verus!

verus! {

/// The set after toggling each of `m` in turn.
pub open spec fn toggle_all(s: Set<Seq<char>>, m: Seq<Seq<char>>) -> Set<Seq<char>>
    decreases m.len(),
{
    if m.len() == 0 {
        s
    } else {
        toggled(toggle_all(s, m.drop_last()), m.last())
    }
}

/// Whether `x` occurs an odd number of times in `m`.
pub open spec fn odd_count(m: Seq<Seq<char>>, x: Seq<char>) -> bool
    decreases m.len(),
{
    if m.len() == 0 {
        false
    } else if m.last() == x {
        !odd_count(m.drop_last(), x)
    } else {
        odd_count(m.drop_last(), x)
    }
}

proof fn lemma_clicks_shape(v: InteractionView, m: Seq<Seq<char>>)
    ensures
        active_context(clicks(v, m)) == active_context(v),
        clicks(v, m).primary == v.primary,
        clicks(v, m).compare == v.compare,
        clicks(v, m).user_mute == v.user_mute,
        clicks(v, m).solo == match active_context(v) {
            Some(ActiveContext::Solo) => toggle_all(v.solo, m),
            _ => v.solo,
        },
        clicks(v, m).mute == match active_context(v) {
            Some(ActiveContext::Mute) => toggle_all(v.mute, m),
            _ => v.mute,
        },
    decreases m.len(),
{
    if m.len() > 0 {
        lemma_clicks_shape(v, m.drop_last());
    }
}

proof fn lemma_toggle_all_contains(s: Set<Seq<char>>, m: Seq<Seq<char>>, x: Seq<char>)
    ensures
        toggle_all(s, m).contains(x) == (s.contains(x) != odd_count(m, x)),
    decreases m.len(),
{
    if m.len() > 0 {
        lemma_toggle_all_contains(s, m.drop_last(), x);
    }
}

proof fn lemma_toggle_all_twice(s: Set<Seq<char>>, m: Seq<Seq<char>>)
    ensures
        toggle_all(toggle_all(s, m), m) == s,
{
    assert forall|x: Seq<char>| toggle_all(toggle_all(s, m), m).contains(x) == s.contains(x) by {
        lemma_toggle_all_contains(toggle_all(s, m), m, x);
        lemma_toggle_all_contains(s, m, x);
    }
    assert(toggle_all(toggle_all(s, m), m) =~= s);
}

/// Law: pressing a group encoder twice (clicking every channel of the group,
/// twice over) leaves the Solo and Mute sets, the modes and the user mutes as
/// they were.
pub proof fn law_group_click_twice_restores_sets(v: InteractionView, group: Seq<char>)
    ensures
        ({
            let m = group_members(uppercase_of(group));
            let w = clicks(clicks(v, m), m);
            &&& w.solo == v.solo
            &&& w.mute == v.mute
            &&& w.primary == v.primary
            &&& w.compare == v.compare
            &&& w.user_mute == v.user_mute
        }),
{
    let m = group_members(uppercase_of(group));
    let w1 = clicks(v, m);
    lemma_clicks_shape(v, m);
    lemma_clicks_shape(w1, m);
    lemma_toggle_all_twice(v.solo, m);
    lemma_toggle_all_twice(v.mute, m);
}

} // verus!
