//! The layout the audio thread works with: chosen by the layout parameters,
//! rebuilt only when they change, and guessed from the channel count when
//! the plugin is set up.
use vstd::prelude::*;
use crate::config_manager::{ConfigManager, Layout, layout_matches, layout_search_ok};
use crate::osc::OscSharedState;

verus! {

/// The speaker layout name selected by an index: the name at that position,
/// or "7.1.4" for an index out of range.
pub open spec fn selected_speaker_name(m: ConfigManager, index: i32) -> Seq<char> {
    if 0 <= index < m.speaker_names().len() { m.speaker_names()[index as int] } else { "7.1.4"@ }
}

/// The SUB layout name selected by an index: the name at that position, or
/// "None" for an index out of range.
pub open spec fn selected_sub_name(m: ConfigManager, index: i32) -> Seq<char> {
    if 0 <= index < m.sub_names().len() { m.sub_names()[index as int] } else { "None"@ }
}

/// The layout for the current pair of layout indices, kept between audio blocks.
pub struct LayoutCache {
    /// (speaker layout index, SUB layout index) the layout was built for.
    pub key: (i32, i32),
    pub layout: Option<Layout>,
}

impl LayoutCache {
    /// No layout yet.
    pub fn new() -> (c: Self)
        ensures
            c.key == (-1i32, -1i32),
            c.layout is None,
    {
        LayoutCache { key: (-1, -1), layout: None }
    }

    /// Makes the cached layout the one of the given indices. It is rebuilt
    /// (and true returned) only when the indices changed or there is no
    /// layout yet.
    pub fn refresh(&mut self, manager: &ConfigManager, layout_index: i32, sub_layout_index: i32) -> (rebuilt: bool)
        requires
            manager.wf(),
        ensures
            rebuilt == (old(self).key != (layout_index, sub_layout_index) || old(self).layout is None),
            !rebuilt ==> *final(self) == *old(self),
            rebuilt ==> final(self).key == (layout_index, sub_layout_index)
                && (final(self).layout matches Some(l) && layout_matches(l, manager.config(),
                    selected_speaker_name(*manager, layout_index), selected_sub_name(*manager, sub_layout_index))),
    {
        let key = (layout_index, sub_layout_index);
        if key.0 == self.key.0 && key.1 == self.key.1 && self.layout.is_some() {
            return false;
        }
        let speaker = if layout_index < 0 { None } else { manager.get_speaker_name(layout_index as usize) };
        let sub = if sub_layout_index < 0 { None } else { manager.get_sub_name(sub_layout_index as usize) };
        let speaker_name = match speaker {
            Some(s) => s,
            None => {
                proof { reveal_strlit("7.1.4"); }
                "7.1.4"
            },
        };
        let sub_name = match sub {
            Some(s) => s,
            None => {
                proof { reveal_strlit("None"); }
                "None"
            },
        };
        let layout = manager.get_layout(speaker_name, sub_name);
        self.layout = Some(layout);
        self.key = key;
        true
    }

    /// Refreshes the layout and, when it was rebuilt, hands its channel names
    /// to the OSC state.
    pub fn refresh_with_osc(&mut self, manager: &ConfigManager, layout_index: i32, sub_layout_index: i32,
        osc_state: &mut OscSharedState) -> (rebuilt: bool)
        requires
            manager.wf(),
        ensures
            rebuilt == (old(self).key != (layout_index, sub_layout_index) || old(self).layout is None),
            !rebuilt ==> *final(self) == *old(self) && *final(osc_state) == *old(osc_state),
            rebuilt ==> final(self).key == (layout_index, sub_layout_index)
                && (final(self).layout matches Some(l) && layout_matches(l, manager.config(),
                    selected_speaker_name(*manager, layout_index), selected_sub_name(*manager, sub_layout_index))
                    && final(osc_state).prev_channel_names@ == old(osc_state).current_channel_names@
                    && final(osc_state).channel_count == l.total_channels),
    {
        let rebuilt = self.refresh(manager, layout_index, sub_layout_index);
        if rebuilt {
            match &self.layout {
                Some(l) => osc_state.update_layout_channels(l),
                None => {},
            }
        }
        rebuilt
    }
}

/// The speaker layout to preselect for a number of output channels: only
/// for more than two channels, by `ConfigManager::find_layout_for_channels`.
pub fn auto_detect_layout(manager: &ConfigManager, output_channels: usize) -> (r: Option<i32>)
    requires
        manager.wf(),
        manager.speaker_names().len() <= i32::MAX,
    ensures
        output_channels <= 2 ==> r is None,
        output_channels > 2 ==> layout_search_ok(manager.channel_counts(), output_channels as nat, r),
{
    if output_channels > 2 {
        manager.find_layout_for_channels(output_channels)
    } else {
        None
    }
}

} // verus!
