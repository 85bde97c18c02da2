//! Speaker and SUB layouts: from the layout configuration to the channel list
//! of a layout and its channel lookup table.
use vstd::prelude::*;
use vstd::string::StrSliceExecFns;
use crate::channel_names::{standard_names, standard_index, standard_channel_name, find_standard_index, str_eq,
    lemma_standard_names_distinct, lemma_standard_index_of};
use crate::channel_set::string_views;
use crate::text::{parse_u32, parse_u32_spec, sorted_strings, strictly_sorted, seq_less};

verus! {

/// Maximum number of audio channels of the plugin.
pub const MAX_CHANNELS: usize = 32;

/// A value of a speaker layout entry in the configuration.
#[derive(Debug, Clone)]
pub enum ConfigValue {
    /// A non-negative integer (a grid position).
    Unsigned(u64),
    /// A string (the grid size, "WxH").
    Text(String),
    /// Any other value.
    Other,
}

/// One speaker layout of the configuration: its entries, in the order the
/// configuration map yields them.
#[derive(Debug, Clone)]
pub struct SpeakerLayoutConfig {
    pub name: String,
    pub entries: Vec<(String, ConfigValue)>,
}

/// One SUB layout of the configuration: SUB channel name to grid position.
#[derive(Debug, Clone)]
pub struct SubLayoutConfig {
    pub name: String,
    pub entries: Vec<(String, u32)>,
}

/// The layout configuration ("Speaker" and "SUB" sections).
#[derive(Debug, Clone)]
pub struct RawConfig {
    pub speakers: Vec<SpeakerLayoutConfig>,
    pub subs: Vec<SubLayoutConfig>,
}

/// Keys of a speaker layout's entries.
pub open spec fn speaker_keys(es: Seq<(String, ConfigValue)>) -> Seq<Seq<char>> {
    es.map_values(|e: (String, ConfigValue)| e.0@)
}

/// Keys of a SUB layout's entries.
pub open spec fn sub_keys(es: Seq<(String, u32)>) -> Seq<Seq<char>> {
    es.map_values(|e: (String, u32)| e.0@)
}

/// Names of the speaker layouts.
pub open spec fn speaker_layout_names(c: RawConfig) -> Seq<Seq<char>> {
    c.speakers@.map_values(|l: SpeakerLayoutConfig| l.name@)
}

/// Names of the SUB layouts.
pub open spec fn sub_layout_names(c: RawConfig) -> Seq<Seq<char>> {
    c.subs@.map_values(|l: SubLayoutConfig| l.name@)
}

/// A configuration read from maps: layout names and entry keys are unique.
pub open spec fn raw_config_wf(c: RawConfig) -> bool {
    &&& speaker_layout_names(c).no_duplicates()
    &&& sub_layout_names(c).no_duplicates()
    &&& forall|i: int| 0 <= i < c.speakers@.len() ==> speaker_keys(#[trigger] c.speakers@[i].entries@).no_duplicates()
    &&& forall|i: int| 0 <= i < c.subs@.len() ==> sub_keys(#[trigger] c.subs@[i].entries@).no_duplicates()
}

/// The value stored under key `k`, if any.
pub open spec fn entry_value(es: Seq<(String, ConfigValue)>, k: Seq<char>) -> Option<ConfigValue> {
    if exists|i: int| 0 <= i < es.len() && es[i].0@ == k {
        Some(es[choose|i: int| 0 <= i < es.len() && es[i].0@ == k].1)
    } else {
        None
    }
}

/// The speaker layout named `n`, if any.
pub open spec fn find_speaker(c: RawConfig, n: Seq<char>) -> Option<SpeakerLayoutConfig> {
    if exists|i: int| 0 <= i < c.speakers@.len() && c.speakers@[i].name@ == n {
        Some(c.speakers@[choose|i: int| 0 <= i < c.speakers@.len() && c.speakers@[i].name@ == n])
    } else {
        None
    }
}

/// The SUB layout named `n`, if any.
pub open spec fn find_sub(c: RawConfig, n: Seq<char>) -> Option<SubLayoutConfig> {
    if exists|i: int| 0 <= i < c.subs@.len() && c.subs@[i].name@ == n {
        Some(c.subs@[choose|i: int| 0 <= i < c.subs@.len() && c.subs@[i].name@ == n])
    } else {
        None
    }
}

/// Pre-computed name of a channel for O(1) lookup on the audio thread: the
/// first (at most eight) bytes of the name's UTF-8 encoding.
#[derive(Debug, Clone, Copy)]
pub struct ChannelLookupEntry {
    /// Name bytes, zero-padded.
    pub name: [u8; 8],
    /// Number of name bytes in use.
    pub name_len: u8,
    /// Whether the entry names a channel.
    pub valid: bool,
}

/// Whether `e` holds the given bytes, zero-padded to eight.
pub open spec fn holds_name_bytes(e: ChannelLookupEntry, b: Seq<u8>) -> bool {
    &&& b.len() <= 8
    &&& e.name_len as int == b.len()
    &&& e.name@.take(b.len() as int) == b
    &&& forall|i: int| b.len() <= i < 8 ==> e.name@[i] == 0u8
}

/// The entry for `s`: valid, holding the first (at most eight) bytes of its encoding.
pub open spec fn is_lookup_entry_of(e: ChannelLookupEntry, s: Seq<char>) -> bool {
    let bytes = vstd::utf8::encode_utf8(s);
    let len = if bytes.len() < 8 { bytes.len() as int } else { 8 };
    e.valid && holds_name_bytes(e, bytes.take(len))
}

/// An unused entry.
pub open spec fn is_empty_lookup_entry(e: ChannelLookupEntry) -> bool {
    !e.valid && e.name_len == 0 && forall|i: int| 0 <= i < 8 ==> e.name@[i] == 0u8
}

impl Default for ChannelLookupEntry {
    fn default() -> (e: Self)
        ensures
            is_empty_lookup_entry(e),
    {
        ChannelLookupEntry { name: [0u8; 8], name_len: 0, valid: false }
    }
}

/// Calls `std::str::from_utf8`, which succeeds exactly when the bytes are
/// valid UTF-8; the text is then the decoded characters.
#[verifier::external_body]
fn utf8_to_str(b: &[u8]) -> (r: Option<&str>)
    ensures
        r is Some <==> vstd::utf8::valid_utf8(b@),
        r matches Some(s) ==> s@ == vstd::utf8::decode_utf8(b@),
{
    std::str::from_utf8(b).ok()
}

/// The name text of a lookup entry: the decoded name bytes of a valid entry,
/// empty otherwise (and empty when the bytes are not valid UTF-8).
pub open spec fn entry_text(e: ChannelLookupEntry) -> Seq<char> {
    let b = e.name@.take(e.name_len as int);
    if e.valid && e.name_len <= 8 && vstd::utf8::valid_utf8(b) {
        vstd::utf8::decode_utf8(b)
    } else {
        Seq::empty()
    }
}

impl ChannelLookupEntry {
    /// The entry for a channel name.
    pub fn from_str(s: &str) -> (e: Self)
        ensures
            is_lookup_entry_of(e, s@),
    {
        let mut entry = ChannelLookupEntry { name: [0u8; 8], name_len: 0, valid: false };
        let bytes = s.as_bytes();
        let len: usize = if bytes.len() < 8 { bytes.len() } else { 8 };
        let mut i: usize = 0;
        while i < len
            invariant
                i <= len <= 8,
                len <= bytes@.len(),
                bytes@ == vstd::utf8::encode_utf8(s@),
                forall|j: int| 0 <= j < i ==> entry.name@[j] == bytes@[j],
                forall|j: int| i <= j < 8 ==> entry.name@[j] == 0u8,
            decreases len - i,
        {
            entry.name[i] = bytes[i];
            i = i + 1;
        }
        entry.name_len = len as u8;
        entry.valid = true;
        proof {
            assert(entry.name@.take(len as int) =~= bytes@.take(len as int));
        }
        entry
    }

    /// The channel name held by the entry ("" for an unused entry).
    pub fn as_str(&self) -> (s: &str)
        requires
            self.name_len <= 8,
        ensures
            s@ == entry_text(*self),
    {
        if self.valid {
            let slice = self.name.as_slice();
            let prefix: &[u8] = &slice[0..self.name_len as usize];
            proof {
                assert(prefix@ =~= self.name@.take(self.name_len as int));
            }
            match utf8_to_str(prefix) {
                Some(text) => text,
                None => {
                    proof { reveal_strlit(""); }
                    ""
                },
            }
        } else {
            proof { reveal_strlit(""); }
            ""
        }
    }
}

} // verus!

verus! {

/// A channel of a layout.
#[derive(Debug, Clone)]
pub struct ChannelInfo {
    pub name: String,
    /// Position in the layout grid (main channels) or SUB track (SUB channels).
    pub grid_pos: u32,
    /// 0-based index in the audio buffer.
    pub channel_index: usize,
}

/// A speaker layout combined with a SUB layout.
#[derive(Debug, Clone)]
pub struct Layout {
    pub name: String,
    pub width: u32,
    pub height: u32,
    /// Main channels (shown in the grid).
    pub main_channels: Vec<ChannelInfo>,
    /// SUB channels (shown on the SUB tracks).
    pub sub_channels: Vec<ChannelInfo>,
    pub total_channels: usize,
    /// Lookup table: entry `i` names channel `i`.
    pub channel_by_index: [ChannelLookupEntry; 32],
}

pub open spec fn size_key() -> Seq<char> {
    seq!['S', 'i', 'z', 'e']
}

pub open spec fn none_name() -> Seq<char> {
    seq!['N', 'o', 'n', 'e']
}

/// The standard channels among the first `n` standard names that the layout
/// gives an integer grid position, in standard order.
pub open spec fn standard_main_upto(es: Seq<(String, ConfigValue)>, n: nat) -> Seq<(Seq<char>, u64)>
    decreases n,
{
    if n == 0 {
        Seq::empty()
    } else {
        let prev = standard_main_upto(es, (n - 1) as nat);
        match entry_value(es, standard_names()[n - 1]) {
            Some(ConfigValue::Unsigned(v)) => prev.push((standard_names()[n - 1], v)),
            _ => prev,
        }
    }
}

/// The other channels of the layout (not "Size", not a standard name, with an
/// integer grid position), in entry order.
pub open spec fn other_main(es: Seq<(String, ConfigValue)>) -> Seq<(Seq<char>, u64)>
    decreases es.len(),
{
    if es.len() == 0 {
        Seq::empty()
    } else {
        let prev = other_main(es.drop_last());
        let e = es.last();
        match e.1 {
            ConfigValue::Unsigned(v) => if e.0@ != size_key() && standard_index(e.0@) < 0 {
                prev.push((e.0@, v))
            } else {
                prev
            },
            _ => prev,
        }
    }
}

/// The main channels of a speaker layout: standard channels in standard order,
/// then the others in entry order.
pub open spec fn main_channels_of(es: Seq<(String, ConfigValue)>) -> Seq<(Seq<char>, u64)> {
    standard_main_upto(es, 16) + other_main(es)
}

/// Index of the first `c` in `s` at or after `i`, or -1.
pub open spec fn first_index_of(s: Seq<char>, c: char, i: int) -> int
    decreases s.len() - i,
{
    if i < 0 || i >= s.len() {
        -1
    } else if s[i] == c {
        i
    } else {
        first_index_of(s, c, i + 1)
    }
}

/// Width and height given by a "WxH" size text; 5 for a part that is not a
/// number, 5 by 5 without an 'x'.
pub open spec fn size_of_text(s: Seq<char>) -> (u32, u32) {
    let p = first_index_of(s, 'x', 0);
    if p < 0 {
        (5, 5)
    } else {
        (
            match parse_u32_spec(s.subrange(0, p)) { Some(w) => w, None => 5 },
            match parse_u32_spec(s.subrange(p + 1, s.len() as int)) { Some(h) => h, None => 5 },
        )
    }
}

/// Width and height of a speaker layout (5 by 5 without a usable "Size").
pub open spec fn size_of_layout(es: Seq<(String, ConfigValue)>) -> (u32, u32) {
    match entry_value(es, size_key()) {
        Some(ConfigValue::Text(t)) => size_of_text(t@),
        _ => (5, 5),
    }
}

/// The grid position stored under `k` in a SUB layout.
pub open spec fn sub_value(es: Seq<(String, u32)>, k: Seq<char>) -> u32 {
    es[choose|i: int| 0 <= i < es.len() && es[i].0@ == k].1
}

/// The channel of a layout at buffer index `i`.
pub open spec fn layout_channel(l: Layout, i: int) -> ChannelInfo {
    if i < l.main_channels@.len() {
        l.main_channels@[i]
    } else {
        l.sub_channels@[i - l.main_channels@.len()]
    }
}

/// The lookup table names channels `0..total` (up to 32) and leaves the rest unused.
pub open spec fn lookup_table_matches(l: Layout) -> bool {
    forall|i: int| 0 <= i < 32 ==> if i < l.total_channels {
        is_lookup_entry_of(#[trigger] l.channel_by_index@[i], layout_channel(l, i).name@)
    } else {
        is_empty_lookup_entry(l.channel_by_index@[i])
    }
}

/// The stereo layout used when a combination has no channel.
pub open spec fn is_fallback_stereo(l: Layout) -> bool {
    &&& l.name@ == seq!['F', 'a', 'l', 'l', 'b', 'a', 'c', 'k', '_', 'S', 't', 'e', 'r', 'e', 'o']
    &&& l.width == 3
    &&& l.height == 1
    &&& l.main_channels@.len() == 2
    &&& l.main_channels@[0].name@ == seq!['L'] && l.main_channels@[0].grid_pos == 1 && l.main_channels@[0].channel_index == 0
    &&& l.main_channels@[1].name@ == seq!['R'] && l.main_channels@[1].grid_pos == 3 && l.main_channels@[1].channel_index == 1
    &&& l.sub_channels@.len() == 0
    &&& l.total_channels == 2
    &&& lookup_table_matches(l)
}

} // verus!

verus! {

/// In a list without duplicates, the position of a name is unique.
proof fn lemma_unique_position(names: Seq<Seq<char>>, i: int, j: int)
    requires
        names.no_duplicates(),
        0 <= i < names.len(),
        0 <= j < names.len(),
        names[i] == names[j],
    ensures
        i == j,
{
}

/// Position of the entry with key `key`.
fn find_entry(es: &Vec<(String, ConfigValue)>, key: &str) -> (r: Option<usize>)
    ensures
        match r {
            Some(i) => i < es@.len() && es@[i as int].0@ == key@,
            None => forall|j: int| 0 <= j < es@.len() ==> es@[j].0@ != key@,
        },
        speaker_keys(es@).no_duplicates() ==> entry_value(es@, key@) == match r {
            Some(i) => Some(es@[i as int].1),
            None => None::<ConfigValue>,
        },
{
    let mut i: usize = 0;
    while i < es.len()
        invariant
            i <= es@.len(),
            forall|j: int| 0 <= j < i ==> es@[j].0@ != key@,
        decreases es@.len() - i,
    {
        if str_eq(es[i].0.as_str(), key) {
            proof {
                if speaker_keys(es@).no_duplicates() {
                    let c = choose|j: int| 0 <= j < es@.len() && es@[j].0@ == key@;
                    assert(speaker_keys(es@)[c] == speaker_keys(es@)[i as int]);
                    lemma_unique_position(speaker_keys(es@), c, i as int);
                }
            }
            return Some(i);
        }
        i = i + 1;
    }
    None
}

/// Position of the SUB entry with key `key`.
fn find_sub_entry(es: &Vec<(String, u32)>, key: &str) -> (r: Option<usize>)
    ensures
        match r {
            Some(i) => i < es@.len() && es@[i as int].0@ == key@,
            None => forall|j: int| 0 <= j < es@.len() ==> es@[j].0@ != key@,
        },
{
    let mut i: usize = 0;
    while i < es.len()
        invariant
            i <= es@.len(),
            forall|j: int| 0 <= j < i ==> es@[j].0@ != key@,
        decreases es@.len() - i,
    {
        if str_eq(es[i].0.as_str(), key) {
            return Some(i);
        }
        i = i + 1;
    }
    None
}

/// Position of the speaker layout named `name`.
fn find_speaker_index(c: &RawConfig, name: &str) -> (r: Option<usize>)
    ensures
        match r {
            Some(i) => i < c.speakers@.len() && c.speakers@[i as int].name@ == name@,
            None => forall|j: int| 0 <= j < c.speakers@.len() ==> c.speakers@[j].name@ != name@,
        },
        speaker_layout_names(*c).no_duplicates() ==> find_speaker(*c, name@) == match r {
            Some(i) => Some(c.speakers@[i as int]),
            None => None::<SpeakerLayoutConfig>,
        },
{
    let mut i: usize = 0;
    while i < c.speakers.len()
        invariant
            i <= c.speakers@.len(),
            forall|j: int| 0 <= j < i ==> c.speakers@[j].name@ != name@,
        decreases c.speakers@.len() - i,
    {
        if str_eq(c.speakers[i].name.as_str(), name) {
            proof {
                if speaker_layout_names(*c).no_duplicates() {
                    let k = choose|j: int| 0 <= j < c.speakers@.len() && c.speakers@[j].name@ == name@;
                    assert(speaker_layout_names(*c)[k] == speaker_layout_names(*c)[i as int]);
                    lemma_unique_position(speaker_layout_names(*c), k, i as int);
                }
            }
            return Some(i);
        }
        i = i + 1;
    }
    None
}

/// Position of the SUB layout named `name`.
fn find_sub_index(c: &RawConfig, name: &str) -> (r: Option<usize>)
    ensures
        match r {
            Some(i) => i < c.subs@.len() && c.subs@[i as int].name@ == name@,
            None => forall|j: int| 0 <= j < c.subs@.len() ==> c.subs@[j].name@ != name@,
        },
        sub_layout_names(*c).no_duplicates() ==> find_sub(*c, name@) == match r {
            Some(i) => Some(c.subs@[i as int]),
            None => None::<SubLayoutConfig>,
        },
{
    let mut i: usize = 0;
    while i < c.subs.len()
        invariant
            i <= c.subs@.len(),
            forall|j: int| 0 <= j < i ==> c.subs@[j].name@ != name@,
        decreases c.subs@.len() - i,
    {
        if str_eq(c.subs[i].name.as_str(), name) {
            proof {
                if sub_layout_names(*c).no_duplicates() {
                    let k = choose|j: int| 0 <= j < c.subs@.len() && c.subs@[j].name@ == name@;
                    assert(sub_layout_names(*c)[k] == sub_layout_names(*c)[i as int]);
                    lemma_unique_position(sub_layout_names(*c), k, i as int);
                }
            }
            return Some(i);
        }
        i = i + 1;
    }
    None
}

/// Position of the first `c` in `s`.
fn find_char(s: &str, c: char) -> (r: Option<usize>)
    ensures
        match r {
            Some(p) => p < s@.len() && first_index_of(s@, c, 0) == p,
            None => first_index_of(s@, c, 0) == -1,
        },
{
    let n = s.unicode_len();
    let mut i: usize = 0;
    while i < n
        invariant
            i <= n,
            n == s@.len(),
            first_index_of(s@, c, 0) == first_index_of(s@, c, i as int),
        decreases n - i,
    {
        if s.get_char(i) == c {
            return Some(i);
        }
        i = i + 1;
    }
    None
}

/// Width and height from a "WxH" text.
fn parse_size_text(t: &str) -> (r: (u32, u32))
    ensures
        r == size_of_text(t@),
{
    let n = t.unicode_len();
    match find_char(t, 'x') {
        None => (5, 5),
        Some(p) => {
            let w_text = t.substring_char(0, p);
            let h_text = t.substring_char(p + 1, n);
            let w = match parse_u32(w_text) {
                Some(w) => w,
                None => 5,
            };
            let h = match parse_u32(h_text) {
                Some(h) => h,
                None => 5,
            };
            (w, h)
        },
    }
}

} // verus!

verus! {

/// `v` lists the channels `s` with buffer indices starting at `offset`.
pub open spec fn infos_match(v: Seq<ChannelInfo>, s: Seq<(Seq<char>, u64)>, offset: int) -> bool {
    &&& v.len() == s.len()
    &&& forall|i: int| 0 <= i < v.len() ==> {
        &&& (#[trigger] v[i]).name@ == s[i].0
        &&& v[i].grid_pos == s[i].1 as u32
        &&& v[i].channel_index == offset + i
    }
}

/// A bound on list lengths that any list in memory meets.
pub open spec fn small_len(n: int) -> bool {
    n < usize::MAX / 4
}

fn collect_main_channels(es: &Vec<(String, ConfigValue)>) -> (v: Vec<ChannelInfo>)
    requires
        speaker_keys(es@).no_duplicates(),
    ensures
        infos_match(v@, main_channels_of(es@), 0),
        v@.len() <= 16 + es@.len(),
{
    let mut v: Vec<ChannelInfo> = Vec::new();
    let mut i: usize = 0;
    while i < 16
        invariant
            i <= 16,
            speaker_keys(es@).no_duplicates(),
            infos_match(v@, standard_main_upto(es@, i as nat), 0),
            v@.len() <= i,
        decreases 16 - i,
    {
        let name = standard_channel_name(i);
        let ghost before = v@;
        match find_entry(es, name) {
            Some(ei) => {
                match &es[ei].1 {
                    ConfigValue::Unsigned(g) => {
                        let idx = v.len();
                        v.push(ChannelInfo { name: String::from_str(name), grid_pos: *g as u32, channel_index: idx });
                    },
                    _ => {},
                }
            },
            None => {},
        }
        proof {
            assert(standard_main_upto(es@, (i + 1) as nat) == {
                let prev = standard_main_upto(es@, i as nat);
                match entry_value(es@, standard_names()[i as int]) {
                    Some(ConfigValue::Unsigned(g)) => prev.push((standard_names()[i as int], g)),
                    _ => prev,
                }
            });
        }
        i = i + 1;
    }
    let mut k: usize = 0;
    proof {
        assert(es@.subrange(0, 0) =~= Seq::<(String, ConfigValue)>::empty());
        assert(standard_main_upto(es@, 16) + other_main(es@.subrange(0, 0)) =~= standard_main_upto(es@, 16));
    }
    while k < es.len()
        invariant
            k <= es@.len(),
            infos_match(v@, standard_main_upto(es@, 16) + other_main(es@.subrange(0, k as int)), 0),
            v@.len() <= 16 + k,
        decreases es@.len() - k,
    {
        let key = es[k].0.as_str();
        let ghost pre = es@.subrange(0, k as int);
        proof {
            assert(es@.subrange(0, k + 1).drop_last() =~= pre);
            assert(es@.subrange(0, k + 1).last() == es@[k as int]);
            reveal_strlit("Size");
            assert("Size"@ =~= size_key());
        }
        match &es[k].1 {
            ConfigValue::Unsigned(g) => {
                if !str_eq(key, "Size") && find_standard_index(key).is_none() {
                    let idx = v.len();
                    v.push(ChannelInfo { name: es[k].0.clone(), grid_pos: *g as u32, channel_index: idx });
                }
            },
            _ => {},
        }
        proof {
            let s1 = standard_main_upto(es@, 16) + other_main(pre);
            let s2 = standard_main_upto(es@, 16) + other_main(es@.subrange(0, k + 1));
            let e = es@[k as int];
            match e.1 {
                ConfigValue::Unsigned(g) => {
                    if e.0@ != size_key() && standard_index(e.0@) < 0 {
                        assert(other_main(es@.subrange(0, k + 1)) == other_main(pre).push((e.0@, g)));
                        assert(s2 =~= s1.push((e.0@, g)));
                        assert(v@.last().name@ == e.0@);
                    } else {
                        assert(other_main(es@.subrange(0, k + 1)) == other_main(pre));
                        assert(s2 =~= s1);
                    }
                },
                _ => {
                    assert(other_main(es@.subrange(0, k + 1)) == other_main(pre));
                    assert(s2 =~= s1);
                },
            }
        }
        k = k + 1;
    }
    proof {
        assert(es@.subrange(0, es@.len() as int) =~= es@);
    }
    v
}

/// `v` lists the SUB channels of `es` in name order, with buffer indices from `offset`.
pub open spec fn sub_infos_match(v: Seq<ChannelInfo>, es: Seq<(String, u32)>, offset: int) -> bool {
    &&& v.len() == es.len()
    &&& strictly_sorted(v.map_values(|c: ChannelInfo| c.name@))
    &&& v.map_values(|c: ChannelInfo| c.name@).to_set() == sub_keys(es).to_set()
    &&& forall|j: int| 0 <= j < v.len() ==> {
        &&& (#[trigger] v[j]).grid_pos == sub_value(es, v[j].name@)
        &&& v[j].channel_index == offset + j
    }
}

fn collect_sub_channels(es: &Vec<(String, u32)>, offset: usize) -> (v: Vec<ChannelInfo>)
    requires
        sub_keys(es@).no_duplicates(),
        offset + es@.len() <= usize::MAX,
    ensures
        sub_infos_match(v@, es@, offset as int),
{
    let mut keys: Vec<String> = Vec::new();
    let mut k: usize = 0;
    while k < es.len()
        invariant
            k <= es@.len(),
            string_views(keys@) == sub_keys(es@).subrange(0, k as int),
        decreases es@.len() - k,
    {
        let key_copy = es[k].0.clone();
        proof {
            assert(key_copy@ == es@[k as int].0@);
            assert(sub_keys(es@)[k as int] == es@[k as int].0@);
        }
        let ghost old_keys = keys@;
        proof {
            assert(string_views(old_keys).len() == old_keys.len());
            assert(old_keys.len() == k);
        }
        keys.push(key_copy);
        proof {
            assert(keys@ == old_keys.push(key_copy));
            assert forall|i: int| 0 <= i < k + 1 implies string_views(keys@)[i] == sub_keys(es@).subrange(0, k + 1)[i] by {
                if i < k {
                    assert(keys@[i] == old_keys[i]);
                    assert(string_views(old_keys)[i] == sub_keys(es@).subrange(0, k as int)[i]);
                }
            }
            assert(string_views(keys@) =~= sub_keys(es@).subrange(0, k + 1));
        }
        k = k + 1;
    }
    proof {
        assert(sub_keys(es@).subrange(0, es@.len() as int) =~= sub_keys(es@));
    }
    let sorted = sorted_strings(&keys);
    let mut v: Vec<ChannelInfo> = Vec::new();
    let mut j: usize = 0;
    while j < sorted.len()
        invariant
            j <= sorted@.len(),
            sorted@.len() == es@.len(),
            offset + es@.len() <= usize::MAX,
            sub_keys(es@).no_duplicates(),
            string_views(sorted@).to_set() == sub_keys(es@).to_set(),
            strictly_sorted(string_views(sorted@)),
            v@.len() == j,
            forall|q: int| 0 <= q < j ==> (#[trigger] v@[q]).name@ == sorted@[q]@,
            forall|q: int| 0 <= q < j ==> {
                &&& (#[trigger] v@[q]).grid_pos == sub_value(es@, v@[q].name@)
                &&& v@[q].channel_index == offset + q
            },
        decreases sorted@.len() - j,
    {
        let key = sorted[j].as_str();
        proof {
            assert(string_views(sorted@)[j as int] == sorted@[j as int]@);
            assert(string_views(sorted@).to_set().contains(sorted@[j as int]@));
        }
        match find_sub_entry(es, key) {
            Some(ei) => {
                proof {
                    let c = choose|i: int| 0 <= i < es@.len() && es@[i].0@ == key@;
                    assert(sub_keys(es@)[c] == sub_keys(es@)[ei as int]);
                    lemma_unique_position(sub_keys(es@), c, ei as int);
                }
                v.push(ChannelInfo { name: sorted[j].clone(), grid_pos: es[ei].1, channel_index: offset + j });
            },
            None => {
                proof {
                    let c = choose|i: int| 0 <= i < sub_keys(es@).len() && sub_keys(es@)[i] == key@;
                    assert(es@[c].0@ == key@);
                }
            },
        }
        j = j + 1;
    }
    proof {
        assert(v@.map_values(|c: ChannelInfo| c.name@) =~= string_views(sorted@));
    }
    v
}

} // verus!

verus! {

/// The channel at buffer index `i` of the main list followed by the SUB list.
pub open spec fn channel_at(main: Seq<ChannelInfo>, sub: Seq<ChannelInfo>, i: int) -> ChannelInfo {
    if i < main.len() { main[i] } else { sub[i - main.len()] }
}

fn build_lookup(main: &Vec<ChannelInfo>, sub: &Vec<ChannelInfo>, total: usize) -> (t: [ChannelLookupEntry; 32])
    requires
        total == main@.len() + sub@.len(),
    ensures
        forall|i: int| 0 <= i < 32 ==> if i < total {
            is_lookup_entry_of(#[trigger] t@[i], channel_at(main@, sub@, i).name@)
        } else {
            is_empty_lookup_entry(t@[i])
        },
{
    let empty = ChannelLookupEntry::default();
    let mut t = [empty; 32];
    let limit: usize = if total < 32 { total } else { 32 };
    let mut i: usize = 0;
    while i < limit
        invariant
            i <= limit <= 32,
            limit <= total,
            total == main@.len() + sub@.len(),
            is_empty_lookup_entry(empty),
            forall|j: int| 0 <= j < i ==> is_lookup_entry_of(#[trigger] t@[j], channel_at(main@, sub@, j).name@),
            forall|j: int| i <= j < 32 ==> #[trigger] t@[j] == empty,
        decreases limit - i,
    {
        let name = if i < main.len() { main[i].name.as_str() } else { sub[i - main.len()].name.as_str() };
        t[i] = ChannelLookupEntry::from_str(name);
        i = i + 1;
    }
    t
}

/// The stereo layout used when a combination has no channel.
fn fallback_stereo() -> (l: Layout)
    ensures
        is_fallback_stereo(l),
{
    let main = vec![
        ChannelInfo { name: String::from_str("L"), grid_pos: 1, channel_index: 0 },
        ChannelInfo { name: String::from_str("R"), grid_pos: 3, channel_index: 1 },
    ];
    let sub: Vec<ChannelInfo> = Vec::new();
    let table = build_lookup(&main, &sub, 2);
    proof {
        reveal_strlit("L");
        reveal_strlit("R");
        reveal_strlit("Fallback_Stereo");
    }
    let l = Layout {
        name: String::from_str("Fallback_Stereo"),
        width: 3,
        height: 1,
        main_channels: main,
        sub_channels: sub,
        total_channels: 2,
        channel_by_index: table,
    };
    proof {
        assert(l.name@ =~= seq!['F', 'a', 'l', 'l', 'b', 'a', 'c', 'k', '_', 'S', 't', 'e', 'r', 'e', 'o']);
        assert(l.main_channels@[0].name@ =~= seq!['L']);
        assert(l.main_channels@[1].name@ =~= seq!['R']);
    }
    l
}

} // verus!

verus! {

/// The speaker layout's main channels (none for an unknown layout).
pub open spec fn main_spec_of(c: RawConfig, speaker: Seq<char>) -> Seq<(Seq<char>, u64)> {
    match find_speaker(c, speaker) {
        Some(l) => main_channels_of(l.entries@),
        None => Seq::empty(),
    }
}

/// The SUB layout used for `sub` ("None" selects none).
pub open spec fn sub_layout_of(c: RawConfig, sub: Seq<char>) -> Option<SubLayoutConfig> {
    if sub == none_name() { None } else { find_sub(c, sub) }
}

/// `l` is the layout that combining `speaker` and `sub` gives.
pub open spec fn layout_matches(l: Layout, c: RawConfig, speaker: Seq<char>, sub: Seq<char>) -> bool {
    let main = main_spec_of(c, speaker);
    let sub_l = sub_layout_of(c, sub);
    let sub_len = match sub_l { Some(s) => s.entries@.len(), None => 0 };
    if main.len() + sub_len == 0 {
        is_fallback_stereo(l)
    } else {
        &&& l.name@ == speaker + seq!['+'] + sub
        &&& (l.width, l.height) == match find_speaker(c, speaker) {
            Some(sp) => size_of_layout(sp.entries@),
            None => (5u32, 5u32),
        }
        &&& infos_match(l.main_channels@, main, 0)
        &&& match sub_l {
            Some(s) => sub_infos_match(l.sub_channels@, s.entries@, main.len() as int),
            None => l.sub_channels@.len() == 0,
        }
        &&& l.total_channels == main.len() + sub_len
        &&& lookup_table_matches(l)
    }
}

/// Lengths of the configuration's lists stay far from the `usize` limit.
pub open spec fn raw_config_bounded(c: RawConfig) -> bool {
    &&& small_len(c.speakers@.len() as int)
    &&& small_len(c.subs@.len() as int)
    &&& forall|i: int| 0 <= i < c.speakers@.len() ==> small_len((#[trigger] c.speakers@[i]).entries@.len() as int)
    &&& forall|i: int| 0 <= i < c.subs@.len() ==> small_len((#[trigger] c.subs@[i]).entries@.len() as int)
}

/// Layout names and channel lists of the layout configuration.
pub struct ConfigManager {
    raw_config: RawConfig,
    cached_speaker_names: Vec<String>,
    cached_sub_names: Vec<String>,
}

fn strings_distinct(v: &Vec<String>) -> (r: bool)
    ensures
        r == string_views(v@).no_duplicates(),
{
    let mut i: usize = 0;
    while i < v.len()
        invariant
            i <= v@.len(),
            forall|a: int, b: int| 0 <= a < i && 0 <= b < v@.len() && a != b ==> v@[a]@ != v@[b]@,
        decreases v@.len() - i,
    {
        let mut j: usize = 0;
        while j < v.len()
            invariant
                i < v@.len(),
                j <= v@.len(),
                forall|a: int, b: int| 0 <= a < i && 0 <= b < v@.len() && a != b ==> v@[a]@ != v@[b]@,
                forall|b: int| 0 <= b < j && b != i ==> v@[i as int]@ != v@[b]@,
            decreases v@.len() - j,
        {
            if j != i && str_eq(v[i].as_str(), v[j].as_str()) {
                proof {
                    assert(string_views(v@)[i as int] == string_views(v@)[j as int]);
                }
                return false;
            }
            j = j + 1;
        }
        i = i + 1;
    }
    true
}

fn speaker_names_of(c: &RawConfig) -> (v: Vec<String>)
    ensures
        string_views(v@) == speaker_layout_names(*c),
{
    let mut v: Vec<String> = Vec::new();
    let mut i: usize = 0;
    while i < c.speakers.len()
        invariant
            i <= c.speakers@.len(),
            string_views(v@) == speaker_layout_names(*c).subrange(0, i as int),
        decreases c.speakers@.len() - i,
    {
        let n = c.speakers[i].name.clone();
        let ghost old_v = v@;
        proof { assert(string_views(old_v).len() == old_v.len()); }
        v.push(n);
        proof {
            assert forall|k: int| 0 <= k < i + 1 implies string_views(v@)[k] == speaker_layout_names(*c).subrange(0, i + 1)[k] by {
                if k < i {
                    assert(v@[k] == old_v[k]);
                    assert(string_views(old_v)[k] == speaker_layout_names(*c).subrange(0, i as int)[k]);
                }
            }
            assert(string_views(v@) =~= speaker_layout_names(*c).subrange(0, i + 1));
        }
        i = i + 1;
    }
    proof { assert(speaker_layout_names(*c).subrange(0, c.speakers@.len() as int) =~= speaker_layout_names(*c)); }
    v
}

fn sub_names_of(c: &RawConfig) -> (v: Vec<String>)
    ensures
        string_views(v@) == sub_layout_names(*c),
{
    let mut v: Vec<String> = Vec::new();
    let mut i: usize = 0;
    while i < c.subs.len()
        invariant
            i <= c.subs@.len(),
            string_views(v@) == sub_layout_names(*c).subrange(0, i as int),
        decreases c.subs@.len() - i,
    {
        let n = c.subs[i].name.clone();
        let ghost old_v = v@;
        proof { assert(string_views(old_v).len() == old_v.len()); }
        v.push(n);
        proof {
            assert forall|k: int| 0 <= k < i + 1 implies string_views(v@)[k] == sub_layout_names(*c).subrange(0, i + 1)[k] by {
                if k < i {
                    assert(v@[k] == old_v[k]);
                    assert(string_views(old_v)[k] == sub_layout_names(*c).subrange(0, i as int)[k]);
                }
            }
            assert(string_views(v@) =~= sub_layout_names(*c).subrange(0, i + 1));
        }
        i = i + 1;
    }
    proof { assert(sub_layout_names(*c).subrange(0, c.subs@.len() as int) =~= sub_layout_names(*c)); }
    v
}

fn entry_keys(es: &Vec<(String, ConfigValue)>) -> (v: Vec<String>)
    ensures
        string_views(v@) == speaker_keys(es@),
{
    let mut v: Vec<String> = Vec::new();
    let mut i: usize = 0;
    while i < es.len()
        invariant
            i <= es@.len(),
            string_views(v@) == speaker_keys(es@).subrange(0, i as int),
        decreases es@.len() - i,
    {
        let n = es[i].0.clone();
        let ghost old_v = v@;
        proof { assert(string_views(old_v).len() == old_v.len()); }
        v.push(n);
        proof {
            assert forall|k: int| 0 <= k < i + 1 implies string_views(v@)[k] == speaker_keys(es@).subrange(0, i + 1)[k] by {
                if k < i {
                    assert(v@[k] == old_v[k]);
                    assert(string_views(old_v)[k] == speaker_keys(es@).subrange(0, i as int)[k]);
                }
            }
            assert(string_views(v@) =~= speaker_keys(es@).subrange(0, i + 1));
        }
        i = i + 1;
    }
    proof { assert(speaker_keys(es@).subrange(0, es@.len() as int) =~= speaker_keys(es@)); }
    v
}

fn sub_entry_keys(es: &Vec<(String, u32)>) -> (v: Vec<String>)
    ensures
        string_views(v@) == sub_keys(es@),
{
    let mut v: Vec<String> = Vec::new();
    let mut i: usize = 0;
    while i < es.len()
        invariant
            i <= es@.len(),
            string_views(v@) == sub_keys(es@).subrange(0, i as int),
        decreases es@.len() - i,
    {
        let n = es[i].0.clone();
        let ghost old_v = v@;
        proof { assert(string_views(old_v).len() == old_v.len()); }
        v.push(n);
        proof {
            assert forall|k: int| 0 <= k < i + 1 implies string_views(v@)[k] == sub_keys(es@).subrange(0, i + 1)[k] by {
                if k < i {
                    assert(v@[k] == old_v[k]);
                    assert(string_views(old_v)[k] == sub_keys(es@).subrange(0, i as int)[k]);
                }
            }
            assert(string_views(v@) =~= sub_keys(es@).subrange(0, i + 1));
        }
        i = i + 1;
    }
    proof { assert(sub_keys(es@).subrange(0, es@.len() as int) =~= sub_keys(es@)); }
    v
}

const SMALL_LEN_LIMIT: usize = usize::MAX / 4;

/// Whether the configuration is one read from maps (unique names and keys)
/// with list lengths far from the `usize` limit.
pub fn raw_config_is_valid(c: &RawConfig) -> (r: bool)
    ensures
        r == (raw_config_wf(*c) && raw_config_bounded(*c)),
{
    if c.speakers.len() >= SMALL_LEN_LIMIT || c.subs.len() >= SMALL_LEN_LIMIT {
        return false;
    }
    if !strings_distinct(&speaker_names_of(c)) || !strings_distinct(&sub_names_of(c)) {
        return false;
    }
    let mut i: usize = 0;
    while i < c.speakers.len()
        invariant
            i <= c.speakers@.len(),
            forall|k: int| 0 <= k < i ==> speaker_keys((#[trigger] c.speakers@[k]).entries@).no_duplicates()
                && small_len(c.speakers@[k].entries@.len() as int),
        decreases c.speakers@.len() - i,
    {
        if c.speakers[i].entries.len() >= SMALL_LEN_LIMIT || !strings_distinct(&entry_keys(&c.speakers[i].entries)) {
            return false;
        }
        i = i + 1;
    }
    let mut j: usize = 0;
    while j < c.subs.len()
        invariant
            j <= c.subs@.len(),
            forall|k: int| 0 <= k < j ==> sub_keys((#[trigger] c.subs@[k]).entries@).no_duplicates()
                && small_len(c.subs@[k].entries@.len() as int),
        decreases c.subs@.len() - j,
    {
        if c.subs[j].entries.len() >= SMALL_LEN_LIMIT || !strings_distinct(&sub_entry_keys(&c.subs[j].entries)) {
            return false;
        }
        j = j + 1;
    }
    true
}

} // verus!

verus! {

/// Number of channels of a speaker layout: entries other than "Size" with an
/// integer value.
pub open spec fn channel_count(es: Seq<(String, ConfigValue)>) -> nat
    decreases es.len(),
{
    if es.len() == 0 {
        0
    } else {
        channel_count(es.drop_last()) + if es.last().0@ != size_key() && es.last().1 is Unsigned { 1nat } else { 0nat }
    }
}

/// Channel count of the speaker layout named `n` (0 for an unknown name).
pub open spec fn layout_channel_count(c: RawConfig, n: Seq<char>) -> nat {
    match find_speaker(c, n) {
        Some(l) => channel_count(l.entries@),
        None => 0,
    }
}

/// Index `i` is the first whose count equals `target`.
/// `r` is the outcome of a layout search by channel count over `counts` (one
/// count per speaker layout, in name order): the first exact match; else the
/// first of the largest counts not above the target (ignoring empty
/// layouts); None when there is neither.
pub open spec fn layout_search_ok(counts: Seq<nat>, target: nat, r: Option<i32>) -> bool {
    match r {
        Some(i) => is_first_exact(counts, target, i as int)
            || ((forall|j: int| 0 <= j < counts.len() ==> counts[j] != target)
                && is_best_fit(counts, target, i as int)),
        None => (forall|j: int| 0 <= j < counts.len() ==> counts[j] != target)
            && (forall|j: int| 0 <= j < counts.len() ==> counts[j] == 0 || counts[j] > target),
    }
}

pub open spec fn is_first_exact(counts: Seq<nat>, target: nat, i: int) -> bool {
    &&& 0 <= i < counts.len()
    &&& counts[i] == target
    &&& forall|j: int| 0 <= j < i ==> counts[j] != target
}

/// Index `i` has the largest count in `1..=target`, and no earlier index has it.
pub open spec fn is_best_fit(counts: Seq<nat>, target: nat, i: int) -> bool {
    &&& 0 <= i < counts.len()
    &&& 0 < counts[i] <= target
    &&& forall|j: int| 0 <= j < counts.len() && counts[j] <= target ==> counts[j] <= counts[i]
    &&& forall|j: int| 0 <= j < i && counts[j] <= target ==> counts[j] < counts[i]
}

impl ConfigManager {
    /// Well-formedness: a valid configuration and its sorted name lists
    /// ("None" first among the SUB layout names).
    pub closed spec fn wf(&self) -> bool {
        &&& raw_config_wf(self.raw_config)
        &&& raw_config_bounded(self.raw_config)
        &&& string_views(self.cached_speaker_names@).to_set() == speaker_layout_names(self.raw_config).to_set()
        &&& string_views(self.cached_speaker_names@).no_duplicates()
        &&& strictly_sorted(string_views(self.cached_speaker_names@))
        &&& self.cached_speaker_names@.len() == self.raw_config.speakers@.len()
        &&& self.cached_sub_names@.len() == self.raw_config.subs@.len() + 1
        &&& self.cached_sub_names@[0]@ == none_name()
        &&& string_views(self.cached_sub_names@.skip(1)).to_set() == sub_layout_names(self.raw_config).to_set()
        &&& strictly_sorted(string_views(self.cached_sub_names@.skip(1)))
    }

    /// The layout configuration in use.
    pub closed spec fn config(&self) -> RawConfig {
        self.raw_config
    }

    /// Speaker layout names in name order.
    pub closed spec fn speaker_names(&self) -> Seq<Seq<char>> {
        string_views(self.cached_speaker_names@)
    }

    /// The channel count of each speaker layout, in name order.
    pub open spec fn channel_counts(&self) -> Seq<nat> {
        self.speaker_names().map_values(|n: Seq<char>| layout_channel_count(self.config(), n))
    }

    /// "None" followed by the SUB layout names in name order.
    pub closed spec fn sub_names(&self) -> Seq<Seq<char>> {
        string_views(self.cached_sub_names@)
    }

    /// A manager for `raw`; an invalid configuration (duplicate names or keys)
    /// is replaced by an empty one.
    pub fn new(raw: RawConfig) -> (m: Self)
        ensures
            m.wf(),
            raw_config_wf(raw) && raw_config_bounded(raw) ==> m.config() == raw,
            !(raw_config_wf(raw) && raw_config_bounded(raw)) ==> m.config().speakers@.len() == 0
                && m.config().subs@.len() == 0,
    {
        let raw_config = if raw_config_is_valid(&raw) {
            raw
        } else {
            let empty = RawConfig { speakers: Vec::new(), subs: Vec::new() };
            proof {
                assert(speaker_layout_names(empty) =~= Seq::<Seq<char>>::empty());
                assert(sub_layout_names(empty) =~= Seq::<Seq<char>>::empty());
            }
            empty
        };
        let speaker_names = speaker_names_of(&raw_config);
        let cached_speaker_names = sorted_strings(&speaker_names);
        let sub_names = sub_names_of(&raw_config);
        let sorted_subs = sorted_strings(&sub_names);
        let mut cached_sub_names: Vec<String> = Vec::new();
        cached_sub_names.push(String::from_str("None"));
        let mut k: usize = 0;
        while k < sorted_subs.len()
            invariant
                k <= sorted_subs@.len(),
                cached_sub_names@.len() == k + 1,
                cached_sub_names@[0]@ == "None"@,
                forall|q: int| 0 <= q < k ==> cached_sub_names@[q + 1] == sorted_subs@[q],
            decreases sorted_subs@.len() - k,
        {
            cached_sub_names.push(sorted_subs[k].clone());
            k = k + 1;
        }
        proof {
            reveal_strlit("None");
            assert("None"@ =~= none_name());
            assert(cached_sub_names@.skip(1) =~= sorted_subs@);
            assert(string_views(speaker_names@).len() == speaker_names@.len());
            assert(speaker_layout_names(raw_config).len() == raw_config.speakers@.len());
            assert(string_views(sub_names@).len() == sub_names@.len());
            assert(sub_layout_names(raw_config).len() == raw_config.subs@.len());
            assert(raw_config_wf(raw_config));
            assert(raw_config_bounded(raw_config));
        }
        ConfigManager { raw_config, cached_speaker_names, cached_sub_names }
    }

    /// Speaker layout names in name order.
    pub fn get_speaker_layouts(&self) -> (v: Vec<String>)
        ensures
            string_views(v@) == self.speaker_names(),
    {
        let v = self.cached_speaker_names.clone();
        proof {
            assert forall|i: int| 0 <= i < v@.len() implies v@[i] == self.cached_speaker_names@[i] by {
                assert(vstd::pervasive::cloned::<String>(self.cached_speaker_names[i], v[i]));
            }
            assert(v@ =~= self.cached_speaker_names@);
        }
        v
    }

    /// "None" followed by the SUB layout names in name order.
    pub fn get_sub_layouts(&self) -> (v: Vec<String>)
        ensures
            string_views(v@) == self.sub_names(),
    {
        let v = self.cached_sub_names.clone();
        proof {
            assert forall|i: int| 0 <= i < v@.len() implies v@[i] == self.cached_sub_names@[i] by {
                assert(vstd::pervasive::cloned::<String>(self.cached_sub_names[i], v[i]));
            }
            assert(v@ =~= self.cached_sub_names@);
        }
        v
    }

    /// The `idx`-th speaker layout name, if any.
    pub fn get_speaker_name(&self, idx: usize) -> (r: Option<&str>)
        ensures
            match r {
                Some(s) => idx < self.speaker_names().len() && s@ == self.speaker_names()[idx as int],
                None => idx >= self.speaker_names().len(),
            },
    {
        if idx < self.cached_speaker_names.len() {
            Some(self.cached_speaker_names[idx].as_str())
        } else {
            None
        }
    }

    /// The `idx`-th SUB layout name ("None" first), if any.
    pub fn get_sub_name(&self, idx: usize) -> (r: Option<&str>)
        ensures
            match r {
                Some(s) => idx < self.sub_names().len() && s@ == self.sub_names()[idx as int],
                None => idx >= self.sub_names().len(),
            },
    {
        if idx < self.cached_sub_names.len() {
            Some(self.cached_sub_names[idx].as_str())
        } else {
            None
        }
    }
}

} // verus!

verus! {

fn count_channels(es: &Vec<(String, ConfigValue)>) -> (n: usize)
    ensures
        n == channel_count(es@),
{
    let mut n: usize = 0;
    let mut k: usize = 0;
    proof { reveal_strlit("Size"); assert("Size"@ =~= size_key()); }
    while k < es.len()
        invariant
            k <= es@.len(),
            n == channel_count(es@.subrange(0, k as int)),
            n <= k,
            "Size"@ == size_key(),
        decreases es@.len() - k,
    {
        proof {
            assert(es@.subrange(0, k + 1).drop_last() =~= es@.subrange(0, k as int));
            assert(es@.subrange(0, k + 1).last() == es@[k as int]);
        }
        let counted = match &es[k].1 {
            ConfigValue::Unsigned(_) => !str_eq(es[k].0.as_str(), "Size"),
            _ => false,
        };
        if counted {
            n = n + 1;
        }
        k = k + 1;
    }
    proof { assert(es@.subrange(0, es@.len() as int) =~= es@); }
    n
}

impl ConfigManager {
    /// The layout combining speaker layout `speaker_name` with SUB layout
    /// `sub_name` ("None" for no SUB layout). Main channels come first
    /// (standard channels in standard order, then the other channels in entry
    /// order), then the SUB channels in name order; buffer indices follow that
    /// order. A combination without any channel gives the stereo fallback.
    pub fn get_layout(&self, speaker_name: &str, sub_name: &str) -> (l: Layout)
        requires
            self.wf(),
        ensures
            layout_matches(l, self.config(), speaker_name@, sub_name@),
    {
        let c = &self.raw_config;
        let mut width: u32 = 5;
        let mut height: u32 = 5;
        let mut main: Vec<ChannelInfo> = Vec::new();
        let sp = find_speaker_index(c, speaker_name);
        match sp {
            Some(si) => {
                let es = &c.speakers[si].entries;
                proof {
                    assert(speaker_keys(c.speakers@[si as int].entries@).no_duplicates());
                    reveal_strlit("Size");
                    assert("Size"@ =~= size_key());
                }
                match find_entry(es, "Size") {
                    Some(ei) => {
                        match &es[ei].1 {
                            ConfigValue::Text(t) => {
                                let (w, h) = parse_size_text(t.as_str());
                                width = w;
                                height = h;
                            },
                            _ => {},
                        }
                    },
                    None => {},
                }
                main = collect_main_channels(es);
            },
            None => {},
        }
        let main_len = main.len();
        proof {
            reveal_strlit("None");
            assert("None"@ =~= none_name());
        }
        let mut sub: Vec<ChannelInfo> = Vec::new();
        let mut sub_found = false;
        if !str_eq(sub_name, "None") {
            match find_sub_index(c, sub_name) {
                Some(si) => {
                    proof {
                        assert(sub_keys(c.subs@[si as int].entries@).no_duplicates());
                        assert(small_len(c.subs@[si as int].entries@.len() as int));
                        match sp {
                            Some(spi) => { assert(small_len(c.speakers@[spi as int].entries@.len() as int)); },
                            None => {},
                        }
                    }
                    sub = collect_sub_channels(&c.subs[si].entries, main_len);
                    sub_found = true;
                },
                None => {},
            }
        }
        proof {
            match sp {
                Some(spi) => { assert(small_len(c.speakers@[spi as int].entries@.len() as int)); },
                None => {},
            }
        }
        let total = main_len + sub.len();
        if total == 0 {
            return fallback_stereo();
        }
        let table = build_lookup(&main, &sub, total);
        let mut name = String::from_str(speaker_name);
        name.append("+");
        name.append(sub_name);
        proof {
            reveal_strlit("+");
            assert("+"@ =~= seq!['+']);
        }
        let l = Layout {
            name,
            width,
            height,
            main_channels: main,
            sub_channels: sub,
            total_channels: total,
            channel_by_index: table,
        };
        proof {
            assert forall|i: int| 0 <= i < 32 implies layout_channel(l, i) == channel_at(l.main_channels@, l.sub_channels@, i) by {}
        }
        l
    }

    /// Index (in `speaker_names`) of the speaker layout whose channel count
    /// equals `target_channels`, the first one if several do; otherwise the
    /// first of those with the largest count not above the target (ignoring
    /// layouts without channels); None when there is none.
    pub fn find_layout_for_channels(&self, target_channels: usize) -> (r: Option<i32>)
        requires
            self.wf(),
            self.speaker_names().len() <= i32::MAX,
        ensures
            layout_search_ok(self.channel_counts(), target_channels as nat, r),
    {
        let ghost counts = self.speaker_names().map_values(|n: Seq<char>| layout_channel_count(self.config(), n));
        let n = self.cached_speaker_names.len();
        let mut idx: usize = 0;
        while idx < n
            invariant
                idx <= n,
                n == self.cached_speaker_names@.len(),
                n <= i32::MAX,
                self.wf(),
                counts == self.speaker_names().map_values(|n: Seq<char>| layout_channel_count(self.config(), n)),
                forall|j: int| 0 <= j < idx ==> counts[j] != target_channels,
            decreases n - idx,
        {
            let count = self.count_of(idx);
            if count == target_channels {
                return Some(idx as i32);
            }
            idx = idx + 1;
        }
        let mut best_idx: Option<i32> = None;
        let mut best_count: usize = 0;
        let mut k: usize = 0;
        while k < n
            invariant
                k <= n,
                n == self.cached_speaker_names@.len(),
                n <= i32::MAX,
                self.wf(),
                counts == self.speaker_names().map_values(|n: Seq<char>| layout_channel_count(self.config(), n)),
                counts.len() == n,
                forall|j: int| 0 <= j < n ==> counts[j] != target_channels,
                best_count <= target_channels,
                forall|j: int| 0 <= j < k && counts[j] <= target_channels ==> counts[j] <= best_count,
                match best_idx {
                    Some(b) => 0 <= b < k && counts[b as int] == best_count && best_count > 0
                        && (forall|j: int| 0 <= j < b && counts[j] <= target_channels ==> counts[j] < best_count),
                    None => best_count == 0,
                },
            decreases n - k,
        {
            let count = self.count_of(k);
            if count <= target_channels && count > best_count {
                best_count = count;
                best_idx = Some(k as i32);
            }
            k = k + 1;
        }
        best_idx
    }

    /// Channel count of the `i`-th speaker layout in name order.
    fn count_of(&self, i: usize) -> (n: usize)
        requires
            self.wf(),
            i < self.speaker_names().len(),
        ensures
            n == self.speaker_names().map_values(|n: Seq<char>| layout_channel_count(self.config(), n))[i as int],
    {
        let name = self.cached_speaker_names[i].as_str();
        match find_speaker_index(&self.raw_config, name) {
            Some(si) => count_channels(&self.raw_config.speakers[si].entries),
            None => 0,
        }
    }
}

} // verus!
