//! The interaction state exchanged between a Master and its Slaves, and the
//! channel-mask encodings it uses.
use vstd::prelude::*;
use crate::bitmask::{bit32, bit8, lemma_bit32_or, lemma_bit32_zero, lemma_bit8_or, lemma_bit8_zero, lemma_bit32_ext,
    lemma_bit32_low16};
use crate::channel_names::{standard_names, standard_channel_name, find_standard_index, standard_index,
    lemma_standard_names_distinct, lemma_standard_index_of};
use crate::channel_set::ChannelSet;
use crate::clock::{system_time_now, since_unix_epoch, duration_as_millis};

verus! {

/// Wall-clock time in milliseconds since the Unix epoch (0 when the clock is
/// before the epoch), truncated to 64 bits.
fn unix_time_millis() -> u64 {
    let now = system_time_now();
    match since_unix_epoch(&now) {
        Some(d) => duration_as_millis(&d) as u64,
        None => 0,
    }
}

/// `m` encodes exactly the standard channel names of `s`: bit `i` (for `i < 16`)
/// is set when `s` holds the `i`-th standard name, and bits 16..31 are clear.
pub open spec fn mask_represents(m: u32, s: Set<Seq<char>>) -> bool {
    &&& forall|i: u32| i < 16 ==> (bit32(m, i) <==> s.contains(#[trigger] standard_names()[i as int]))
    &&& forall|i: u32| 16 <= i < 32 ==> !#[trigger] bit32(m, i)
}

/// `m` encodes exactly which of SUB_F, SUB_B, SUB_L, SUB_R (bits 0..3) are in `s`;
/// bits 4..7 are clear.
pub open spec fn sub_mask_represents(m: u8, s: Set<Seq<char>>) -> bool {
    &&& forall|i: u8| i < 4 ==> (bit8(m, i) <==> s.contains(#[trigger] standard_names()[12 + i]))
    &&& forall|i: u8| 4 <= i < 8 ==> !#[trigger] bit8(m, i)
}

/// The standard names whose bit (among bits 0..15) is set in `m`.
pub open spec fn mask_names(m: u32) -> Set<Seq<char>> {
    Set::new(|n: Seq<char>| exists|i: u32| i < 16 && standard_names()[i as int] == n && bit32(m, i))
}

/// The SUB names whose bit (among bits 0..3) is set in `m`.
pub open spec fn sub_mask_names(m: u8) -> Set<Seq<char>> {
    Set::new(|n: Seq<char>| exists|i: u8| i < 4 && standard_names()[12 + i] == n && bit8(m, i))
}

/// The standard channel names.
pub open spec fn standard_name_set() -> Set<Seq<char>> {
    Set::new(|n: Seq<char>| exists|i: int| 0 <= i < 16 && standard_names()[i] == n)
}

/// The standard SUB channel names.
pub open spec fn sub_name_set() -> Set<Seq<char>> {
    Set::new(|n: Seq<char>| exists|i: int| 12 <= i < 16 && standard_names()[i] == n)
}

/// Interaction state synchronised from Master to Slave.
/// The master gain is carried as the bit pattern of its `f32` value.
#[derive(Clone, Copy, Debug)]
pub struct NetworkInteractionState {
    /// Primary mode: 0 = None, 1 = Solo, 2 = Mute.
    pub primary: u8,
    /// Compare mode: 0 = None, 1 = Solo, 2 = Mute.
    pub compare: u8,
    /// Solo channels as a mask over the standard channel order.
    pub solo_mask: u32,
    /// Mute channels as a mask over the standard channel order.
    pub mute_mask: u32,
    /// User-muted SUB channels (bits 0..3 = SUB_F, SUB_B, SUB_L, SUB_R).
    pub user_mute_sub_mask: u8,
    /// Bit pattern of the master gain (an `f32` in 0.0..=1.0).
    pub master_gain_bits: u32,
    pub dim: bool,
    pub cut: bool,
    /// Speaker layout index.
    pub layout: i32,
    /// SUB layout index.
    pub sub_layout: i32,
    /// Whether the Solo set was edited in compare mode.
    pub solo_has_memory: bool,
    /// Whether the Mute set was edited in compare mode.
    pub mute_has_memory: bool,
    pub automation_mode: bool,
    /// Milliseconds since the Unix epoch when the state was stamped.
    pub timestamp: u64,
    /// Magic number that marks a stamped state.
    pub magic: u16,
}

/// The magic number ("MC") of a stamped network state.
pub const NETWORK_STATE_MAGIC: u16 = 0x4D43;

impl NetworkInteractionState {
    /// The magic number ("MC") of a stamped network state.
    pub const MAGIC: u16 = 0x4D43;

    /// Mask of the standard channel names held by `set`.
    pub fn channel_set_to_mask(set: &ChannelSet) -> (mask: u32)
        ensures
            mask_represents(mask, set@),
    {
        let mut mask: u32 = 0;
        let mut idx: u32 = 0;
        proof {
            assert forall|j: u32| j < 32 implies !bit32(mask, j) by { lemma_bit32_zero(j); }
        }
        while idx < 16
            invariant
                idx <= 16,
                forall|j: u32| j < idx ==> (bit32(mask, j) <==> set@.contains(#[trigger] standard_names()[j as int])),
                forall|j: u32| idx <= j < 32 ==> !#[trigger] bit32(mask, j),
            decreases 16 - idx,
        {
            let name = standard_channel_name(idx as usize);
            let old_mask = mask;
            if set.contains(name) {
                mask = mask | (1u32 << idx);
                proof {
                    assert forall|j: u32| j < 32 implies bit32(mask, j) == (j == idx || bit32(old_mask, j)) by {
                        lemma_bit32_or(old_mask, idx, j);
                    }
                }
            }
            idx = idx + 1;
        }
        mask
    }

    /// The set of standard channel names whose bit is set in `mask`.
    pub fn mask_to_channel_set(mask: u32) -> (set: ChannelSet)
        ensures
            set.wf(),
            set@ == mask_names(mask),
    {
        let mut set = ChannelSet::new();
        let mut idx: u32 = 0;
        while idx < 16
            invariant
                idx <= 16,
                set.wf(),
                set@ == Set::new(|n: Seq<char>| exists|i: u32| i < idx && standard_names()[i as int] == n && bit32(mask, i)),
            decreases 16 - idx,
        {
            let ghost before = set@;
            if (mask >> idx) & 1 == 1 {
                set.set(standard_channel_name(idx as usize), true);
            }
            proof {
                let next = Set::new(|n: Seq<char>| exists|i: u32| i < idx + 1 && standard_names()[i as int] == n && bit32(mask, i));
                assert forall|n: Seq<char>| set@.contains(n) <==> next.contains(n) by {
                    if next.contains(n) {
                        let i = choose|i: u32| i < idx + 1 && standard_names()[i as int] == n && bit32(mask, i);
                        if i < idx {
                            assert(before.contains(n));
                        }
                    }
                    if before.contains(n) {
                        let i = choose|i: u32| i < idx && standard_names()[i as int] == n && bit32(mask, i);
                        assert(next.contains(n));
                    }
                    if bit32(mask, idx) && n == standard_names()[idx as int] {
                        assert(next.contains(n));
                    }
                }
                assert(set@ =~= next);
            }
            idx = idx + 1;
        }
        proof {
            assert(set@ =~= mask_names(mask));
        }
        set
    }

    /// Bit position of a SUB channel name (SUB_F, SUB_B, SUB_L, SUB_R), if it is one.
    pub fn sub_name_to_bit(name: &str) -> (r: Option<u8>)
        ensures
            match r {
                Some(b) => b < 4 && standard_index(name@) == 12 + b,
                None => standard_index(name@) < 12,
            },
    {
        match find_standard_index(name) {
            Some(i) => {
                if i >= 12 {
                    Some((i - 12) as u8)
                } else {
                    None
                }
            },
            None => None,
        }
    }

    /// Mask of the SUB channel names held by `set`.
    pub fn sub_set_to_mask(set: &ChannelSet) -> (mask: u8)
        ensures
            sub_mask_represents(mask, set@),
    {
        let mut mask: u8 = 0;
        let mut b: u8 = 0;
        proof {
            assert forall|j: u8| j < 8 implies !bit8(mask, j) by { lemma_bit8_zero(j); }
        }
        while b < 4
            invariant
                b <= 4,
                forall|j: u8| j < b ==> (bit8(mask, j) <==> set@.contains(#[trigger] standard_names()[12 + j])),
                forall|j: u8| b <= j < 8 ==> !#[trigger] bit8(mask, j),
            decreases 4 - b,
        {
            let name = standard_channel_name((12 + b) as usize);
            let old_mask = mask;
            if set.contains(name) {
                mask = mask | (1u8 << b);
                proof {
                    assert forall|j: u8| j < 8 implies bit8(mask, j) == (j == b || bit8(old_mask, j)) by {
                        lemma_bit8_or(old_mask, b, j);
                    }
                }
            }
            b = b + 1;
        }
        mask
    }

    /// The set of SUB channel names whose bit (0..3) is set in `mask`.
    pub fn mask_to_sub_set(mask: u8) -> (set: ChannelSet)
        ensures
            set.wf(),
            set@ == sub_mask_names(mask),
    {
        let mut set = ChannelSet::new();
        let mut b: u8 = 0;
        while b < 4
            invariant
                b <= 4,
                set.wf(),
                set@ == Set::new(|n: Seq<char>| exists|i: u8| i < b && standard_names()[12 + i] == n && bit8(mask, i)),
            decreases 4 - b,
        {
            let ghost before = set@;
            if (mask >> b) & 1 == 1 {
                set.set(standard_channel_name((12 + b) as usize), true);
            }
            proof {
                let next = Set::new(|n: Seq<char>| exists|i: u8| i < b + 1 && standard_names()[12 + i] == n && bit8(mask, i));
                assert forall|n: Seq<char>| set@.contains(n) <==> next.contains(n) by {
                    if next.contains(n) {
                        let i = choose|i: u8| i < b + 1 && standard_names()[12 + i] == n && bit8(mask, i);
                        if i < b {
                            assert(before.contains(n));
                        }
                    }
                    if before.contains(n) {
                        let i = choose|i: u8| i < b && standard_names()[12 + i] == n && bit8(mask, i);
                        assert(next.contains(n));
                    }
                    if bit8(mask, b) && n == standard_names()[12 + b] {
                        assert(next.contains(n));
                    }
                }
                assert(set@ =~= next);
            }
            b = b + 1;
        }
        proof {
            assert(set@ =~= sub_mask_names(mask));
        }
        set
    }

    /// The same state, stamped with the current wall-clock time and the magic number.
    pub fn with_timestamp(self) -> (r: Self)
        ensures
            r.magic == NETWORK_STATE_MAGIC,
            r == (NetworkInteractionState { timestamp: r.timestamp, magic: NETWORK_STATE_MAGIC, ..self }),
    {
        let mut s = self;
        s.timestamp = unix_time_millis();
        s.magic = Self::MAGIC;
        s
    }

    /// Whether the state carries the magic number.
    pub fn is_valid(&self) -> (r: bool)
        ensures
            r == (self.magic == NETWORK_STATE_MAGIC),
    {
        self.magic == Self::MAGIC
    }
}


/// Decoding a mask into channel names and encoding the names again gives back
/// the mask's low sixteen bits (the bits that name standard channels).
pub proof fn law_mask_decode_encode(m: u32, m2: u32)
    requires
        mask_represents(m2, mask_names(m)),
    ensures
        m2 == m & 0xFFFFu32,
{
    lemma_standard_names_distinct();
    assert forall|i: u32| i < 32 implies bit32(m2, i) == bit32(m & 0xFFFFu32, i) by {
        lemma_bit32_low16(m, i);
        if i < 16 {
            let n = standard_names()[i as int];
            if bit32(m, i) {
                assert(mask_names(m).contains(n));
            }
            if mask_names(m).contains(n) {
                let j = choose|j: u32| j < 16 && standard_names()[j as int] == n && bit32(m, j);
                assert(j == i);
            }
        }
    }
    lemma_bit32_ext(m2, m & 0xFFFFu32);
}

/// Encoding a set of channel names into a mask and decoding it again gives
/// back the standard channel names of the set.
pub proof fn law_mask_encode_decode(s: Set<Seq<char>>, m: u32)
    requires
        mask_represents(m, s),
    ensures
        mask_names(m) == s.intersect(standard_name_set()),
{
    lemma_standard_names_distinct();
    assert forall|n: Seq<char>| mask_names(m).contains(n) <==> s.intersect(standard_name_set()).contains(n) by {
        if s.intersect(standard_name_set()).contains(n) {
            let i = choose|i: int| 0 <= i < 16 && standard_names()[i] == n;
            assert(standard_names()[(i as u32) as int] == n);
            assert(bit32(m, i as u32));
        }
        if mask_names(m).contains(n) {
            let i = choose|i: u32| i < 16 && standard_names()[i as int] == n && bit32(m, i);
            assert(standard_name_set().contains(n));
        }
    }
    assert(mask_names(m) =~= s.intersect(standard_name_set()));
}

} // verus!
