//! The standard speaker channel vocabulary and the text predicates on channel names.
use vstd::prelude::*;
use vstd::string::*;

verus! {

/// Number of channels in the standard speaker order (12 main + 4 SUB).
pub const STANDARD_CHANNEL_COUNT: usize = 16;

/// Number of main (non-SUB) channels at the front of the standard order.
pub const MAIN_CHANNEL_COUNT: usize = 12;

/// The standard channel order: main channels of a 7.1.4 layout, then the SUB channels.
pub open spec fn standard_names() -> Seq<Seq<char>> {
    seq![
        seq!['L'],
        seq!['R'],
        seq!['C'],
        seq!['L', 'F', 'E'],
        seq!['L', 'S', 'S'],
        seq!['R', 'S', 'S'],
        seq!['L', 'R', 'S'],
        seq!['R', 'R', 'S'],
        seq!['L', 'T', 'F'],
        seq!['R', 'T', 'F'],
        seq!['L', 'T', 'B'],
        seq!['R', 'T', 'B'],
        seq!['S', 'U', 'B', '_', 'F'],
        seq!['S', 'U', 'B', '_', 'B'],
        seq!['S', 'U', 'B', '_', 'L'],
        seq!['S', 'U', 'B', '_', 'R'],
    ]
}

/// A channel name is a SUB channel when it starts with "SUB".
pub open spec fn is_sub_name(s: Seq<char>) -> bool {
    s.len() >= 3 && s[0] == 'S' && s[1] == 'U' && s[2] == 'B'
}

/// Position of a name in the standard order, or -1 when it is not a standard name.
pub open spec fn standard_index(s: Seq<char>) -> int {
    if exists|i: int| 0 <= i < 16 && standard_names()[i] == s {
        choose|i: int| 0 <= i < 16 && standard_names()[i] == s
    } else {
        -1
    }
}

/// Position of a SUB name among SUB_F, SUB_B, SUB_L, SUB_R, or -1.
pub open spec fn sub_bit_index(s: Seq<char>) -> int {
    let i = standard_index(s);
    if i >= 12 { i - 12 } else { -1 }
}

pub proof fn lemma_standard_names_distinct()
    ensures
        standard_names().len() == 16,
        forall|i: int, j: int| 0 <= i < 16 && 0 <= j < 16 && i != j
            ==> standard_names()[i] != standard_names()[j],
        forall|i: int| 0 <= i < 12 ==> !is_sub_name(#[trigger] standard_names()[i]),
        forall|i: int| 12 <= i < 16 ==> is_sub_name(#[trigger] standard_names()[i]),
{
    let s = standard_names();
    assert forall|i: int, j: int| 0 <= i < 16 && 0 <= j < 16 && i != j implies s[i] != s[j] by {
        if s[i] == s[j] {
            assert(s[i].len() == s[j].len());
            assert(s[i][0] == s[j][0]);
            if s[i].len() > 1 {
                assert(s[i][1] == s[j][1]);
                assert(s[i][2] == s[j][2]);
            }
            if s[i].len() > 4 {
                assert(s[i][4] == s[j][4]);
            }
        }
    }
}

/// The standard index of the `i`-th standard name is `i`.
pub proof fn lemma_standard_index_of(i: int)
    requires
        0 <= i < 16,
    ensures
        standard_index(standard_names()[i]) == i,
{
    lemma_standard_names_distinct();
    assert(standard_names()[i] == standard_names()[i]);
}

/// The `i`-th name of the standard channel order.
pub fn standard_channel_name(i: usize) -> (s: &'static str)
    requires
        i < 16,
    ensures
        s@ == standard_names()[i as int],
{
    if i == 0 {
        proof { reveal_strlit("L"); }
        "L"
    } else if i == 1 {
        proof { reveal_strlit("R"); }
        "R"
    } else if i == 2 {
        proof { reveal_strlit("C"); }
        "C"
    } else if i == 3 {
        proof { reveal_strlit("LFE"); }
        "LFE"
    } else if i == 4 {
        proof { reveal_strlit("LSS"); }
        "LSS"
    } else if i == 5 {
        proof { reveal_strlit("RSS"); }
        "RSS"
    } else if i == 6 {
        proof { reveal_strlit("LRS"); }
        "LRS"
    } else if i == 7 {
        proof { reveal_strlit("RRS"); }
        "RRS"
    } else if i == 8 {
        proof { reveal_strlit("LTF"); }
        "LTF"
    } else if i == 9 {
        proof { reveal_strlit("RTF"); }
        "RTF"
    } else if i == 10 {
        proof { reveal_strlit("LTB"); }
        "LTB"
    } else if i == 11 {
        proof { reveal_strlit("RTB"); }
        "RTB"
    } else if i == 12 {
        proof { reveal_strlit("SUB_F"); }
        "SUB_F"
    } else if i == 13 {
        proof { reveal_strlit("SUB_B"); }
        "SUB_B"
    } else if i == 14 {
        proof { reveal_strlit("SUB_L"); }
        "SUB_L"
    } else {
        proof { reveal_strlit("SUB_R"); }
        "SUB_R"
    }
}

/// Whether two strings hold the same characters.
pub fn str_eq(a: &str, b: &str) -> (r: bool)
    ensures
        r == (a@ == b@),
{
    let sa: String = a.to_owned();
    let sb: String = b.to_owned();
    sa == sb
}

/// Whether the name starts with "SUB".
pub fn starts_with_sub(name: &str) -> (r: bool)
    ensures
        r == is_sub_name(name@),
{
    let n = name.unicode_len();
    if n < 3 {
        return false;
    }
    name.get_char(0) == 'S' && name.get_char(1) == 'U' && name.get_char(2) == 'B'
}

/// Index of `name` in the standard channel order, if it is a standard name.
pub fn find_standard_index(name: &str) -> (r: Option<usize>)
    ensures
        match r {
            Some(i) => i < 16 && standard_index(name@) == i as int,
            None => standard_index(name@) == -1,
        },
{
    let mut i: usize = 0;
    while i < 16
        invariant
            i <= 16,
            forall|j: int| 0 <= j < i ==> standard_names()[j] != name@,
        decreases 16 - i,
    {
        let s = standard_channel_name(i);
        if str_eq(s, name) {
            proof { lemma_standard_index_of(i as int); }
            return Some(i);
        }
        i = i + 1;
    }
    None
}

} // verus!
