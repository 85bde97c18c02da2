//! Text helpers: decimal parsing, whitespace trimming and ordering of names.
use vstd::prelude::*;
use vstd::string::StrSliceExecFns;
use vstd::string::StringExecFns;
use crate::channel_set::string_views;

verus! {

/// Whether `c` is a decimal digit.
pub open spec fn is_digit(c: char) -> bool {
    '0' <= c && c <= '9'
}

/// Value of a string of decimal digits.
pub open spec fn digits_value(s: Seq<char>) -> int
    decreases s.len(),
{
    if s.len() == 0 {
        0
    } else {
        digits_value(s.drop_last()) * 10 + (s.last() as int - '0' as int)
    }
}

/// The digits of a decimal number: `s` without a leading '+'.
pub open spec fn unsigned_digits(s: Seq<char>) -> Seq<char> {
    if s.len() > 0 && s[0] == '+' { s.drop_first() } else { s }
}

/// The value of `s` read as an unsigned decimal number (an optional '+'
/// followed by at least one digit and nothing else), or None.
pub open spec fn decimal_value(s: Seq<char>) -> Option<int> {
    let d = unsigned_digits(s);
    if d.len() > 0 && (forall|i: int| 0 <= i < d.len() ==> is_digit(#[trigger] d[i])) {
        Some(digits_value(d))
    } else {
        None
    }
}

/// What `str::parse::<u32>` yields: the value when it is a decimal number that fits.
pub open spec fn parse_u32_spec(s: Seq<char>) -> Option<u32> {
    match decimal_value(s) {
        Some(v) => if v <= u32::MAX { Some(v as u32) } else { None },
        None => None,
    }
}

/// What `str::parse::<u16>` yields: the value when it is a decimal number that fits.
pub open spec fn parse_u16_spec(s: Seq<char>) -> Option<u16> {
    match decimal_value(s) {
        Some(v) => if v <= u16::MAX { Some(v as u16) } else { None },
        None => None,
    }
}

proof fn lemma_digits_value_nonneg(s: Seq<char>)
    requires
        forall|i: int| 0 <= i < s.len() ==> is_digit(#[trigger] s[i]),
    ensures
        digits_value(s) >= 0,
    decreases s.len(),
{
    if s.len() > 0 {
        lemma_digits_value_nonneg(s.drop_last());
    }
}

proof fn lemma_digits_value_grows(s: Seq<char>, k: int)
    requires
        0 <= k <= s.len(),
        forall|i: int| 0 <= i < s.len() ==> is_digit(#[trigger] s[i]),
    ensures
        digits_value(s.subrange(0, k)) <= digits_value(s),
    decreases s.len() - k,
{
    if k < s.len() {
        lemma_digits_value_grows(s, k + 1);
        let t = s.subrange(0, k + 1);
        assert(t.drop_last() =~= s.subrange(0, k));
        lemma_digits_value_nonneg(s.subrange(0, k));
    } else {
        assert(s.subrange(0, k) =~= s);
    }
}

/// Parses an unsigned decimal number that fits in `u64` below `limit`
/// (the shared part of the `u32` and `u16` parsers).
fn parse_decimal_below(s: &str, limit: u64) -> (r: Option<u64>)
    requires
        1 <= limit <= u32::MAX + 1,
    ensures
        match r {
            Some(v) => decimal_value(s@) == Some(v as int) && (v as int) < limit,
            None => match decimal_value(s@) {
                Some(v) => v >= limit,
                None => true,
            },
        },
{
    let n = s.unicode_len();
    let mut start: usize = 0;
    if n > 0 && s.get_char(0) == '+' {
        start = 1;
    }
    let ghost d = unsigned_digits(s@);
    proof {
        assert(d =~= s@.subrange(start as int, n as int));
    }
    if start >= n {
        return None;
    }
    let mut value: u64 = 0;
    let mut i: usize = start;
    while i < n
        invariant
            start <= i <= n,
            n == s@.len(),
            d == s@.subrange(start as int, n as int),
            d == unsigned_digits(s@),
            start < n,
            1 <= limit <= u32::MAX + 1,
            (value as int) < limit,
            forall|j: int| 0 <= j < i - start ==> is_digit(#[trigger] d[j]),
            value as int == digits_value(d.subrange(0, i - start)),
        decreases n - i,
    {
        let c = s.get_char(i);
        if !('0' <= c && c <= '9') {
            proof {
                assert(d[i - start] == c);
                assert(!is_digit(d[i - start]));
                assert(!(forall|j: int| 0 <= j < d.len() ==> is_digit(#[trigger] d[j])));
                assert(decimal_value(s@) is None);
            }
            return None;
        }
        let digit = (c as u32 - '0' as u32) as u64;
        proof {
            let t = d.subrange(0, i - start + 1);
            assert(t.drop_last() =~= d.subrange(0, i - start));
            assert(t.last() == c);
        }
        let next = value * 10 + digit;
        proof {
            assert(digits_value(d.subrange(0, i - start + 1)) == next);
        }
        if next >= limit {
            proof {
                let t = d.subrange(0, i - start + 1);
                if forall|j: int| 0 <= j < d.len() ==> is_digit(#[trigger] d[j]) {
                    lemma_digits_value_grows(d, i - start + 1);
                    assert(decimal_value(s@) == Some(digits_value(d)));
                    assert(digits_value(d) >= limit);
                }
            }
            return None;
        }
        value = next;
        i = i + 1;
    }
    proof {
        assert(d.subrange(0, n - start) =~= d);
    }
    Some(value)
}

/// `str::parse::<u32>`: the value of a decimal number that fits in `u32`.
pub fn parse_u32(s: &str) -> (r: Option<u32>)
    ensures
        r == parse_u32_spec(s@),
{
    match parse_decimal_below(s, 0x1_0000_0000u64) {
        Some(v) => Some(v as u32),
        None => None,
    }
}

/// `str::parse::<u16>`: the value of a decimal number that fits in `u16`.
pub fn parse_u16(s: &str) -> (r: Option<u16>)
    ensures
        r == parse_u16_spec(s@),
{
    match parse_decimal_below(s, 0x1_0000u64) {
        Some(v) => Some(v as u16),
        None => None,
    }
}

/// Unicode White_Space, as `char::is_whitespace` defines it.
pub open spec fn is_whitespace_char(c: char) -> bool {
    let u = c as u32;
    (0x9 <= u <= 0xD) || u == 0x20 || u == 0x85 || u == 0xA0 || u == 0x1680
        || (0x2000 <= u <= 0x200A) || u == 0x2028 || u == 0x2029 || u == 0x202F
        || u == 0x205F || u == 0x3000
}

/// `s` with leading and trailing whitespace removed.
pub open spec fn trimmed(s: Seq<char>) -> Seq<char> {
    let lead = leading_ws(s, 0);
    let trail = trailing_ws_end(s, s.len() as int, lead);
    s.subrange(lead, trail)
}

/// The first index at or after `i` that is not whitespace (or the length).
pub open spec fn leading_ws(s: Seq<char>, i: int) -> int
    decreases s.len() - i,
{
    if i < 0 || i >= s.len() {
        if i < 0 { 0 } else { i }
    } else if is_whitespace_char(s[i]) {
        leading_ws(s, i + 1)
    } else {
        i
    }
}

/// The end of `s` once trailing whitespace is dropped, scanning down from `j`
/// and not below `lo`.
pub open spec fn trailing_ws_end(s: Seq<char>, j: int, lo: int) -> int
    decreases j - lo,
{
    if j <= lo {
        lo
    } else if is_whitespace_char(s[j - 1]) {
        trailing_ws_end(s, j - 1, lo)
    } else {
        j
    }
}

fn is_whitespace(c: char) -> (r: bool)
    ensures
        r == is_whitespace_char(c),
{
    let u = c as u32;
    (0x9 <= u && u <= 0xD) || u == 0x20 || u == 0x85 || u == 0xA0 || u == 0x1680
        || (0x2000 <= u && u <= 0x200A) || u == 0x2028 || u == 0x2029 || u == 0x202F
        || u == 0x205F || u == 0x3000
}

proof fn lemma_leading_ws_bounds(s: Seq<char>, i: int)
    requires
        0 <= i <= s.len(),
    ensures
        i <= leading_ws(s, i) <= s.len(),
    decreases s.len() - i,
{
    if i < s.len() && is_whitespace_char(s[i]) {
        lemma_leading_ws_bounds(s, i + 1);
    }
}

proof fn lemma_trailing_bounds(s: Seq<char>, j: int, lo: int)
    requires
        0 <= lo <= j <= s.len(),
    ensures
        lo <= trailing_ws_end(s, j, lo) <= j,
    decreases j - lo,
{
    if j > lo && is_whitespace_char(s[j - 1]) {
        lemma_trailing_bounds(s, j - 1, lo);
    }
}

/// `str::trim`: the string without leading and trailing whitespace.
pub fn trim(s: &str) -> (r: &str)
    ensures
        r@ == trimmed(s@),
{
    let n = s.unicode_len();
    let mut i: usize = 0;
    while i < n && is_whitespace(s.get_char(i))
        invariant
            0 <= i <= n,
            n == s@.len(),
            leading_ws(s@, 0) == leading_ws(s@, i as int),
        decreases n - i,
    {
        i = i + 1;
    }
    proof {
        lemma_leading_ws_bounds(s@, i as int);
    }
    let mut j: usize = n;
    while j > i && is_whitespace(s.get_char(j - 1))
        invariant
            i <= j <= n,
            n == s@.len(),
            i == leading_ws(s@, 0),
            trailing_ws_end(s@, n as int, i as int) == trailing_ws_end(s@, j as int, i as int),
        decreases j - i,
    {
        j = j - 1;
    }
    s.substring_char(i, j)
}

/// Lexicographic order of character sequences (the order of `String`).
pub open spec fn seq_less(a: Seq<char>, b: Seq<char>) -> bool
    decreases a.len(),
{
    if a.len() == 0 {
        b.len() > 0
    } else if b.len() == 0 {
        false
    } else if a[0] != b[0] {
        (a[0] as int) < (b[0] as int)
    } else {
        seq_less(a.drop_first(), b.drop_first())
    }
}

/// Whether `a` orders strictly before `b`.
pub fn str_less(a: &str, b: &str) -> (r: bool)
    ensures
        r == seq_less(a@, b@),
{
    let na = a.unicode_len();
    let nb = b.unicode_len();
    let mut i: usize = 0;
    proof {
        assert(a@.skip(0) =~= a@);
        assert(b@.skip(0) =~= b@);
    }
    while i < na && i < nb
        invariant
            i <= na,
            i <= nb,
            na == a@.len(),
            nb == b@.len(),
            seq_less(a@, b@) == seq_less(a@.skip(i as int), b@.skip(i as int)),
        decreases na - i,
    {
        let ca = a.get_char(i);
        let cb = b.get_char(i);
        proof {
            assert(a@.skip(i as int)[0] == ca);
            assert(b@.skip(i as int)[0] == cb);
            assert(a@.skip(i as int).drop_first() =~= a@.skip(i + 1));
            assert(b@.skip(i as int).drop_first() =~= b@.skip(i + 1));
        }
        if ca != cb {
            return ca < cb;
        }
        i = i + 1;
    }
    proof {
        assert(a@.skip(i as int).len() == na - i);
        assert(b@.skip(i as int).len() == nb - i);
    }
    i == na && i < nb
}


pub proof fn lemma_seq_less_irreflexive(a: Seq<char>)
    ensures
        !seq_less(a, a),
    decreases a.len(),
{
    if a.len() > 0 {
        lemma_seq_less_irreflexive(a.drop_first());
    }
}

pub proof fn lemma_seq_less_total(a: Seq<char>, b: Seq<char>)
    requires
        a != b,
    ensures
        seq_less(a, b) || seq_less(b, a),
    decreases a.len(),
{
    if a.len() > 0 && b.len() > 0 && a[0] == b[0] {
        if a.drop_first() == b.drop_first() {
            assert(a =~= seq![a[0]] + a.drop_first());
            assert(b =~= seq![b[0]] + b.drop_first());
        }
        lemma_seq_less_total(a.drop_first(), b.drop_first());
    } else if a.len() > 0 && b.len() > 0 {
        assert((a[0] as int) != (b[0] as int));
    } else if a.len() == 0 && b.len() == 0 {
        assert(a =~= b);
    }
}

pub proof fn lemma_seq_less_asymmetric(a: Seq<char>, b: Seq<char>)
    requires
        seq_less(a, b),
    ensures
        !seq_less(b, a),
    decreases a.len(),
{
    if a.len() > 0 && b.len() > 0 && a[0] == b[0] {
        lemma_seq_less_asymmetric(a.drop_first(), b.drop_first());
    }
}

pub proof fn lemma_seq_less_transitive(a: Seq<char>, b: Seq<char>, c: Seq<char>)
    requires
        seq_less(a, b),
        seq_less(b, c),
    ensures
        seq_less(a, c),
    decreases a.len(),
{
    if a.len() > 0 && b.len() > 0 && c.len() > 0 && a[0] == b[0] && b[0] == c[0] {
        lemma_seq_less_transitive(a.drop_first(), b.drop_first(), c.drop_first());
    }
}

/// Names strictly increasing in the order of `String`.
pub open spec fn strictly_sorted(s: Seq<Seq<char>>) -> bool {
    forall|i: int, j: int| 0 <= i < j < s.len() ==> seq_less(#[trigger] s[i], #[trigger] s[j])
}

/// The sorted copy of a list of distinct names.
pub fn sorted_strings(v: &Vec<String>) -> (r: Vec<String>)
    requires
        string_views(v@).no_duplicates(),
    ensures
        string_views(r@).to_set() == string_views(v@).to_set(),
        string_views(r@).no_duplicates(),
        strictly_sorted(string_views(r@)),
        r@.len() == v@.len(),
{
    let mut r: Vec<String> = Vec::new();
    let mut k: usize = 0;
    while k < v.len()
        invariant
            k <= v@.len(),
            string_views(v@).no_duplicates(),
            string_views(r@).to_set() == string_views(v@.subrange(0, k as int)).to_set(),
            string_views(r@).no_duplicates(),
            strictly_sorted(string_views(r@)),
            r@.len() == k,
        decreases v@.len() - k,
    {
        let item = v[k].clone();
        let ghost rv = string_views(r@);
        proof {
            assert(!rv.to_set().contains(item@)) by {
                if rv.to_set().contains(item@) {
                    let p = choose|p: int| 0 <= p < k && string_views(v@.subrange(0, k as int))[p] == item@;
                    assert(string_views(v@)[p] == string_views(v@)[k as int]);
                }
            }
        }
        let mut pos: usize = 0;
        while pos < r.len() && !str_less(item.as_str(), r[pos].as_str())
            invariant
                pos <= r@.len(),
                rv == string_views(r@),
                forall|q: int| 0 <= q < pos ==> !seq_less(item@, #[trigger] rv[q]),
            decreases r@.len() - pos,
        {
            pos = pos + 1;
        }
        r.insert(pos, item);
        proof {
            let nv = string_views(r@);
            assert(nv =~= rv.insert(pos as int, item@));
            assert forall|q: int| 0 <= q < rv.len() implies rv[q] != item@ by {
                assert(rv.to_set().contains(rv[q]));
            }
            assert forall|i: int, j: int| 0 <= i < j < nv.len() implies seq_less(#[trigger] nv[i], #[trigger] nv[j]) by {
                if i < pos && j < pos {
                    assert(seq_less(rv[i], rv[j]));
                } else if i < pos && j == pos {
                    assert(!seq_less(item@, rv[i]));
                    lemma_seq_less_total(item@, rv[i]);
                } else if i < pos && j > pos {
                    assert(seq_less(rv[i], rv[j - 1]));
                } else if i == pos {
                    assert(seq_less(item@, rv[pos as int]));
                    if j - 1 > pos {
                        assert(seq_less(rv[pos as int], rv[j - 1]));
                        lemma_seq_less_transitive(item@, rv[pos as int], rv[j - 1]);
                    }
                } else {
                    assert(seq_less(rv[i - 1], rv[j - 1]));
                }
            }
            assert forall|i: int, j: int| 0 <= i < nv.len() && 0 <= j < nv.len() && i != j implies nv[i] != nv[j] by {
                if i < j {
                    assert(seq_less(nv[i], nv[j]));
                    lemma_seq_less_irreflexive(nv[i]);
                } else {
                    assert(seq_less(nv[j], nv[i]));
                    lemma_seq_less_irreflexive(nv[j]);
                }
            }
            let pre = string_views(v@.subrange(0, k as int));
            let post = string_views(v@.subrange(0, k + 1));
            assert(post =~= pre.push(item@));
            assert(nv.to_set() =~= post.to_set()) by {
                assert forall|n: Seq<char>| nv.to_set().contains(n) <==> post.to_set().contains(n) by {
                    if nv.to_set().contains(n) {
                        let q = choose|q: int| 0 <= q < nv.len() && nv[q] == n;
                        if q < pos {
                            assert(rv.to_set().contains(rv[q]));
                        } else if q > pos {
                            assert(rv.to_set().contains(rv[q - 1]));
                        } else {
                            assert(post[k as int] == n);
                        }
                        if n != item@ {
                            let p = choose|p: int| 0 <= p < pre.len() && pre[p] == n;
                            assert(post[p] == n);
                        }
                    }
                    if post.to_set().contains(n) {
                        let q = choose|q: int| 0 <= q < post.len() && post[q] == n;
                        if q < k {
                            assert(pre[q] == n);
                            assert(pre.to_set().contains(n));
                            let p = choose|p: int| 0 <= p < rv.len() && rv[p] == n;
                            if p < pos {
                                assert(nv[p] == n);
                            } else {
                                assert(nv[p + 1] == n);
                            }
                        } else {
                            assert(nv[pos as int] == n);
                        }
                    }
                }
            }
        }
        k = k + 1;
    }
    proof {
        assert(v@.subrange(0, v@.len() as int) =~= v@);
    }
    r
}

} // verus!

verus! {

/// The digits of bases up to 16, lower case.
pub open spec fn digit_chars() -> Seq<char> {
    seq!['0', '1', '2', '3', '4', '5', '6', '7', '8', '9', 'a', 'b', 'c', 'd', 'e', 'f']
}

/// Decimal text of `n`, without leading zeros ("0" for zero).
pub open spec fn decimal_text(n: nat) -> Seq<char>
    decreases n,
{
    if n < 10 {
        seq![digit_chars()[n as int]]
    } else {
        decimal_text(n / 10).push(digit_chars()[(n % 10) as int])
    }
}

/// The last `width` hexadecimal digits of `n`, lower case, zero-padded.
pub open spec fn hex_text(n: nat, width: nat) -> Seq<char>
    decreases width,
{
    if width == 0 {
        Seq::empty()
    } else {
        hex_text(n / 16, (width - 1) as nat).push(digit_chars()[(n % 16) as int])
    }
}

/// The one-character text of digit `d`.
pub(crate) fn digit_str(d: u64) -> (s: &'static str)
    requires
        d < 16,
    ensures
        s@ == seq![digit_chars()[d as int]],
{
    if d == 0 {
        proof { reveal_strlit("0"); }
        "0"
    } else if d == 1 {
        proof { reveal_strlit("1"); }
        "1"
    } else if d == 2 {
        proof { reveal_strlit("2"); }
        "2"
    } else if d == 3 {
        proof { reveal_strlit("3"); }
        "3"
    } else if d == 4 {
        proof { reveal_strlit("4"); }
        "4"
    } else if d == 5 {
        proof { reveal_strlit("5"); }
        "5"
    } else if d == 6 {
        proof { reveal_strlit("6"); }
        "6"
    } else if d == 7 {
        proof { reveal_strlit("7"); }
        "7"
    } else if d == 8 {
        proof { reveal_strlit("8"); }
        "8"
    } else if d == 9 {
        proof { reveal_strlit("9"); }
        "9"
    } else if d == 10 {
        proof { reveal_strlit("a"); }
        "a"
    } else if d == 11 {
        proof { reveal_strlit("b"); }
        "b"
    } else if d == 12 {
        proof { reveal_strlit("c"); }
        "c"
    } else if d == 13 {
        proof { reveal_strlit("d"); }
        "d"
    } else if d == 14 {
        proof { reveal_strlit("e"); }
        "e"
    } else {
        proof { reveal_strlit("f"); }
        "f"
    }
}

/// Decimal text of `n`, as `format!("{}", n)` writes it.
pub fn decimal_string(n: u64) -> (s: String)
    ensures
        s@ == decimal_text(n as nat),
    decreases n,
{
    if n < 10 {
        String::from_str(digit_str(n))
    } else {
        let mut s = decimal_string(n / 10);
        s.append(digit_str(n % 10));
        s
    }
}

/// The last `width` hexadecimal digits of `n`, lower case and zero-padded,
/// as `format!("{:0w$x}", n)` writes a value below `16^width`.
pub fn hex_string(n: u64, width: u32) -> (s: String)
    ensures
        s@ == hex_text(n as nat, width as nat),
    decreases width,
{
    if width == 0 {
        String::new()
    } else {
        let mut s = hex_string(n / 16, width - 1);
        s.append(digit_str(n % 16));
        s
    }
}

} // verus!

verus! {

proof fn lemma_decimal_text_digits(n: nat)
    ensures
        decimal_text(n).len() > 0,
        forall|i: int| 0 <= i < decimal_text(n).len() ==> is_digit(#[trigger] decimal_text(n)[i]),
        digits_value(decimal_text(n)) == n,
    decreases n,
{
    let d = digit_chars();
    assert(d[0] == '0' && d[1] == '1' && d[2] == '2' && d[3] == '3' && d[4] == '4');
    assert(d[5] == '5' && d[6] == '6' && d[7] == '7' && d[8] == '8' && d[9] == '9');
    if n < 10 {
        let s = decimal_text(n);
        assert(s.drop_last() =~= Seq::<char>::empty());
        assert(digits_value(s) == digits_value(s.drop_last()) * 10 + (s.last() as int - '0' as int));
    } else {
        lemma_decimal_text_digits(n / 10);
        let s = decimal_text(n);
        let p = decimal_text(n / 10);
        assert(s.drop_last() =~= p);
        assert(n == (n / 10) * 10 + n % 10);
    }
}

/// Law: reading back the decimal text of a port gives the port (what
/// `parse_u16` reads of what `decimal_string` writes).
pub proof fn law_decimal_round_trip(n: u16)
    ensures
        parse_u16_spec(decimal_text(n as nat)) == Some(n),
{
    lemma_decimal_text_digits(n as nat);
    let s = decimal_text(n as nat);
    assert(is_digit(s[0]));
    assert(unsigned_digits(s) == s);
}

} // verus!
