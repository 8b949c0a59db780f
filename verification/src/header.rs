//! The `// name:` / `// icon:` / `// tint:` header comments at the top of a
//! Splash script, with the `// permissions:` and `// why-<id>:` lines that
//! declare what the app needs. Importing a bare script derives its manifest
//! from the same header a generation does.

use vstd::prelude::*;

use crate::capabilities::{by_id, find_first, has_id};
use crate::manifest::{cap_group_of, is_cap_id, is_perm_id, text_values};
use crate::maps::StrMap;
use crate::permission::{perm_id, Permission};
use crate::text::{
    chars_of, contains_text, is_ws, is_ws_char, owned, starts_with_at, string_of, take_bounds,
    take_chars, texts, trim, trim_bounds, trim_start,
};

verus! {

/// The position of the first `c` in `s`, or its length when there is none.
pub open spec fn char_pos(s: Seq<char>, c: char) -> nat
    decreases s.len(),
{
    if s.len() == 0 {
        0
    } else if s[0] == c {
        0
    } else {
        1 + char_pos(s.drop_first(), c)
    }
}

/// The position of the first whitespace character of `s`, or its length.
pub open spec fn ws_pos(s: Seq<char>) -> nat
    decreases s.len(),
{
    if s.len() == 0 {
        0
    } else if is_ws(s[0]) {
        0
    } else {
        1 + ws_pos(s.drop_first())
    }
}

pub proof fn lemma_char_pos(s: Seq<char>, c: char, m: int)
    requires
        0 <= m <= s.len(),
        forall|i: int| 0 <= i < m ==> #[trigger] s[i] != c,
        m == s.len() || s[m] == c,
    ensures
        char_pos(s, c) == m,
    decreases m,
{
    if m > 0 {
        let t = s.drop_first();
        assert forall|i: int| 0 <= i < m - 1 implies #[trigger] t[i] != c by {
            assert(t[i] == s[i + 1]);
        }
        lemma_char_pos(t, c, m - 1);
    }
}

pub proof fn lemma_ws_pos(s: Seq<char>, m: int)
    requires
        0 <= m <= s.len(),
        forall|i: int| 0 <= i < m ==> !is_ws(#[trigger] s[i]),
        m == s.len() || is_ws(s[m]),
    ensures
        ws_pos(s) == m,
    decreases m,
{
    if m > 0 {
        let t = s.drop_first();
        assert forall|i: int| 0 <= i < m - 1 implies !is_ws(#[trigger] t[i]) by {
            assert(t[i] == s[i + 1]);
        }
        lemma_ws_pos(t, m - 1);
    }
}

/// The position of the first `c` in `v[lo..hi]`, or `hi`.
pub fn find_char(v: &[char], lo: usize, hi: usize, c: char) -> (r: usize)
    requires
        lo <= hi <= v@.len(),
    ensures
        lo <= r <= hi,
        r - lo == char_pos(v@.subrange(lo as int, hi as int), c),
{
    let mut i = lo;
    while i < hi
        invariant
            lo <= i <= hi <= v@.len(),
            forall|j: int| lo <= j < i ==> v@[j] != c,
        ensures
            lo <= i <= hi,
            forall|j: int| lo <= j < i ==> v@[j] != c,
            i < hi ==> v@[i as int] == c,
        decreases hi - i,
    {
        if v[i] == c {
            break;
        }
        i = i + 1;
    }
    proof {
        let s = v@.subrange(lo as int, hi as int);
        assert forall|j: int| 0 <= j < i - lo implies #[trigger] s[j] != c by {
            assert(s[j] == v@[lo + j]);
        }
        lemma_char_pos(s, c, i - lo);
    }
    i
}

/// The position of the first whitespace character in `v[lo..hi]`, or `hi`.
fn find_ws(v: &[char], lo: usize, hi: usize) -> (r: usize)
    requires
        lo <= hi <= v@.len(),
    ensures
        lo <= r <= hi,
        r - lo == ws_pos(v@.subrange(lo as int, hi as int)),
{
    let mut i = lo;
    while i < hi
        invariant
            lo <= i <= hi <= v@.len(),
            forall|j: int| lo <= j < i ==> !is_ws(v@[j]),
        ensures
            lo <= i <= hi,
            forall|j: int| lo <= j < i ==> !is_ws(v@[j]),
            i < hi ==> is_ws(v@[i as int]),
        decreases hi - i,
    {
        if is_ws_char(v[i]) {
            break;
        }
        i = i + 1;
    }
    proof {
        let s = v@.subrange(lo as int, hi as int);
        assert forall|j: int| 0 <= j < i - lo implies !is_ws(#[trigger] s[j]) by {
            assert(s[j] == v@[lo + j]);
        }
        lemma_ws_pos(s, i - lo);
    }
    i
}

/// `s` with every leading `c` removed (`trim_start_matches(c)`).
pub open spec fn strip_all(s: Seq<char>, c: char) -> Seq<char>
    decreases s.len(),
{
    if s.len() > 0 && s[0] == c {
        strip_all(s.drop_first(), c)
    } else {
        s
    }
}

/// `s` with every leading `0x` removed (`trim_start_matches("0x")`).
pub open spec fn strip_all_0x(s: Seq<char>) -> Seq<char>
    decreases s.len(),
{
    if s.len() >= 2 && s[0] == '0' && s[1] == 'x' {
        strip_all_0x(s.skip(2))
    } else {
        s
    }
}

/// The value of a hexadecimal digit.
pub open spec fn hex_digit(c: char) -> Option<nat> {
    if '0' <= c && c <= '9' {
        Some((c as nat - '0' as nat) as nat)
    } else if 'a' <= c && c <= 'f' {
        Some((c as nat - 'a' as nat + 10) as nat)
    } else if 'A' <= c && c <= 'F' {
        Some((c as nat - 'A' as nat + 10) as nat)
    } else {
        None
    }
}

/// Every character is a hexadecimal digit.
pub open spec fn all_hex(s: Seq<char>) -> bool {
    forall|i: int| 0 <= i < s.len() ==> (#[trigger] hex_digit(s[i])) is Some
}

/// The value of a run of hexadecimal digits.
pub open spec fn hex_value(s: Seq<char>) -> nat
    decreases s.len(),
{
    if s.len() == 0 {
        0
    } else {
        hex_value(s.drop_last()) * 16 + hex_digit(s.last()).unwrap()
    }
}

/// The sixteen hexadecimal digits in lower case, in order of value.
pub open spec fn lower_hex_digits() -> Seq<char> {
    seq!['0', '1', '2', '3', '4', '5', '6', '7', '8', '9', 'a', 'b', 'c', 'd', 'e', 'f']
}

/// The sixteen hexadecimal digits in upper case, in order of value.
pub open spec fn upper_hex_digits() -> Seq<char> {
    seq!['0', '1', '2', '3', '4', '5', '6', '7', '8', '9', 'A', 'B', 'C', 'D', 'E', 'F']
}

/// Each of the sixteen digits, in either case, is read as its place in the
/// row of digits.
pub proof fn law_hex_digits_read_in_either_case(d: int)
    requires
        0 <= d < 16,
    ensures
        hex_digit(lower_hex_digits()[d]) == Some(d as nat),
        hex_digit(upper_hex_digits()[d]) == Some(d as nat),
{
    let lo = lower_hex_digits();
    let up = upper_hex_digits();
    if d == 0 {
        assert(lo[0] == '0' && up[0] == '0');
    } else if d == 1 {
        assert(lo[1] == '1' && up[1] == '1');
    } else if d == 2 {
        assert(lo[2] == '2' && up[2] == '2');
    } else if d == 3 {
        assert(lo[3] == '3' && up[3] == '3');
    } else if d == 4 {
        assert(lo[4] == '4' && up[4] == '4');
    } else if d == 5 {
        assert(lo[5] == '5' && up[5] == '5');
    } else if d == 6 {
        assert(lo[6] == '6' && up[6] == '6');
    } else if d == 7 {
        assert(lo[7] == '7' && up[7] == '7');
    } else if d == 8 {
        assert(lo[8] == '8' && up[8] == '8');
    } else if d == 9 {
        assert(lo[9] == '9' && up[9] == '9');
    } else if d == 10 {
        assert(lo[10] == 'a' && up[10] == 'A');
    } else if d == 11 {
        assert(lo[11] == 'b' && up[11] == 'B');
    } else if d == 12 {
        assert(lo[12] == 'c' && up[12] == 'C');
    } else if d == 13 {
        assert(lo[13] == 'd' && up[13] == 'D');
    } else if d == 14 {
        assert(lo[14] == 'e' && up[14] == 'E');
    } else {
        assert(lo[15] == 'f' && up[15] == 'F');
    }
}

/// Nothing but the sixteen digits, in either case, is read as a digit, and
/// a digit's value is its place in the row.
pub proof fn law_only_hex_digits_are_read(c: char)
    ensures
        hex_digit(c) is Some ==> hex_digit(c).unwrap() < 16 && (lower_hex_digits()[hex_digit(c).unwrap() as int]
            == c || upper_hex_digits()[hex_digit(c).unwrap() as int] == c),
{
    if hex_digit(c) is Some {
        let v = hex_digit(c).unwrap() as int;
        let n = c as u32;
        law_hex_digits_read_in_either_case(v);
        assert(0 <= v < 16);
        let lo = lower_hex_digits();
        let up = upper_hex_digits();
        if v == 0 { assert(lo[0] == c); }
        else if v == 1 { assert(lo[1] == c); }
        else if v == 2 { assert(lo[2] == c); }
        else if v == 3 { assert(lo[3] == c); }
        else if v == 4 { assert(lo[4] == c); }
        else if v == 5 { assert(lo[5] == c); }
        else if v == 6 { assert(lo[6] == c); }
        else if v == 7 { assert(lo[7] == c); }
        else if v == 8 { assert(lo[8] == c); }
        else if v == 9 { assert(lo[9] == c); }
        else if v == 10 { assert(lo[10] == c || up[10] == c); }
        else if v == 11 { assert(lo[11] == c || up[11] == c); }
        else if v == 12 { assert(lo[12] == c || up[12] == c); }
        else if v == 13 { assert(lo[13] == c || up[13] == c); }
        else if v == 14 { assert(lo[14] == c || up[14] == c); }
        else { assert(lo[15] == c || up[15] == c); }
    }
}

/// Whether `c` is one of the sixteen digits, in either case.
pub open spec fn is_hex_char(c: char) -> bool {
    lower_hex_digits().contains(c) || upper_hex_digits().contains(c)
}

/// `#4A90D9`, `0x4A90D9`, or `4A90D9` as 0xRRGGBB: after the leading `#`s,
/// `0x`s and `x`s, exactly six characters that `u32::from_str_radix` reads
/// in base 16 (which takes a leading `+`).
pub open spec fn hex_color(v: Seq<char>) -> Option<u32> {
    let s = strip_all(strip_all_0x(strip_all(v, '#')), 'x');
    if s.len() == 6 && all_hex(s) {
        Some(hex_value(s) as u32)
    } else if s.len() == 6 && s[0] == '+' && all_hex(s.drop_first()) {
        Some(hex_value(s.drop_first()) as u32)
    } else {
        None
    }
}

/// `#` and six digits, in any mix of cases, is the colour those digits
/// spell.
pub proof fn law_hash_and_six_digits_is_a_color(t: Seq<char>)
    requires
        t.len() == 6,
        forall|i: int| 0 <= i < 6 ==> is_hex_char(#[trigger] t[i]),
    ensures
        hex_color(seq!['#'] + t) == Some(hex_value(t) as u32),
        all_hex(t),
{
    assert forall|i: int| 0 <= i < t.len() implies (#[trigger] hex_digit(t[i])) is Some by {
        assert(is_hex_char(t[i]));
        if lower_hex_digits().contains(t[i]) {
            let d = choose|d: int| 0 <= d < 16 && lower_hex_digits()[d] == t[i];
            law_hex_digits_read_in_either_case(d);
        } else {
            let d = choose|d: int| 0 <= d < 16 && upper_hex_digits()[d] == t[i];
            law_hex_digits_read_in_either_case(d);
        }
    }
    let v = seq!['#'] + t;
    assert(v.drop_first() =~= t);
    assert(v[0] == '#');
    assert(t[0] != '#') by {
        assert(hex_digit(t[0]) is Some);
    }
    assert(strip_all(t, '#') == t);
    assert(strip_all(v, '#') == t);
    assert(t[1] != 'x') by {
        assert(hex_digit(t[1]) is Some);
    }
    assert(strip_all_0x(t) == t);
    assert(t[0] != 'x') by {
        assert(hex_digit(t[0]) is Some);
    }
    assert(strip_all(t, 'x') == t);
}

/// 16 to the power `n`.
pub open spec fn pow16(n: nat) -> nat
    decreases n,
{
    if n == 0 {
        1
    } else {
        pow16((n - 1) as nat) * 16
    }
}

fn hex_digit_of(c: char) -> (r: Option<u32>)
    ensures
        match r {
            Some(d) => hex_digit(c) == Some(d as nat),
            None => hex_digit(c) is None,
        },
{
    if '0' <= c && c <= '9' {
        Some((c as u32) - ('0' as u32))
    } else if 'a' <= c && c <= 'f' {
        Some((c as u32) - ('a' as u32) + 10)
    } else if 'A' <= c && c <= 'F' {
        Some((c as u32) - ('A' as u32) + 10)
    } else {
        None
    }
}

/// The value of the hexadecimal digits `v[lo..hi]`, if they all are.
fn hex_run(v: &[char], lo: usize, hi: usize) -> (r: Option<u32>)
    requires
        lo <= hi <= v@.len(),
        hi - lo <= 6,
    ensures
        match r {
            Some(x) => all_hex(v@.subrange(lo as int, hi as int)) && x == hex_value(
                v@.subrange(lo as int, hi as int),
            ),
            None => !all_hex(v@.subrange(lo as int, hi as int)),
        },
{
    let mut acc: u32 = 0;
    let mut i = lo;
    assert(pow16(0) == 1);
    while i < hi
        invariant
            lo <= i <= hi <= v@.len(),
            hi - lo <= 6,
            all_hex(v@.subrange(lo as int, i as int)),
            acc == hex_value(v@.subrange(lo as int, i as int)),
            acc < pow16((i - lo) as nat),
        decreases hi - i,
    {
        let ghost before = v@.subrange(lo as int, i as int);
        let ghost next = v@.subrange(lo as int, i + 1);
        assert(next.drop_last() =~= before);
        match hex_digit_of(v[i]) {
            None => {
                assert(hex_digit(v@.subrange(lo as int, hi as int)[i - lo]) is None);
                return None;
            },
            Some(d) => {
                assert(pow16((i - lo) as nat) <= 0x100000) by {
                    lemma_pow16_mono((i - lo) as nat, 5);
                    reveal_with_fuel(pow16, 6);
                }
                assert(acc * 16 + d < pow16((i + 1 - lo) as nat)) by (nonlinear_arith)
                    requires
                        acc < pow16((i - lo) as nat),
                        d < 16,
                        pow16((i + 1 - lo) as nat) == pow16((i - lo) as nat) * 16,
                ;
                acc = acc * 16 + d;
                assert forall|j: int| 0 <= j < next.len() implies (#[trigger] hex_digit(next[j])) is Some by {
                    if j < before.len() {
                        assert(next[j] == before[j]);
                    }
                }
            },
        }
        i = i + 1;
    }
    Some(acc)
}

proof fn lemma_pow16_mono(a: nat, b: nat)
    requires
        a <= b,
    ensures
        pow16(a) <= pow16(b),
    decreases b,
{
    if a < b {
        lemma_pow16_mono(a, (b - 1) as nat);
    }
}

/// `#4A90D9`, `0x4A90D9`, or `4A90D9` as 0xRRGGBB, for `v[lo..hi]`.
fn hex_color_at(v: &[char], lo: usize, hi: usize) -> (r: Option<u32>)
    requires
        lo <= hi <= v@.len(),
    ensures
        r == hex_color(v@.subrange(lo as int, hi as int)),
{
    let ghost s0 = v@.subrange(lo as int, hi as int);
    let mut a = lo;
    while a < hi && v[a] == '#'
        invariant
            lo <= a <= hi <= v@.len(),
            strip_all(s0, '#') == strip_all(v@.subrange(a as int, hi as int), '#'),
        decreases hi - a,
    {
        assert(v@.subrange(a as int, hi as int).drop_first() =~= v@.subrange(a + 1, hi as int));
        a = a + 1;
    }
    assert(strip_all(v@.subrange(a as int, hi as int), '#') == v@.subrange(a as int, hi as int));
    let ghost s1 = v@.subrange(a as int, hi as int);
    while a < hi && hi - a >= 2 && v[a] == '0' && v[a + 1] == 'x'
        invariant
            lo <= a <= hi <= v@.len(),
            strip_all_0x(s1) == strip_all_0x(v@.subrange(a as int, hi as int)),
        decreases hi - a,
    {
        assert(v@.subrange(a as int, hi as int).skip(2) =~= v@.subrange(a + 2, hi as int));
        a = a + 2;
    }
    assert(strip_all_0x(v@.subrange(a as int, hi as int)) == v@.subrange(a as int, hi as int));
    let ghost s2 = v@.subrange(a as int, hi as int);
    while a < hi && v[a] == 'x'
        invariant
            lo <= a <= hi <= v@.len(),
            strip_all(s2, 'x') == strip_all(v@.subrange(a as int, hi as int), 'x'),
        decreases hi - a,
    {
        assert(v@.subrange(a as int, hi as int).drop_first() =~= v@.subrange(a + 1, hi as int));
        a = a + 1;
    }
    let ghost s = v@.subrange(a as int, hi as int);
    assert(strip_all(s, 'x') == s);
    assert(strip_all(strip_all_0x(strip_all(s0, '#')), 'x') == s);
    if hi - a != 6 {
        return None;
    }
    match hex_run(v, a, hi) {
        Some(x) => Some(x),
        None => {
            if v[a] == '+' {
                assert(s.drop_first() =~= v@.subrange(a + 1, hi as int));
                hex_run(v, a + 1, hi)
            } else {
                None
            }
        },
    }
}

/// `#4A90D9`, `0x4A90D9`, or `4A90D9` → 0xRRGGBB.
pub fn parse_hex_color(v: &str) -> (r: Option<u32>)
    ensures
        r == hex_color(v@),
{
    let cv = crate::text::chars_of(v);
    assert(cv@.subrange(0, cv@.len() as int) =~= v@);
    hex_color_at(cv.as_slice(), 0, cv.len())
}


/// The header comments, all optional.
#[derive(Debug)]
pub struct Header {
    pub name: Option<String>,
    pub icon: Option<String>,
    pub tint: Option<u32>,
    /// Groups the app says it needs (`// permissions: network, location`).
    /// Declaring is not granting: runtime tiers still prompt.
    pub permissions: Vec<String>,
    /// Per-group reasons (`// why-location: shows local forecasts`), keyed
    /// by group id.
    pub permission_reasons: StrMap<String>,
    /// Individual capability ids listed on the same line, which narrow
    /// their group to just those.
    pub capabilities: Vec<String>,
}

/// The mathematical content of a [`Header`].
pub struct HeaderView {
    pub name: Option<Seq<char>>,
    pub icon: Option<Seq<char>>,
    pub tint: Option<u32>,
    pub permissions: Seq<Seq<char>>,
    pub permission_reasons: Map<Seq<char>, Seq<char>>,
    pub capabilities: Seq<Seq<char>>,
}

impl View for Header {
    type V = HeaderView;

    open spec fn view(&self) -> HeaderView {
        HeaderView {
            name: match self.name {
                Some(s) => Some(s@),
                None => None,
            },
            icon: match self.icon {
                Some(s) => Some(s@),
                None => None,
            },
            tint: self.tint,
            permissions: texts(self.permissions@),
            permission_reasons: text_values(self.permission_reasons.view()),
            capabilities: texts(self.capabilities@),
        }
    }
}

/// A header with nothing in it.
pub open spec fn empty_header() -> HeaderView {
    HeaderView {
        name: None,
        icon: None,
        tint: None,
        permissions: Seq::empty(),
        permission_reasons: Map::empty(),
        capabilities: Seq::empty(),
    }
}

impl Default for Header {
    fn default() -> (h: Header)
        ensures
            h@ == empty_header(),
    {
        let h = Header {
            name: None,
            icon: None,
            tint: None,
            permissions: Vec::new(),
            permission_reasons: StrMap::new(),
            capabilities: Vec::new(),
        };
        assert(h@.permissions =~= Seq::<Seq<char>>::empty());
        assert(h@.capabilities =~= Seq::<Seq<char>>::empty());
        assert(h@.permission_reasons =~= Map::<Seq<char>, Seq<char>>::empty());
        h
    }
}

/// How many lines at the top of a script can hold header comments.
pub const HEADER_LINES: usize = 20;

/// A line without the `\r` of a `\r\n` ending.
pub open spec fn strip_cr(l: Seq<char>) -> Seq<char> {
    if l.len() > 0 && l.last() == '\r' {
        l.drop_last()
    } else {
        l
    }
}

/// `str::lines`: split at `\n` (a `\r` right before it goes too), with no
/// empty line after a final `\n`.
pub open spec fn lines_of(s: Seq<char>) -> Seq<Seq<char>>
    decreases s.len(),
{
    if s.len() == 0 {
        Seq::empty()
    } else {
        let k = char_pos(s, '\n');
        if k < s.len() {
            seq![strip_cr(s.take(k as int))] + lines_of(s.skip(k + 1 as int))
        } else {
            seq![s]
        }
    }
}

/// `str::split` at one character.
pub open spec fn split_on(s: Seq<char>, c: char) -> Seq<Seq<char>>
    decreases s.len(),
{
    let k = char_pos(s, c);
    if k < s.len() {
        seq![s.take(k as int)] + split_on(s.skip((k + 1) as int), c)
    } else {
        seq![s]
    }
}

/// The first whitespace-separated token (`split_whitespace().next()`).
pub open spec fn first_token(v: Seq<char>) -> Option<Seq<char>> {
    let u = trim_start(v);
    if u.len() == 0 {
        None
    } else {
        Some(u.take(ws_pos(u) as int))
    }
}

/// One id of a `permissions:` line: a known group is declared once; a known
/// capability declares its group and itself, once each; anything else is
/// dropped.
pub open spec fn declare_id(h: HeaderView, raw: Seq<char>) -> HeaderView {
    let id = trim(raw);
    if is_perm_id(id) {
        if h.permissions.contains(id) {
            h
        } else {
            HeaderView { permissions: h.permissions.push(id), ..h }
        }
    } else {
        match find_first(has_id(id)) {
            None => h,
            Some(c) => {
                let h1 = match c.group {
                    Some(g) => if h.permissions.contains(perm_id(g)) {
                        h
                    } else {
                        HeaderView { permissions: h.permissions.push(perm_id(g)), ..h }
                    },
                    None => h,
                };
                if h1.capabilities.contains(id) {
                    h1
                } else {
                    HeaderView { capabilities: h1.capabilities.push(id), ..h1 }
                }
            },
        }
    }
}

/// The ids of a `permissions:` line, in order.
pub open spec fn declare_ids(h: HeaderView, ids: Seq<Seq<char>>) -> HeaderView
    decreases ids.len(),
{
    if ids.len() == 0 {
        h
    } else {
        declare_id(declare_ids(h, ids.drop_last()), ids.last())
    }
}

/// What one line adds to the header. Only `//` comments count; `name:`
/// keeps its first 18 characters, `icon:` the first 12 of its first token,
/// `tint:` replaces the color (even with none), `permissions:` declares its
/// comma-separated ids, and `why-<group>:` records a non-blank reason of at
/// most 120 characters for a known group.
pub open spec fn apply_line(h: HeaderView, line: Seq<char>) -> HeaderView {
    let t = trim(line);
    if !"//"@.is_prefix_of(t) {
        h
    } else {
        let rest = trim(t.skip(2));
        if "name:"@.is_prefix_of(rest) {
            let v = trim(rest.skip(5));
            if v.len() > 0 {
                HeaderView { name: Some(trim(take_chars(v, 18))), ..h }
            } else {
                h
            }
        } else if "icon:"@.is_prefix_of(rest) {
            match first_token(rest.skip(5)) {
                Some(tok) => HeaderView { icon: Some(take_chars(tok, 12)), ..h },
                None => h,
            }
        } else if "tint:"@.is_prefix_of(rest) {
            HeaderView { tint: hex_color(trim(rest.skip(5))), ..h }
        } else if "permissions:"@.is_prefix_of(rest) {
            declare_ids(h, split_on(rest.skip(12), ','))
        } else if "why-"@.is_prefix_of(rest) {
            let v = rest.skip(4);
            let k = char_pos(v, ':');
            if k < v.len() {
                let id = trim(v.take(k as int));
                let reason = take_chars(trim(v.skip((k + 1) as int)), 120);
                if is_perm_id(id) && reason.len() > 0 {
                    HeaderView { permission_reasons: h.permission_reasons.insert(id, reason), ..h }
                } else {
                    h
                }
            } else {
                h
            }
        } else {
            h
        }
    }
}

/// The header the lines give, read in order.
pub open spec fn header_of_lines(ls: Seq<Seq<char>>) -> HeaderView
    decreases ls.len(),
{
    if ls.len() == 0 {
        empty_header()
    } else {
        apply_line(header_of_lines(ls.drop_last()), ls.last())
    }
}

/// The header of a script: what its first [`HEADER_LINES`] lines say.
pub open spec fn header_of(source: Seq<char>) -> HeaderView {
    let ls = lines_of(source);
    header_of_lines(if ls.len() <= HEADER_LINES { ls } else { ls.take(HEADER_LINES as int) })
}

/// Declares the id `v[lo..hi]` (see [`declare_id`]).
fn declare_id_at(h: &mut Header, v: &[char], lo: usize, hi: usize)
    requires
        lo <= hi <= v@.len(),
    ensures
        final(h)@ == declare_id(old(h)@, v@.subrange(lo as int, hi as int)),
{
    let (a, b) = trim_bounds(v, lo, hi);
    let id = string_of(v, a, b);
    let ghost h0 = h@;
    match Permission::from_str(id.as_str()) {
        Some(_) => {
            if !contains_text(&h.permissions, id.as_str()) {
                h.permissions.push(id);
                assert(h@.permissions =~= h0.permissions.push(v@.subrange(a as int, b as int)));
            }
            assert(h@ =~= declare_id(h0, v@.subrange(lo as int, hi as int)));
        },
        None => {
            match by_id(id.as_str()) {
                None => {},
                Some(c) => {
                    match c.group {
                        Some(g) => {
                            if !contains_text(&h.permissions, g.as_str()) {
                                h.permissions.push(owned(g.as_str()));
                                assert(h@.permissions =~= h0.permissions.push(perm_id(g)));
                            }
                        },
                        None => {},
                    }
                    let ghost h1 = h@;
                    if !contains_text(&h.capabilities, id.as_str()) {
                        let ghost idv = id@;
                        h.capabilities.push(id);
                        assert(h@.capabilities =~= h1.capabilities.push(idv));
                    }
                },
            }
            assert(h@ =~= declare_id(h0, v@.subrange(lo as int, hi as int)));
        },
    }
}

/// Declares every comma-separated id of `v[lo..hi]`.
fn declare_ids_at(h: &mut Header, v: &[char], lo: usize, hi: usize)
    requires
        lo <= hi <= v@.len(),
    ensures
        final(h)@ == declare_ids(old(h)@, split_on(v@.subrange(lo as int, hi as int), ',')),
{
    let ghost h0 = h@;
    let ghost all = split_on(v@.subrange(lo as int, hi as int), ',');
    let ghost mut done: Seq<Seq<char>> = Seq::empty();
    let mut p = lo;
    assert(all =~= done + split_on(v@.subrange(p as int, hi as int), ','));
    loop
        invariant_except_break
            all == done + split_on(v@.subrange(p as int, hi as int), ','),
        invariant
            lo <= p <= hi <= v@.len(),
            h@ == declare_ids(h0, done),
        ensures
            h@ == declare_ids(h0, all),
        decreases hi - p,
    {
        let k = find_char(v, p, hi, ',');
        let ghost seg = v@.subrange(p as int, hi as int);
        let ghost piece = v@.subrange(p as int, k as int);
        assert(seg.take(k - p) =~= piece);
        declare_id_at(h, v, p, k);
        proof {
            assert(declare_ids(h0, done.push(piece)) == declare_id(declare_ids(h0, done), piece)) by {
                assert(done.push(piece).drop_last() =~= done);
            }
            done = done.push(piece);
        }
        if k == hi {
            assert(split_on(seg, ',') == seq![seg]);
            assert(seg =~= piece);
            assert(all =~= done);
            break;
        }
        assert(seg.skip(k + 1 - p) =~= v@.subrange(k + 1, hi as int));
        assert(split_on(seg, ',') == seq![piece] + split_on(v@.subrange(k + 1, hi as int), ','));
        assert(all =~= done + split_on(v@.subrange(k + 1, hi as int), ','));
        p = k + 1;
    }
}


/// Applies the line `v[lo..hi]` to the header (see [`apply_line`]).
fn apply_line_at(h: &mut Header, v: &[char], lo: usize, hi: usize)
    requires
        lo <= hi <= v@.len(),
    ensures
        final(h)@ == apply_line(old(h)@, v@.subrange(lo as int, hi as int)),
{
    let ghost h0 = h@;
    proof {
        reveal_strlit("//");
        reveal_strlit("name:");
        reveal_strlit("icon:");
        reveal_strlit("tint:");
        reveal_strlit("permissions:");
        reveal_strlit("why-");
    }
    let (a, b) = trim_bounds(v, lo, hi);
    if !starts_with_at(v, a, b, "//") {
        return;
    }
    assert(v@.subrange(a as int, b as int).skip(2) =~= v@.subrange(a + 2, b as int));
    let (c, d) = trim_bounds(v, a + 2, b);
    let ghost rest = v@.subrange(c as int, d as int);
    if starts_with_at(v, c, d, "name:") {
        assert(rest.skip(5) =~= v@.subrange(c + 5, d as int));
        let (e, f) = trim_bounds(v, c + 5, d);
        if e < f {
            let g = take_bounds(e, f, 18);
            assert(take_chars(v@.subrange(e as int, f as int), 18) =~= v@.subrange(e as int, g as int));
            let (x, y) = trim_bounds(v, e, g);
            h.name = Some(string_of(v, x, y));
        }
        assert(h@ =~= apply_line(h0, v@.subrange(lo as int, hi as int)));
    } else if starts_with_at(v, c, d, "icon:") {
        assert(rest.skip(5) =~= v@.subrange(c + 5, d as int));
        let ghost u = v@.subrange(c + 5, d as int);
        let mut t0 = c + 5;
        while t0 < d && is_ws_char(v[t0])
            invariant
                c + 5 <= t0 <= d <= v@.len(),
                u == v@.subrange(c + 5, d as int),
                forall|i: int| c + 5 <= i < t0 ==> is_ws(#[trigger] v@[i]),
            decreases d - t0,
        {
            t0 = t0 + 1;
        }
        proof {
            assert forall|i: int| 0 <= i < t0 - (c + 5) implies is_ws(#[trigger] u[i]) by {
                assert(u[i] == v@[c + 5 + i]);
            }
            crate::text::lemma_trim_start_skip(u, t0 - (c + 5));
            assert(u.skip(t0 - (c + 5)) =~= v@.subrange(t0 as int, d as int));
        }
        if t0 < d {
            let t1 = find_ws(v, t0, d);
            let e = take_bounds(t0, t1, 12);
            assert(v@.subrange(t0 as int, d as int).take(t1 - t0) =~= v@.subrange(t0 as int, t1 as int));
            assert(take_chars(v@.subrange(t0 as int, t1 as int), 12) =~= v@.subrange(t0 as int, e as int));
            h.icon = Some(string_of(v, t0, e));
        }
        assert(h@ =~= apply_line(h0, v@.subrange(lo as int, hi as int)));
    } else if starts_with_at(v, c, d, "tint:") {
        assert(rest.skip(5) =~= v@.subrange(c + 5, d as int));
        let (e, f) = trim_bounds(v, c + 5, d);
        h.tint = hex_color_at(v, e, f);
        assert(h@ =~= apply_line(h0, v@.subrange(lo as int, hi as int)));
    } else if starts_with_at(v, c, d, "permissions:") {
        assert(rest.skip(12) =~= v@.subrange(c + 12, d as int));
        declare_ids_at(h, v, c + 12, d);
    } else if starts_with_at(v, c, d, "why-") {
        assert(rest.skip(4) =~= v@.subrange(c + 4, d as int));
        let ghost w = v@.subrange(c + 4, d as int);
        let k = find_char(v, c + 4, d, ':');
        if k < d {
            assert(w.take(k - (c + 4)) =~= v@.subrange(c + 4, k as int));
            assert(w.skip(k - (c + 4) + 1) =~= v@.subrange(k + 1, d as int));
            let (e, f) = trim_bounds(v, c + 4, k);
            let (x, y) = trim_bounds(v, k + 1, d);
            let z = take_bounds(x, y, 120);
            assert(take_chars(v@.subrange(x as int, y as int), 120) =~= v@.subrange(x as int, z as int));
            let id = string_of(v, e, f);
            let known = match Permission::from_str(id.as_str()) {
                Some(_) => true,
                None => false,
            };
            if known && x < z {
                let reason = string_of(v, x, z);
                let ghost m0 = h.permission_reasons.view();
                let ghost idv = id@;
                h.permission_reasons.insert(id, reason);
                assert(text_values(h.permission_reasons.view()) =~= text_values(m0).insert(
                    idv,
                    v@.subrange(x as int, z as int),
                ));
            }
        }
        assert(h@ =~= apply_line(h0, v@.subrange(lo as int, hi as int)));
    }
}

/// Reads the header comments off the top of a script. They stay in the
/// source, so the installed app keeps its provenance visible.
pub fn parse_app_header(source: &str) -> (h: Header)
    ensures
        h@ == header_of(source@),
{
    let v = chars_of(source);
    let n = v.len();
    let mut h = Header::default();
    let ghost all = lines_of(v@);
    let ghost mut done: Seq<Seq<char>> = Seq::empty();
    let mut pos: usize = 0;
    let mut count: usize = 0;
    assert(v@.subrange(0, n as int) =~= v@);
    assert(all =~= done + lines_of(v@.subrange(pos as int, n as int)));
    while pos < n && count < HEADER_LINES
        invariant
            pos <= n == v@.len(),
            v@ == source@,
            count <= HEADER_LINES,
            count == done.len(),
            all == lines_of(v@),
            all == done + lines_of(v@.subrange(pos as int, n as int)),
            h@ == header_of_lines(done),
        decreases n - pos,
    {
        let ghost seg = v@.subrange(pos as int, n as int);
        let k = find_char(v.as_slice(), pos, n, '\n');
        let ghost line: Seq<char>;
        if k < n {
            let end = if k > pos && v[k - 1] == '\r' {
                k - 1
            } else {
                k
            };
            assert(seg.take(k - pos) =~= v@.subrange(pos as int, k as int));
            assert(strip_cr(v@.subrange(pos as int, k as int)) =~= v@.subrange(pos as int, end as int));
            assert(seg.skip(k - pos + 1) =~= v@.subrange(k + 1, n as int));
            proof {
                line = v@.subrange(pos as int, end as int);
            }
            apply_line_at(&mut h, v.as_slice(), pos, end);
            assert(lines_of(seg) == seq![line] + lines_of(v@.subrange(k + 1, n as int)));
            pos = k + 1;
        } else {
            proof {
                line = seg;
            }
            apply_line_at(&mut h, v.as_slice(), pos, n);
            assert(lines_of(seg) == seq![line]);
            assert(v@.subrange(n as int, n as int) =~= Seq::<char>::empty());
            pos = n;
        }
        proof {
            assert(done.push(line).drop_last() =~= done);
            done = done.push(line);
        }
        assert(all =~= done + lines_of(v@.subrange(pos as int, n as int)));
        count = count + 1;
    }
    proof {
        if pos == n {
            assert(v@.subrange(n as int, n as int) =~= Seq::<char>::empty());
            assert(all =~= done);
        } else {
            assert(all.take(HEADER_LINES as int) =~= done);
            if all.len() <= HEADER_LINES {
                assert(all =~= done);
            }
        }
    }
    h
}


/// What any header this parser makes satisfies: every declared id is a
/// known group, once; every listed capability is a known one, once, with
/// its group declared; every reason belongs to a known group and is
/// non-blank and at most 120 characters; the name and icon are capped.
pub open spec fn header_wf(h: HeaderView) -> bool {
    &&& forall|i: int| 0 <= i < h.permissions.len() ==> is_perm_id(#[trigger] h.permissions[i])
    &&& h.permissions.no_duplicates()
    &&& forall|i: int| 0 <= i < h.capabilities.len() ==> is_cap_id(#[trigger] h.capabilities[i])
    &&& forall|i: int|
        0 <= i < h.capabilities.len() ==> match cap_group_of(#[trigger] h.capabilities[i]) {
            Some(g) => h.permissions.contains(perm_id(g)),
            None => true,
        }
    &&& h.capabilities.no_duplicates()
    &&& forall|k: Seq<char>| #[trigger]
        h.permission_reasons.contains_key(k) ==> is_perm_id(k) && 0 < h.permission_reasons[k].len()
            <= 120
    &&& match h.name {
        Some(n) => n.len() <= 18,
        None => true,
    }
    &&& match h.icon {
        Some(i) => i.len() <= 12,
        None => true,
    }
}

proof fn lemma_declare_id_wf(h: HeaderView, raw: Seq<char>)
    requires
        header_wf(h),
    ensures
        header_wf(declare_id(h, raw)),
        forall|q: Seq<char>| h.permissions.contains(q) ==> #[trigger] declare_id(h, raw).permissions.contains(q),
{
    let id = trim(raw);
    let r = declare_id(h, raw);
    if is_perm_id(id) {
        if !h.permissions.contains(id) {
            assert forall|q: Seq<char>| h.permissions.contains(q) implies #[trigger] r.permissions.contains(q) by {
                let i = choose|i: int| 0 <= i < h.permissions.len() && h.permissions[i] == q;
                assert(r.permissions[i] == q);
            }
            assert forall|i: int| 0 <= i < r.capabilities.len() implies match cap_group_of(#[trigger] r.capabilities[i]) {
                Some(g) => r.permissions.contains(perm_id(g)),
                None => true,
            } by {
                assert(r.capabilities[i] == h.capabilities[i]);
                match cap_group_of(h.capabilities[i]) {
                    Some(g) => {
                        assert(h.permissions.contains(perm_id(g)));
                    },
                    None => {},
                }
            }
        }
    } else {
        match find_first(has_id(id)) {
            None => {},
            Some(c) => {
                let h1 = match c.group {
                    Some(g) => if h.permissions.contains(perm_id(g)) {
                        h
                    } else {
                        HeaderView { permissions: h.permissions.push(perm_id(g)), ..h }
                    },
                    None => h,
                };
                assert forall|q: Seq<char>| h.permissions.contains(q) implies #[trigger] h1.permissions.contains(q) by {
                    let i = choose|i: int| 0 <= i < h.permissions.len() && h.permissions[i] == q;
                    assert(h1.permissions[i] == q);
                }
                match c.group {
                    Some(g) => {
                        assert(is_perm_id(perm_id(g)));
                        if !h.permissions.contains(perm_id(g)) {
                            assert(h1.permissions[h.permissions.len() as int] == perm_id(g));
                        }
                        assert(h1.permissions.contains(perm_id(g)));
                    },
                    None => {},
                }
                assert(is_cap_id(id));
                assert(cap_group_of(id) == c.group);
                assert forall|i: int| 0 <= i < r.capabilities.len() implies match cap_group_of(#[trigger] r.capabilities[i]) {
                    Some(g) => r.permissions.contains(perm_id(g)),
                    None => true,
                } by {
                    if i < h.capabilities.len() {
                        assert(r.capabilities[i] == h.capabilities[i]);
                        match cap_group_of(h.capabilities[i]) {
                            Some(g) => {
                                assert(h.permissions.contains(perm_id(g)));
                            },
                            None => {},
                        }
                    } else {
                        assert(r.capabilities[i] == id);
                    }
                }
                assert forall|q: Seq<char>| h.permissions.contains(q) implies #[trigger] r.permissions.contains(q) by {
                    assert(h1.permissions.contains(q));
                }
            },
        }
    }
}

proof fn lemma_declare_ids_wf(h: HeaderView, ids: Seq<Seq<char>>)
    requires
        header_wf(h),
    ensures
        header_wf(declare_ids(h, ids)),
    decreases ids.len(),
{
    if ids.len() > 0 {
        lemma_declare_ids_wf(h, ids.drop_last());
        lemma_declare_id_wf(declare_ids(h, ids.drop_last()), ids.last());
    }
}

proof fn lemma_apply_line_wf(h: HeaderView, line: Seq<char>)
    requires
        header_wf(h),
    ensures
        header_wf(apply_line(h, line)),
{
    reveal_strlit("//");
    reveal_strlit("name:");
    reveal_strlit("icon:");
    reveal_strlit("tint:");
    reveal_strlit("permissions:");
    reveal_strlit("why-");
    let t = trim(line);
    if "//"@.is_prefix_of(t) {
        let rest = trim(t.skip(2));
        if "name:"@.is_prefix_of(rest) {
            let v = trim(rest.skip(5));
            lemma_trim_len(take_chars(v, 18));
        } else if "icon:"@.is_prefix_of(rest) {
        } else if "tint:"@.is_prefix_of(rest) {
        } else if "permissions:"@.is_prefix_of(rest) {
            lemma_declare_ids_wf(h, split_on(rest.skip(12), ','));
        }
    }
}

proof fn lemma_trim_len(s: Seq<char>)
    ensures
        trim(s).len() <= s.len(),
{
    lemma_trim_start_len(s);
    lemma_trim_end_len(crate::text::trim_start(s));
}

proof fn lemma_trim_start_len(s: Seq<char>)
    ensures
        crate::text::trim_start(s).len() <= s.len(),
    decreases s.len(),
{
    if s.len() > 0 && is_ws(s[0]) {
        lemma_trim_start_len(s.drop_first());
    }
}

proof fn lemma_trim_end_len(s: Seq<char>)
    ensures
        crate::text::trim_end(s).len() <= s.len(),
    decreases s.len(),
{
    if s.len() > 0 && is_ws(s.last()) {
        lemma_trim_end_len(s.drop_last());
    }
}

proof fn lemma_header_of_lines_wf(ls: Seq<Seq<char>>)
    ensures
        header_wf(header_of_lines(ls)),
    decreases ls.len(),
{
    if ls.len() == 0 {
        assert(header_wf(empty_header()));
    } else {
        lemma_header_of_lines_wf(ls.drop_last());
        lemma_apply_line_wf(header_of_lines(ls.drop_last()), ls.last());
    }
}

/// Whatever a script says, its header declares only known groups, once
/// each; lists only known capabilities, once each and with their group
/// declared; keeps reasons only for known groups, non-blank and at most 120
/// characters; and caps the name at 18 and the icon at 12 characters.
pub proof fn law_header_declares_only_what_can_be_granted(source: Seq<char>)
    ensures
        header_wf(header_of(source)),
{
    let ls = lines_of(source);
    lemma_header_of_lines_wf(if ls.len() <= HEADER_LINES { ls } else { ls.take(HEADER_LINES as int) });
}

} // verus!
