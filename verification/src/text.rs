//! Small operations on text that the attribute arguments need.

use vstd::prelude::*;
use vstd::string::*;

verus! {

/// The characters that count as blank: those with the Unicode property
/// `White_Space`.
pub open spec fn is_whitespace(c: char) -> bool {
    let n = c as u32;
    ||| 0x09 <= n <= 0x0D
    ||| n == 0x20
    ||| n == 0x85
    ||| n == 0xA0
    ||| n == 0x1680
    ||| 0x2000 <= n <= 0x200A
    ||| n == 0x2028
    ||| n == 0x2029
    ||| n == 0x202F
    ||| n == 0x205F
    ||| n == 0x3000
}

/// What trimming removes from the ends of a text: blanks, or double quotes.
#[derive(Clone, Copy, Debug, PartialEq, Eq, Structural)]
pub enum Strip {
    Blanks,
    Quotes,
}

impl Strip {
    /// Whether `c` is one of the characters to remove.
    pub open spec fn takes(self, c: char) -> bool {
        match self {
            Strip::Blanks => is_whitespace(c),
            Strip::Quotes => c == '"',
        }
    }

    /// Whether `c` is one of the characters to remove.
    pub fn matches(self, c: char) -> (r: bool)
        ensures
            r == self.takes(c),
    {
        match self {
            Strip::Blanks => {
                let n = c as u32;
                (0x09 <= n && n <= 0x0D) || n == 0x20 || n == 0x85 || n == 0xA0 || n == 0x1680 || (0x2000 <= n
                    && n <= 0x200A) || n == 0x2028 || n == 0x2029 || n == 0x202F || n == 0x205F || n == 0x3000
            },
            Strip::Quotes => c == '"',
        }
    }
}

/// `s` without the longest prefix made of characters that `strip` takes.
pub open spec fn trim_start(s: Seq<char>, strip: Strip) -> Seq<char>
    decreases s.len(),
{
    if s.len() > 0 && strip.takes(s[0]) {
        trim_start(s.drop_first(), strip)
    } else {
        s
    }
}

/// `s` without the longest suffix made of characters that `strip` takes.
pub open spec fn trim_end(s: Seq<char>, strip: Strip) -> Seq<char>
    decreases s.len(),
{
    if s.len() > 0 && strip.takes(s.last()) {
        trim_end(s.drop_last(), strip)
    } else {
        s
    }
}

/// `s` with the characters that `strip` takes removed from both ends.
pub open spec fn trim(s: Seq<char>, strip: Strip) -> Seq<char> {
    trim_end(trim_start(s, strip), strip)
}

/// An upper-case ASCII letter becomes its lower-case form; every other
/// character stays.
pub open spec fn ascii_lower(c: char) -> char {
    if 'A' <= c <= 'Z' {
        ((c as u8) + 32) as char
    } else {
        c
    }
}

/// `s` with every upper-case ASCII letter in lower case.
pub open spec fn to_ascii_lowercase(s: Seq<char>) -> Seq<char> {
    Seq::new(s.len(), |i: int| ascii_lower(s[i]))
}

/// Whether the substitution marker `{}` stands at position `i` of `s`.
pub open spec fn marker_at(s: Seq<char>, i: int) -> bool {
    0 <= i && i + 1 < s.len() && s[i] == '{' && s[i + 1] == '}'
}

/// The position of the first marker in `s` at or after `from`.
pub open spec fn find_marker_from(s: Seq<char>, from: int) -> Option<int>
    decreases s.len() - from,
{
    if from < 0 || from + 1 >= s.len() {
        None
    } else if marker_at(s, from) {
        Some(from)
    } else {
        find_marker_from(s, from + 1)
    }
}

/// The position of the first marker in `s`.
pub open spec fn find_marker(s: Seq<char>) -> Option<int> {
    find_marker_from(s, 0)
}

/// The characters of `s`, one by one.
pub fn to_chars(s: &str) -> (v: Vec<char>)
    ensures
        v@ == s@,
{
    broadcast use vstd::string::group_string_axioms;

    let mut v: Vec<char> = Vec::new();
    for c in it: s.chars()
        invariant
            it.seq() == s@,
            v@ == it.seq().subrange(0, it.index() as int),
    {
        v.push(c);
        assert(v@ =~= it.seq().subrange(0, it.index() + 1));
    }
    assert(v@ =~= s@);
    v
}

/// Whether two texts hold the same characters.
pub fn same_chars(a: &Vec<char>, b: &Vec<char>) -> (r: bool)
    ensures
        r == (a@ == b@),
{
    if a.len() != b.len() {
        return false;
    }
    let mut i: usize = 0;
    while i < a.len()
        invariant
            a@.len() == b@.len(),
            i <= a@.len(),
            a@.subrange(0, i as int) == b@.subrange(0, i as int),
        decreases a@.len() - i,
    {
        if a[i] != b[i] {
            return false;
        }
        assert(a@.subrange(0, i + 1) =~= a@.subrange(0, i as int).push(a@[i as int]));
        assert(b@.subrange(0, i + 1) =~= b@.subrange(0, i as int).push(b@[i as int]));
        i += 1;
    }
    assert(a@ =~= a@.subrange(0, a@.len() as int));
    assert(b@ =~= b@.subrange(0, b@.len() as int));
    true
}

/// `chars` with every upper-case ASCII letter in lower case.
pub fn lowercase(chars: &Vec<char>) -> (v: Vec<char>)
    ensures
        v@ == to_ascii_lowercase(chars@),
{
    let mut v: Vec<char> = Vec::new();
    let mut i: usize = 0;
    while i < chars.len()
        invariant
            i <= chars@.len(),
            v@.len() == i,
            forall|k: int| 0 <= k < i ==> v@[k] == ascii_lower(chars@[k]),
        decreases chars@.len() - i,
    {
        let c = chars[i];
        let l = if 'A' <= c && c <= 'Z' {
            ((c as u8) + 32) as char
        } else {
            c
        };
        v.push(l);
        i += 1;
    }
    assert(v@ =~= to_ascii_lowercase(chars@));
    v
}

/// The bounds of the part of `chars[lo..hi]` that is left when the
/// characters that `strip` takes are removed from both of its ends.
pub fn trim_bounds(chars: &Vec<char>, lo: usize, hi: usize, strip: Strip) -> (r: (usize, usize))
    requires
        lo <= hi <= chars@.len(),
    ensures
        lo <= r.0 <= r.1 <= hi,
        r.0 == hi - trim_start(chars@.subrange(lo as int, hi as int), strip).len(),
        chars@.subrange(r.0 as int, r.1 as int) == trim(chars@.subrange(lo as int, hi as int), strip),
{
    let mut a: usize = lo;
    while a < hi && strip.matches(chars[a])
        invariant
            lo <= a <= hi <= chars@.len(),
            trim_start(chars@.subrange(a as int, hi as int), strip) == trim_start(
                chars@.subrange(lo as int, hi as int),
                strip,
            ),
        decreases hi - a,
    {
        assert(chars@.subrange(a as int, hi as int).drop_first() =~= chars@.subrange(a + 1, hi as int));
        a += 1;
    }
    let mut b: usize = hi;
    while a < b && strip.matches(chars[b - 1])
        invariant
            a <= b <= hi <= chars@.len(),
            trim_end(chars@.subrange(a as int, b as int), strip) == trim_end(
                chars@.subrange(a as int, hi as int),
                strip,
            ),
        decreases b - a,
    {
        assert(chars@.subrange(a as int, b as int).drop_last() =~= chars@.subrange(a as int, b - 1));
        b -= 1;
    }
    (a, b)
}

/// The position of the first marker in `chars`.
pub fn locate_marker(chars: &Vec<char>) -> (r: Option<usize>)
    ensures
        r matches Some(i) ==> find_marker(chars@) == Some(i as int) && marker_at(chars@, i as int),
        r is None ==> find_marker(chars@) is None,
{
    let n = chars.len();
    if n < 2 {
        return None;
    }
    let mut i: usize = 0;
    while i < n - 1
        invariant
            n == chars@.len(),
            n >= 2,
            i <= n - 1,
            find_marker_from(chars@, i as int) == find_marker(chars@),
        decreases n - i,
    {
        if chars[i] == '{' && chars[i + 1] == '}' {
            return Some(i);
        }
        i += 1;
    }
    None
}

/// The position that `find_marker` gives holds a marker, and none stands
/// before it; where it gives none, the text holds no marker.
pub proof fn find_marker_is_first(s: Seq<char>, from: int)
    requires
        0 <= from,
    ensures
        find_marker_from(s, from) matches Some(i) ==> from <= i && marker_at(s, i) && forall|j: int|
            from <= j < i ==> !marker_at(s, j),
        find_marker_from(s, from) is None ==> forall|j: int| from <= j ==> !marker_at(s, j),
    decreases s.len() - from,
{
    if from + 1 < s.len() && !marker_at(s, from) {
        find_marker_is_first(s, from + 1);
    }
}

} // verus!
