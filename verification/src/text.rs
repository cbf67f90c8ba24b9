//! Scanning of request text: tokens, path segments, prefixes and the blank
//! line that separates the head of a request from its body.

use vstd::prelude::*;
use vstd::string::*;

verus! {

/// What a scan looks for.
#[derive(Clone, Copy, Debug)]
pub enum Stop {
    /// A white-space character.
    Space,
    /// A character that is not white space.
    Text,
    /// The path separator `/`.
    Slash,
}

/// The characters that Unicode counts as white space.
pub open spec fn is_space(c: char) -> bool {
    let n = c as u32;
    ||| 0x09 <= n <= 0x0D
    ||| n == 0x20
    ||| n == 0x85
    ||| n == 0xA0
    ||| n == 0x1680
    ||| 0x2000 <= n <= 0x200A
    ||| n == 0x2028
    ||| n == 0x2029
    ||| n == 0x202F
    ||| n == 0x205F
    ||| n == 0x3000
}

/// Whether `c` is white space.
pub fn is_whitespace(c: char) -> (r: bool)
    ensures
        r == is_space(c),
{
    let n: u32 = c as u32;
    (0x09 <= n && n <= 0x0D) || n == 0x20 || n == 0x85 || n == 0xA0 || n == 0x1680 || (0x2000 <= n
        && n <= 0x200A) || n == 0x2028 || n == 0x2029 || n == 0x202F || n == 0x205F || n == 0x3000
}

/// Whether a scan of the given kind stops at `c`.
pub open spec fn stops(kind: Stop, c: char) -> bool {
    match kind {
        Stop::Space => is_space(c),
        Stop::Text => !is_space(c),
        Stop::Slash => c == '/',
    }
}

/// The first position at or after `from` where a scan of the given kind
/// stops; the length of `s` where there is none.
pub open spec fn scan(s: Seq<char>, from: int, kind: Stop) -> int
    decreases s.len() - from,
{
    if from < 0 || from >= s.len() {
        s.len() as int
    } else if stops(kind, s[from]) {
        from
    } else {
        scan(s, from + 1, kind)
    }
}

fn stops_at(kind: Stop, c: char) -> (r: bool)
    ensures
        r == stops(kind, c),
{
    match kind {
        Stop::Space => is_whitespace(c),
        Stop::Text => !is_whitespace(c),
        Stop::Slash => c == '/',
    }
}

/// Scans `s` from `from` on for the first character of the given kind.
pub fn scan_to(s: &str, from: usize, kind: Stop) -> (r: usize)
    requires
        from <= s@.len(),
    ensures
        r == scan(s@, from as int, kind),
        from <= r <= s@.len(),
{
    let n: usize = s.unicode_len();
    let mut i: usize = from;
    while i < n
        invariant
            from <= i <= n,
            n == s@.len(),
            scan(s@, from as int, kind) == scan(s@, i as int, kind),
        decreases n - i,
    {
        let c: char = s.get_char(i);
        if stops_at(kind, c) {
            return i;
        }
        i += 1;
    }
    i
}

/// The first run of characters of `s` that holds no white space; empty
/// where `s` holds nothing else.
pub open spec fn first_token(s: Seq<char>) -> Seq<char> {
    let a = scan(s, 0, Stop::Text);
    s.subrange(a, scan(s, a, Stop::Space))
}

/// The second such run.
pub open spec fn second_token(s: Seq<char>) -> Seq<char> {
    let a = scan(s, 0, Stop::Text);
    let b = scan(s, scan(s, a, Stop::Space), Stop::Text);
    s.subrange(b, scan(s, b, Stop::Space))
}

/// What stands between the second `/` of `s` and the third (or the end);
/// empty where `s` holds fewer than two.
pub open spec fn id_segment(s: Seq<char>) -> Seq<char> {
    let a = scan(s, 0, Stop::Slash);
    let b = scan(s, a + 1, Stop::Slash);
    if a < s.len() && b < s.len() {
        s.subrange(b + 1, scan(s, b + 1, Stop::Slash))
    } else {
        Seq::empty()
    }
}

/// The text of the id that `s` names: the first token of its third
/// `/`-delimited segment.
pub open spec fn id_text(s: Seq<char>) -> Seq<char> {
    first_token(id_segment(s))
}

fn token_from(s: &str, from: usize) -> (r: (usize, usize))
    requires
        from <= s@.len(),
    ensures
        r.0 == scan(s@, from as int, Stop::Text),
        r.1 == scan(s@, r.0 as int, Stop::Space),
        from <= r.0 <= r.1 <= s@.len(),
{
    let a: usize = scan_to(s, from, Stop::Text);
    let b: usize = scan_to(s, a, Stop::Space);
    (a, b)
}

/// The first token of `s`.
pub fn get_first_token(s: &str) -> (r: &str)
    ensures
        r@ == first_token(s@),
{
    let (a, b) = token_from(s, 0);
    s.substring_char(a, b)
}

/// The second token of `s`.
pub fn get_second_token(s: &str) -> (r: &str)
    ensures
        r@ == second_token(s@),
{
    let (_a, b) = token_from(s, 0);
    let (c, d) = token_from(s, b);
    s.substring_char(c, d)
}

/// The text of the id in a path, or in a request line that holds one.
pub fn get_id(request: &str) -> (r: &str)
    ensures
        r@ == id_text(request@),
{
    let n: usize = request.unicode_len();
    let a: usize = scan_to(request, 0, Stop::Slash);
    if a >= n {
        assert(request@.subrange(0, 0) =~= Seq::<char>::empty());
        return request.substring_char(0, 0);
    }
    let b: usize = scan_to(request, a + 1, Stop::Slash);
    if b >= n {
        assert(request@.subrange(0, 0) =~= Seq::<char>::empty());
        return request.substring_char(0, 0);
    }
    let c: usize = scan_to(request, b + 1, Stop::Slash);
    get_first_token(request.substring_char(b + 1, c))
}

/// Whether the four characters of `s` from `i` on are CR LF CR LF.
pub open spec fn blank_line_at(s: Seq<char>, i: int) -> bool {
    &&& 0 <= i
    &&& i + 4 <= s.len()
    &&& s[i] == '\r'
    &&& s[i + 1] == '\n'
    &&& s[i + 2] == '\r'
    &&& s[i + 3] == '\n'
}

/// The first position at or after `from` where a blank line stands; the
/// length of `s` where there is none.
pub open spec fn find_blank_line(s: Seq<char>, from: int) -> int
    decreases s.len() - from,
{
    if from < 0 || from + 4 > s.len() {
        s.len() as int
    } else if blank_line_at(s, from) {
        from
    } else {
        find_blank_line(s, from + 1)
    }
}

/// What follows the first blank line of `s`; empty where `s` holds none.
pub open spec fn body_of(s: Seq<char>) -> Seq<char> {
    let i = find_blank_line(s, 0);
    if i < s.len() {
        s.subrange(i + 4, s.len() as int)
    } else {
        Seq::empty()
    }
}

/// The body of a request.
pub fn get_body(s: &str) -> (r: &str)
    ensures
        r@ == body_of(s@),
{
    let n: usize = s.unicode_len();
    let mut i: usize = 0;
    while n >= 4 && i <= n - 4
        invariant
            i <= n,
            n == s@.len(),
            find_blank_line(s@, 0) == find_blank_line(s@, i as int),
        decreases n - i,
    {
        if s.get_char(i) == '\r' && s.get_char(i + 1) == '\n' && s.get_char(i + 2) == '\r'
            && s.get_char(i + 3) == '\n' {
            return s.substring_char(i + 4, n);
        }
        i += 1;
    }
    assert(s@.subrange(0, 0) =~= Seq::<char>::empty());
    s.substring_char(0, 0)
}

/// Whether `s` begins with `prefix`.
pub fn starts_with(s: &str, prefix: &str) -> (r: bool)
    ensures
        r == prefix@.is_prefix_of(s@),
{
    let n: usize = s.unicode_len();
    let m: usize = prefix.unicode_len();
    if m > n {
        return false;
    }
    let mut i: usize = 0;
    while i < m
        invariant
            i <= m <= n,
            n == s@.len(),
            m == prefix@.len(),
            forall|j: int| 0 <= j < i ==> s@[j] == prefix@[j],
        decreases m - i,
    {
        if s.get_char(i) != prefix.get_char(i) {
            assert(s@.subrange(0, m as int)[i as int] != prefix@[i as int]);
            return false;
        }
        i += 1;
    }
    assert(prefix@ =~= s@.subrange(0, m as int));
    true
}

/// Whether `a` and `b` hold the same characters.
pub fn same_text(a: &str, b: &str) -> (r: bool)
    ensures
        r == (a@ == b@),
{
    let n: usize = a.unicode_len();
    let m: usize = b.unicode_len();
    if n != m {
        return false;
    }
    let r: bool = starts_with(a, b);
    assert(a@.subrange(0, n as int) =~= a@);
    r
}

} // verus!
