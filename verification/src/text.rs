//! Text helpers: comparing strings and reading their characters.

use vstd::prelude::*;
use vstd::string::*;
use vstd::utf8::*;

verus! {

broadcast use vstd::string::group_string_axioms;

/// Whether two strings hold the same characters, decided on their UTF-8 bytes.
pub fn str_eq(a: &str, b: &str) -> (r: bool)
    ensures
        r == (a@ == b@),
{
    let x = a.as_bytes();
    let y = b.as_bytes();
    proof {
        encode_utf8_decode_utf8(a@);
        encode_utf8_decode_utf8(b@);
        assert(x@ == encode_utf8(a@));
        assert(y@ == encode_utf8(b@));
    }
    if x.len() != y.len() {
        return false;
    }
    let n = x.len();
    let mut i: usize = 0;
    while i < n
        invariant
            i <= n,
            n == x@.len(),
            n == y@.len(),
            x@ == encode_utf8(a@),
            y@ == encode_utf8(b@),
            forall|j: int| 0 <= j < i ==> x@[j] == y@[j],
        decreases n - i,
    {
        if x[i] != y[i] {
            return false;
        }
        i += 1;
    }
    assert(x@ =~= y@);
    true
}

/// The characters of a string, in order.
pub fn chars_of(s: &str) -> (v: Vec<char>)
    ensures
        v@ == s@,
{
    let mut v: Vec<char> = Vec::new();
    for c in it: s.chars()
        invariant
            it.seq() == s@,
            v@ == s@.take(it.index()),
    {
        v.push(c);
        assert(s@.take(it.index() + 1) =~= s@.take(it.index()).push(c));
    }
    assert(s@.take(s@.len() as int) =~= s@);
    v
}

/// Whether a character is white space: the characters of Unicode's
/// `White_Space` property.
pub open spec fn is_space(c: char) -> bool {
    let u = c as u32;
    ||| 0x09 <= u <= 0x0d
    ||| u == 0x20
    ||| u == 0x85
    ||| u == 0xa0
    ||| u == 0x1680
    ||| 0x2000 <= u <= 0x200a
    ||| u == 0x2028
    ||| u == 0x2029
    ||| u == 0x202f
    ||| u == 0x205f
    ||| u == 0x3000
}

/// Whether a character is white space.
pub fn is_space_char(c: char) -> (b: bool)
    ensures
        b == is_space(c),
{
    let u = c as u32;
    (0x09 <= u && u <= 0x0d) || u == 0x20 || u == 0x85 || u == 0xa0 || u == 0x1680 || (0x2000 <= u
        && u <= 0x200a) || u == 0x2028 || u == 0x2029 || u == 0x202f || u == 0x205f || u == 0x3000
}

/// The first position from `lo` on, below `hi`, that holds no white space;
/// `hi` where there is none.
pub open spec fn skip_spaces(s: Seq<char>, lo: int, hi: int) -> int
    decreases hi - lo,
{
    if lo < hi && is_space(s[lo]) {
        skip_spaces(s, lo + 1, hi)
    } else {
        lo
    }
}

/// The end of the text between `lo` and `hi` once the white space at its
/// end is left off: `lo` where it is white space throughout.
pub open spec fn drop_spaces(s: Seq<char>, lo: int, hi: int) -> int
    decreases hi - lo,
{
    if lo < hi && is_space(s[hi - 1]) {
        drop_spaces(s, lo, hi - 1)
    } else {
        hi
    }
}

/// Whether `pat` stands in `s` at position `at`.
pub open spec fn matches_at(s: Seq<char>, pat: Seq<char>, at: int) -> bool {
    &&& 0 <= at
    &&& at + pat.len() <= s.len()
    &&& s.subrange(at, at + pat.len()) == pat
}

/// The first position from `lo` on, below `hi`, that holds character `c`;
/// `hi` where there is none.
pub open spec fn find_char(s: Seq<char>, c: char, lo: int, hi: int) -> int
    decreases hi - lo,
{
    if lo < hi && s[lo] != c {
        find_char(s, c, lo + 1, hi)
    } else {
        lo
    }
}

/// What `skip_spaces` gives is the end of the white space that begins at
/// `lo`: everything before it is white space, and what stands at it is not.
pub proof fn law_skip_spaces(s: Seq<char>, lo: int, hi: int)
    requires
        lo <= hi,
    ensures
        lo <= skip_spaces(s, lo, hi) <= hi,
        forall|i: int| lo <= i < skip_spaces(s, lo, hi) ==> is_space(s[i]),
        skip_spaces(s, lo, hi) < hi ==> !is_space(s[skip_spaces(s, lo, hi)]),
    decreases hi - lo,
{
    if lo < hi && is_space(s[lo]) {
        law_skip_spaces(s, lo + 1, hi);
    }
}

/// What `drop_spaces` gives is the start of the white space that ends at
/// `hi`: everything from it on is white space, and what stands before it is
/// not.
pub proof fn law_drop_spaces(s: Seq<char>, lo: int, hi: int)
    requires
        lo <= hi,
    ensures
        lo <= drop_spaces(s, lo, hi) <= hi,
        forall|i: int| drop_spaces(s, lo, hi) <= i < hi ==> is_space(s[i]),
        lo < drop_spaces(s, lo, hi) ==> !is_space(s[drop_spaces(s, lo, hi) - 1]),
    decreases hi - lo,
{
    if lo < hi && is_space(s[hi - 1]) {
        law_drop_spaces(s, lo, hi - 1);
    }
}

/// What `find_char` gives is the first position from `lo` on that holds
/// the character: it lies between `lo` and `hi`, and no position before it
/// holds the character.
pub proof fn lemma_find_char_bounds(s: Seq<char>, c: char, lo: int, hi: int)
    requires
        lo <= hi,
    ensures
        lo <= find_char(s, c, lo, hi) <= hi,
        forall|i: int| lo <= i < find_char(s, c, lo, hi) ==> s[i] != c,
        find_char(s, c, lo, hi) < hi ==> s[find_char(s, c, lo, hi)] == c,
    decreases hi - lo,
{
    if lo < hi && s[lo] != c {
        lemma_find_char_bounds(s, c, lo + 1, hi);
    }
}

/// What `find_from` gives is the first position from `lo` on at which the
/// pattern stands, and it gives none only where the pattern stands at no
/// such position.
pub proof fn law_find_from(s: Seq<char>, pat: Seq<char>, lo: int)
    requires
        0 <= lo,
    ensures
        match find_from(s, pat, lo) {
            Some(i) => lo <= i && matches_at(s, pat, i) && forall|k: int|
                lo <= k < i ==> !matches_at(s, pat, k),
            None => forall|k: int| lo <= k ==> !matches_at(s, pat, k),
        },
    decreases s.len() + 1 - lo,
{
    if lo + pat.len() <= s.len() && !matches_at(s, pat, lo) {
        law_find_from(s, pat, lo + 1);
    }
}

/// The first position from `lo` on at which `pat` stands in `s`; none where
/// it stands at no such position.
pub open spec fn find_from(s: Seq<char>, pat: Seq<char>, lo: int) -> Option<int>
    decreases s.len() + 1 - lo,
{
    if 0 <= lo && lo + pat.len() <= s.len() {
        if matches_at(s, pat, lo) {
            Some(lo)
        } else {
            find_from(s, pat, lo + 1)
        }
    } else {
        None
    }
}

/// The first position from `lo` on, below `hi`, that holds no white space.
pub fn skip_spaces_in(s: &Vec<char>, lo: usize, hi: usize) -> (r: usize)
    requires
        lo <= hi <= s@.len(),
    ensures
        r == skip_spaces(s@, lo as int, hi as int),
        lo <= r <= hi,
{
    let mut i = lo;
    while i < hi && is_space_char(s[i])
        invariant
            lo <= i <= hi <= s@.len(),
            skip_spaces(s@, lo as int, hi as int) == skip_spaces(s@, i as int, hi as int),
        decreases hi - i,
    {
        i += 1;
    }
    i
}

/// The end of the text between `lo` and `hi` without the white space at its end.
pub fn drop_spaces_in(s: &Vec<char>, lo: usize, hi: usize) -> (r: usize)
    requires
        lo <= hi <= s@.len(),
    ensures
        r == drop_spaces(s@, lo as int, hi as int),
        lo <= r <= hi,
{
    let mut j = hi;
    while lo < j && is_space_char(s[j - 1])
        invariant
            lo <= j <= hi <= s@.len(),
            drop_spaces(s@, lo as int, hi as int) == drop_spaces(s@, lo as int, j as int),
        decreases j - lo,
    {
        j -= 1;
    }
    j
}

/// The first position from `lo` on, below `hi`, that holds character `c`.
pub fn find_char_in(s: &Vec<char>, c: char, lo: usize, hi: usize) -> (r: usize)
    requires
        lo <= hi <= s@.len(),
    ensures
        r == find_char(s@, c, lo as int, hi as int),
        lo <= r <= hi,
{
    let mut i = lo;
    while i < hi && s[i] != c
        invariant
            lo <= i <= hi <= s@.len(),
            find_char(s@, c, lo as int, hi as int) == find_char(s@, c, i as int, hi as int),
        decreases hi - i,
    {
        i += 1;
    }
    i
}

/// Whether `pat` stands in `s` at position `at`.
pub fn matches_at_in(s: &Vec<char>, pat: &Vec<char>, at: usize) -> (b: bool)
    ensures
        b == matches_at(s@, pat@, at as int),
{
    let n = pat.len();
    if n > s.len() || at > s.len() - n {
        return false;
    }
    let mut k: usize = 0;
    while k < n
        invariant
            k <= n,
            n == pat@.len(),
            at + n <= s@.len() <= usize::MAX,
            forall|j: int| 0 <= j < k ==> s@[at + j] == pat@[j],
        decreases n - k,
    {
        if s[at + k] != pat[k] {
            assert(s@.subrange(at as int, at + n)[k as int] != pat@[k as int]);
            return false;
        }
        k += 1;
    }
    assert(s@.subrange(at as int, at + n) =~= pat@);
    true
}

/// The first position from `lo` on at which `pat` stands in `s`.
pub fn find_in(s: &Vec<char>, pat: &Vec<char>, lo: usize) -> (r: Option<usize>)
    ensures
        opt_int(r) == find_from(s@, pat@, lo as int),
{
    let n = pat.len();
    if n > s.len() || lo > s.len() - n {
        return None;
    }
    let last = s.len() - n;
    let mut i = lo;
    loop
        invariant
            lo <= i <= last,
            last == s@.len() - pat@.len(),
            find_from(s@, pat@, lo as int) == find_from(s@, pat@, i as int),
        decreases last - i,
    {
        if matches_at_in(s, pat, i) {
            return Some(i);
        }
        if i == last {
            assert(find_from(s@, pat@, i + 1) is None);
            return None;
        }
        i += 1;
    }
}

/// A position, where there is one, as an integer.
pub open spec fn opt_int(i: Option<usize>) -> Option<int> {
    match i {
        Some(n) => Some(n as int),
        None => None,
    }
}

/// The characters of `s` from position `lo` up to `hi`, as a string.
pub fn substring(s: &str, lo: usize, hi: usize) -> (r: String)
    requires
        lo <= hi <= s@.len(),
    ensures
        r@ == s@.subrange(lo as int, hi as int),
{
    String::from_str(s.substring_char(lo, hi))
}

/// `String::push`: appends one character.
pub assume_specification[ String::push ](s: &mut String, c: char)
    ensures
        final(s)@ == old(s)@.push(c),
;

/// Appends the characters of `chars` from position `lo` up to `hi` to `out`.
pub fn push_range(out: &mut String, chars: &Vec<char>, lo: usize, hi: usize)
    requires
        lo <= hi <= chars@.len(),
    ensures
        final(out)@ == old(out)@ + chars@.subrange(lo as int, hi as int),
{
    let mut i = lo;
    while i < hi
        invariant
            lo <= i <= hi <= chars@.len(),
            out@ == old(out)@ + chars@.subrange(lo as int, i as int),
        decreases hi - i,
    {
        out.push(chars[i]);
        proof {
            assert(chars@.subrange(lo as int, i + 1) =~= chars@.subrange(lo as int, i as int).push(
                chars@[i as int],
            ));
        }
        i += 1;
    }
}

/// Whether UTF-8 bytes `a` come before `b`, or are `b`, in dictionary order
/// by byte: the order in which strings compare.
pub open spec fn bytes_le(a: Seq<u8>, b: Seq<u8>) -> bool
    decreases a.len(),
{
    if a.len() == 0 {
        true
    } else if b.len() == 0 {
        false
    } else if a[0] != b[0] {
        a[0] < b[0]
    } else {
        bytes_le(a.skip(1), b.skip(1))
    }
}

/// Whether string `a` comes before `b`, or is `b`, in the order of strings.
pub open spec fn text_le(a: Seq<char>, b: Seq<char>) -> bool {
    bytes_le(vstd::utf8::encode_utf8(a), vstd::utf8::encode_utf8(b))
}

/// Whether string `a` comes before `b`, or is `b`, in the order of strings.
pub fn str_le(a: &str, b: &str) -> (r: bool)
    ensures
        r == text_le(a@, b@),
{
    let x = a.as_bytes();
    let y = b.as_bytes();
    let n = x.len();
    let m = y.len();
    let mut i: usize = 0;
    assert(x@.skip(0) =~= x@);
    assert(y@.skip(0) =~= y@);
    while i < n && i < m
        invariant
            i <= n,
            i <= m,
            n == x@.len(),
            m == y@.len(),
            x@ == encode_utf8(a@),
            y@ == encode_utf8(b@),
            bytes_le(x@, y@) == bytes_le(x@.skip(i as int), y@.skip(i as int)),
        decreases n - i,
    {
        if x[i] != y[i] {
            return x[i] < y[i];
        }
        proof {
            assert(x@.skip(i as int).skip(1) =~= x@.skip(i + 1));
            assert(y@.skip(i as int).skip(1) =~= y@.skip(i + 1));
        }
        i += 1;
    }
    i == n
}

/// The order of byte strings is total: of two, one comes first or they are the same.
pub proof fn lemma_bytes_le_total(a: Seq<u8>, b: Seq<u8>)
    ensures
        bytes_le(a, b) || bytes_le(b, a),
    decreases a.len(),
{
    if a.len() > 0 && b.len() > 0 && a[0] == b[0] {
        lemma_bytes_le_total(a.skip(1), b.skip(1));
    }
}

/// The order of byte strings is transitive.
pub proof fn lemma_bytes_le_trans(a: Seq<u8>, b: Seq<u8>, c: Seq<u8>)
    requires
        bytes_le(a, b),
        bytes_le(b, c),
    ensures
        bytes_le(a, c),
    decreases a.len(),
{
    if a.len() > 0 && b.len() > 0 && c.len() > 0 && a[0] == b[0] && b[0] == c[0] {
        lemma_bytes_le_trans(a.skip(1), b.skip(1), c.skip(1));
    }
}

/// The character of a decimal digit.
pub open spec fn digit_char(d: nat) -> char {
    if d == 0 {
        '0'
    } else if d == 1 {
        '1'
    } else if d == 2 {
        '2'
    } else if d == 3 {
        '3'
    } else if d == 4 {
        '4'
    } else if d == 5 {
        '5'
    } else if d == 6 {
        '6'
    } else if d == 7 {
        '7'
    } else if d == 8 {
        '8'
    } else {
        '9'
    }
}

/// A number written in decimal digits, without leading zeros.
pub open spec fn decimal(n: nat) -> Seq<char>
    decreases n,
{
    if n < 10 {
        seq![digit_char(n)]
    } else {
        decimal(n / 10).push(digit_char(n % 10))
    }
}

/// The character of a decimal digit.
fn digit_of(d: u16) -> (c: char)
    requires
        d < 10,
    ensures
        c == digit_char(d as nat),
{
    if d == 0 {
        '0'
    } else if d == 1 {
        '1'
    } else if d == 2 {
        '2'
    } else if d == 3 {
        '3'
    } else if d == 4 {
        '4'
    } else if d == 5 {
        '5'
    } else if d == 6 {
        '6'
    } else if d == 7 {
        '7'
    } else if d == 8 {
        '8'
    } else {
        '9'
    }
}

/// Appends `n` in decimal digits to `out`.
pub fn push_decimal(out: &mut String, n: u16)
    ensures
        final(out)@ == old(out)@ + decimal(n as nat),
{
    let mut low: Vec<char> = Vec::new();
    let mut m = n;
    assert(decimal(m as nat) + low@.reverse() =~= decimal(n as nat));
    while m >= 10
        invariant
            decimal(n as nat) == decimal(m as nat) + low@.reverse(),
        decreases m,
    {
        let d = digit_of(m % 10);
        let ghost before = low@;
        low.push(d);
        proof {
            assert(low@.reverse() =~= seq![d] + before.reverse());
            assert(decimal((m / 10) as nat) + low@.reverse() =~= decimal(m as nat)
                + before.reverse());
        }
        m = m / 10;
    }
    out.push(digit_of(m));
    let mut k = low.len();
    while k > 0
        invariant
            k <= low@.len(),
            decimal(n as nat) == seq![digit_char(m as nat)] + low@.reverse(),
            out@ == old(out)@ + seq![digit_char(m as nat)] + low@.reverse().take(low@.len() - k),
        decreases k,
    {
        k -= 1;
        out.push(low[k]);
        proof {
            let r = low@.reverse();
            assert(r.take(low@.len() - k) =~= r.take(low@.len() - k - 1).push(low@[k as int]));
        }
    }
    proof {
        assert(low@.reverse().take(low@.len() as int) =~= low@.reverse());
    }
}

} // verus!
