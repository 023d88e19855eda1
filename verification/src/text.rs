//! Character-level text operations with exact specifications.
//!
//! Text is modelled as `Seq<char>`. Executable code works on `Vec<char>` and
//! slices of `char`, and converts from and to `String` at the edges.

use vstd::prelude::*;

verus! {

/// `String::push` appends exactly one character at the end of the string.
pub assume_specification[ String::push ](s: &mut String, ch: char)
    ensures
        final(s)@ == old(s)@.push(ch),
;

/// The characters of a string, in order.
pub fn chars_of(s: &str) -> (v: Vec<char>)
    ensures
        v@ == s@,
{
    let mut v: Vec<char> = Vec::new();
    for c in it: s.chars()
        invariant
            v@ == it.seq().take(it.index() as int),
            it.seq() == s@,
    {
        v.push(c);
    }
    v
}

/// The string made of the given characters, in order.
pub fn string_of(v: &[char]) -> (s: String)
    ensures
        s@ == v@,
{
    let mut s = String::new();
    let mut i: usize = 0;
    while i < v.len()
        invariant
            i <= v.len(),
            s@ == v@.take(i as int),
        decreases v.len() - i,
    {
        s.push(v[i]);
        i += 1;
    }
    s
}

/// A copy of the characters from `from` up to, not including, `to`.
pub fn copy_range(s: &[char], from: usize, to: usize) -> (v: Vec<char>)
    requires
        from <= to <= s.len(),
    ensures
        v@ == s@.subrange(from as int, to as int),
{
    let mut v: Vec<char> = Vec::new();
    let mut i: usize = from;
    while i < to
        invariant
            from <= i <= to <= s.len(),
            v@ == s@.subrange(from as int, i as int),
        decreases to - i,
    {
        v.push(s[i]);
        i += 1;
    }
    v
}

/// Appends the characters of `tail` to `v`.
pub fn push_all(v: &mut Vec<char>, tail: &[char])
    ensures
        final(v)@ == old(v)@ + tail@,
{
    let mut i: usize = 0;
    while i < tail.len()
        invariant
            i <= tail.len(),
            v@ == old(v)@ + tail@.take(i as int),
        decreases tail.len() - i,
    {
        v.push(tail[i]);
        i += 1;
    }
}

/// Appends the characters of the string `tail` to `v`.
pub fn push_str(v: &mut Vec<char>, tail: &str)
    ensures
        final(v)@ == old(v)@ + tail@,
{
    for c in it: tail.chars()
        invariant
            v@ == old(v)@ + it.seq().take(it.index() as int),
            it.seq() == tail@,
    {
        v.push(c);
    }
}

/// The white-space characters: the code points that carry the Unicode
/// property `White_Space`.
pub open spec fn is_whitespace(c: char) -> bool {
    let n = c as u32;
    ||| 0x09 <= n <= 0x0D
    ||| n == 0x20
    ||| n == 0x85
    ||| n == 0xA0
    ||| n == 0x1680
    ||| 0x2000 <= n <= 0x200A
    ||| n == 0x2028
    ||| n == 0x2029
    ||| n == 0x202F
    ||| n == 0x205F
    ||| n == 0x3000
}

/// A set of characters that can be trimmed from the ends of a text.
#[derive(Clone, Copy, Debug)]
pub enum CharClass {
    /// White space.
    Whitespace,
    /// One given character.
    Exactly(char),
}

impl CharClass {
    /// Whether `c` belongs to the class.
    pub open spec fn holds(self, c: char) -> bool {
        match self {
            CharClass::Whitespace => is_whitespace(c),
            CharClass::Exactly(ch) => c == ch,
        }
    }

    /// Tests whether `c` belongs to the class.
    pub fn test(&self, c: char) -> (b: bool)
        ensures
            b == self.holds(c),
    {
        match self {
            CharClass::Whitespace => {
                let n: u32 = c as u32;
                (0x09 <= n && n <= 0x0D) || n == 0x20 || n == 0x85 || n == 0xA0 || n == 0x1680 || (
                0x2000 <= n && n <= 0x200A) || n == 0x2028 || n == 0x2029 || n == 0x202F || n
                    == 0x205F || n == 0x3000
            },
            CharClass::Exactly(ch) => c == *ch,
        }
    }
}

/// `s` without its longest prefix of characters of class `k`.
pub open spec fn skip_leading(s: Seq<char>, k: CharClass) -> Seq<char>
    decreases s.len(),
{
    if s.len() > 0 && k.holds(s[0]) {
        skip_leading(s.drop_first(), k)
    } else {
        s
    }
}

/// `s` without its longest suffix of characters of class `k`.
pub open spec fn skip_trailing(s: Seq<char>, k: CharClass) -> Seq<char>
    decreases s.len(),
{
    if s.len() > 0 && k.holds(s.last()) {
        skip_trailing(s.drop_last(), k)
    } else {
        s
    }
}

/// `s` without the characters of class `k` at either end.
pub open spec fn trim_class(s: Seq<char>, k: CharClass) -> Seq<char> {
    skip_trailing(skip_leading(s, k), k)
}

/// `s` without the white space at either end.
pub open spec fn trim(s: Seq<char>) -> Seq<char> {
    trim_class(s, CharClass::Whitespace)
}

/// Number of leading characters of `s` that belong to `k`.
pub fn leading_count(s: &[char], k: CharClass) -> (n: usize)
    ensures
        n <= s.len(),
        skip_leading(s@, k) == s@.skip(n as int),
{
    let mut i: usize = 0;
    assert(s@.skip(0) =~= s@);
    while i < s.len() && k.test(s[i])
        invariant
            i <= s.len(),
            skip_leading(s@, k) == skip_leading(s@.skip(i as int), k),
        decreases s.len() - i,
    {
        assert(s@.skip(i as int).drop_first() =~= s@.skip(i + 1));
        i += 1;
    }
    i
}

/// Characters left when the trailing characters of class `k` are cut from
/// the first `end` characters of `s`.
pub fn trailing_bound(s: &[char], from: usize, k: CharClass) -> (n: usize)
    requires
        from <= s.len(),
    ensures
        from <= n <= s.len(),
        skip_trailing(s@.skip(from as int), k) == s@.subrange(from as int, n as int),
{
    let mut j: usize = s.len();
    assert(s@.subrange(from as int, j as int) =~= s@.skip(from as int));
    while j > from && k.test(s[j - 1])
        invariant
            from <= j <= s.len(),
            skip_trailing(s@.skip(from as int), k) == skip_trailing(
                s@.subrange(from as int, j as int),
                k,
            ),
        decreases j,
    {
        assert(s@.subrange(from as int, j as int).drop_last() =~= s@.subrange(
            from as int,
            j - 1,
        ));
        j -= 1;
    }
    j
}

/// `s` without the characters of class `k` at either end.
pub fn trimmed(s: &[char], k: CharClass) -> (v: Vec<char>)
    ensures
        v@ == trim_class(s@, k),
{
    let from = leading_count(s, k);
    let to = trailing_bound(s, from, k);
    copy_range(s, from, to)
}

/// Whether the characters of `pat` stand in `s` from position `at` on.
pub open spec fn occurs_at(s: Seq<char>, at: int, pat: Seq<char>) -> bool {
    &&& 0 <= at
    &&& at + pat.len() <= s.len()
    &&& s.subrange(at, at + pat.len()) == pat
}

/// Whether `s` begins with `pat`.
pub open spec fn starts_with(s: Seq<char>, pat: Seq<char>) -> bool {
    occurs_at(s, 0, pat)
}

/// Whether `s` ends with `pat`.
pub open spec fn ends_with(s: Seq<char>, pat: Seq<char>) -> bool {
    occurs_at(s, s.len() - pat.len(), pat)
}

/// Tests whether the string `pat` stands in `s` from position `at` on.
pub fn has_at(s: &[char], at: usize, pat: &str) -> (b: bool)
    ensures
        b == occurs_at(s@, at as int, pat@),
{
    if at > s.len() {
        return false;
    }
    let mut i: usize = at;
    for c in it: pat.chars()
        invariant
            it.seq() == pat@,
            at <= i <= s.len(),
            i == at + it.index(),
            forall|j: int| 0 <= j < it.index() ==> s@[at + j] == pat@[j],
    {
        if i >= s.len() {
            return false;
        }
        if s[i] != c {
            assert(!occurs_at(s@, at as int, pat@)) by {
                if occurs_at(s@, at as int, pat@) {
                    assert(s@.subrange(at as int, at + pat@.len())[i - at] == s@[i as int]);
                }
            }
            return false;
        }
        i += 1;
    }
    assert(s@.subrange(at as int, at + pat@.len()) =~= pat@);
    true
}

/// Tests whether `s` begins with the string `pat`.
pub fn has_prefix(s: &[char], pat: &str) -> (b: bool)
    ensures
        b == starts_with(s@, pat@),
{
    has_at(s, 0, pat)
}

/// `s` with every occurrence of `pat` removed, scanning from the left and
/// resuming after each occurrence.
pub open spec fn remove_all(s: Seq<char>, pat: Seq<char>) -> Seq<char>
    decreases s.len(),
{
    if pat.len() == 0 || s.len() == 0 {
        s
    } else if starts_with(s, pat) {
        remove_all(s.skip(pat.len() as int), pat)
    } else {
        seq![s[0]] + remove_all(s.drop_first(), pat)
    }
}

/// `s` with every occurrence of the string `pat` removed.
pub fn without(s: &[char], pat: &str) -> (v: Vec<char>)
    ensures
        v@ == remove_all(s@, pat@),
{
    let n = pat.unicode_len();
    let mut v: Vec<char> = Vec::new();
    if n == 0 {
        push_all(&mut v, s);
        return v;
    }
    let mut i: usize = 0;
    assert(s@.skip(0) =~= s@);
    while i < s.len()
        invariant
            i <= s.len(),
            n == pat@.len(),
            n > 0,
            remove_all(s@, pat@) == v@ + remove_all(s@.skip(i as int), pat@),
        decreases s.len() - i,
    {
        let ghost rest = s@.skip(i as int);
        if has_at(s, i, pat) {
            assert(rest.subrange(0, n as int) =~= s@.subrange(i as int, i + n));
            assert(rest.skip(n as int) =~= s@.skip(i + n));
            i += n;
        } else {
            assert(!starts_with(rest, pat@)) by {
                if starts_with(rest, pat@) {
                    assert(rest.subrange(0, n as int) =~= s@.subrange(i as int, i + n));
                }
            }
            assert(rest.drop_first() =~= s@.skip(i + 1));
            let ghost before = v@;
            v.push(s[i]);
            assert(v@ + remove_all(s@.skip(i + 1), pat@) =~= before + remove_all(rest, pat@));
            i += 1;
        }
    }
    assert(remove_all(s@.skip(s@.len() as int), pat@) =~= Seq::<char>::empty());
    v
}

/// `s` with the prefix `pat` removed as often as it stands at the front.
pub open spec fn strip_repeated_prefix(s: Seq<char>, pat: Seq<char>) -> Seq<char>
    decreases s.len(),
{
    if pat.len() > 0 && starts_with(s, pat) {
        strip_repeated_prefix(s.skip(pat.len() as int), pat)
    } else {
        s
    }
}

/// Position after the repeated prefix `pat` of `s`.
pub fn repeated_prefix_end(s: &[char], pat: &str) -> (n: usize)
    ensures
        n <= s.len(),
        strip_repeated_prefix(s@, pat@) == s@.skip(n as int),
{
    let len = pat.unicode_len();
    let mut i: usize = 0;
    assert(s@.skip(0) =~= s@);
    if len == 0 {
        return 0;
    }
    while has_at(s, i, pat)
        invariant
            i <= s.len(),
            len == pat@.len(),
            len > 0,
            strip_repeated_prefix(s@, pat@) == strip_repeated_prefix(s@.skip(i as int), pat@),
        decreases s.len() - i,
    {
        assert(s@.skip(i as int).subrange(0, len as int) =~= s@.subrange(i as int, i + len));
        assert(s@.skip(i as int).skip(len as int) =~= s@.skip(i + len));
        i += len;
    }
    assert(!starts_with(s@.skip(i as int), pat@)) by {
        if starts_with(s@.skip(i as int), pat@) {
            assert(s@.skip(i as int).subrange(0, len as int) =~= s@.subrange(i as int, i + len));
        }
    }
    i
}

/// Position of the first `c` in `s`, or the length of `s` if there is none.
pub open spec fn first_index_of(s: Seq<char>, c: char) -> int
    decreases s.len(),
{
    if s.len() == 0 || s[0] == c {
        0
    } else {
        1 + first_index_of(s.drop_first(), c)
    }
}

/// `first_index_of` is the least position that holds `c`, or the length.
pub proof fn lemma_first_index_of(s: Seq<char>, c: char)
    ensures
        0 <= first_index_of(s, c) <= s.len(),
        first_index_of(s, c) < s.len() ==> s[first_index_of(s, c)] == c,
        forall|i: int| 0 <= i < first_index_of(s, c) ==> s[i] != c,
    decreases s.len(),
{
    if s.len() == 0 || s[0] == c {
    } else {
        let t = s.drop_first();
        lemma_first_index_of(t, c);
        assert forall|i: int| 0 <= i < first_index_of(s, c) implies s[i] != c by {
            if i > 0 {
                assert(s[i] == t[i - 1]);
            }
        }
    }
}

/// A position that holds `c` and has none before it is the first index.
pub proof fn lemma_first_index_is(s: Seq<char>, c: char, k: int)
    requires
        0 <= k <= s.len(),
        k < s.len() ==> s[k] == c,
        forall|i: int| 0 <= i < k ==> s[i] != c,
    ensures
        first_index_of(s, c) == k,
{
    lemma_first_index_of(s, c);
}

/// Finds the first `c` in `s` at or after `from`.
pub fn find_from(s: &[char], from: usize, c: char) -> (k: usize)
    requires
        from <= s.len(),
    ensures
        from <= k <= s.len(),
        k - from == first_index_of(s@.skip(from as int), c),
{
    let mut i: usize = from;
    while i < s.len() && s[i] != c
        invariant
            from <= i <= s.len(),
            forall|j: int| from <= j < i ==> s@[j] != c,
        decreases s.len() - i,
    {
        i += 1;
    }
    proof {
        lemma_first_index_is(s@.skip(from as int), c, i - from);
    }
    i
}

/// A line without the carriage return that ended it, if one did.
pub open spec fn without_carriage_return(line: Seq<char>) -> Seq<char> {
    if line.len() > 0 && line.last() == '\r' {
        line.drop_last()
    } else {
        line
    }
}

/// The lines of a text. A line ends at a line feed, or at a carriage return
/// directly followed by a line feed; neither belongs to the line. What
/// follows the last line feed is a line of its own unless it is empty.
pub open spec fn lines(s: Seq<char>) -> Seq<Seq<char>>
    decreases s.len(),
{
    let k = first_index_of(s, '\n');
    if s.len() == 0 {
        Seq::empty()
    } else if 0 <= k < s.len() {
        seq![without_carriage_return(s.take(k))] + lines(s.skip(k + 1))
    } else {
        seq![s]
    }
}

/// The texts that a vector of character vectors holds.
pub open spec fn rows(v: Seq<Vec<char>>) -> Seq<Seq<char>> {
    v.map_values(|r: Vec<char>| r@)
}

/// Splits a text into its lines.
pub fn split_lines(s: &[char]) -> (out: Vec<Vec<char>>)
    ensures
        rows(out@) == lines(s@),
{
    let mut out: Vec<Vec<char>> = Vec::new();
    let mut start: usize = 0;
    assert(s@.skip(0) =~= s@);
    assert(rows(out@) =~= Seq::<Seq<char>>::empty());
    while start < s.len()
        invariant
            start <= s.len(),
            lines(s@) == rows(out@) + lines(s@.skip(start as int)),
        decreases s.len() - start,
    {
        let ghost rest = s@.skip(start as int);
        let end = find_from(s, start, '\n');
        if end < s.len() {
            let stop = if end > start && s[end - 1] == '\r' {
                end - 1
            } else {
                end
            };
            let line = copy_range(s, start, stop);
            proof {
                assert(rest.take(end - start) =~= s@.subrange(start as int, end as int));
                assert(line@ =~= without_carriage_return(rest.take(end - start)));
                assert(rest.skip(end - start + 1) =~= s@.skip(end + 1));
                assert(rows(out@.push(line)) =~= rows(out@).push(line@));
            }
            out.push(line);
            start = end + 1;
        } else {
            let line = copy_range(s, start, end);
            proof {
                assert(line@ =~= rest);
                assert(lines(rest) =~= seq![rest]);
                assert(rows(out@.push(line)) =~= rows(out@).push(line@));
                assert(lines(s@.skip(end as int)) =~= Seq::<Seq<char>>::empty());
            }
            out.push(line);
            start = end;
        }
    }
    out
}

/// Code of `c` with the upper-case ASCII letters mapped to lower case.
pub open spec fn ascii_lower_code(c: char) -> int {
    if 'A' <= c && c <= 'Z' {
        c as u32 + 32
    } else {
        c as u32 as int
    }
}

/// Whether `pat` stands somewhere in `s` when upper-case and lower-case
/// ASCII letters count as equal.
pub open spec fn contains_ignoring_ascii_case(s: Seq<char>, pat: Seq<char>) -> bool {
    exists|at: int| #[trigger] matches_ignoring_ascii_case(s, at, pat)
}

/// Whether `pat` stands in `s` at `at` when upper-case and lower-case ASCII
/// letters count as equal.
pub open spec fn matches_ignoring_ascii_case(s: Seq<char>, at: int, pat: Seq<char>) -> bool {
    &&& 0 <= at
    &&& at + pat.len() <= s.len()
    &&& forall|j: int|
        0 <= j < pat.len() ==> ascii_lower_code(#[trigger] s[at + j]) == ascii_lower_code(pat[j])
}

fn lower_code(c: char) -> (n: u32)
    ensures
        n == ascii_lower_code(c),
{
    if c >= 'A' && c <= 'Z' {
        c as u32 + 32
    } else {
        c as u32
    }
}

fn matches_at_ignoring_case(s: &[char], at: usize, pat: &[char]) -> (b: bool)
    ensures
        b == matches_ignoring_ascii_case(s@, at as int, pat@),
{
    if at > s.len() || pat.len() > s.len() - at {
        return false;
    }
    let mut j: usize = 0;
    while j < pat.len()
        invariant
            j <= pat.len(),
            at + pat.len() <= s.len(),
            forall|i: int|
                0 <= i < j ==> ascii_lower_code(#[trigger] s@[at + i]) == ascii_lower_code(
                    pat@[i],
                ),
        decreases pat.len() - j,
    {
        if lower_code(s[at + j]) != lower_code(pat[j]) {
            assert(ascii_lower_code(s@[at + j]) != ascii_lower_code(pat@[j as int]));
            return false;
        }
        j += 1;
    }
    true
}

/// Tests whether the string `pat` stands somewhere in `s`, ASCII letters
/// compared without regard to case.
pub fn mentions(s: &[char], pat: &str) -> (b: bool)
    ensures
        b == contains_ignoring_ascii_case(s@, pat@),
{
    let p = chars_of(pat);
    let mut at: usize = 0;
    while at < s.len()
        invariant
            at <= s.len(),
            p@ == pat@,
            forall|i: int| 0 <= i < at ==> !matches_ignoring_ascii_case(s@, i, pat@),
        decreases s.len() - at,
    {
        if matches_at_ignoring_case(s, at, p.as_slice()) {
            return true;
        }
        at += 1;
    }
    matches_at_ignoring_case(s, at, p.as_slice())
}

/// The character of a decimal digit.
pub open spec fn digit_char(d: int) -> char {
    if d == 0 {
        '0'
    } else if d == 1 {
        '1'
    } else if d == 2 {
        '2'
    } else if d == 3 {
        '3'
    } else if d == 4 {
        '4'
    } else if d == 5 {
        '5'
    } else if d == 6 {
        '6'
    } else if d == 7 {
        '7'
    } else if d == 8 {
        '8'
    } else {
        '9'
    }
}

/// A number written in decimal, without leading zeros.
pub open spec fn decimal_text(n: nat) -> Seq<char>
    decreases n,
{
    if n < 10 {
        seq![digit_char(n as int)]
    } else {
        decimal_text(n / 10).push(digit_char((n % 10) as int))
    }
}

/// The character of a decimal digit.
pub fn digit(d: u64) -> (c: char)
    requires
        d < 10,
    ensures
        c == digit_char(d as int),
{
    match d {
        0 => '0',
        1 => '1',
        2 => '2',
        3 => '3',
        4 => '4',
        5 => '5',
        6 => '6',
        7 => '7',
        8 => '8',
        _ => '9',
    }
}

/// Appends `n`, written in decimal, to `v`.
pub fn push_decimal(v: &mut Vec<char>, n: u64)
    ensures
        final(v)@ == old(v)@ + decimal_text(n as nat),
    decreases n,
{
    if n < 10 {
        v.push(digit(n));
        assert(old(v)@.push(digit_char(n as int)) =~= old(v)@ + decimal_text(n as nat));
    } else {
        push_decimal(v, n / 10);
        v.push(digit(n % 10));
        assert(v@ =~= old(v)@ + decimal_text(n as nat));
    }
}

} // verus!
