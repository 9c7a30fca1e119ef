use vstd::prelude::*;

verus! {

/// Unicode `White_Space` code points (what `char::is_whitespace` accepts).
pub open spec fn is_white_space_spec(c: char) -> bool {
    ||| ('\u{9}' <= c && c <= '\u{d}')
    ||| c == ' '
    ||| c == '\u{85}'
    ||| c == '\u{a0}'
    ||| c == '\u{1680}'
    ||| ('\u{2000}' <= c && c <= '\u{200a}')
    ||| c == '\u{2028}'
    ||| c == '\u{2029}'
    ||| c == '\u{202f}'
    ||| c == '\u{205f}'
    ||| c == '\u{3000}'
}

/// Unicode general category `Cc` (what `char::is_control` accepts).
pub open spec fn is_control_spec(c: char) -> bool {
    c <= '\u{1f}' || ('\u{7f}' <= c && c <= '\u{9f}')
}

pub fn is_white_space(c: char) -> (r: bool)
    ensures
        r == is_white_space_spec(c),
{
    ('\u{9}' <= c && c <= '\u{d}') || c == ' ' || c == '\u{85}' || c == '\u{a0}' || c
        == '\u{1680}' || ('\u{2000}' <= c && c <= '\u{200a}') || c == '\u{2028}' || c
        == '\u{2029}' || c == '\u{202f}' || c == '\u{205f}' || c == '\u{3000}'
}

pub fn is_control(c: char) -> (r: bool)
    ensures
        r == is_control_spec(c),
{
    c <= '\u{1f}' || ('\u{7f}' <= c && c <= '\u{9f}')
}

/// Appends one character to a `String` (`String::push`).
#[verifier::external_body]
pub(crate) fn push_char(s: &mut String, c: char)
    ensures
        final(s)@ == old(s)@.push(c),
{
    s.push(c);
}

/// The characters of a string slice, in order.
pub fn chars_of(s: &str) -> (v: Vec<char>)
    ensures
        v@ == s@,
{
    let mut v: Vec<char> = Vec::new();
    for c in it: s.chars()
        invariant
            v@ == it.seq().take(it.index() as int),
    {
        v.push(c);
    }
    v
}


/// A string holding exactly the given characters.
pub fn string_of(v: &[char]) -> (s: String)
    ensures
        s@ == v@,
{
    let mut s = String::new();
    let mut i: usize = 0;
    while i < v.len()
        invariant
            i <= v@.len(),
            s@ == v@.take(i as int),
        decreases v@.len() - i,
    {
        push_char(&mut s, v[i]);
        i = i + 1;
        assert(s@ =~= v@.take(i as int));
    }
    assert(v@.take(v@.len() as int) =~= v@);
    s
}

/// Every character is white space (true of the empty sequence).
pub open spec fn is_blank_spec(s: Seq<char>) -> bool {
    forall|i: int| 0 <= i < s.len() ==> is_white_space_spec(#[trigger] s[i])
}

pub fn is_blank(s: &[char]) -> (r: bool)
    ensures
        r == is_blank_spec(s@),
{
    let mut i: usize = 0;
    while i < s.len()
        invariant
            i <= s@.len(),
            forall|j: int| 0 <= j < i ==> is_white_space_spec(#[trigger] s@[j]),
        decreases s@.len() - i,
    {
        if !is_white_space(s[i]) {
            return false;
        }
        i = i + 1;
    }
    true
}

/// `str::trim_start`: drops leading white space.
pub open spec fn trim_start_spec(s: Seq<char>) -> Seq<char>
    decreases s.len(),
{
    if s.len() > 0 && is_white_space_spec(s[0]) {
        trim_start_spec(s.drop_first())
    } else {
        s
    }
}

/// `str::trim_end`: drops trailing white space.
pub open spec fn trim_end_spec(s: Seq<char>) -> Seq<char>
    decreases s.len(),
{
    if s.len() > 0 && is_white_space_spec(s.last()) {
        trim_end_spec(s.drop_last())
    } else {
        s
    }
}

/// `str::trim`: drops leading and trailing white space.
pub open spec fn trim_spec(s: Seq<char>) -> Seq<char> {
    trim_end_spec(trim_start_spec(s))
}

proof fn lemma_trim_start_skip(s: Seq<char>, i: int)
    requires
        0 <= i <= s.len(),
        forall|j: int| 0 <= j < i ==> is_white_space_spec(#[trigger] s[j]),
    ensures
        trim_start_spec(s) == trim_start_spec(s.skip(i)),
    decreases i,
{
    if i > 0 {
        lemma_trim_start_skip(s, i - 1);
        assert(s.skip(i - 1).drop_first() =~= s.skip(i));
    } else {
        assert(s.skip(0) =~= s);
    }
}

proof fn lemma_trim_end_take(s: Seq<char>, k: int)
    requires
        0 <= k <= s.len(),
        forall|j: int| k <= j < s.len() ==> is_white_space_spec(#[trigger] s[j]),
    ensures
        trim_end_spec(s) == trim_end_spec(s.take(k)),
    decreases s.len() - k,
{
    if k < s.len() {
        lemma_trim_end_take(s, k + 1);
        assert(s.take(k + 1).drop_last() =~= s.take(k));
    } else {
        assert(s.take(k) =~= s);
    }
}

/// The characters of `s` without leading and trailing white space.
pub fn trim(s: &[char]) -> (r: Vec<char>)
    ensures
        r@ == trim_spec(s@),
{
    let n = s.len();
    let mut a: usize = 0;
    while a < n && is_white_space(s[a])
        invariant
            a <= n == s@.len(),
            forall|j: int| 0 <= j < a ==> is_white_space_spec(#[trigger] s@[j]),
        decreases n - a,
    {
        a = a + 1;
    }
    proof {
        lemma_trim_start_skip(s@, a as int);
    }
    let ghost t = s@.skip(a as int);
    assert(trim_start_spec(t) == t);
    let mut b: usize = n;
    while b > a && is_white_space(s[b - 1])
        invariant
            a <= b <= n == s@.len(),
            forall|j: int| b <= j < n ==> is_white_space_spec(#[trigger] s@[j]),
        decreases b,
    {
        b = b - 1;
    }
    proof {
        lemma_trim_end_take(t, b - a);
        assert(t.take(b - a) =~= s@.subrange(a as int, b as int));
    }
    let mut r: Vec<char> = Vec::new();
    let mut i: usize = a;
    while i < b
        invariant
            a <= i <= b <= n == s@.len(),
            r@ == s@.subrange(a as int, i as int),
        decreases b - i,
    {
        r.push(s[i]);
        i = i + 1;
        assert(r@ =~= s@.subrange(a as int, i as int));
    }
    r
}

/// `pattern` occurs in `s` starting at `at`.
pub open spec fn occurs_at(s: Seq<char>, pattern: Seq<char>, at: int) -> bool {
    0 <= at && at + pattern.len() <= s.len() && s.subrange(at, at + pattern.len()) == pattern
}

/// `str::contains` for a string pattern.
pub open spec fn contains_spec(s: Seq<char>, pattern: Seq<char>) -> bool {
    exists|at: int| occurs_at(s, pattern, at)
}

pub fn occurs_at_exec(s: &[char], pattern: &[char], at: usize) -> (r: bool)
    ensures
        r == occurs_at(s@, pattern@, at as int),
{
    if at > s.len() || pattern.len() > s.len() - at {
        return false;
    }
    let mut k: usize = 0;
    while k < pattern.len()
        invariant
            at + pattern@.len() <= s@.len(),
            s@.len() <= usize::MAX,
            k <= pattern@.len(),
            forall|j: int| 0 <= j < k ==> s@[at + j] == pattern@[j],
        decreases pattern@.len() - k,
    {
        if s[at + k] != pattern[k] {
            assert(s@.subrange(at as int, at + pattern@.len())[k as int] != pattern@[k as int]);
            return false;
        }
        k = k + 1;
    }
    assert(s@.subrange(at as int, at + pattern@.len()) =~= pattern@);
    true
}

pub fn contains(s: &[char], pattern: &[char]) -> (r: bool)
    ensures
        r == contains_spec(s@, pattern@),
{
    if pattern.len() > s.len() {
        return false;
    }
    let last = s.len() - pattern.len();
    let mut at: usize = 0;
    while at < last
        invariant
            at <= last,
            last + pattern@.len() == s@.len(),
            forall|j: int| 0 <= j < at ==> !occurs_at(s@, pattern@, j),
        decreases last - at,
    {
        if occurs_at_exec(s, pattern, at) {
            return true;
        }
        at = at + 1;
    }
    if occurs_at_exec(s, pattern, last) {
        return true;
    }
    assert forall|j: int| !occurs_at(s@, pattern@, j) by {
        if 0 <= j < last {
        }
    }
    false
}

/// The decimal digit character for `d < 10`.
pub open spec fn digit_spec(d: nat) -> char {
    if d == 0 { '0' } else if d == 1 { '1' } else if d == 2 { '2' } else if d == 3 { '3' }
    else if d == 4 { '4' } else if d == 5 { '5' } else if d == 6 { '6' } else if d == 7 { '7' }
    else if d == 8 { '8' } else { '9' }
}

/// The shortest decimal text of a natural number (what `Display` writes for integers).
pub open spec fn decimal_spec(n: nat) -> Seq<char>
    decreases n,
{
    if n < 10 {
        seq![digit_spec(n)]
    } else {
        decimal_spec(n / 10).push(digit_spec(n % 10))
    }
}

fn digit_char(d: u64) -> (c: char)
    requires
        d < 10,
    ensures
        c == digit_spec(d as nat),
{
    if d == 0 { '0' } else if d == 1 { '1' } else if d == 2 { '2' } else if d == 3 { '3' }
    else if d == 4 { '4' } else if d == 5 { '5' } else if d == 6 { '6' } else if d == 7 { '7' }
    else if d == 8 { '8' } else { '9' }
}

/// Appends the decimal text of `n`.
pub fn push_decimal(s: &mut String, n: u64)
    ensures
        final(s)@ == old(s)@ + decimal_spec(n as nat),
    decreases n,
{
    if n >= 10 {
        push_decimal(s, n / 10);
    }
    push_char(s, digit_char(n % 10));
    proof {
        if n >= 10 {
            assert(decimal_spec(n as nat) == decimal_spec((n / 10) as nat).push(
                digit_spec((n % 10) as nat),
            ));
        }
    }
}

/// Appends the characters of a string slice.
pub fn push_str(s: &mut String, tail: &str)
    ensures
        final(s)@ == old(s)@ + tail@,
{
    s.append(tail);
}

/// The pieces of `s` between non-overlapping occurrences of a non-empty `separator`,
/// scanning left to right from `pos`, the current piece starting at `start`
/// (`str::split` with a string pattern).
pub open spec fn split_from(s: Seq<char>, separator: Seq<char>, start: int, pos: int) -> Seq<
    Seq<char>,
>
    decreases s.len() - pos,
{
    if separator.len() == 0 || pos < 0 || pos + separator.len() > s.len() {
        seq![s.subrange(start, s.len() as int)]
    } else if occurs_at(s, separator, pos) {
        seq![s.subrange(start, pos)] + split_from(
            s,
            separator,
            pos + separator.len(),
            pos + separator.len(),
        )
    } else {
        split_from(s, separator, start, pos + 1)
    }
}

pub open spec fn split_spec(s: Seq<char>, separator: Seq<char>) -> Seq<Seq<char>> {
    split_from(s, separator, 0, 0)
}

/// How many pieces hold a character that is not white space.
pub open spec fn count_nonblank(pieces: Seq<Seq<char>>) -> nat
    decreases pieces.len(),
{
    if pieces.len() == 0 {
        0
    } else {
        (if is_blank_spec(pieces[0]) {
            0nat
        } else {
            1nat
        }) + count_nonblank(pieces.drop_first())
    }
}

proof fn lemma_count_nonblank_cons(piece: Seq<char>, rest: Seq<Seq<char>>)
    ensures
        count_nonblank(seq![piece] + rest) == (if is_blank_spec(piece) {
            0nat
        } else {
            1nat
        }) + count_nonblank(rest),
{
    assert((seq![piece] + rest).drop_first() =~= rest);
}

/// Whether `s[from..to]` is all white space.
pub fn is_blank_range(s: &[char], from: usize, to: usize) -> (r: bool)
    requires
        from <= to <= s@.len(),
    ensures
        r == is_blank_spec(s@.subrange(from as int, to as int)),
{
    let mut i: usize = from;
    while i < to
        invariant
            from <= i <= to <= s@.len(),
            forall|j: int| from <= j < i ==> is_white_space_spec(#[trigger] s@[j]),
        decreases to - i,
    {
        if !is_white_space(s[i]) {
            assert(s@.subrange(from as int, to as int)[i - from] == s@[i as int]);
            return false;
        }
        i = i + 1;
    }
    assert forall|j: int| 0 <= j < to - from implies is_white_space_spec(
        #[trigger] s@.subrange(from as int, to as int)[j],
    ) by {
        assert(s@.subrange(from as int, to as int)[j] == s@[from + j]);
    }
    true
}

/// Whether splitting `s` at `separator` gives more than one piece that is not blank.
pub fn has_several_nonblank_pieces(s: &[char], separator: &[char]) -> (r: bool)
    requires
        separator@.len() > 0,
    ensures
        r == (count_nonblank(split_spec(s@, separator@)) > 1),
{
    let n = s.len();
    let m = separator.len();
    let mut start: usize = 0;
    let mut pos: usize = 0;
    let mut seen: usize = 0;
    let ghost total = count_nonblank(split_spec(s@, separator@));
    while pos <= n && m <= n - pos
        invariant
            n == s@.len(),
            m == separator@.len() > 0,
            start <= pos <= n,
            seen <= 1,
            total == count_nonblank(split_spec(s@, separator@)),
            total == seen + count_nonblank(split_from(s@, separator@, start as int, pos as int)),
        decreases n - pos,
    {
        if occurs_at_exec(s, separator, pos) {
            proof {
                lemma_count_nonblank_cons(
                    s@.subrange(start as int, pos as int),
                    split_from(s@, separator@, pos + m, pos + m),
                );
            }
            if !is_blank_range(s, start, pos) {
                if seen == 1 {
                    return true;
                }
                seen = seen + 1;
            }
            pos = pos + m;
            start = pos;
        } else {
            pos = pos + 1;
        }
    }
    proof {
        lemma_count_nonblank_cons(s@.subrange(start as int, n as int), Seq::empty());
    }
    let last_nonblank = !is_blank_range(s, start, n);
    seen + (if last_nonblank { 1usize } else { 0usize }) > 1
}

/// String slice equality.
pub fn str_equal(a: &str, b: &str) -> (equal: bool)
    ensures
        equal == (a@ == b@),
{
    let x = chars_of(a);
    let y = chars_of(b);
    if x.len() != y.len() {
        return false;
    }
    let mut i: usize = 0;
    while i < x.len()
        invariant
            x@ == a@,
            y@ == b@,
            x@.len() == y@.len(),
            i <= x@.len(),
            forall|j: int| 0 <= j < i ==> x@[j] == y@[j],
        decreases x@.len() - i,
    {
        if x[i] != y[i] {
            return false;
        }
        i = i + 1;
    }
    assert(x@ =~= y@);
    true
}

} // verus!
