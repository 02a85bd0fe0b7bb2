use vstd::prelude::*;

verus! {

// ---------------------------------------------------------------------------
// Specification of the text operations that the library relies on.
// Strings are modelled as sequences of Unicode scalar values (`Seq<char>`).
// ---------------------------------------------------------------------------

/// Unicode `White_Space`, the property behind `char::is_whitespace`.
pub open spec fn is_ws(c: char) -> bool {
    ||| ('\u{9}' <= c && c <= '\u{d}')
    ||| c == ' '
    ||| c == '\u{85}'
    ||| c == '\u{a0}'
    ||| c == '\u{1680}'
    ||| ('\u{2000}' <= c && c <= '\u{200a}')
    ||| c == '\u{2028}'
    ||| c == '\u{2029}'
    ||| c == '\u{202f}'
    ||| c == '\u{205f}'
    ||| c == '\u{3000}'
}

/// The text with its leading white space removed.
pub open spec fn trim_start(s: Seq<char>) -> Seq<char>
    decreases s.len(),
{
    if s.len() > 0 && is_ws(s[0]) {
        trim_start(s.drop_first())
    } else {
        s
    }
}

/// The text with its trailing white space removed.
pub open spec fn trim_end(s: Seq<char>) -> Seq<char>
    decreases s.len(),
{
    if s.len() > 0 && is_ws(s.last()) {
        trim_end(s.drop_last())
    } else {
        s
    }
}

/// The text with white space removed at both ends (`str::trim`).
pub open spec fn trim(s: Seq<char>) -> Seq<char> {
    trim_end(trim_start(s))
}

/// The text with every trailing occurrence of `c` removed (`str::trim_end_matches`).
pub open spec fn trim_end_char(s: Seq<char>, c: char) -> Seq<char>
    decreases s.len(),
{
    if s.len() > 0 && s.last() == c {
        trim_end_char(s.drop_last(), c)
    } else {
        s
    }
}

/// `p` is a prefix of `s`.
pub open spec fn starts_with(s: Seq<char>, p: Seq<char>) -> bool {
    p.len() <= s.len() && s.take(p.len() as int) == p
}

/// `needle` occurs in `s` starting at position `i`.
pub open spec fn occurs_at(s: Seq<char>, needle: Seq<char>, i: int) -> bool {
    0 <= i && i + needle.len() <= s.len() && s.subrange(i, i + needle.len()) == needle
}

/// `needle` occurs somewhere in `s` (`str::contains`).
pub open spec fn contains(s: Seq<char>, needle: Seq<char>) -> bool {
    exists|i: int| occurs_at(s, needle, i)
}

/// Every non-overlapping occurrence of `pat`, scanned from the left, removed
/// (`str::replace(pat, "")` for a non-empty `pat`).
pub open spec fn remove_all(s: Seq<char>, pat: Seq<char>) -> Seq<char>
    decreases s.len(),
{
    if s.len() == 0 {
        s
    } else if pat.len() > 0 && starts_with(s, pat) {
        remove_all(s.skip(pat.len() as int), pat)
    } else {
        seq![s[0]].add(remove_all(s.drop_first(), pat))
    }
}

/// Number of characters before the first `c` (the whole length if there is none).
pub open spec fn index_of(s: Seq<char>, c: char) -> nat
    decreases s.len(),
{
    if s.len() == 0 {
        0
    } else if s[0] == c {
        0
    } else {
        1 + index_of(s.drop_first(), c)
    }
}

/// The pieces of a text between occurrences of `c` (`str::split(c)`).
pub open spec fn split_char(s: Seq<char>, c: char) -> Seq<Seq<char>>
    decreases s.len(),
{
    let i = index_of(s, c);
    if i < s.len() {
        seq![s.take(i as int)].add(split_char(s.skip(i + 1 as int), c))
    } else {
        seq![s]
    }
}

/// `PathBuf::join` of a relative component: a `/` is put between the two
/// unless the base is empty or already ends with `/`.
pub open spec fn path_join(base: Seq<char>, comp: Seq<char>) -> Seq<char> {
    if base.len() > 0 && base.last() != '/' {
        base + "/"@ + comp
    } else {
        base + comp
    }
}

/// A line without the carriage return that ends it, if any.
pub open spec fn strip_cr(s: Seq<char>) -> Seq<char> {
    if s.len() > 0 && s.last() == '\r' {
        s.drop_last()
    } else {
        s
    }
}

/// The lines of a text (`str::lines`): split at `\n`, a `\r` just before
/// the `\n` dropped, no empty line after a final `\n`.
pub open spec fn lines(s: Seq<char>) -> Seq<Seq<char>>
    decreases s.len(),
{
    if s.len() == 0 {
        seq![]
    } else {
        let i = index_of(s, '\n');
        if i < s.len() {
            seq![strip_cr(s.take(i as int))].add(lines(s.skip(i + 1 as int)))
        } else {
            seq![s]
        }
    }
}

/// Length of the run of non-white-space characters that starts `s`.
pub open spec fn word_len(s: Seq<char>) -> nat
    decreases s.len(),
{
    if s.len() == 0 || is_ws(s[0]) {
        0
    } else {
        1 + word_len(s.drop_first())
    }
}

/// The white-space separated words of a text (`str::split_whitespace`).
pub open spec fn words(s: Seq<char>) -> Seq<Seq<char>>
    decreases s.len(),
{
    if s.len() == 0 {
        seq![]
    } else if is_ws(s[0]) {
        words(s.drop_first())
    } else {
        let k = word_len(s);
        if 0 < k <= s.len() {
            seq![s.take(k as int)].add(words(s.skip(k as int)))
        } else {
            seq![s]
        }
    }
}

/// Code point of the ASCII lower-case form of one character (`char::to_ascii_lowercase`).
pub open spec fn ascii_lower(c: char) -> int {
    if 'A' <= c && c <= 'Z' {
        (c as u32) + 32
    } else {
        (c as u32) as int
    }
}

/// `str::eq_ignore_ascii_case`.
pub open spec fn eq_ignore_ascii_case(a: Seq<char>, b: Seq<char>) -> bool {
    a.len() == b.len() && forall|i: int| 0 <= i < a.len() ==> ascii_lower(#[trigger] a[i]) == ascii_lower(b[i])
}

/// `t` is `s` with its ASCII letters in lower case.
pub open spec fn is_ascii_lowercase_of(t: Seq<char>, s: Seq<char>) -> bool {
    &&& eq_ignore_ascii_case(t, s)
    &&& forall|i: int| 0 <= i < t.len() ==> ascii_lower(#[trigger] t[i]) == (t[i] as u32) as int
}

/// `c` is an ASCII decimal digit.
pub open spec fn is_digit(c: char) -> bool {
    '0' <= c && c <= '9'
}

/// Value of an ASCII decimal digit.
pub open spec fn digit_value(c: char) -> nat {
    ((c as u32) - ('0' as u32)) as nat
}

/// Every character of `s` is an ASCII decimal digit.
pub open spec fn all_digits(s: Seq<char>) -> bool {
    forall|i: int| 0 <= i < s.len() ==> is_digit(#[trigger] s[i])
}

/// The number that a string of decimal digits denotes (leading zeros allowed).
pub open spec fn decimal_value(s: Seq<char>) -> nat
    decreases s.len(),
{
    if s.len() == 0 {
        0
    } else {
        decimal_value(s.drop_last()) * 10 + digit_value(s.last())
    }
}

/// `str::parse::<u16>`: an optional `+`, then at least one ASCII digit,
/// the value at most 65535.
pub open spec fn parse_u16(s: Seq<char>) -> Option<u16> {
    let digits = unsigned_digits(s);
    if digits.len() > 0 && all_digits(digits) && decimal_value(digits) <= 65535 {
        Some(decimal_value(digits) as u16)
    } else {
        None
    }
}

/// The digits part of an unsigned number: the text after an optional leading `+`.
pub open spec fn unsigned_digits(s: Seq<char>) -> Seq<char> {
    if s.len() > 0 && s[0] == '+' {
        s.drop_first()
    } else {
        s
    }
}

/// Decimal representation of a natural number, without leading zeros.
pub open spec fn decimal(n: nat) -> Seq<char>
    decreases n,
{
    if n < 10 {
        seq![digit_char(n)]
    } else {
        decimal(n / 10).push(digit_char(n % 10))
    }
}

/// The ASCII digit for a value below ten.
pub open spec fn digit_char(d: nat) -> char {
    if d == 0 { '0' } else if d == 1 { '1' } else if d == 2 { '2' } else if d == 3 { '3' }
    else if d == 4 { '4' } else if d == 5 { '5' } else if d == 6 { '6' } else if d == 7 { '7' }
    else if d == 8 { '8' } else { '9' }
}

/// The characters of each text of a vector.
pub open spec fn views(v: Seq<Vec<char>>) -> Seq<Seq<char>> {
    v.map_values(|x: Vec<char>| x@)
}

/// The texts joined, with `sep` between consecutive ones (`[&str]::join`).
pub open spec fn join(parts: Seq<Seq<char>>, sep: Seq<char>) -> Seq<char>
    decreases parts.len(),
{
    if parts.len() == 0 {
        seq![]
    } else if parts.len() == 1 {
        parts[0]
    } else {
        join(parts.drop_last(), sep) + sep + parts.last()
    }
}

/// The first `n` characters (or all of them, if there are fewer).
pub open spec fn take_at_most(s: Seq<char>, n: nat) -> Seq<char> {
    if s.len() <= n {
        s
    } else {
        s.take(n as int)
    }
}

// ---------------------------------------------------------------------------
// Conversions between `str`/`String` and character vectors.
// ---------------------------------------------------------------------------

/// Collects the characters of a string slice.
pub fn chars_of(s: &str) -> (res: Vec<char>)
    ensures
        res@ == s@,
{
    let mut res: Vec<char> = Vec::new();
    for c in it: s.chars()
        invariant
            res@ == it.seq().take(it.index() as int),
            it.seq() == s@,
    {
        res.push(c);
    }
    res
}

/// `String::push`, which appends one character.
#[verifier::external_body]
fn string_push(s: &mut String, c: char)
    ensures
        final(s)@ == old(s)@.push(c),
{
    s.push(c);
}

/// Builds a `String` from characters.
pub fn string_of(v: &Vec<char>) -> (res: String)
    ensures
        res@ == v@,
{
    let mut res = String::new();
    let mut i: usize = 0;
    while i < v.len()
        invariant
            i <= v.len(),
            res@ == v@.take(i as int),
        decreases v.len() - i,
    {
        string_push(&mut res, v[i]);
        i += 1;
        assert(res@ =~= v@.take(i as int));
    }
    assert(v@.take(v.len() as int) =~= v@);
    res
}

/// The characters `v[lo..hi]`.
pub fn sub_chars(v: &Vec<char>, lo: usize, hi: usize) -> (res: Vec<char>)
    requires
        lo <= hi <= v.len(),
    ensures
        res@ == v@.subrange(lo as int, hi as int),
{
    let mut res: Vec<char> = Vec::new();
    let mut i: usize = lo;
    while i < hi
        invariant
            lo <= i <= hi <= v.len(),
            res@ == v@.subrange(lo as int, i as int),
        decreases hi - i,
    {
        res.push(v[i]);
        i += 1;
        assert(res@ =~= v@.subrange(lo as int, i as int));
    }
    res
}

/// `a` and `b` hold the same characters.
pub fn chars_eq(a: &Vec<char>, b: &Vec<char>) -> (res: bool)
    ensures
        res == (a@ == b@),
{
    if a.len() != b.len() {
        return false;
    }
    let mut i: usize = 0;
    while i < a.len()
        invariant
            a.len() == b.len(),
            i <= a.len(),
            forall|k: int| 0 <= k < i ==> a@[k] == b@[k],
        decreases a.len() - i,
    {
        if a[i] != b[i] {
            return false;
        }
        i += 1;
    }
    assert(a@ =~= b@);
    true
}

/// Appends the characters of `b` to `a`.
pub fn extend_chars(a: &mut Vec<char>, b: &Vec<char>)
    ensures
        final(a)@ == old(a)@ + b@,
{
    let mut i: usize = 0;
    while i < b.len()
        invariant
            i <= b.len(),
            a@ == old(a)@ + b@.take(i as int),
        decreases b.len() - i,
    {
        a.push(b[i]);
        i += 1;
        assert(a@ =~= old(a)@ + b@.take(i as int));
    }
    assert(b@.take(b.len() as int) =~= b@);
}


// ---------------------------------------------------------------------------
// Lemmas about the specifications above.
// ---------------------------------------------------------------------------

proof fn lemma_trim_start_skip(s: Seq<char>, i: int)
    requires
        0 <= i <= s.len(),
        forall|k: int| 0 <= k < i ==> is_ws(#[trigger] s[k]),
        i == s.len() || !is_ws(s[i]),
    ensures
        trim_start(s) == s.skip(i),
    decreases i,
{
    if i == 0 {
        assert(s.skip(0) =~= s);
    } else {
        let t = s.drop_first();
        assert forall|k: int| 0 <= k < i - 1 implies is_ws(#[trigger] t[k]) by {
            assert(t[k] == s[k + 1]);
        }
        lemma_trim_start_skip(t, i - 1);
        assert(t.skip(i - 1) =~= s.skip(i));
    }
}

proof fn lemma_trim_end_take(s: Seq<char>, j: int)
    requires
        0 <= j <= s.len(),
        forall|k: int| j <= k < s.len() ==> is_ws(#[trigger] s[k]),
        j == 0 || !is_ws(s[j - 1]),
    ensures
        trim_end(s) == s.take(j),
    decreases s.len() - j,
{
    if j == s.len() {
        assert(s.take(j) =~= s);
    } else {
        let t = s.drop_last();
        assert forall|k: int| j <= k < t.len() implies is_ws(#[trigger] t[k]) by {
            assert(t[k] == s[k]);
        }
        lemma_trim_end_take(t, j);
        assert(t.take(j) =~= s.take(j));
    }
}

proof fn lemma_index_of(s: Seq<char>, c: char, p: int)
    requires
        0 <= p <= s.len(),
        forall|k: int| 0 <= k < p ==> #[trigger] s[k] != c,
        p == s.len() || s[p] == c,
    ensures
        index_of(s, c) == p,
    decreases p,
{
    if p > 0 {
        let t = s.drop_first();
        assert forall|k: int| 0 <= k < p - 1 implies #[trigger] t[k] != c by {
            assert(t[k] == s[k + 1]);
        }
        lemma_index_of(t, c, p - 1);
    }
}

proof fn lemma_word_len(s: Seq<char>, p: int)
    requires
        0 <= p <= s.len(),
        forall|k: int| 0 <= k < p ==> !is_ws(#[trigger] s[k]),
        p == s.len() || is_ws(s[p]),
    ensures
        word_len(s) == p,
    decreases p,
{
    if p > 0 {
        let t = s.drop_first();
        assert forall|k: int| 0 <= k < p - 1 implies !is_ws(#[trigger] t[k]) by {
            assert(t[k] == s[k + 1]);
        }
        lemma_word_len(t, p - 1);
    }
}

/// What `trim_start` leaves begins with something other than white space.
pub proof fn lemma_trim_start_head(s: Seq<char>)
    ensures
        trim_start(s).len() == 0 || !is_ws(trim_start(s)[0]),
        trim_start(s).len() <= s.len(),
    decreases s.len(),
{
    if s.len() > 0 && is_ws(s[0]) {
        lemma_trim_start_head(s.drop_first());
    }
}

/// What `trim_end` leaves is a prefix that ends with something other than white space.
pub proof fn lemma_trim_end_tail(s: Seq<char>)
    ensures
        trim_end(s).len() == 0 || !is_ws(trim_end(s).last()),
        trim_end(s).len() <= s.len(),
        trim_end(s) == s.take(trim_end(s).len() as int),
    decreases s.len(),
{
    if s.len() > 0 && is_ws(s.last()) {
        lemma_trim_end_tail(s.drop_last());
        let t = trim_end(s.drop_last());
        assert(s.drop_last().take(t.len() as int) =~= s.take(t.len() as int));
    } else {
        assert(s.take(s.len() as int) =~= s);
    }
}

/// Trimming twice is trimming once.
pub proof fn lemma_trim_idempotent(s: Seq<char>)
    ensures
        trim(trim(s)) == trim(s),
{
    let a = trim_start(s);
    lemma_trim_start_head(s);
    let b = trim_end(a);
    lemma_trim_end_tail(a);
    // `b` starts where `a` starts, so nothing is left to trim at its front.
    if b.len() > 0 {
        assert(b[0] == a[0]);
    }
    assert(trim_start(b) == b);
    // and `b` ends with something other than white space.
    assert(trim_end(b) == b);
}

proof fn lemma_decimal_prefix(s: Seq<char>, k: int)
    requires
        0 <= k <= s.len(),
    ensures
        decimal_value(s.take(k)) <= decimal_value(s),
    decreases s.len() - k,
{
    if k < s.len() {
        let t = s.drop_last();
        lemma_decimal_prefix(t, k);
        assert(t.take(k) =~= s.take(k));
    } else {
        assert(s.take(k) =~= s);
    }
}

proof fn lemma_views_push(v: Seq<Vec<char>>, x: Vec<char>)
    ensures
        views(v.push(x)) == views(v).push(x@),
{
    assert(views(v.push(x)) =~= views(v).push(x@));
}

// ---------------------------------------------------------------------------
// Executable text operations, each proved against its specification.
// ---------------------------------------------------------------------------

/// `char::is_whitespace`.
pub fn is_ws_char(c: char) -> (res: bool)
    ensures
        res == is_ws(c),
{
    ('\u{9}' <= c && c <= '\u{d}') || c == ' ' || c == '\u{85}' || c == '\u{a0}' || c == '\u{1680}'
        || ('\u{2000}' <= c && c <= '\u{200a}') || c == '\u{2028}' || c == '\u{2029}'
        || c == '\u{202f}' || c == '\u{205f}' || c == '\u{3000}'
}

/// `str::trim`.
pub fn trim_chars(v: &Vec<char>) -> (res: Vec<char>)
    ensures
        res@ == trim(v@),
{
    let n = v.len();
    let mut i: usize = 0;
    while i < n && is_ws_char(v[i])
        invariant
            i <= n == v.len(),
            forall|k: int| 0 <= k < i ==> is_ws(#[trigger] v@[k]),
        decreases n - i,
    {
        i += 1;
    }
    proof {
        lemma_trim_start_skip(v@, i as int);
    }
    let mut j: usize = n;
    while j > i && is_ws_char(v[j - 1])
        invariant
            i <= j <= n == v.len(),
            forall|k: int| j <= k < n ==> is_ws(#[trigger] v@[k]),
        decreases j,
    {
        j -= 1;
    }
    proof {
        let t = v@.skip(i as int);
        assert forall|k: int| j - i <= k < t.len() implies is_ws(#[trigger] t[k]) by {
            assert(t[k] == v@[k + i]);
        }
        if j > i {
            assert(t[j - i - 1] == v@[j - 1]);
        }
        lemma_trim_end_take(t, j - i);
        assert(t.take(j - i) =~= v@.subrange(i as int, j as int));
    }
    sub_chars(v, i, j)
}

/// `str::trim_end_matches(c)` for a single character.
pub fn trim_end_char_chars(v: &Vec<char>, c: char) -> (res: Vec<char>)
    ensures
        res@ == trim_end_char(v@, c),
{
    let mut res = sub_chars(v, 0, v.len());
    assert(res@ =~= v@);
    while res.len() > 0 && res[res.len() - 1] == c
        invariant
            trim_end_char(res@, c) == trim_end_char(v@, c),
        decreases res.len(),
    {
        let ghost before = res@;
        res.pop();
        assert(res@ =~= before.drop_last());
    }
    res
}

/// The text of `v` from position `i` starts with `pat`.
pub fn matches_at(v: &Vec<char>, pat: &Vec<char>, i: usize) -> (res: bool)
    ensures
        res == occurs_at(v@, pat@, i as int),
{
    if i > v.len() || pat.len() > v.len() - i {
        return false;
    }
    let mut k: usize = 0;
    while k < pat.len()
        invariant
            i + pat.len() <= v.len(),
            k <= pat.len(),
            forall|m: int| 0 <= m < k ==> v@[i + m] == pat@[m],
        decreases pat.len() - k,
    {
        if v[i + k] != pat[k] {
            assert(v@.subrange(i as int, i + pat.len())[k as int] != pat@[k as int]);
            return false;
        }
        k += 1;
    }
    assert(v@.subrange(i as int, i + pat.len()) =~= pat@);
    true
}

/// `str::starts_with`.
pub fn starts_with_chars(v: &Vec<char>, pat: &Vec<char>) -> (res: bool)
    ensures
        res == starts_with(v@, pat@),
{
    let r = matches_at(v, pat, 0);
    proof {
        if pat@.len() <= v@.len() {
            assert(v@.subrange(0, pat@.len() as int) =~= v@.take(pat@.len() as int));
        }
    }
    r
}

/// `str::contains`.
pub fn contains_chars(v: &Vec<char>, pat: &Vec<char>) -> (res: bool)
    ensures
        res == contains(v@, pat@),
{
    if pat.len() == 0 {
        assert(occurs_at(v@, pat@, 0)) by {
            assert(v@.subrange(0, 0) =~= pat@);
        }
        return true;
    }
    if pat.len() > v.len() {
        assert forall|i: int| !occurs_at(v@, pat@, i) by {}
        return false;
    }
    let mut i: usize = 0;
    while i <= v.len() - pat.len()
        invariant
            0 < pat.len() <= v.len(),
            i <= v.len() - pat.len() + 1,
            forall|m: int| 0 <= m < i ==> !occurs_at(v@, pat@, m),
        decreases v.len() - i,
    {
        if matches_at(v, pat, i) {
            return true;
        }
        i += 1;
    }
    assert forall|m: int| !occurs_at(v@, pat@, m) by {
        if 0 <= m < i {
        }
    }
    false
}

/// `str::replace(pat, "")`.
pub fn remove_all_chars(v: &Vec<char>, pat: &Vec<char>) -> (res: Vec<char>)
    ensures
        res@ == remove_all(v@, pat@),
{
    let mut res: Vec<char> = Vec::new();
    let mut i: usize = 0;
    assert(v@.skip(0) =~= v@);
    while i < v.len()
        invariant
            i <= v.len(),
            res@ + remove_all(v@.skip(i as int), pat@) == remove_all(v@, pat@),
        decreases v.len() - i,
    {
        let t = Ghost(v@.skip(i as int));
        if pat.len() > 0 && matches_at(v, pat, i) {
            proof {
                assert(t@.take(pat@.len() as int) =~= v@.subrange(i as int, i + pat@.len()));
                assert(t@.skip(pat@.len() as int) =~= v@.skip(i + pat@.len()));
            }
            i = i + pat.len();
        } else {
            proof {
                if pat@.len() > 0 && starts_with(t@, pat@) {
                    assert(t@.take(pat@.len() as int) =~= v@.subrange(i as int, i + pat@.len()));
                }
                assert(t@.drop_first() =~= v@.skip(i + 1));
                assert(res@.push(v@[i as int]) + remove_all(v@.skip(i + 1), pat@) =~= res@ + (seq![t@[0]].add(remove_all(t@.drop_first(), pat@))));
            }
            res.push(v[i]);
            i += 1;
        }
    }
    assert(v@.skip(v.len() as int) =~= Seq::<char>::empty());
    assert(res@ + Seq::<char>::empty() =~= res@);
    res
}

/// `str::lines`.
pub fn split_lines(v: &Vec<char>) -> (res: Vec<Vec<char>>)
    ensures
        views(res@) == lines(v@),
{
    let n = v.len();
    let mut res: Vec<Vec<char>> = Vec::new();
    let mut start: usize = 0;
    assert(v@.skip(0) =~= v@);
    assert(views(res@) + lines(v@) =~= lines(v@));
    while start < n
        invariant
            start <= n == v.len(),
            views(res@) + lines(v@.skip(start as int)) == lines(v@),
        decreases n - start,
    {
        let ghost t = v@.skip(start as int);
        let mut p: usize = start;
        while p < n && v[p] != '\n'
            invariant
                start <= p <= n == v.len(),
                forall|k: int| start <= k < p ==> v@[k] != '\n',
            decreases n - p,
        {
            p += 1;
        }
        proof {
            assert forall|k: int| 0 <= k < p - start implies #[trigger] t[k] != '\n' by {
                assert(t[k] == v@[k + start]);
            }
            if p < n {
                assert(t[p - start] == v@[p as int]);
            }
            lemma_index_of(t, '\n', p - start);
        }
        let ghost before = res@;
        if p < n {
            let mut line = sub_chars(v, start, p);
            assert(line@ =~= t.take(p - start));
            if line.len() > 0 && line[line.len() - 1] == '\r' {
                let ghost l0 = line@;
                line.pop();
                assert(line@ =~= l0.drop_last());
            }
            assert(line@ == strip_cr(t.take(p - start)));
            res.push(line);
            proof {
                lemma_views_push(before, line);
                assert(t.skip(p - start + 1) =~= v@.skip(p + 1));
                assert(views(res@) + lines(v@.skip(p + 1)) =~= views(before) + lines(t));
            }
            start = p + 1;
        } else {
            let line = sub_chars(v, start, n);
            assert(line@ =~= t);
            res.push(line);
            proof {
                lemma_views_push(before, line);
                assert(v@.skip(n as int) =~= Seq::<char>::empty());
                assert(views(res@) + lines(v@.skip(n as int)) =~= views(before) + lines(t));
            }
            start = n;
        }
    }
    assert(v@.skip(n as int) =~= Seq::<char>::empty());
    assert(views(res@) + lines(v@.skip(n as int)) =~= views(res@));
    res
}

/// `str::split_whitespace`.
pub fn split_words(v: &Vec<char>) -> (res: Vec<Vec<char>>)
    ensures
        views(res@) == words(v@),
{
    let n = v.len();
    let mut res: Vec<Vec<char>> = Vec::new();
    let mut i: usize = 0;
    assert(v@.skip(0) =~= v@);
    assert(views(res@) + words(v@) =~= words(v@));
    while i < n
        invariant
            i <= n == v.len(),
            views(res@) + words(v@.skip(i as int)) == words(v@),
        decreases n - i,
    {
        let ghost t = v@.skip(i as int);
        assert(t[0] == v@[i as int]);
        if is_ws_char(v[i]) {
            assert(t.drop_first() =~= v@.skip(i + 1));
            i += 1;
        } else {
            let mut j: usize = i;
            while j < n && !is_ws_char(v[j])
                invariant
                    i <= j <= n == v.len(),
                    forall|k: int| i <= k < j ==> !is_ws(#[trigger] v@[k]),
                decreases n - j,
            {
                j += 1;
            }
            proof {
                assert forall|k: int| 0 <= k < j - i implies !is_ws(#[trigger] t[k]) by {
                    assert(t[k] == v@[k + i]);
                }
                if j < n {
                    assert(t[j - i] == v@[j as int]);
                }
                lemma_word_len(t, j - i);
            }
            let ghost before = res@;
            let w = sub_chars(v, i, j);
            assert(w@ =~= t.take(j - i));
            res.push(w);
            proof {
                lemma_views_push(before, w);
                assert(t.skip(j - i) =~= v@.skip(j as int));
                assert(views(res@) + words(v@.skip(j as int)) =~= views(before) + words(t));
            }
            i = j;
        }
    }
    assert(v@.skip(n as int) =~= Seq::<char>::empty());
    assert(views(res@) + words(v@.skip(n as int)) =~= views(res@));
    res
}

/// Value of an ASCII digit.
fn digit_of(c: char) -> (res: u32)
    requires
        is_digit(c),
    ensures
        res == digit_value(c),
        res < 10,
{
    (c as u32) - ('0' as u32)
}

/// `str::parse::<u16>`.
pub fn parse_u16_chars(v: &Vec<char>) -> (res: Option<u16>)
    ensures
        res == parse_u16(v@),
{
    let n = v.len();
    let ds: usize = if n > 0 && v[0] == '+' { 1 } else { 0 };
    let ghost digits = unsigned_digits(v@);
    assert(digits =~= v@.subrange(ds as int, n as int));
    if ds >= n {
        return None;
    }
    let mut acc: u32 = 0;
    let mut i: usize = ds;
    assert(v@.subrange(ds as int, ds as int) =~= Seq::<char>::empty());
    while i < n
        invariant
            ds <= i <= n == v.len(),
            digits == v@.subrange(ds as int, n as int),
            digits == unsigned_digits(v@),
            acc == decimal_value(v@.subrange(ds as int, i as int)),
            acc <= 65535,
            all_digits(v@.subrange(ds as int, i as int)),
        decreases n - i,
    {
        let c = v[i];
        if !('0' <= c && c <= '9') {
            assert(digits[i - ds] == c);
            assert(!is_digit(digits[i - ds]));
            assert(!all_digits(digits));
            return None;
        }
        let d = digit_of(c);
        let ghost pre = v@.subrange(ds as int, i + 1);
        assert(pre.drop_last() =~= v@.subrange(ds as int, i as int));
        assert(decimal_value(pre) == acc * 10 + d);
        if acc * 10 + d > 65535 {
            proof {
                assert(digits.take(i + 1 - ds) =~= pre);
                lemma_decimal_prefix(digits, i + 1 - ds);
                assert(decimal_value(digits) > 65535);
            }
            return None;
        }
        acc = acc * 10 + d;
        i += 1;
        assert(all_digits(v@.subrange(ds as int, i as int))) by {
            assert forall|k: int| 0 <= k < pre.len() implies is_digit(#[trigger] pre[k]) by {
                if k < pre.len() - 1 {
                    assert(pre[k] == v@.subrange(ds as int, i - 1)[k]);
                }
            }
        }
    }
    Some(acc as u16)
}

/// The digit character for a value below ten.
fn digit_char_of(d: u64) -> (res: char)
    requires
        d < 10,
    ensures
        res == digit_char(d as nat),
{
    if d == 0 { '0' } else if d == 1 { '1' } else if d == 2 { '2' } else if d == 3 { '3' }
    else if d == 4 { '4' } else if d == 5 { '5' } else if d == 6 { '6' } else if d == 7 { '7' }
    else if d == 8 { '8' } else { '9' }
}

/// Decimal representation of a number (`u64::to_string`).
pub fn decimal_chars(n: u64) -> (res: Vec<char>)
    ensures
        res@ == decimal(n as nat),
    decreases n,
{
    if n < 10 {
        let mut r: Vec<char> = Vec::new();
        r.push(digit_char_of(n));
        assert(r@ =~= seq![digit_char(n as nat)]);
        r
    } else {
        let mut r = decimal_chars(n / 10);
        r.push(digit_char_of(n % 10));
        r
    }
}

/// `str::eq_ignore_ascii_case`.
pub fn eq_ignore_ascii_case_chars(a: &Vec<char>, b: &Vec<char>) -> (res: bool)
    ensures
        res == eq_ignore_ascii_case(a@, b@),
{
    if a.len() != b.len() {
        return false;
    }
    let mut i: usize = 0;
    while i < a.len()
        invariant
            a.len() == b.len(),
            i <= a.len(),
            forall|k: int| 0 <= k < i ==> ascii_lower(#[trigger] a@[k]) == ascii_lower(b@[k]),
        decreases a.len() - i,
    {
        let x = a[i];
        let y = b[i];
        let lx: u32 = if 'A' <= x && x <= 'Z' { (x as u32) + 32 } else { x as u32 };
        let ly: u32 = if 'A' <= y && y <= 'Z' { (y as u32) + 32 } else { y as u32 };
        assert(lx == ascii_lower(x));
        assert(ly == ascii_lower(y));
        if lx != ly {
            return false;
        }
        i += 1;
    }
    true
}

/// `[&str]::join(sep)`.
pub fn join_chars(parts: &Vec<Vec<char>>, sep: &Vec<char>) -> (res: Vec<char>)
    ensures
        res@ == join(views(parts@), sep@),
{
    let mut res: Vec<char> = Vec::new();
    let mut i: usize = 0;
    while i < parts.len()
        invariant
            i <= parts.len(),
            res@ == join(views(parts@).take(i as int), sep@),
        decreases parts.len() - i,
    {
        let ghost pv = views(parts@).take(i + 1);
        assert(pv.drop_last() =~= views(parts@).take(i as int));
        assert(pv.last() == parts@[i as int]@);
        if i > 0 {
            extend_chars(&mut res, sep);
        } else {
            assert(join(views(parts@).take(0), sep@) =~= Seq::<char>::empty());
        }
        extend_chars(&mut res, &parts[i]);
        i += 1;
        proof {
            if i == 1 {
                assert(res@ =~= pv[0]);
            }
        }
    }
    assert(views(parts@).take(parts.len() as int) =~= views(parts@));
    res
}

/// Position of the first `c` in `v` (the length if there is none).
pub fn find_char(v: &Vec<char>, c: char) -> (res: usize)
    ensures
        res == index_of(v@, c),
        res <= v.len(),
{
    let mut p: usize = 0;
    while p < v.len() && v[p] != c
        invariant
            p <= v.len(),
            forall|k: int| 0 <= k < p ==> v@[k] != c,
        decreases v.len() - p,
    {
        p += 1;
    }
    proof {
        lemma_index_of(v@, c, p as int);
    }
    p
}

/// `[&str]::join(sep)` on string slices.
pub fn join_strs(parts: &[&str], sep: &str) -> (res: String)
    ensures
        res@ == join(parts@.map_values(|p: &str| p@), sep@),
{
    let mut vv: Vec<Vec<char>> = Vec::new();
    let mut i: usize = 0;
    while i < parts.len()
        invariant
            i <= parts.len(),
            views(vv@) == parts@.map_values(|p: &str| p@).take(i as int),
        decreases parts.len() - i,
    {
        let ghost before = vv@;
        let c = chars_of(parts[i]);
        vv.push(c);
        proof {
            lemma_views_push(before, c);
            assert(parts@.map_values(|p: &str| p@).take(i + 1) =~= parts@.map_values(|p: &str| p@).take(i as int).push(parts@[i as int]@));
        }
        i += 1;
    }
    assert(parts@.map_values(|p: &str| p@).take(parts.len() as int) =~= parts@.map_values(|p: &str| p@));
    string_of(&join_chars(&vv, &chars_of(sep)))
}

/// `str::split(c)`.
pub fn split_on_char(v: &Vec<char>, c: char) -> (res: Vec<Vec<char>>)
    ensures
        views(res@) == split_char(v@, c),
{
    let n = v.len();
    let mut res: Vec<Vec<char>> = Vec::new();
    let mut start: usize = 0;
    assert(v@.skip(0) =~= v@);
    assert(views(res@) + split_char(v@, c) =~= split_char(v@, c));
    loop
        invariant
            start <= n == v.len(),
            views(res@) + split_char(v@.skip(start as int), c) == split_char(v@, c),
        decreases n - start,
    {
        let ghost t = v@.skip(start as int);
        let mut p: usize = start;
        while p < n && v[p] != c
            invariant
                start <= p <= n == v.len(),
                forall|k: int| start <= k < p ==> v@[k] != c,
            decreases n - p,
        {
            p += 1;
        }
        proof {
            assert forall|k: int| 0 <= k < p - start implies #[trigger] t[k] != c by {
                assert(t[k] == v@[k + start]);
            }
            if p < n {
                assert(t[p - start] == v@[p as int]);
            }
            lemma_index_of(t, c, p - start);
        }
        let ghost before = res@;
        let piece = sub_chars(v, start, p);
        if p < n {
            assert(piece@ =~= t.take(p - start));
            res.push(piece);
            proof {
                lemma_views_push(before, piece);
                assert(t.skip(p - start + 1) =~= v@.skip(p + 1));
                assert(views(res@) + split_char(v@.skip(p + 1), c) =~= views(before) + split_char(t, c));
            }
            start = p + 1;
        } else {
            assert(piece@ =~= t);
            res.push(piece);
            proof {
                lemma_views_push(before, piece);
                assert(views(res@) =~= views(before) + split_char(t, c));
            }
            return res;
        }
    }
}

/// `PathBuf::join` of a relative component, as text (see `path_join`).
pub fn path_join_str(base: &str, comp: &str) -> (res: String)
    ensures
        res@ == path_join(base@, comp@),
{
    let b = chars_of(base);
    let mut s = String::from_str(base);
    if b.len() > 0 && b[b.len() - 1] != '/' {
        s.append("/");
    }
    s.append(comp);
    s
}

} // verus!
