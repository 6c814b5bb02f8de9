//! Text as sequences of characters: the predicates and the scanning
//! functions that the rest of the library is stated over, each with an
//! executable counterpart on `Vec<char>`.

use vstd::prelude::*;
use vstd::string::*;

verus! {

/// `String::push` appends one character to the end of the string.
pub assume_specification[ String::push ](s: &mut String, ch: char)
    ensures
        final(s)@ == old(s)@.push(ch),
;

/// `str == str` compares the two texts character by character.
pub assume_specification[ <str as PartialEq>::eq ](a: &str, b: &str) -> (same: bool)
    ensures
        same == (a@ == b@),
;

/// Whether `a` and `b` are the same text.
pub fn same_text(a: &str, b: &str) -> (same: bool)
    ensures
        same == (a@ == b@),
{
    a.eq(b)
}

/// The characters with Unicode's `White_Space` property.
pub open spec fn is_space(c: char) -> bool {
    let u = c as u32;
    (0x09 <= u <= 0x0D) || u == 0x20 || u == 0x85 || u == 0xA0 || u == 0x1680 || (0x2000 <= u
        <= 0x200A) || u == 0x2028 || u == 0x2029 || u == 0x202F || u == 0x205F || u == 0x3000
}

/// The ten ASCII digits.
pub open spec fn is_digit(c: char) -> bool {
    '0' <= c <= '9'
}

/// Whether `c` is white space.
pub fn char_is_space(c: char) -> (r: bool)
    ensures
        r == is_space(c),
{
    let u = c as u32;
    (0x09 <= u && u <= 0x0D) || u == 0x20 || u == 0x85 || u == 0xA0 || u == 0x1680 || (0x2000
        <= u && u <= 0x200A) || u == 0x2028 || u == 0x2029 || u == 0x202F || u == 0x205F || u
        == 0x3000
}

/// Whether `c` is an ASCII digit.
pub fn char_is_digit(c: char) -> (r: bool)
    ensures
        r == is_digit(c),
{
    '0' <= c && c <= '9'
}

/// The characters of `s`, in order.
pub fn chars_of(s: &str) -> (out: Vec<char>)
    ensures
        out@ == s@,
{
    let mut out: Vec<char> = Vec::new();
    for c in it: s.chars()
        invariant
            out@ == it.seq().take(it.index() as int),
            it.seq() == s@,
    {
        out.push(c);
    }
    out
}

/// The string made of `chars[from..to]`.
pub fn text_of_range(chars: &Vec<char>, from: usize, to: usize) -> (out: String)
    requires
        from <= to <= chars.len(),
    ensures
        out@ == chars@.subrange(from as int, to as int),
{
    let mut out = String::new();
    let mut i: usize = from;
    while i < to
        invariant
            from <= i <= to <= chars.len(),
            out@ == chars@.subrange(from as int, i as int),
        decreases to - i,
    {
        out.push(chars[i]);
        i += 1;
    }
    out
}

/// The string made of the characters of `chars`, in order.
pub fn text_of(chars: &Vec<char>) -> (out: String)
    ensures
        out@ == chars@,
{
    let out = text_of_range(chars, 0, chars.len());
    assert(chars@.subrange(0, chars@.len() as int) == chars@);
    out
}

/// `a` followed by `b`.
pub fn followed_by(a: &str, b: &str) -> (out: String)
    ensures
        out@ == a@ + b@,
{
    let mut out = String::from_str(a);
    out.append(b);
    out
}

/// Whether `pat` stands in `s` at index `at`.
pub open spec fn matches_at(s: Seq<char>, pat: Seq<char>, at: int) -> bool {
    0 <= at && at + pat.len() <= s.len() && s.subrange(at, at + pat.len()) == pat
}

/// Whether `pat` occurs somewhere in `s`.
pub open spec fn contains(s: Seq<char>, pat: Seq<char>) -> bool {
    exists|at: int| matches_at(s, pat, at)
}

/// Whether `s` starts with `pat`.
pub open spec fn starts_with(s: Seq<char>, pat: Seq<char>) -> bool {
    matches_at(s, pat, 0)
}

/// Whether `s` ends with `pat`.
pub open spec fn ends_with(s: Seq<char>, pat: Seq<char>) -> bool {
    matches_at(s, pat, s.len() - pat.len())
}

/// A text starts with what it was begun with.
pub proof fn lemma_starts_with_prefix(a: Seq<char>, b: Seq<char>)
    ensures
        starts_with(a + b, a),
{
    assert((a + b).subrange(0, a.len() as int) =~= a);
}

/// Whether `pat` stands in `s` at index `at`.
pub fn includes_at(s: &Vec<char>, pat: &Vec<char>, at: usize) -> (r: bool)
    ensures
        r == matches_at(s@, pat@, at as int),
{
    if at > s.len() || pat.len() > s.len() - at {
        return false;
    }
    let mut j: usize = 0;
    while j < pat.len()
        invariant
            j <= pat.len(),
            at + pat.len() <= s.len(),
            forall|k: int| 0 <= k < j ==> s@[at + k] == pat@[k],
        decreases pat.len() - j,
    {
        if s[at + j] != pat[j] {
            assert(s@.subrange(at as int, at + pat.len())[j as int] != pat@[j as int]);
            return false;
        }
        j += 1;
    }
    assert(s@.subrange(at as int, at + pat.len()) =~= pat@);
    true
}

/// Whether `pat` occurs somewhere in `s`.
pub fn includes(s: &Vec<char>, pat: &Vec<char>) -> (r: bool)
    ensures
        r == contains(s@, pat@),
{
    if pat.len() > s.len() {
        return false;
    }
    let last: usize = s.len() - pat.len();
    let mut at: usize = 0;
    while at < last
        invariant
            at <= last,
            last + pat.len() == s.len(),
            forall|k: int| 0 <= k < at ==> !matches_at(s@, pat@, k),
        decreases last - at,
    {
        if includes_at(s, pat, at) {
            return true;
        }
        at += 1;
    }
    includes_at(s, pat, last)
}

/// Whether `s` ends with `pat`.
pub fn str_ends_with(s: &str, pat: &str) -> (r: bool)
    ensures
        r == ends_with(s@, pat@),
{
    let sc = chars_of(s);
    let pc = chars_of(pat);
    if pc.len() > sc.len() {
        false
    } else {
        includes_at(&sc, &pc, sc.len() - pc.len())
    }
}

/// The first index at or after `i` whose character is no white space, or
/// the length of `s` where there is none.
pub open spec fn skip_spaces(s: Seq<char>, i: int) -> int
    decreases s.len() - i,
{
    if 0 <= i < s.len() && is_space(s[i]) {
        skip_spaces(s, i + 1)
    } else {
        i
    }
}

/// The end of the last stretch before `j` that ends in a character that is
/// no white space: the least `k <= j` with only white space in `s[k..j]`.
pub open spec fn skip_spaces_back(s: Seq<char>, j: int) -> int
    decreases j,
{
    if 0 < j <= s.len() && is_space(s[j - 1]) {
        skip_spaces_back(s, j - 1)
    } else {
        j
    }
}

/// `s` without the white space at its start and at its end.
pub open spec fn trim(s: Seq<char>) -> Seq<char> {
    let a = skip_spaces(s, 0);
    let b = skip_spaces_back(s, s.len() as int);
    if a < b {
        s.subrange(a, b)
    } else {
        Seq::empty()
    }
}

/// Skipping white space forwards stops within the text, at a character
/// that is none, and passes over white space only.
pub proof fn lemma_skip_spaces_bounds(s: Seq<char>, i: int)
    requires
        0 <= i <= s.len(),
    ensures
        i <= skip_spaces(s, i) <= s.len(),
        skip_spaces(s, i) < s.len() ==> !is_space(s[skip_spaces(s, i)]),
        forall|k: int| i <= k < skip_spaces(s, i) ==> is_space(s[k]),
    decreases s.len() - i,
{
    if i < s.len() && is_space(s[i]) {
        lemma_skip_spaces_bounds(s, i + 1);
    }
}

/// Skipping white space backwards stops within the text, after a character
/// that is none, and passes over white space only.
pub proof fn lemma_skip_spaces_back_bounds(s: Seq<char>, j: int)
    requires
        0 <= j <= s.len(),
    ensures
        0 <= skip_spaces_back(s, j) <= j,
        skip_spaces_back(s, j) > 0 ==> !is_space(s[skip_spaces_back(s, j) - 1]),
        forall|k: int| skip_spaces_back(s, j) <= k < j ==> is_space(s[k]),
    decreases j,
{
    if 0 < j && is_space(s[j - 1]) {
        lemma_skip_spaces_back_bounds(s, j - 1);
    }
}

/// The bounds of `trim(s)` within `s`.
pub fn trim_bounds(s: &Vec<char>) -> (r: (usize, usize))
    ensures
        r.0 <= r.1 <= s.len(),
        trim(s@) == s@.subrange(r.0 as int, r.1 as int),
        r.0 < r.1 ==> r.0 == skip_spaces(s@, 0) && r.1 == skip_spaces_back(s@, s@.len() as int),
{
    let mut a: usize = 0;
    while a < s.len() && char_is_space(s[a])
        invariant
            a <= s.len(),
            skip_spaces(s@, a as int) == skip_spaces(s@, 0),
        decreases s.len() - a,
    {
        a += 1;
    }
    let mut b: usize = s.len();
    while b > a && char_is_space(s[b - 1])
        invariant
            a <= b <= s.len(),
            skip_spaces_back(s@, b as int) == skip_spaces_back(s@, s@.len() as int),
            a == skip_spaces(s@, 0),
            a < s.len() ==> !is_space(s@[a as int]),
        decreases b,
    {
        b -= 1;
    }
    proof {
        if a < b {
            assert(skip_spaces_back(s@, b as int) == b);
        } else {
            lemma_skip_spaces_back_bounds(s@, s@.len() as int);
            lemma_skip_spaces_bounds(s@, 0);
            let bb = skip_spaces_back(s@, s@.len() as int);
            if a < bb {
                // all of s[a..len) would be white space, but s[bb - 1] is none
                assert(a == s.len() || bb <= a) by {
                    if a < s.len() {
                        lemma_skip_spaces_back_bounds(s@, a as int);
                        assert(skip_spaces_back(s@, b as int) == bb);
                    }
                }
            }
            assert(s@.subrange(a as int, b as int) =~= Seq::<char>::empty());
        }
    }
    (a, b)
}

/// `s` without the white space at its start and at its end.
pub fn trimmed(s: &Vec<char>) -> (out: Vec<char>)
    ensures
        out@ == trim(s@),
{
    let (a, b) = trim_bounds(s);
    copy_range(s, a, b)
}

/// The characters `s[from..to]`.
pub fn copy_range(s: &Vec<char>, from: usize, to: usize) -> (out: Vec<char>)
    requires
        from <= to <= s.len(),
    ensures
        out@ == s@.subrange(from as int, to as int),
{
    let mut out: Vec<char> = Vec::new();
    let mut i: usize = from;
    while i < to
        invariant
            from <= i <= to <= s.len(),
            out@ == s@.subrange(from as int, i as int),
        decreases to - i,
    {
        out.push(s[i]);
        i += 1;
    }
    out
}

/// The piece `s[start..i]` as a list of one item, or no item where it is
/// empty.
pub open spec fn piece(s: Seq<char>, start: int, i: int) -> Seq<Seq<char>> {
    if start < i {
        seq![s.subrange(start, i)]
    } else {
        Seq::empty()
    }
}

/// The words of `s` from `start` on, where `s[start..i]` is the part of the
/// current word read so far: the maximal stretches without white space.
pub open spec fn words_scan(s: Seq<char>, start: int, i: int) -> Seq<Seq<char>>
    decreases s.len() - i,
{
    if i >= s.len() {
        piece(s, start, i)
    } else if is_space(s[i]) {
        piece(s, start, i) + words_scan(s, i + 1, i + 1)
    } else {
        words_scan(s, start, i + 1)
    }
}

/// The words of `s`: its maximal stretches without white space, in order.
pub open spec fn words(s: Seq<char>) -> Seq<Seq<char>> {
    words_scan(s, 0, 0)
}

/// A non-empty text without white space.
pub open spec fn is_word(w: Seq<char>) -> bool {
    w.len() > 0 && forall|k: int| 0 <= k < w.len() ==> !is_space(#[trigger] w[k])
}

/// Every word is non-empty and holds no white space.
pub proof fn lemma_words_scan_plain(s: Seq<char>, start: int, i: int)
    requires
        0 <= start <= i <= s.len(),
        forall|k: int| start <= k < i ==> !is_space(s[k]),
    ensures
        forall|w: int|
            0 <= w < words_scan(s, start, i).len() ==> is_word(#[trigger] words_scan(s, start, i)[w]),
    decreases s.len() - i,
{
    let ws = words_scan(s, start, i);
    if start < i {
        assert(is_word(s.subrange(start, i)));
    }
    if i >= s.len() {
        assert forall|w: int| 0 <= w < ws.len() implies is_word(#[trigger] ws[w]) by {
            assert(ws[w] == s.subrange(start, i));
        }
    } else if is_space(s[i]) {
        lemma_words_scan_plain(s, i + 1, i + 1);
        let rest = words_scan(s, i + 1, i + 1);
        let first = piece(s, start, i);
        assert forall|w: int| 0 <= w < ws.len() implies is_word(#[trigger] ws[w]) by {
            if w < first.len() {
                assert(ws[w] == s.subrange(start, i));
            } else {
                assert(ws[w] == rest[w - first.len()]);
            }
        }
    } else {
        lemma_words_scan_plain(s, start, i + 1);
        assert(ws == words_scan(s, start, i + 1));
    }
}

/// The texts that a list of character vectors holds.
pub open spec fn rows(v: Seq<Vec<char>>) -> Seq<Seq<char>> {
    Seq::new(v.len(), |k: int| v[k]@)
}

/// The words of `s`, in order: each is non-empty and holds no white space.
pub fn split_words(s: &Vec<char>) -> (out: Vec<Vec<char>>)
    ensures
        rows(out@) == words(s@),
        forall|w: int| 0 <= w < out.len() ==> is_word(#[trigger] rows(out@)[w]),
{
    proof {
        lemma_words_scan_plain(s@, 0, 0);
    }
    let mut out: Vec<Vec<char>> = Vec::new();
    let mut start: usize = 0;
    let mut i: usize = 0;
    assert(rows(out@) + words_scan(s@, 0, 0) =~= words(s@));
    while i < s.len()
        invariant
            start <= i <= s.len(),
            rows(out@) + words_scan(s@, start as int, i as int) == words(s@),
        decreases s.len() - i,
    {
        if char_is_space(s[i]) {
            if start < i {
                let w = copy_range(s, start, i);
                let ghost before = rows(out@);
                out.push(w);
                assert(rows(out@) =~= before + seq![s@.subrange(start as int, i as int)]);
                assert(rows(out@) + words_scan(s@, i + 1, i + 1) =~= before + (piece(
                    s@,
                    start as int,
                    i as int,
                ) + words_scan(s@, i + 1, i + 1)));
            } else {
                assert(piece(s@, start as int, i as int) + words_scan(s@, i + 1, i + 1)
                    =~= words_scan(s@, i + 1, i + 1));
            }
            start = i + 1;
        }
        i += 1;
    }
    if start < i {
        let w = copy_range(s, start, i);
        let ghost before = rows(out@);
        out.push(w);
        assert(rows(out@) =~= before + seq![s@.subrange(start as int, i as int)]);
    } else {
        assert(rows(out@) + Seq::<Seq<char>>::empty() =~= rows(out@));
    }
    out
}

/// `s` from index `i` on with every occurrence of `pat` left out, read from
/// left to right, no occurrence overlapping the one before it.
pub open spec fn remove_from(s: Seq<char>, pat: Seq<char>, i: int) -> Seq<char>
    decreases s.len() - i,
{
    if i >= s.len() || i < 0 {
        Seq::empty()
    } else if pat.len() > 0 && matches_at(s, pat, i) {
        remove_from(s, pat, i + pat.len())
    } else {
        seq![s[i]] + remove_from(s, pat, i + 1)
    }
}

/// `s` with every occurrence of `pat` left out.
pub open spec fn remove_all(s: Seq<char>, pat: Seq<char>) -> Seq<char> {
    remove_from(s, pat, 0)
}

/// `s` with every occurrence of `pat` left out.
pub fn without(s: &Vec<char>, pat: &Vec<char>) -> (out: Vec<char>)
    ensures
        out@ == remove_all(s@, pat@),
{
    let mut out: Vec<char> = Vec::new();
    let mut i: usize = 0;
    while i < s.len()
        invariant
            i <= s.len(),
            out@ + remove_from(s@, pat@, i as int) == remove_all(s@, pat@),
        decreases s.len() - i,
    {
        if pat.len() > 0 && includes_at(s, pat, i) {
            i += pat.len();
        } else {
            let ghost before = out@;
            out.push(s[i]);
            assert(out@ + remove_from(s@, pat@, i + 1) =~= before + (seq![s@[i as int]]
                + remove_from(s@, pat@, i + 1)));
            i += 1;
        }
    }
    assert(out@ + Seq::<char>::empty() =~= out@);
    out
}

/// The first index at or after `i` whose character is not `c`, or the
/// length of `s` where there is none.
pub open spec fn skip_char(s: Seq<char>, c: char, i: int) -> int
    decreases s.len() - i,
{
    if 0 <= i < s.len() && s[i] == c {
        skip_char(s, c, i + 1)
    } else {
        i
    }
}

/// `s` without the run of `c` at its start.
pub open spec fn strip_leading(s: Seq<char>, c: char) -> Seq<char> {
    s.subrange(skip_char(s, c, 0), s.len() as int)
}

/// `s` without the run of `c` at its start.
pub fn stripped_leading(s: &Vec<char>, c: char) -> (out: Vec<char>)
    ensures
        out@ == strip_leading(s@, c),
{
    let mut a: usize = 0;
    while a < s.len() && s[a] == c
        invariant
            a <= s.len(),
            skip_char(s@, c, a as int) == skip_char(s@, c, 0),
        decreases s.len() - a,
    {
        a += 1;
    }
    copy_range(s, a, s.len())
}

/// The first index at or after `i` that holds a line feed, or the length of
/// `s` where there is none.
pub open spec fn line_end(s: Seq<char>, i: int) -> int
    decreases s.len() - i,
{
    if 0 <= i < s.len() && s[i] != '\n' {
        line_end(s, i + 1)
    } else {
        i
    }
}

/// The first index at or after `from` that holds a line feed, or the length
/// of `s`.
pub fn find_line_end(s: &Vec<char>, from: usize) -> (e: usize)
    requires
        from <= s.len(),
    ensures
        from <= e <= s.len(),
        e == line_end(s@, from as int),
{
    let mut e: usize = from;
    while e < s.len() && s[e] != '\n'
        invariant
            from <= e <= s.len(),
            line_end(s@, e as int) == line_end(s@, from as int),
        decreases s.len() - e,
    {
        e += 1;
    }
    e
}

/// The length of the longest start of `s[i..]` made of digits and dots,
/// counted from `i`: the index at which it ends.
pub open spec fn version_end(s: Seq<char>, i: int) -> int
    decreases s.len() - i,
{
    if 0 <= i < s.len() && (is_digit(s[i]) || s[i] == '.') {
        version_end(s, i + 1)
    } else {
        i
    }
}

/// The longest start made of digits and dots ends within the text, and is
/// not empty where the text starts with a digit.
pub proof fn lemma_version_end_bounds(s: Seq<char>, i: int)
    requires
        0 <= i <= s.len(),
    ensures
        i <= version_end(s, i) <= s.len(),
        i < s.len() && is_digit(s[i]) ==> i < version_end(s, i),
    decreases s.len() - i,
{
    if i < s.len() && (is_digit(s[i]) || s[i] == '.') {
        lemma_version_end_bounds(s, i + 1);
    }
}

/// The longest start of `s` made of digits and dots.
pub open spec fn version_prefix(s: Seq<char>) -> Seq<char> {
    s.subrange(0, version_end(s, 0))
}

/// The longest start of `s` made of digits and dots.
pub fn take_version_prefix(s: &Vec<char>) -> (out: Vec<char>)
    ensures
        out@ == version_prefix(s@),
{
    let mut e: usize = 0;
    while e < s.len() && (char_is_digit(s[e]) || s[e] == '.')
        invariant
            e <= s.len(),
            version_end(s@, e as int) == version_end(s@, 0),
        decreases s.len() - e,
    {
        e += 1;
    }
    copy_range(s, 0, e)
}

/// The first `n` items of `items` with `sep` between each two.
pub open spec fn joined(items: Seq<Seq<char>>, sep: Seq<char>, n: int) -> Seq<char>
    decreases n,
{
    if n <= 0 || n > items.len() {
        Seq::empty()
    } else if n == 1 {
        items[0]
    } else {
        joined(items, sep, n - 1) + sep + items[n - 1]
    }
}

/// The items of `items` with `sep` between each two.
pub open spec fn join(items: Seq<Seq<char>>, sep: Seq<char>) -> Seq<char> {
    joined(items, sep, items.len() as int)
}

/// The items of `items` with `sep` between each two.
pub fn join_texts(items: &Vec<String>, sep: &str) -> (out: String)
    ensures
        out@ == join(items.deep_view(), sep@),
{
    let mut out = String::new();
    let mut i: usize = 0;
    while i < items.len()
        invariant
            i <= items.len(),
            out@ == joined(items.deep_view(), sep@, i as int),
        decreases items.len() - i,
    {
        assert(items.deep_view()[i as int] == items@[i as int]@);
        if i > 0 {
            out.append(sep);
        } else {
            assert(Seq::<char>::empty() + items@[0]@ =~= items@[0]@);
        }
        out.append(items[i].as_str());
        i += 1;
    }
    out
}

/// The character of the decimal digit `d`.
pub open spec fn digit_char(d: int) -> char {
    if d == 0 {
        '0'
    } else if d == 1 {
        '1'
    } else if d == 2 {
        '2'
    } else if d == 3 {
        '3'
    } else if d == 4 {
        '4'
    } else if d == 5 {
        '5'
    } else if d == 6 {
        '6'
    } else if d == 7 {
        '7'
    } else if d == 8 {
        '8'
    } else {
        '9'
    }
}

/// The number `n` in decimal digits, without leading zeros.
pub open spec fn decimal(n: nat) -> Seq<char>
    decreases n,
{
    if n < 10 {
        seq![digit_char(n as int)]
    } else {
        decimal(n / 10) + seq![digit_char((n % 10) as int)]
    }
}

fn digit(d: u64) -> (c: char)
    requires
        d < 10,
    ensures
        c == digit_char(d as int),
{
    if d == 0 {
        '0'
    } else if d == 1 {
        '1'
    } else if d == 2 {
        '2'
    } else if d == 3 {
        '3'
    } else if d == 4 {
        '4'
    } else if d == 5 {
        '5'
    } else if d == 6 {
        '6'
    } else if d == 7 {
        '7'
    } else if d == 8 {
        '8'
    } else {
        '9'
    }
}

/// The number `n` in decimal digits.
pub fn decimal_text(n: u64) -> (out: String)
    ensures
        out@ == decimal(n as nat),
{
    // The digits from the last one to the first.
    let mut back: Vec<char> = Vec::new();
    let mut rest: u64 = n;
    while rest >= 10
        invariant
            decimal(rest as nat) + back@.reverse() == decimal(n as nat),
        decreases rest,
    {
        let ghost before = back@;
        back.push(digit(rest % 10));
        assert(back@.reverse() =~= seq![digit_char((rest % 10) as int)] + before.reverse());
        assert(decimal((rest / 10) as nat) + back@.reverse() =~= (decimal((rest / 10) as nat)
            + seq![digit_char((rest % 10) as int)]) + before.reverse());
        rest = rest / 10;
    }
    let ghost before = back@;
    back.push(digit(rest));
    assert(back@.reverse() =~= decimal(rest as nat) + before.reverse());
    let mut out = String::new();
    let mut i: usize = back.len();
    while i > 0
        invariant
            i <= back.len(),
            out@ == back@.reverse().subrange(0, back.len() - i),
        decreases i,
    {
        i -= 1;
        out.push(back[i]);
        assert(back@.reverse()[back.len() - 1 - i] == back@[i as int]);
    }
    assert(back@.reverse().subrange(0, back.len() as int) =~= back@.reverse());
    out
}

} // verus!
