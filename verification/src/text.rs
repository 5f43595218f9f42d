//! String primitives shared by every renderer: character access, decimal
//! formatting, joining and small searches, each specified over `Seq<char>`.

use vstd::prelude::*;
use vstd::string::*;

verus! {

/// The views of a sequence of strings.
pub open spec fn views(v: Seq<String>) -> Seq<Seq<char>> {
    v.map_values(|s: String| s@)
}

/// Appends one character to a string (`String::push`).
#[verifier::external_body]
pub fn push_char(s: &mut String, c: char)
    ensures
        final(s)@ == old(s)@.push(c),
{
    s.push(c);
}

/// The characters of a string slice, in order.
pub fn chars_of(s: &str) -> (v: Vec<char>)
    ensures
        v@ == s@,
{
    let n = s.unicode_len();
    let mut v: Vec<char> = Vec::new();
    let mut i: usize = 0;
    while i < n
        invariant
            n == s@.len(),
            i <= n,
            v@ == s@.subrange(0, i as int),
        decreases n - i,
    {
        let c = s.get_char(i);
        v.push(c);
        i = i + 1;
    }
    v
}

/// Builds a string from a slice of characters.
pub fn string_from_chars(v: &[char]) -> (s: String)
    ensures
        s@ == v@,
{
    let mut s = String::new();
    let mut i: usize = 0;
    while i < v.len()
        invariant
            i <= v@.len(),
            s@ == v@.subrange(0, i as int),
        decreases v@.len() - i,
    {
        push_char(&mut s, v[i]);
        i = i + 1;
    }
    s
}

/// The ASCII digit for `d < 10`.
pub open spec fn digit_char(d: nat) -> char {
    if d == 0 { '0' }
    else if d == 1 { '1' }
    else if d == 2 { '2' }
    else if d == 3 { '3' }
    else if d == 4 { '4' }
    else if d == 5 { '5' }
    else if d == 6 { '6' }
    else if d == 7 { '7' }
    else if d == 8 { '8' }
    else { '9' }
}

/// Decimal rendering of a natural number, without leading zeros.
pub open spec fn dec(n: nat) -> Seq<char>
    decreases n,
{
    if n < 10 {
        seq![digit_char(n)]
    } else {
        dec(n / 10).push(digit_char(n % 10))
    }
}

fn digit(d: u64) -> (c: char)
    requires
        d < 10,
    ensures
        c == digit_char(d as nat),
{
    if d == 0 { '0' }
    else if d == 1 { '1' }
    else if d == 2 { '2' }
    else if d == 3 { '3' }
    else if d == 4 { '4' }
    else if d == 5 { '5' }
    else if d == 6 { '6' }
    else if d == 7 { '7' }
    else if d == 8 { '8' }
    else { '9' }
}

/// Decimal rendering of an unsigned integer.
pub fn u64_to_string(n: u64) -> (s: String)
    ensures
        s@ == dec(n as nat),
    decreases n,
{
    if n < 10 {
        let mut s = String::new();
        push_char(&mut s, digit(n));
        s
    } else {
        let mut s = u64_to_string(n / 10);
        push_char(&mut s, digit(n % 10));
        s
    }
}


/// `parts` joined with `sep` between consecutive elements.
pub open spec fn join(parts: Seq<Seq<char>>, sep: Seq<char>) -> Seq<char>
    decreases parts.len(),
{
    if parts.len() == 0 {
        Seq::empty()
    } else if parts.len() == 1 {
        parts[0]
    } else {
        join(parts.drop_last(), sep) + sep + parts.last()
    }
}

/// Joins strings with a separator.
pub fn join_strings(parts: &Vec<String>, sep: &str) -> (r: String)
    ensures
        r@ == join(views(parts@), sep@),
{
    let mut r = String::new();
    let ghost vs = views(parts@);
    let mut i: usize = 0;
    while i < parts.len()
        invariant
            vs == views(parts@),
            i <= parts@.len(),
            r@ == join(vs.take(i as int), sep@),
        decreases parts@.len() - i,
    {
        assert(vs.take(i + 1).drop_last() =~= vs.take(i as int));
        if i != 0 {
            r.append(sep);
        }
        r.append(parts[i].as_str());
        i = i + 1;
    }
    assert(vs.take(parts@.len() as int) =~= vs);
    r
}

/// A fresh string holding a copy of `s`.
pub fn to_owned(s: &str) -> (r: String)
    ensures
        r@ == s@,
{
    String::from_str(s)
}

/// `a` followed by `b`.
pub fn concat2(a: &str, b: &str) -> (r: String)
    ensures
        r@ == a@ + b@,
{
    let mut r = String::from_str(a);
    r.append(b);
    r
}

/// `a`, `b`, `c` in order.
pub fn concat3(a: &str, b: &str, c: &str) -> (r: String)
    ensures
        r@ == a@ + b@ + c@,
{
    let mut r = String::from_str(a);
    r.append(b);
    r.append(c);
    r
}

/// Whether two string slices hold the same characters.
pub fn str_eq(a: &str, b: &str) -> (r: bool)
    ensures
        r == (a@ == b@),
{
    let x = String::from_str(a);
    let y = String::from_str(b);
    x == y
}

/// Decimal rendering of a signed integer (a leading `-` for negatives).
pub open spec fn dec_int(n: int) -> Seq<char> {
    if n < 0 {
        seq!['-'] + dec((-n) as nat)
    } else {
        dec(n as nat)
    }
}

/// Decimal rendering of a signed 64-bit integer.
pub fn i64_to_string(n: i64) -> (s: String)
    ensures
        s@ == dec_int(n as int),
{
    if n < 0 {
        let m: u64 = if n == i64::MIN {
            9223372036854775808u64
        } else {
            (-n) as u64
        };
        let mut s = String::new();
        push_char(&mut s, '-');
        let d = u64_to_string(m);
        s.append(d.as_str());
        s
    } else {
        u64_to_string(n as u64)
    }
}


/// `i` is the first position of `c` in `s`.
pub open spec fn is_first_index(s: Seq<char>, c: char, i: int) -> bool {
    0 <= i < s.len() && s[i] == c && forall|j: int| 0 <= j < i ==> s[j] != c
}

/// `i` is the last position of `c` in `s`.
pub open spec fn is_last_index(s: Seq<char>, c: char, i: int) -> bool {
    0 <= i < s.len() && s[i] == c && forall|j: int| i < j < s.len() ==> s[j] != c
}

/// First position of `c` in `s`, if it occurs.
pub open spec fn first_index(s: Seq<char>, c: char) -> Option<int> {
    if s.contains(c) {
        Some(choose|i: int| is_first_index(s, c, i))
    } else {
        None
    }
}

/// A character that occurs has a first occurrence.
pub(crate) proof fn lemma_first_index_exists(s: Seq<char>, c: char)
    requires
        s.contains(c),
    ensures
        exists|i: int| is_first_index(s, c, i),
    decreases s.len(),
{
    if s[0] == c {
        assert(is_first_index(s, c, 0));
    } else {
        let t = s.drop_first();
        let j = choose|j: int| 0 <= j < s.len() && s[j] == c;
        assert(t[j - 1] == c);
        lemma_first_index_exists(t, c);
        let k = choose|k: int| is_first_index(t, c, k);
        assert(is_first_index(s, c, k + 1)) by {
            assert forall|m: int| 0 <= m < k + 1 implies s[m] != c by {
                if m > 0 {
                    assert(s[m] == t[m - 1]);
                }
            }
        }
    }
}

/// Last position of `c` in `s`, if it occurs.
pub open spec fn last_index(s: Seq<char>, c: char) -> Option<int> {
    if s.contains(c) {
        Some(choose|i: int| is_last_index(s, c, i))
    } else {
        None
    }
}

/// Split around the first `c`: the part before and the part after it.
pub open spec fn split_once(s: Seq<char>, c: char) -> Option<(Seq<char>, Seq<char>)> {
    match first_index(s, c) {
        Some(i) => Some((s.take(i), s.skip(i + 1))),
        None => None,
    }
}

/// The part of `s` after its last `c`, or all of `s` when `c` does not occur.
pub open spec fn after_last(s: Seq<char>, c: char) -> Seq<char> {
    match last_index(s, c) {
        Some(i) => s.skip(i + 1),
        None => s,
    }
}

/// `p` is a prefix of `s`.
pub open spec fn has_prefix(s: Seq<char>, p: Seq<char>) -> bool {
    p.len() <= s.len() && s.take(p.len() as int) == p
}

/// `p` is a suffix of `s`.
pub open spec fn has_suffix(s: Seq<char>, p: Seq<char>) -> bool {
    p.len() <= s.len() && s.skip(s.len() - p.len()) == p
}

/// `s` without the prefix `p`, when it has it.
pub open spec fn strip_prefix(s: Seq<char>, p: Seq<char>) -> Option<Seq<char>> {
    if has_prefix(s, p) {
        Some(s.skip(p.len() as int))
    } else {
        None
    }
}

/// `s` without the suffix `p`, when it has it.
pub open spec fn strip_suffix(s: Seq<char>, p: Seq<char>) -> Option<Seq<char>> {
    if has_suffix(s, p) {
        Some(s.take(s.len() - p.len()))
    } else {
        None
    }
}

/// First position of `c` in a character vector.
pub fn find_char(s: &Vec<char>, c: char) -> (r: Option<usize>)
    ensures
        match r {
            Some(i) => is_first_index(s@, c, i as int) && first_index(s@, c) == Some(i as int),
            None => !s@.contains(c) && first_index(s@, c) is None,
        },
{
    let mut i: usize = 0;
    while i < s.len()
        invariant
            i <= s@.len(),
            forall|j: int| 0 <= j < i ==> s@[j] != c,
        decreases s@.len() - i,
    {
        if s[i] == c {
            assert(is_first_index(s@, c, i as int));
            assert(s@.contains(c));
            let ghost k = choose|k: int| is_first_index(s@, c, k);
            assert(k == i);
            return Some(i);
        }
        i = i + 1;
    }
    None
}

/// Last position of `c` in a character vector.
pub fn rfind_char(s: &Vec<char>, c: char) -> (r: Option<usize>)
    ensures
        match r {
            Some(i) => is_last_index(s@, c, i as int) && last_index(s@, c) == Some(i as int),
            None => !s@.contains(c) && last_index(s@, c) is None,
        },
{
    let mut i: usize = s.len();
    while i > 0
        invariant
            i <= s@.len(),
            forall|j: int| i <= j < s@.len() ==> s@[j] != c,
        decreases i,
    {
        if s[i - 1] == c {
            assert(is_last_index(s@, c, i - 1));
            assert(s@.contains(c));
            let ghost k = choose|k: int| is_last_index(s@, c, k);
            assert(k == i - 1);
            return Some(i - 1);
        }
        i = i - 1;
    }
    None
}

/// Whether `c` occurs in `s`.
pub fn contains_char(s: &str, c: char) -> (r: bool)
    ensures
        r == s@.contains(c),
{
    let cs = chars_of(s);
    find_char(&cs, c).is_some()
}

/// The characters `v[from..to]` as a string.
pub fn substring(v: &Vec<char>, from: usize, to: usize) -> (s: String)
    requires
        from <= to <= v@.len(),
    ensures
        s@ == v@.subrange(from as int, to as int),
{
    let mut s = String::new();
    let mut i: usize = from;
    while i < to
        invariant
            from <= i <= to <= v@.len(),
            s@ == v@.subrange(from as int, i as int),
        decreases to - i,
    {
        push_char(&mut s, v[i]);
        i = i + 1;
    }
    s
}

/// Whether `p` is a prefix of `s`.
pub fn starts_with(s: &str, p: &str) -> (r: bool)
    ensures
        r == has_prefix(s@, p@),
{
    let a = chars_of(s);
    let b = chars_of(p);
    if b.len() > a.len() {
        return false;
    }
    let mut i: usize = 0;
    while i < b.len()
        invariant
            a@ == s@,
            b@ == p@,
            b@.len() <= a@.len(),
            i <= b@.len(),
            forall|j: int| 0 <= j < i ==> a@[j] == b@[j],
        decreases b@.len() - i,
    {
        if a[i] != b[i] {
            assert(a@.take(b@.len() as int)[i as int] != b@[i as int]);
            return false;
        }
        i = i + 1;
    }
    assert(a@.take(b@.len() as int) =~= b@);
    true
}

/// Whether `p` is a suffix of `s`.
pub fn ends_with(s: &str, p: &str) -> (r: bool)
    ensures
        r == has_suffix(s@, p@),
{
    let a = chars_of(s);
    let b = chars_of(p);
    if b.len() > a.len() {
        return false;
    }
    let off = a.len() - b.len();
    let mut i: usize = 0;
    while i < b.len()
        invariant
            a@ == s@,
            b@ == p@,
            b@.len() <= a@.len(),
            off == a@.len() - b@.len(),
            a@.len() <= usize::MAX,
            i <= b@.len(),
            forall|j: int| 0 <= j < i ==> a@[off + j] == b@[j],
        decreases b@.len() - i,
    {
        if a[off + i] != b[i] {
            assert(a@.skip(off as int)[i as int] != b@[i as int]);
            return false;
        }
        i = i + 1;
    }
    assert(a@.skip(off as int) =~= b@);
    true
}

/// `s` without the prefix `p`, when it has it.
pub fn strip_prefix_str(s: &str, p: &str) -> (r: Option<String>)
    ensures
        match r {
            Some(t) => strip_prefix(s@, p@) == Some(t@),
            None => strip_prefix(s@, p@) is None,
        },
{
    if starts_with(s, p) {
        let a = chars_of(s);
        let n = p.unicode_len();
        Some(substring(&a, n, a.len()))
    } else {
        None
    }
}

/// `s` without the suffix `p`, when it has it.
pub fn strip_suffix_str(s: &str, p: &str) -> (r: Option<String>)
    ensures
        match r {
            Some(t) => strip_suffix(s@, p@) == Some(t@),
            None => strip_suffix(s@, p@) is None,
        },
{
    if ends_with(s, p) {
        let a = chars_of(s);
        let n = p.unicode_len();
        Some(substring(&a, 0, a.len() - n))
    } else {
        None
    }
}

/// The part of `s` after its last `c` (all of `s` when `c` is absent).
pub fn after_last_char(s: &str, c: char) -> (r: String)
    ensures
        r@ == after_last(s@, c),
{
    let a = chars_of(s);
    let n = a.len();
    match rfind_char(&a, c) {
        Some(i) => substring(&a, i + 1, a.len()),
        None => {
            assert(a@.subrange(0, a@.len() as int) =~= a@);
            substring(&a, 0, a.len())
        },
    }
}

/// Splits around the first `c`.
pub fn split_once_char(s: &str, c: char) -> (r: Option<(String, String)>)
    ensures
        match r {
            Some((x, y)) => split_once(s@, c) == Some((x@, y@)),
            None => split_once(s@, c) is None,
        },
{
    let a = chars_of(s);
    let n = a.len();
    match find_char(&a, c) {
        Some(i) => {
            let x = substring(&a, 0, i);
            let y = substring(&a, i + 1, a.len());
            assert(x@ =~= a@.take(i as int));
            assert(y@ =~= a@.skip(i + 1));
            Some((x, y))
        },
        None => None,
    }
}


/// A copy of an optional string.
pub fn clone_opt(s: &Option<String>) -> (r: Option<String>)
    ensures
        r == *s,
{
    match s {
        Some(x) => Some(x.clone()),
        None => None,
    }
}


/// The part of `s` before its first `c` (all of `s` when `c` is absent).
pub open spec fn before_first(s: Seq<char>, c: char) -> Seq<char> {
    match first_index(s, c) {
        Some(i) => s.take(i),
        None => s,
    }
}

/// The part of `s` before its first `c` (all of `s` when `c` is absent).
pub fn before_first_char(s: &str, c: char) -> (r: String)
    ensures
        r@ == before_first(s@, c),
{
    let a = chars_of(s);
    match find_char(&a, c) {
        Some(i) => {
            let r = substring(&a, 0, i);
            assert(r@ =~= a@.take(i as int));
            r
        },
        None => {
            assert(a@.subrange(0, a@.len() as int) =~= a@);
            substring(&a, 0, a.len())
        },
    }
}

/// Completed lines and the unfinished last line after reading `s` left to right: a `\n`
/// ends the current line, less one `\r` before it.
pub open spec fn lines_acc(s: Seq<char>) -> (Seq<Seq<char>>, Seq<char>)
    decreases s.len(),
{
    if s.len() == 0 {
        (Seq::empty(), Seq::empty())
    } else {
        let (done, cur) = lines_acc(s.drop_last());
        if s.last() == '\n' {
            let line = if cur.len() > 0 && cur.last() == '\r' { cur.drop_last() } else { cur };
            (done.push(line), Seq::empty())
        } else {
            (done, cur.push(s.last()))
        }
    }
}

/// The lines of a text as `str::lines` yields them: split at `\n` (or `\r\n`), with no
/// empty line after a final line ending.
pub open spec fn text_lines(s: Seq<char>) -> Seq<Seq<char>> {
    let (done, cur) = lines_acc(s);
    if cur.len() > 0 {
        done.push(cur)
    } else {
        done
    }
}

/// Splits a text into its lines.
pub fn lines_of(s: &str) -> (r: Vec<String>)
    ensures
        views(r@) == text_lines(s@),
{
    let a = chars_of(s);
    let mut done: Vec<String> = Vec::new();
    let mut cur: Vec<char> = Vec::new();
    let mut i: usize = 0;
    assert(a@.take(0) =~= Seq::<char>::empty());
    while i < a.len()
        invariant
            a@ == s@,
            i <= a@.len(),
            (views(done@), cur@) == lines_acc(a@.take(i as int)),
        decreases a@.len() - i,
    {
        assert(a@.take(i + 1).drop_last() =~= a@.take(i as int));
        assert(a@.take(i + 1).last() == a@[i as int]);
        if a[i] == '\n' {
            let n = cur.len();
            let line = if n > 0 && cur[n - 1] == '\r' {
                let l = string_from_chars(&cur.as_slice()[0..n - 1]);
                assert(cur@.subrange(0, n - 1) =~= cur@.drop_last());
                l
            } else {
                string_from_chars(cur.as_slice())
            };
            let ghost pre = views(done@);
            done.push(line);
            assert(views(done@) =~= pre.push(line@));
            cur = Vec::new();
            assert(cur@ =~= Seq::<char>::empty());
        } else {
            cur.push(a[i]);
        }
        i = i + 1;
    }
    assert(a@.take(a@.len() as int) =~= a@);
    if cur.len() > 0 {
        let last = string_from_chars(cur.as_slice());
        let ghost pre = views(done@);
        done.push(last);
        assert(views(done@) =~= pre.push(last@));
    }
    done
}

/// The text of an optional string slice.
pub open spec fn opt_str_view(s: Option<&str>) -> Option<Seq<char>> {
    match s {
        Some(x) => Some(x@),
        None => None,
    }
}

/// The text of an optional string.
pub open spec fn opt_string_view(s: Option<String>) -> Option<Seq<char>> {
    match s {
        Some(x) => Some(x@),
        None => None,
    }
}

/// Whether every character of `s` is ASCII.
pub open spec fn is_ascii_text(s: Seq<char>) -> bool {
    forall|i: int| 0 <= i < s.len() ==> (#[trigger] s[i] as u32) < 128
}

/// An ASCII capital letter as its small letter; any other character unchanged.
pub open spec fn ascii_lower_char(c: char) -> char {
    if 'A' <= c <= 'Z' {
        ((c as u32) + 32) as char
    } else {
        c
    }
}

/// An ASCII small letter as its capital; any other character unchanged.
pub open spec fn ascii_upper_char(c: char) -> char {
    if 'a' <= c <= 'z' {
        ((c as u32) - 32) as char
    } else {
        c
    }
}

/// `s` with its ASCII capitals made small.
pub open spec fn ascii_lower(s: Seq<char>) -> Seq<char> {
    Seq::new(s.len(), |i: int| ascii_lower_char(s[i]))
}

/// `s` with its ASCII small letters made capitals.
pub open spec fn ascii_upper(s: Seq<char>) -> Seq<char> {
    Seq::new(s.len(), |i: int| ascii_upper_char(s[i]))
}

/// A text as `str::to_lowercase` renders it.
pub uninterp spec fn lowercase_of(s: Seq<char>) -> Seq<char>;

/// `str::to_lowercase`. Claimed: the result is `lowercase_of(s)`, a function of the text
/// alone (Unicode lowercase mapping), and on ASCII text it only turns `A`-`Z` into
/// `a`-`z` (the Unicode mapping of those characters).
#[verifier::external_body]
pub(crate) fn lowercase(s: &str) -> (r: String)
    ensures
        r@ == lowercase_of(s@),
        is_ascii_text(s@) ==> r@ == ascii_lower(s@),
{
    s.to_lowercase()
}

/// A text as `str::to_uppercase` renders it.
pub uninterp spec fn uppercase_of(s: Seq<char>) -> Seq<char>;

/// `str::to_uppercase`. Claimed: the result is `uppercase_of(s)`, a function of the text
/// alone (Unicode uppercase mapping), and on ASCII text it only turns `a`-`z` into
/// `A`-`Z` (the Unicode mapping of those characters).
#[verifier::external_body]
pub(crate) fn uppercase(s: &str) -> (r: String)
    ensures
        r@ == uppercase_of(s@),
        is_ascii_text(s@) ==> r@ == ascii_upper(s@),
{
    s.to_uppercase()
}

/// Words found so far and the word being read, splitting `s` at whitespace.
pub open spec fn words_acc(s: Seq<char>) -> (Seq<Seq<char>>, Seq<char>)
    decreases s.len(),
{
    if s.len() == 0 {
        (Seq::empty(), Seq::empty())
    } else {
        let (done, cur) = words_acc(s.drop_last());
        if is_ws(s.last()) {
            if cur.len() > 0 {
                (done.push(cur), Seq::empty())
            } else {
                (done, cur)
            }
        } else {
            (done, cur.push(s.last()))
        }
    }
}

/// The whitespace-separated words of a text, as `str::split_whitespace` yields them.
pub open spec fn words(s: Seq<char>) -> Seq<Seq<char>> {
    let (done, cur) = words_acc(s);
    if cur.len() > 0 {
        done.push(cur)
    } else {
        done
    }
}

/// The words of a text joined by single spaces.
pub fn collapse_whitespace(s: &str) -> (r: String)
    ensures
        r@ == join(words(s@), " "@),
{
    let a = chars_of(s);
    let mut done: Vec<String> = Vec::new();
    let mut cur: Vec<char> = Vec::new();
    let mut i: usize = 0;
    assert(a@.take(0) =~= Seq::<char>::empty());
    while i < a.len()
        invariant
            a@ == s@,
            i <= a@.len(),
            (views(done@), cur@) == words_acc(a@.take(i as int)),
        decreases a@.len() - i,
    {
        assert(a@.take(i + 1).drop_last() =~= a@.take(i as int));
        assert(a@.take(i + 1).last() == a@[i as int]);
        if is_whitespace(a[i]) {
            if cur.len() > 0 {
                let w = string_from_chars(cur.as_slice());
                let ghost pre = views(done@);
                done.push(w);
                assert(views(done@) =~= pre.push(w@));
                cur = Vec::new();
                assert(cur@ =~= Seq::<char>::empty());
            }
        } else {
            cur.push(a[i]);
        }
        i = i + 1;
    }
    assert(a@.take(a@.len() as int) =~= a@);
    if cur.len() > 0 {
        let w = string_from_chars(cur.as_slice());
        let ghost pre = views(done@);
        done.push(w);
        assert(views(done@) =~= pre.push(w@));
    }
    join_strings(&done, " ")
}

/// `s` with every occurrence of a non-empty `pat`, read left to right without overlap,
/// replaced by `rep`.
pub open spec fn replace_all(s: Seq<char>, pat: Seq<char>, rep: Seq<char>) -> Seq<char>
    decreases s.len(),
{
    if s.len() == 0 {
        Seq::empty()
    } else if pat.len() > 0 && has_prefix(s, pat) {
        rep + replace_all(s.skip(pat.len() as int), pat, rep)
    } else {
        seq![s[0]] + replace_all(s.drop_first(), pat, rep)
    }
}

fn matches_at(a: &Vec<char>, i: usize, p: &Vec<char>) -> (r: bool)
    requires
        i <= a@.len(),
    ensures
        r == has_prefix(a@.skip(i as int), p@),
{
    let n = a.len();
    if p.len() > n - i {
        return false;
    }
    let mut k: usize = 0;
    while k < p.len()
        invariant
            n == a@.len(),
            i + p@.len() <= a@.len(),
            k <= p@.len(),
            forall|j: int| 0 <= j < k ==> a@[i + j] == p@[j],
        decreases p@.len() - k,
    {
        if a[i + k] != p[k] {
            assert(a@.skip(i as int).take(p@.len() as int)[k as int] != p@[k as int]);
            return false;
        }
        k = k + 1;
    }
    assert(a@.skip(i as int).take(p@.len() as int) =~= p@);
    true
}

/// Replaces every occurrence of `pat` by `rep`, as `str::replace` does.
pub fn replace_str(s: &str, pat: &str, rep: &str) -> (r: String)
    requires
        pat@.len() > 0,
    ensures
        r@ == replace_all(s@, pat@, rep@),
{
    let a = chars_of(s);
    let p = chars_of(pat);
    let mut out = String::new();
    let mut i: usize = 0;
    assert(a@.skip(0) =~= a@);
    while i < a.len()
        invariant
            a@ == s@,
            p@ == pat@,
            p@.len() > 0,
            i <= a@.len(),
            out@ + replace_all(a@.skip(i as int), p@, rep@) == replace_all(a@, p@, rep@),
        decreases a@.len() - i,
    {
        let ghost rest = a@.skip(i as int);
        if matches_at(&a, i, &p) {
            assert(rest.skip(p@.len() as int) =~= a@.skip(i + p@.len()));
            let ghost before = out@;
            out.append(rep);
            assert(out@ + replace_all(a@.skip(i + p@.len()), p@, rep@) =~= before + replace_all(rest, p@, rep@));
            i = i + p.len();
        } else {
            assert(rest.drop_first() =~= a@.skip(i + 1));
            assert(rest[0] == a@[i as int]);
            let ghost before = out@;
            push_char(&mut out, a[i]);
            assert(out@ + replace_all(a@.skip(i + 1), p@, rep@) =~= before + replace_all(rest, p@, rep@));
            i = i + 1;
        }
    }
    assert(a@.skip(a@.len() as int) =~= Seq::<char>::empty());
    assert(out@ + replace_all(Seq::<char>::empty(), p@, rep@) =~= out@);
    out
}

/// `s` with every `from` replaced by `to`.
pub open spec fn replace_char(s: Seq<char>, from: char, to: char) -> Seq<char> {
    s.map_values(|c: char| if c == from { to } else { c })
}

/// `s` with every `from` replaced by `to`.
pub fn replace_char_str(s: &str, from: char, to: char) -> (r: String)
    ensures
        r@ == replace_char(s@, from, to),
{
    let a = chars_of(s);
    let mut r = String::new();
    let mut i: usize = 0;
    while i < a.len()
        invariant
            a@ == s@,
            i <= a@.len(),
            r@ == replace_char(a@.take(i as int), from, to),
        decreases a@.len() - i,
    {
        assert(replace_char(a@.take(i + 1), from, to) =~= replace_char(a@.take(i as int), from, to).push(
            if a@[i as int] == from { to } else { a@[i as int] },
        ));
        if a[i] == from {
            push_char(&mut r, to);
        } else {
            push_char(&mut r, a[i]);
        }
        i = i + 1;
    }
    assert(a@.take(a@.len() as int) =~= a@);
    r
}


/// Bytes in the UTF-8 encoding of one character.
pub open spec fn char_utf8_len(c: char) -> nat {
    if (c as u32) < 0x80 {
        1
    } else if (c as u32) < 0x800 {
        2
    } else if (c as u32) < 0x10000 {
        3
    } else {
        4
    }
}

/// Bytes in the UTF-8 encoding of a character sequence.
pub open spec fn utf8_len(s: Seq<char>) -> nat
    decreases s.len(),
{
    if s.len() == 0 {
        0
    } else {
        utf8_len(s.drop_last()) + char_utf8_len(s.last())
    }
}

/// Prefixes grow strictly in encoded length.
proof fn lemma_utf8_len_monotonic(s: Seq<char>, i: int, j: int)
    requires
        0 <= i < j <= s.len(),
    ensures
        utf8_len(s.take(i)) < utf8_len(s.take(j)),
    decreases j - i,
{
    assert(s.take(j).drop_last() =~= s.take(j - 1));
    if i < j - 1 {
        lemma_utf8_len_monotonic(s, i, j - 1);
    }
}

/// The prefix of `s` whose UTF-8 encoding is exactly `n` bytes, when `n` falls
/// on a character boundary within `s` (the meaning of `str::get(0..n)`).
pub open spec fn byte_prefix(s: Seq<char>, n: nat) -> Option<Seq<char>> {
    if exists|k: int| 0 <= k <= s.len() && #[trigger] utf8_len(s.take(k)) == n {
        Some(s.take(choose|k: int| 0 <= k <= s.len() && #[trigger] utf8_len(s.take(k)) == n))
    } else {
        None
    }
}

fn char_len(c: char) -> (n: usize)
    ensures
        n == char_utf8_len(c),
{
    let v = c as u32;
    if v < 0x80 {
        1
    } else if v < 0x800 {
        2
    } else if v < 0x10000 {
        3
    } else {
        4
    }
}

/// `s.get(0..n)`: the leading `n` bytes when they end on a character boundary.
pub fn byte_prefix_str(s: &str, n: usize) -> (r: Option<String>)
    requires
        n <= usize::MAX - 4,
    ensures
        match r {
            Some(t) => byte_prefix(s@, n as nat) == Some(t@),
            None => byte_prefix(s@, n as nat) is None,
        },
{
    let a = chars_of(s);
    let mut k: usize = 0;
    let mut acc: usize = 0;
    while k < a.len() && acc < n
        invariant
            a@ == s@,
            k <= a@.len(),
            acc == utf8_len(a@.take(k as int)),
            acc <= n + 4,
            n <= usize::MAX - 4,
            forall|j: int| 0 <= j < k ==> #[trigger] utf8_len(a@.take(j)) < n,
        decreases a@.len() - k,
    {
        assert(a@.take(k + 1).drop_last() =~= a@.take(k as int));
        acc = acc + char_len(a[k]);
        k = k + 1;
    }
    if acc == n {
        let t = substring(&a, 0, k);
        assert(t@ =~= a@.take(k as int));
        assert(utf8_len(a@.take(k as int)) == n);
        proof {
            let c = choose|c: int| 0 <= c <= a@.len() && #[trigger] utf8_len(a@.take(c)) == n;
            if c < k {
                lemma_utf8_len_monotonic(a@, c, k as int);
            } else if c > k {
                lemma_utf8_len_monotonic(a@, k as int, c);
            }
        }
        Some(t)
    } else {
        assert forall|j: int| 0 <= j <= a@.len() implies #[trigger] utf8_len(a@.take(j)) != n by {
            if j > k {
                lemma_utf8_len_monotonic(a@, k as int, j);
            }
            if j == k && k == a@.len() {
            }
        }
        None
    }
}


/// `k` zero characters (none for `k <= 0`).
pub open spec fn zeros(k: int) -> Seq<char> {
    Seq::new(if k > 0 { k as nat } else { 0 }, |i: int| '0')
}

/// Decimal rendering of `n`, left-padded with zeros to at least `width` characters.
pub open spec fn zero_pad(n: nat, width: nat) -> Seq<char> {
    zeros(width - dec(n).len()) + dec(n)
}

/// `n` in decimal, zero-padded to at least `width` digits.
pub fn zero_padded(n: u64, width: usize) -> (s: String)
    ensures
        s@ == zero_pad(n as nat, width as nat),
{
    let d = u64_to_string(n);
    let len = d.as_str().unicode_len();
    let mut s = String::new();
    let mut k: usize = len;
    while k < width
        invariant
            len == d@.len(),
            len <= k <= width || (k == len && k >= width),
            s@ == zeros(k - len),
        decreases width - k,
    {
        push_char(&mut s, '0');
        k += 1;
        assert(s@ =~= zeros(k - len));
    }
    assert(s@ =~= zeros(width - dec(n as nat).len()));
    s.append(d.as_str());
    s
}

/// Rust's `char::is_whitespace`: the Unicode `White_Space` property.
pub open spec fn is_ws(c: char) -> bool {
    ('\u{9}' <= c <= '\u{d}') || c == ' ' || c == '\u{85}' || c == '\u{a0}' || c == '\u{1680}'
        || ('\u{2000}' <= c <= '\u{200a}') || c == '\u{2028}' || c == '\u{2029}' || c
        == '\u{202f}' || c == '\u{205f}' || c == '\u{3000}'
}

/// Whether `c` is whitespace.
pub fn is_whitespace(c: char) -> (r: bool)
    ensures
        r == is_ws(c),
{
    ('\u{9}' <= c && c <= '\u{d}') || c == ' ' || c == '\u{85}' || c == '\u{a0}' || c == '\u{1680}'
        || ('\u{2000}' <= c && c <= '\u{200a}') || c == '\u{2028}' || c == '\u{2029}' || c
        == '\u{202f}' || c == '\u{205f}' || c == '\u{3000}'
}

/// `s` without its leading whitespace.
pub open spec fn trim_start(s: Seq<char>) -> Seq<char>
    decreases s.len(),
{
    if s.len() > 0 && is_ws(s[0]) {
        trim_start(s.drop_first())
    } else {
        s
    }
}

/// `s` without its trailing whitespace.
pub open spec fn trim_end(s: Seq<char>) -> Seq<char>
    decreases s.len(),
{
    if s.len() > 0 && is_ws(s.last()) {
        trim_end(s.drop_last())
    } else {
        s
    }
}

/// `s` without leading and trailing whitespace, as `str::trim` gives it.
pub open spec fn trim(s: Seq<char>) -> Seq<char> {
    trim_end(trim_start(s))
}

proof fn lemma_trim_start_keeps_ascii(s: Seq<char>)
    requires
        is_ascii_text(s),
    ensures
        is_ascii_text(trim_start(s)),
    decreases s.len(),
{
    if s.len() > 0 && is_ws(s[0]) {
        assert forall|i: int| 0 <= i < s.drop_first().len() implies (#[trigger] s.drop_first()[i]
            as u32) < 128 by {
            assert(s.drop_first()[i] == s[i + 1]);
        }
        lemma_trim_start_keeps_ascii(s.drop_first());
    }
}

proof fn lemma_trim_end_keeps_ascii(s: Seq<char>)
    requires
        is_ascii_text(s),
    ensures
        is_ascii_text(trim_end(s)),
    decreases s.len(),
{
    if s.len() > 0 && is_ws(s.last()) {
        assert forall|i: int| 0 <= i < s.drop_last().len() implies (#[trigger] s.drop_last()[i]
            as u32) < 128 by {
            assert(s.drop_last()[i] == s[i]);
        }
        lemma_trim_end_keeps_ascii(s.drop_last());
    }
}

/// Trimming ASCII text leaves ASCII text.
pub proof fn lemma_trim_keeps_ascii(s: Seq<char>)
    requires
        is_ascii_text(s),
    ensures
        is_ascii_text(trim(s)),
{
    lemma_trim_start_keeps_ascii(s);
    lemma_trim_end_keeps_ascii(trim_start(s));
}

/// Whether `w` is a word of small ASCII letters.
pub open spec fn is_small_word(w: Seq<char>) -> bool {
    w.len() > 0 && forall|i: int| 0 <= i < w.len() ==> 'a' <= #[trigger] w[i] <= 'z'
}

/// A word of small ASCII letters is its own trim and lowercase; written in capitals between
/// two spaces it is still ASCII, and trimming and lowercasing gives the word back.
pub proof fn lemma_small_word_cases(w: Seq<char>)
    requires
        is_small_word(w),
    ensures
        is_ascii_text(w),
        ascii_lower(trim(w)) == w,
        is_ascii_text(seq![' '] + ascii_upper(w) + seq![' ']),
        ascii_lower(trim(seq![' '] + ascii_upper(w) + seq![' '])) == w,
{
    let u = ascii_upper(w);
    let t = seq![' '] + u + seq![' '];
    assert forall|i: int| 0 <= i < u.len() implies 'A' <= #[trigger] u[i] <= 'Z' by {
        assert('a' <= w[i] <= 'z');
    }
    assert(trim_start(w) == w);
    assert(trim_end(w) == w);
    assert(ascii_lower(w) =~= w);
    assert forall|i: int| 0 <= i < t.len() implies (#[trigger] t[i] as u32) < 128 by {
        if 0 < i < t.len() - 1 {
            assert(t[i] == u[i - 1]);
        }
    }
    assert(t.drop_first() =~= u + seq![' ']);
    assert(!is_ws(u[0]));
    assert(trim_start(u + seq![' ']) == u + seq![' ']);
    assert((u + seq![' ']).drop_last() =~= u);
    assert(!is_ws(u.last()));
    assert(trim_end(u) == u);
    assert(trim_end(u + seq![' ']) == u);
    assert(trim(t) == u);
    assert forall|i: int| 0 <= i < w.len() implies #[trigger] ascii_lower(u)[i] == w[i] by {
        assert('a' <= w[i] <= 'z');
    }
    assert(ascii_lower(u) =~= w);
}

/// A decimal digit as Unicode's `Nd` category lists it (the regex `\d` class).
pub open spec fn is_decimal(c: char) -> bool {
    ('\u{30}' <= c <= '\u{39}') || ('\u{660}' <= c <= '\u{669}')
        || ('\u{6f0}' <= c <= '\u{6f9}') || ('\u{7c0}' <= c <= '\u{7c9}')
        || ('\u{966}' <= c <= '\u{96f}') || ('\u{9e6}' <= c <= '\u{9ef}')
        || ('\u{a66}' <= c <= '\u{a6f}') || ('\u{ae6}' <= c <= '\u{aef}')
        || ('\u{b66}' <= c <= '\u{b6f}') || ('\u{be6}' <= c <= '\u{bef}')
        || ('\u{c66}' <= c <= '\u{c6f}') || ('\u{ce6}' <= c <= '\u{cef}')
        || ('\u{d66}' <= c <= '\u{d6f}') || ('\u{de6}' <= c <= '\u{def}')
        || ('\u{e50}' <= c <= '\u{e59}') || ('\u{ed0}' <= c <= '\u{ed9}')
        || ('\u{f20}' <= c <= '\u{f29}') || ('\u{1040}' <= c <= '\u{1049}')
        || ('\u{1090}' <= c <= '\u{1099}') || ('\u{17e0}' <= c <= '\u{17e9}')
        || ('\u{1810}' <= c <= '\u{1819}') || ('\u{1946}' <= c <= '\u{194f}')
        || ('\u{19d0}' <= c <= '\u{19d9}') || ('\u{1a80}' <= c <= '\u{1a89}')
        || ('\u{1a90}' <= c <= '\u{1a99}') || ('\u{1b50}' <= c <= '\u{1b59}')
        || ('\u{1bb0}' <= c <= '\u{1bb9}') || ('\u{1c40}' <= c <= '\u{1c49}')
        || ('\u{1c50}' <= c <= '\u{1c59}') || ('\u{a620}' <= c <= '\u{a629}')
        || ('\u{a8d0}' <= c <= '\u{a8d9}') || ('\u{a900}' <= c <= '\u{a909}')
        || ('\u{a9d0}' <= c <= '\u{a9d9}') || ('\u{a9f0}' <= c <= '\u{a9f9}')
        || ('\u{aa50}' <= c <= '\u{aa59}') || ('\u{abf0}' <= c <= '\u{abf9}')
        || ('\u{ff10}' <= c <= '\u{ff19}') || ('\u{104a0}' <= c <= '\u{104a9}')
        || ('\u{10d30}' <= c <= '\u{10d39}') || ('\u{10d40}' <= c <= '\u{10d49}')
        || ('\u{11066}' <= c <= '\u{1106f}') || ('\u{110f0}' <= c <= '\u{110f9}')
        || ('\u{11136}' <= c <= '\u{1113f}') || ('\u{111d0}' <= c <= '\u{111d9}')
        || ('\u{112f0}' <= c <= '\u{112f9}') || ('\u{11450}' <= c <= '\u{11459}')
        || ('\u{114d0}' <= c <= '\u{114d9}') || ('\u{11650}' <= c <= '\u{11659}')
        || ('\u{116c0}' <= c <= '\u{116c9}') || ('\u{116d0}' <= c <= '\u{116e3}')
        || ('\u{11730}' <= c <= '\u{11739}') || ('\u{118e0}' <= c <= '\u{118e9}')
        || ('\u{11950}' <= c <= '\u{11959}') || ('\u{11bf0}' <= c <= '\u{11bf9}')
        || ('\u{11c50}' <= c <= '\u{11c59}') || ('\u{11d50}' <= c <= '\u{11d59}')
        || ('\u{11da0}' <= c <= '\u{11da9}') || ('\u{11f50}' <= c <= '\u{11f59}')
        || ('\u{16130}' <= c <= '\u{16139}') || ('\u{16a60}' <= c <= '\u{16a69}')
        || ('\u{16ac0}' <= c <= '\u{16ac9}') || ('\u{16b50}' <= c <= '\u{16b59}')
        || ('\u{16d70}' <= c <= '\u{16d79}') || ('\u{1ccf0}' <= c <= '\u{1ccf9}')
        || ('\u{1d7ce}' <= c <= '\u{1d7ff}') || ('\u{1e140}' <= c <= '\u{1e149}')
        || ('\u{1e2f0}' <= c <= '\u{1e2f9}') || ('\u{1e4f0}' <= c <= '\u{1e4f9}')
        || ('\u{1e5f1}' <= c <= '\u{1e5fa}') || ('\u{1e950}' <= c <= '\u{1e959}')
        || ('\u{1fbf0}' <= c <= '\u{1fbf9}')
}

/// Whether `c` is a Unicode decimal digit.
pub fn is_decimal_char(c: char) -> (r: bool)
    ensures
        r == is_decimal(c),
{
    ('\u{30}' <= c && c <= '\u{39}') || ('\u{660}' <= c && c <= '\u{669}')
        || ('\u{6f0}' <= c && c <= '\u{6f9}') || ('\u{7c0}' <= c && c <= '\u{7c9}')
        || ('\u{966}' <= c && c <= '\u{96f}') || ('\u{9e6}' <= c && c <= '\u{9ef}')
        || ('\u{a66}' <= c && c <= '\u{a6f}') || ('\u{ae6}' <= c && c <= '\u{aef}')
        || ('\u{b66}' <= c && c <= '\u{b6f}') || ('\u{be6}' <= c && c <= '\u{bef}')
        || ('\u{c66}' <= c && c <= '\u{c6f}') || ('\u{ce6}' <= c && c <= '\u{cef}')
        || ('\u{d66}' <= c && c <= '\u{d6f}') || ('\u{de6}' <= c && c <= '\u{def}')
        || ('\u{e50}' <= c && c <= '\u{e59}') || ('\u{ed0}' <= c && c <= '\u{ed9}')
        || ('\u{f20}' <= c && c <= '\u{f29}') || ('\u{1040}' <= c && c <= '\u{1049}')
        || ('\u{1090}' <= c && c <= '\u{1099}') || ('\u{17e0}' <= c && c <= '\u{17e9}')
        || ('\u{1810}' <= c && c <= '\u{1819}') || ('\u{1946}' <= c && c <= '\u{194f}')
        || ('\u{19d0}' <= c && c <= '\u{19d9}') || ('\u{1a80}' <= c && c <= '\u{1a89}')
        || ('\u{1a90}' <= c && c <= '\u{1a99}') || ('\u{1b50}' <= c && c <= '\u{1b59}')
        || ('\u{1bb0}' <= c && c <= '\u{1bb9}') || ('\u{1c40}' <= c && c <= '\u{1c49}')
        || ('\u{1c50}' <= c && c <= '\u{1c59}') || ('\u{a620}' <= c && c <= '\u{a629}')
        || ('\u{a8d0}' <= c && c <= '\u{a8d9}') || ('\u{a900}' <= c && c <= '\u{a909}')
        || ('\u{a9d0}' <= c && c <= '\u{a9d9}') || ('\u{a9f0}' <= c && c <= '\u{a9f9}')
        || ('\u{aa50}' <= c && c <= '\u{aa59}') || ('\u{abf0}' <= c && c <= '\u{abf9}')
        || ('\u{ff10}' <= c && c <= '\u{ff19}') || ('\u{104a0}' <= c && c <= '\u{104a9}')
        || ('\u{10d30}' <= c && c <= '\u{10d39}') || ('\u{10d40}' <= c && c <= '\u{10d49}')
        || ('\u{11066}' <= c && c <= '\u{1106f}') || ('\u{110f0}' <= c && c <= '\u{110f9}')
        || ('\u{11136}' <= c && c <= '\u{1113f}') || ('\u{111d0}' <= c && c <= '\u{111d9}')
        || ('\u{112f0}' <= c && c <= '\u{112f9}') || ('\u{11450}' <= c && c <= '\u{11459}')
        || ('\u{114d0}' <= c && c <= '\u{114d9}') || ('\u{11650}' <= c && c <= '\u{11659}')
        || ('\u{116c0}' <= c && c <= '\u{116c9}') || ('\u{116d0}' <= c && c <= '\u{116e3}')
        || ('\u{11730}' <= c && c <= '\u{11739}') || ('\u{118e0}' <= c && c <= '\u{118e9}')
        || ('\u{11950}' <= c && c <= '\u{11959}') || ('\u{11bf0}' <= c && c <= '\u{11bf9}')
        || ('\u{11c50}' <= c && c <= '\u{11c59}') || ('\u{11d50}' <= c && c <= '\u{11d59}')
        || ('\u{11da0}' <= c && c <= '\u{11da9}') || ('\u{11f50}' <= c && c <= '\u{11f59}')
        || ('\u{16130}' <= c && c <= '\u{16139}') || ('\u{16a60}' <= c && c <= '\u{16a69}')
        || ('\u{16ac0}' <= c && c <= '\u{16ac9}') || ('\u{16b50}' <= c && c <= '\u{16b59}')
        || ('\u{16d70}' <= c && c <= '\u{16d79}') || ('\u{1ccf0}' <= c && c <= '\u{1ccf9}')
        || ('\u{1d7ce}' <= c && c <= '\u{1d7ff}') || ('\u{1e140}' <= c && c <= '\u{1e149}')
        || ('\u{1e2f0}' <= c && c <= '\u{1e2f9}') || ('\u{1e4f0}' <= c && c <= '\u{1e4f9}')
        || ('\u{1e5f1}' <= c && c <= '\u{1e5fa}') || ('\u{1e950}' <= c && c <= '\u{1e959}')
        || ('\u{1fbf0}' <= c && c <= '\u{1fbf9}')
}

/// The first position at or after `k` that does not hold whitespace (the length when
/// there is none).
pub open spec fn skip_ws_from(s: Seq<char>, k: int) -> int
    decreases s.len() - k,
{
    if 0 <= k < s.len() && is_ws(s[k]) {
        skip_ws_from(s, k + 1)
    } else {
        k
    }
}

/// Skips whitespace from position `k`.
pub fn skip_ws_at(s: &Vec<char>, k: usize) -> (r: usize)
    requires
        k <= s@.len(),
    ensures
        r == skip_ws_from(s@, k as int),
        k <= r <= s@.len(),
        r < s@.len() ==> !is_ws(s@[r as int]),
{
    let mut i = k;
    while i < s.len() && is_whitespace(s[i])
        invariant
            k <= i <= s@.len(),
            skip_ws_from(s@, k as int) == skip_ws_from(s@, i as int),
        decreases s@.len() - i,
    {
        i = i + 1;
    }
    i
}

/// The characters of `s` from `a` up to `b`, as a string.
pub fn chars_between(s: &Vec<char>, a: usize, b: usize) -> (r: String)
    requires
        a <= b <= s@.len(),
    ensures
        r@ == s@.subrange(a as int, b as int),
{
    let mut r = String::new();
    let mut i = a;
    while i < b
        invariant
            a <= i <= b <= s@.len(),
            r@ == s@.subrange(a as int, i as int),
        decreases b - i,
    {
        let ghost pre = r@;
        push_char(&mut r, s[i]);
        assert(r@ =~= s@.subrange(a as int, i + 1));
        i = i + 1;
    }
    r
}

/// `s` holds `w` from position `k` on.
pub open spec fn text_at(s: Seq<char>, k: int, w: Seq<char>) -> bool {
    0 <= k && k + w.len() <= s.len() && s.subrange(k, k + w.len()) == w
}

/// Whether `s` holds `w` from position `k` on.
pub fn chars_at(s: &Vec<char>, k: usize, w: &str) -> (r: bool)
    ensures
        r == text_at(s@, k as int, w@),
{
    let ws = chars_of(w);
    if k > s.len() || ws.len() > s.len() - k {
        return false;
    }
    let mut j: usize = 0;
    while j < ws.len()
        invariant
            ws@ == w@,
            k + ws@.len() <= s@.len(),
            s@.len() <= usize::MAX,
            j <= ws@.len(),
            forall|i: int| 0 <= i < j ==> s@[k + i] == ws@[i],
        decreases ws@.len() - j,
    {
        if s[k + j] != ws[j] {
            assert(s@.subrange(k as int, k + ws@.len())[j as int] != w@[j as int]);
            return false;
        }
        j = j + 1;
    }
    assert(s@.subrange(k as int, k + ws@.len()) =~= w@);
    true
}

/// Whether `c` occurs in `s` from position `k` on.
pub fn contains_from(s: &Vec<char>, k: usize, c: char) -> (r: bool)
    requires
        k <= s@.len(),
    ensures
        r == s@.skip(k as int).contains(c),
{
    let mut i = k;
    while i < s.len()
        invariant
            k <= i <= s@.len(),
            forall|j: int| k <= j < i ==> s@[j] != c,
        decreases s@.len() - i,
    {
        if s[i] == c {
            assert(s@.skip(k as int)[i - k] == c);
            return true;
        }
        i = i + 1;
    }
    assert forall|j: int| 0 <= j < s@.skip(k as int).len() implies s@.skip(k as int)[j] != c by {
        assert(s@.skip(k as int)[j] == s@[k + j]);
    }
    false
}

/// Whether `c` occurs in `s` between positions `a` and `b`.
pub fn range_contains(s: &Vec<char>, a: usize, b: usize, c: char) -> (r: bool)
    requires
        a <= b <= s@.len(),
    ensures
        r == s@.subrange(a as int, b as int).contains(c),
{
    let mut i = a;
    while i < b
        invariant
            a <= i <= b <= s@.len(),
            forall|j: int| a <= j < i ==> s@[j] != c,
        decreases b - i,
    {
        if s[i] == c {
            assert(s@.subrange(a as int, b as int)[i - a] == c);
            return true;
        }
        i = i + 1;
    }
    assert forall|j: int| 0 <= j < s@.subrange(a as int, b as int).len() implies s@.subrange(
        a as int,
        b as int,
    )[j] != c by {
        assert(s@.subrange(a as int, b as int)[j] == s@[a + j]);
    }
    false
}

/// Trims leading and trailing whitespace.
pub fn trim_str(s: &str) -> (r: String)
    ensures
        r@ == trim(s@),
{
    let v = chars_of(s);
    let n = v.len();
    let mut i: usize = 0;
    assert(v@.subrange(0, n as int) =~= v@);
    while i < n && is_whitespace(v[i])
        invariant
            n == v@.len(),
            i <= n,
            trim_start(v@) == trim_start(v@.subrange(i as int, n as int)),
        decreases n - i,
    {
        assert(v@.subrange(i as int, n as int).drop_first() =~= v@.subrange(i + 1, n as int));
        i += 1;
    }
    assert(trim_start(v@) == v@.subrange(i as int, n as int));
    let mut j: usize = n;
    while j > i && is_whitespace(v[j - 1])
        invariant
            n == v@.len(),
            i <= j <= n,
            trim(v@) == trim_end(v@.subrange(i as int, j as int)),
        decreases j,
    {
        assert(v@.subrange(i as int, j as int).drop_last() =~= v@.subrange(i as int, j - 1));
        j -= 1;
    }
    substring(&v, i, j)
}

/// Whether `c` is an ASCII digit.
pub open spec fn is_digit(c: char) -> bool {
    '0' <= c <= '9'
}

/// Value of a run of ASCII digits.
pub open spec fn digits_value(d: Seq<char>) -> nat
    decreases d.len(),
{
    if d.len() == 0 {
        0
    } else {
        digits_value(d.drop_last()) * 10 + (d.last() as nat - '0' as nat) as nat
    }
}

/// The text after an optional leading `+`.
pub open spec fn unsigned_digits(s: Seq<char>) -> Seq<char> {
    if s.len() > 0 && s[0] == '+' {
        s.drop_first()
    } else {
        s
    }
}

/// Every character is an ASCII digit.
pub open spec fn all_digits(d: Seq<char>) -> bool {
    forall|i: int| 0 <= i < d.len() ==> is_digit(#[trigger] d[i])
}

/// Rust's `u64::from_str`: an optional `+`, then one or more ASCII digits whose value fits.
pub open spec fn spec_parse_u64(s: Seq<char>) -> Option<u64> {
    let d = unsigned_digits(s);
    if d.len() > 0 && all_digits(d) && digits_value(d) <= u64::MAX {
        Some(digits_value(d) as u64)
    } else {
        None
    }
}

/// Parses an unsigned decimal integer the way `str::parse::<u64>` does.
pub fn parse_u64(s: &str) -> (r: Option<u64>)
    ensures
        r == spec_parse_u64(s@),
{
    let v = chars_of(s);
    let n = v.len();
    let start: usize = if n > 0 && v[0] == '+' { 1 } else { 0 };
    let ghost d = unsigned_digits(s@);
    assert(d =~= s@.subrange(start as int, n as int));
    if start == n {
        return None;
    }
    let mut acc: u64 = 0;
    let mut i: usize = start;
    assert(s@.subrange(start as int, start as int) =~= Seq::<char>::empty());
    while i < n
        invariant
            v@ == s@,
            n == v@.len(),
            start <= i <= n,
            start < n,
            d == s@.subrange(start as int, n as int),
            d == unsigned_digits(s@),
            forall|k: int| start <= k < i ==> is_digit(#[trigger] v@[k]),
            acc == digits_value(s@.subrange(start as int, i as int)),
        decreases n - i,
    {
        let c = v[i];
        if c < '0' || c > '9' {
            assert(d[i - start] == c);
            assert(!is_digit(d[i - start]));
            assert(!all_digits(d));
            return None;
        }
        let digit = (c as u32 - '0' as u32) as u64;
        let ghost next = s@.subrange(start as int, i + 1);
        assert(next.drop_last() =~= s@.subrange(start as int, i as int));
        assert(next.last() == c);
        assert(digits_value(next) == acc * 10 + digit);
        if acc > (u64::MAX - digit) / 10 {
            assert(digits_value(next) > u64::MAX) by (nonlinear_arith)
                requires
                    digits_value(next) == acc * 10 + digit,
                    acc > (u64::MAX - digit) / 10,
                    digit <= 9,
            ;
            proof {
                if all_digits(d) {
                    lemma_digits_value_grows(d, i + 1 - start);
                    assert(d.take(i + 1 - start) =~= next);
                }
            }
            assert(digits_value(d) > u64::MAX || !all_digits(d));
            return None;
        }
        assert(acc * 10 + digit <= u64::MAX) by (nonlinear_arith)
            requires
                acc <= (u64::MAX - digit) / 10,
                digit <= 9,
        ;
        acc = acc * 10 + digit;
        i += 1;
    }
    assert(forall|k: int| 0 <= k < d.len() ==> d[k] == v@[k + start]);
    assert(all_digits(d));
    assert(d =~= s@.subrange(start as int, n as int));
    Some(acc)
}

/// A longer run of digits is worth at least as much as its prefix.
proof fn lemma_digits_value_grows(d: Seq<char>, k: int)
    requires
        0 <= k <= d.len(),
        forall|i: int| 0 <= i < d.len() ==> is_digit(#[trigger] d[i]),
    ensures
        digits_value(d.take(k)) <= digits_value(d),
    decreases d.len(),
{
    if k < d.len() {
        assert(d.drop_last().take(k) =~= d.take(k));
        lemma_digits_value_grows(d.drop_last(), k);
        assert(digits_value(d.drop_last()) <= digits_value(d)) by (nonlinear_arith)
            requires
                digits_value(d) == digits_value(d.drop_last()) * 10 + (d.last() as nat - '0' as nat) as nat,
        ;
    } else {
        assert(d.take(k) =~= d);
    }
}

} // verus!
