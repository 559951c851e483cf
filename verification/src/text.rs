//! Character-level text operations with their mathematical meaning.
//!
//! Every string is modelled by its view, the sequence of its characters.
use vstd::prelude::*;
use vstd::string::*;
use vstd::utf8::{decode_utf8, valid_utf8};

verus! {

/// The Unicode `White_Space` characters, the set that `char::is_whitespace` tests.
pub open spec fn is_ws(c: char) -> bool {
    ||| ('\u{9}' <= c && c <= '\u{d}')
    ||| c == ' '
    ||| c == '\u{85}'
    ||| c == '\u{a0}'
    ||| c == '\u{1680}'
    ||| ('\u{2000}' <= c && c <= '\u{200a}')
    ||| c == '\u{2028}'
    ||| c == '\u{2029}'
    ||| c == '\u{202f}'
    ||| c == '\u{205f}'
    ||| c == '\u{3000}'
}

/// The sequence without its leading white space.
pub open spec fn trim_start(s: Seq<char>) -> Seq<char>
    decreases s.len(),
{
    if s.len() > 0 && is_ws(s[0]) {
        trim_start(s.drop_first())
    } else {
        s
    }
}

/// The sequence without its trailing white space.
pub open spec fn trim_end(s: Seq<char>) -> Seq<char>
    decreases s.len(),
{
    if s.len() > 0 && is_ws(s.last()) {
        trim_end(s.drop_last())
    } else {
        s
    }
}

/// The sequence without white space at either end.
pub open spec fn trim(s: Seq<char>) -> Seq<char> {
    trim_end(trim_start(s))
}

/// `p` stands at the start of `s`.
pub open spec fn has_prefix(s: Seq<char>, p: Seq<char>) -> bool {
    p.len() <= s.len() && s.take(p.len() as int) == p
}

/// `p` stands at the end of `s`.
pub open spec fn has_suffix(s: Seq<char>, p: Seq<char>) -> bool {
    p.len() <= s.len() && s.skip(s.len() - p.len()) == p
}

/// What is left of `s` once the prefix `p` is taken away, if `s` starts with it.
pub open spec fn strip_prefix_spec(s: Seq<char>, p: Seq<char>) -> Option<Seq<char>> {
    if has_prefix(s, p) {
        Some(s.skip(p.len() as int))
    } else {
        None
    }
}

/// What is left of `s` once the suffix `p` is taken away, if `s` ends with it.
pub open spec fn strip_suffix_spec(s: Seq<char>, p: Seq<char>) -> Option<Seq<char>> {
    if has_suffix(s, p) {
        Some(s.take(s.len() - p.len()))
    } else {
        None
    }
}

/// The index of the first `c` in `s`.
pub open spec fn find_char(s: Seq<char>, c: char) -> Option<int>
    decreases s.len(),
{
    if s.len() == 0 {
        None
    } else if s[0] == c {
        Some(0)
    } else {
        match find_char(s.drop_first(), c) {
            Some(i) => Some(i + 1),
            None => None,
        }
    }
}

/// The index of the last `c` in `s`.
pub open spec fn rfind_char(s: Seq<char>, c: char) -> Option<int>
    decreases s.len(),
{
    if s.len() == 0 {
        None
    } else if s.last() == c {
        Some(s.len() - 1)
    } else {
        rfind_char(s.drop_last(), c)
    }
}

/// The parts of `s` before and after its first `c`.
pub open spec fn split_once_spec(s: Seq<char>, c: char) -> Option<(Seq<char>, Seq<char>)> {
    match find_char(s, c) {
        Some(i) => Some((s.take(i), s.skip(i + 1))),
        None => None,
    }
}

/// The parts of `s` before and after its last `c`.
pub open spec fn rsplit_once_spec(s: Seq<char>, c: char) -> Option<(Seq<char>, Seq<char>)> {
    match rfind_char(s, c) {
        Some(i) => Some((s.take(i), s.skip(i + 1))),
        None => None,
    }
}

/// A line as it ends before a `'\n'`: one carriage return before the newline is no part of it.
pub open spec fn strip_cr(s: Seq<char>) -> Seq<char> {
    if s.len() > 0 && s.last() == '\r' {
        s.drop_last()
    } else {
        s
    }
}

/// The lines of a text: split after each `'\n'`, a `"\r\n"` ending counts as one, and a
/// final line ending adds no empty line.
pub open spec fn lines_spec(s: Seq<char>) -> Seq<Seq<char>>
    decreases s.len(),
{
    if s.len() == 0 {
        Seq::empty()
    } else {
        match find_char(s, '\n') {
            Some(i) => {
                proof {
                    lemma_find_char(s, '\n');
                }
                seq![strip_cr(s.take(i))] + lines_spec(s.skip(i + 1))
            },
            None => seq![s],
        }
    }
}

/// Each character with `f` applied.
pub open spec fn map_chars(s: Seq<char>, f: spec_fn(char) -> char) -> Seq<char> {
    s.map_values(f)
}

/// The views of a sequence of strings.
pub open spec fn views(v: Seq<String>) -> Seq<Seq<char>> {
    v.map_values(|x: String| x@)
}

/// The character `c` is an ASCII digit.
pub open spec fn is_ascii_digit(c: char) -> bool {
    '0' <= c && c <= '9'
}

/// The character `c` is an ASCII lower-case letter.
pub open spec fn is_ascii_lower(c: char) -> bool {
    'a' <= c && c <= 'z'
}

/// The character `c` is an ASCII upper-case letter.
pub open spec fn is_ascii_upper(c: char) -> bool {
    'A' <= c && c <= 'Z'
}

/// The character `c` is an ASCII letter or digit.
pub open spec fn is_ascii_alnum(c: char) -> bool {
    is_ascii_digit(c) || is_ascii_lower(c) || is_ascii_upper(c)
}

/// `c` with ASCII upper-case letters mapped to lower case.
pub open spec fn ascii_lower(c: char) -> char {
    if is_ascii_upper(c) {
        ((c as u32) + 32) as char
    } else {
        c
    }
}

pub proof fn lemma_find_char(s: Seq<char>, c: char)
    ensures
        match find_char(s, c) {
            Some(i) => 0 <= i < s.len() && s[i] == c && forall|j: int| 0 <= j < i ==> s[j] != c,
            None => forall|j: int| 0 <= j < s.len() ==> s[j] != c,
        },
    decreases s.len(),
{
    if s.len() > 0 && s[0] != c {
        lemma_find_char(s.drop_first(), c);
        match find_char(s.drop_first(), c) {
            Some(i) => {
                assert forall|j: int| 0 <= j < i + 1 implies s[j] != c by {
                    if j > 0 {
                        assert(s[j] == s.drop_first()[j - 1]);
                    }
                }
            },
            None => {
                assert forall|j: int| 0 <= j < s.len() implies s[j] != c by {
                    if j > 0 {
                        assert(s[j] == s.drop_first()[j - 1]);
                    }
                }
            },
        }
    }
}

/// The first index is the one with no `c` before it.
pub proof fn lemma_find_char_at(s: Seq<char>, c: char, i: int)
    requires
        0 <= i < s.len(),
        s[i] == c,
        forall|j: int| 0 <= j < i ==> s[j] != c,
    ensures
        find_char(s, c) == Some(i),
{
    lemma_find_char(s, c);
    match find_char(s, c) {
        Some(k) => {
            if k < i {
                assert(s[k] != c);
            }
            if k > i {
                assert(s[i] != c);
            }
        },
        None => {
            assert(s[i] != c);
        },
    }
}

pub proof fn lemma_find_char_none(s: Seq<char>, c: char)
    requires
        forall|j: int| 0 <= j < s.len() ==> s[j] != c,
    ensures
        find_char(s, c) == None::<int>,
{
    lemma_find_char(s, c);
    match find_char(s, c) {
        Some(k) => {
            assert(s[k] != c);
        },
        None => {},
    }
}

pub proof fn lemma_rfind_char(s: Seq<char>, c: char)
    ensures
        match rfind_char(s, c) {
            Some(i) => 0 <= i < s.len() && s[i] == c && forall|j: int| i < j < s.len() ==> s[j]
                != c,
            None => forall|j: int| 0 <= j < s.len() ==> s[j] != c,
        },
    decreases s.len(),
{
    if s.len() > 0 && s.last() != c {
        lemma_rfind_char(s.drop_last(), c);
        match rfind_char(s.drop_last(), c) {
            Some(i) => {
                assert forall|j: int| i < j < s.len() implies s[j] != c by {
                    if j < s.len() - 1 {
                        assert(s[j] == s.drop_last()[j]);
                    }
                }
            },
            None => {
                assert forall|j: int| 0 <= j < s.len() implies s[j] != c by {
                    if j < s.len() - 1 {
                        assert(s[j] == s.drop_last()[j]);
                    }
                }
            },
        }
    }
}

pub proof fn lemma_rfind_char_at(s: Seq<char>, c: char, i: int)
    requires
        0 <= i < s.len(),
        s[i] == c,
        forall|j: int| i < j < s.len() ==> s[j] != c,
    ensures
        rfind_char(s, c) == Some(i),
{
    lemma_rfind_char(s, c);
    match rfind_char(s, c) {
        Some(k) => {
            if k < i {
                assert(s[i] != c);
            }
            if k > i {
                assert(s[k] != c);
            }
        },
        None => {
            assert(s[i] != c);
        },
    }
}

pub proof fn lemma_rfind_char_none(s: Seq<char>, c: char)
    requires
        forall|j: int| 0 <= j < s.len() ==> s[j] != c,
    ensures
        rfind_char(s, c) == None::<int>,
{
    lemma_rfind_char(s, c);
    match rfind_char(s, c) {
        Some(k) => {
            assert(s[k] != c);
        },
        None => {},
    }
}

/// Leading white space up to `i` is what `trim_start` removes.
pub proof fn lemma_trim_start_at(s: Seq<char>, i: int)
    requires
        0 <= i <= s.len(),
        forall|j: int| 0 <= j < i ==> is_ws(s[j]),
        i == s.len() || !is_ws(s[i]),
    ensures
        trim_start(s) == s.skip(i),
    decreases i,
{
    if i == 0 {
        assert(s.skip(0) =~= s);
    } else {
        let t = s.drop_first();
        assert forall|j: int| 0 <= j < i - 1 implies is_ws(t[j]) by {
            assert(t[j] == s[j + 1]);
        }
        if i - 1 < t.len() {
            assert(t[i - 1] == s[i]);
        }
        lemma_trim_start_at(t, i - 1);
        assert(t.skip(i - 1) =~= s.skip(i));
    }
}

/// Trailing white space from `k` on is what `trim_end` removes.
pub proof fn lemma_trim_end_at(s: Seq<char>, k: int)
    requires
        0 <= k <= s.len(),
        forall|j: int| k <= j < s.len() ==> is_ws(s[j]),
        k == 0 || !is_ws(s[k - 1]),
    ensures
        trim_end(s) == s.take(k),
    decreases s.len() - k,
{
    if k == s.len() {
        assert(s.take(k) =~= s);
    } else {
        let t = s.drop_last();
        assert forall|j: int| k <= j < t.len() implies is_ws(t[j]) by {
            assert(t[j] == s[j]);
        }
        if k > 0 {
            assert(t[k - 1] == s[k - 1]);
        }
        lemma_trim_end_at(t, k);
        assert(t.take(k) =~= s.take(k));
    }
}

/// The lines of a text whose next newline is at `i`.
pub proof fn lemma_lines_step(s: Seq<char>, i: int)
    requires
        0 <= i < s.len(),
        s[i] == '\n',
        forall|j: int| 0 <= j < i ==> s[j] != '\n',
    ensures
        lines_spec(s) == seq![strip_cr(s.take(i))] + lines_spec(s.skip(i + 1)),
{
    lemma_find_char_at(s, '\n', i);
}

/// The lines of a text with no newline.
pub proof fn lemma_lines_last(s: Seq<char>)
    requires
        s.len() > 0,
        forall|j: int| 0 <= j < s.len() ==> s[j] != '\n',
    ensures
        lines_spec(s) == seq![s],
{
    lemma_find_char_none(s, '\n');
}

/// Calls `String::push`, which appends `c`: the contract states that the characters of
/// `s` afterwards are those before followed by `c`.
#[verifier::external_body]
pub(crate) fn push_char(s: &mut String, c: char)
    ensures
        final(s)@ == old(s)@.push(c),
{
    s.push(c)
}

/// The characters of `s`, in order.
pub fn chars_of(s: &str) -> (v: Vec<char>)
    ensures
        v@ == s@,
{
    let mut v: Vec<char> = Vec::new();
    for c in it: s.chars()
        invariant
            v@ == it.seq().take(it.index() as int),
            it.seq() == s@,
    {
        v.push(c);
    }
    v
}

/// The string made of the characters `v[from..to]`.
pub fn string_of(v: &Vec<char>, from: usize, to: usize) -> (r: String)
    requires
        from <= to <= v.len(),
    ensures
        r@ == v@.subrange(from as int, to as int),
{
    let mut r = String::new();
    let mut k = from;
    while k < to
        invariant
            from <= k <= to <= v.len(),
            r@ == v@.subrange(from as int, k as int),
        decreases to - k,
    {
        push_char(&mut r, v[k]);
        assert(v@.subrange(from as int, k + 1) =~= v@.subrange(from as int, k as int).push(v[k as int]));
        k = k + 1;
    }
    r
}

/// A copy of `s` as an owned string.
pub fn owned(s: &str) -> (r: String)
    ensures
        r@ == s@,
{
    let v = chars_of(s);
    string_of(&v, 0, v.len())
}

/// The concatenation of `a` and `b`.
pub fn concat(a: &str, b: &str) -> (r: String)
    ensures
        r@ == a@ + b@,
{
    let va = chars_of(a);
    let vb = chars_of(b);
    let mut r = string_of(&va, 0, va.len());
    let mut k: usize = 0;
    while k < vb.len()
        invariant
            k <= vb.len(),
            va@ == a@,
            vb@ == b@,
            r@ == a@ + b@.take(k as int),
        decreases vb.len() - k,
    {
        push_char(&mut r, vb[k]);
        assert(b@.take(k + 1) =~= b@.take(k as int).push(b@[k as int]));
        assert(a@ + b@.take(k + 1) =~= (a@ + b@.take(k as int)).push(b@[k as int]));
        k = k + 1;
    }
    assert(b@.take(vb.len() as int) =~= b@);
    r
}

/// The two strings have the same characters.
pub fn str_eq(a: &str, b: &str) -> (r: bool)
    ensures
        r == (a@ == b@),
{
    let va = chars_of(a);
    let vb = chars_of(b);
    if va.len() != vb.len() {
        return false;
    }
    let mut k: usize = 0;
    while k < va.len()
        invariant
            k <= va.len() == vb.len(),
            va@ == a@,
            vb@ == b@,
            forall|j: int| 0 <= j < k ==> a@[j] == b@[j],
        decreases va.len() - k,
    {
        if va[k] != vb[k] {
            return false;
        }
        k = k + 1;
    }
    assert(a@ =~= b@);
    true
}

/// `c` is white space.
pub fn is_whitespace(c: char) -> (r: bool)
    ensures
        r == is_ws(c),
{
    ('\u{9}' <= c && c <= '\u{d}') || c == ' ' || c == '\u{85}' || c == '\u{a0}' || c
        == '\u{1680}' || ('\u{2000}' <= c && c <= '\u{200a}') || c == '\u{2028}' || c
        == '\u{2029}' || c == '\u{202f}' || c == '\u{205f}' || c == '\u{3000}'
}

/// `c` is an ASCII digit.
pub fn is_digit(c: char) -> (r: bool)
    ensures
        r == is_ascii_digit(c),
{
    '0' <= c && c <= '9'
}

/// `s` without white space at either end.
pub fn trim_str(s: &str) -> (r: String)
    ensures
        r@ == trim(s@),
{
    let v = chars_of(s);
    let n = v.len();
    let mut i: usize = 0;
    while i < n && is_whitespace(v[i])
        invariant
            i <= n == v.len(),
            v@ == s@,
            forall|j: int| 0 <= j < i ==> is_ws(s@[j]),
        decreases n - i,
    {
        i = i + 1;
    }
    proof {
        lemma_trim_start_at(s@, i as int);
    }
    let mut k: usize = n;
    while k > i && is_whitespace(v[k - 1])
        invariant
            i <= k <= n == v.len(),
            v@ == s@,
            forall|j: int| k <= j < n ==> is_ws(s@[j]),
        decreases k,
    {
        k = k - 1;
    }
    proof {
        let t = s@.skip(i as int);
        assert forall|j: int| k - i <= j < t.len() implies is_ws(t[j]) by {
            assert(t[j] == s@[j + i]);
        }
        if k > i {
            assert(t[k - i - 1] == s@[k - 1]);
        }
        lemma_trim_end_at(t, k - i);
        assert(t.take(k - i) =~= s@.subrange(i as int, k as int));
    }
    string_of(&v, i, k)
}

/// The rest of `s` after the prefix `p`, if `s` starts with it.
pub fn strip_prefix(s: &str, p: &str) -> (r: Option<String>)
    ensures
        r matches Some(x) ==> strip_prefix_spec(s@, p@) == Some(x@),
        r is None ==> strip_prefix_spec(s@, p@) is None,
{
    let v = chars_of(s);
    let w = chars_of(p);
    if w.len() > v.len() {
        return None;
    }
    let mut k: usize = 0;
    while k < w.len()
        invariant
            k <= w.len() <= v.len(),
            v@ == s@,
            w@ == p@,
            forall|j: int| 0 <= j < k ==> s@[j] == p@[j],
        decreases w.len() - k,
    {
        if v[k] != w[k] {
            assert(s@.take(p@.len() as int)[k as int] != p@[k as int]);
            return None;
        }
        k = k + 1;
    }
    assert(s@.take(p@.len() as int) =~= p@);
    assert(v@.subrange(w.len() as int, v.len() as int) =~= s@.skip(p@.len() as int));
    Some(string_of(&v, w.len(), v.len()))
}

/// The start of `s` before the suffix `p`, if `s` ends with it.
pub fn strip_suffix(s: &str, p: &str) -> (r: Option<String>)
    ensures
        r matches Some(x) ==> strip_suffix_spec(s@, p@) == Some(x@),
        r is None ==> strip_suffix_spec(s@, p@) is None,
{
    let v = chars_of(s);
    let w = chars_of(p);
    if w.len() > v.len() {
        return None;
    }
    let off = v.len() - w.len();
    let mut k: usize = 0;
    while k < w.len()
        invariant
            k <= w.len() <= v.len(),
            off == v.len() - w.len(),
            v@ == s@,
            w@ == p@,
            forall|j: int| 0 <= j < k ==> s@[j + off] == p@[j],
        decreases w.len() - k,
    {
        if v[off + k] != w[k] {
            assert(s@.skip(off as int)[k as int] != p@[k as int]);
            return None;
        }
        k = k + 1;
    }
    assert(s@.skip(off as int) =~= p@);
    assert(v@.subrange(0, off as int) =~= s@.take(off as int));
    Some(string_of(&v, 0, off))
}

/// The index of the first `c` in `v`.
pub fn find_in(v: &Vec<char>, c: char) -> (r: Option<usize>)
    ensures
        r matches Some(i) ==> find_char(v@, c) == Some(i as int),
        r is None ==> find_char(v@, c) is None,
{
    let mut k: usize = 0;
    while k < v.len()
        invariant
            k <= v.len(),
            forall|j: int| 0 <= j < k ==> v@[j] != c,
        decreases v.len() - k,
    {
        if v[k] == c {
            proof {
                lemma_find_char_at(v@, c, k as int);
            }
            return Some(k);
        }
        k = k + 1;
    }
    proof {
        lemma_find_char_none(v@, c);
    }
    None
}

/// The index of the last `c` in `v`.
pub fn rfind_in(v: &Vec<char>, c: char) -> (r: Option<usize>)
    ensures
        r matches Some(i) ==> rfind_char(v@, c) == Some(i as int),
        r is None ==> rfind_char(v@, c) is None,
{
    let mut k: usize = v.len();
    while k > 0
        invariant
            k <= v.len(),
            forall|j: int| k <= j < v.len() ==> v@[j] != c,
        decreases k,
    {
        if v[k - 1] == c {
            proof {
                lemma_rfind_char_at(v@, c, k - 1);
            }
            return Some(k - 1);
        }
        k = k - 1;
    }
    proof {
        lemma_rfind_char_none(v@, c);
    }
    None
}

/// The parts of `s` before and after its first `c`.
pub fn split_once(s: &str, c: char) -> (r: Option<(String, String)>)
    ensures
        r matches Some(p) ==> split_once_spec(s@, c) == Some((p.0@, p.1@)),
        r is None ==> split_once_spec(s@, c) is None,
{
    let v = chars_of(s);
    match find_in(&v, c) {
        Some(i) => {
            proof {
                lemma_find_char(s@, c);
            }
            assert(v@.subrange(0, i as int) =~= s@.take(i as int));
            assert(v@.subrange(i + 1, v.len() as int) =~= s@.skip(i + 1));
            Some((string_of(&v, 0, i), string_of(&v, i + 1, v.len())))
        },
        None => None,
    }
}

/// The parts of `s` before and after its last `c`.
pub fn rsplit_once(s: &str, c: char) -> (r: Option<(String, String)>)
    ensures
        r matches Some(p) ==> rsplit_once_spec(s@, c) == Some((p.0@, p.1@)),
        r is None ==> rsplit_once_spec(s@, c) is None,
{
    let v = chars_of(s);
    match rfind_in(&v, c) {
        Some(i) => {
            proof {
                lemma_rfind_char(s@, c);
            }
            assert(v@.subrange(0, i as int) =~= s@.take(i as int));
            assert(v@.subrange(i + 1, v.len() as int) =~= s@.skip(i + 1));
            Some((string_of(&v, 0, i), string_of(&v, i + 1, v.len())))
        },
        None => None,
    }
}

/// The lines of `s`.
pub fn lines(s: &str) -> (r: Vec<String>)
    ensures
        views(r@) == lines_spec(s@),
{
    let v = chars_of(s);
    let n = v.len();
    let mut r: Vec<String> = Vec::new();
    let mut start: usize = 0;
    let mut k: usize = 0;
    proof {
        assert(s@.skip(0) =~= s@);
        assert(views(r@) + lines_spec(s@) =~= lines_spec(s@));
    }
    while k < n
        invariant
            start <= k <= n == v.len(),
            v@ == s@,
            forall|j: int| start <= j < k ==> s@[j] != '\n',
            views(r@) + lines_spec(s@.skip(start as int)) == lines_spec(s@),
        decreases n - k,
    {
        if v[k] == '\n' {
            let ghost rest = s@.skip(start as int);
            proof {
                assert forall|j: int| 0 <= j < k - start implies rest[j] != '\n' by {
                    assert(rest[j] == s@[j + start]);
                }
                assert(rest[k - start] == s@[k as int]);
                lemma_lines_step(rest, k - start);
                assert(rest.skip(k - start + 1) =~= s@.skip(k + 1));
                assert(rest.take(k - start) =~= v@.subrange(start as int, k as int));
            }
            let mut line_end = k;
            if line_end > start && v[line_end - 1] == '\r' {
                line_end = line_end - 1;
            }
            let line = string_of(&v, start, line_end);
            proof {
                assert(line@ == strip_cr(rest.take(k - start)));
            }
            let ghost before = r@;
            r.push(line);
            proof {
                assert(views(r@) =~= views(before).push(line@));
                assert(views(r@) + lines_spec(s@.skip(k + 1)) =~= views(before) + (seq![line@]
                    + lines_spec(s@.skip(k + 1))));
            }
            start = k + 1;
        }
        k = k + 1;
    }
    if start < n {
        let ghost rest = s@.skip(start as int);
        proof {
            assert forall|j: int| 0 <= j < rest.len() implies rest[j] != '\n' by {
                assert(rest[j] == s@[j + start]);
            }
            lemma_lines_last(rest);
            assert(rest =~= v@.subrange(start as int, n as int));
        }
        let line = string_of(&v, start, n);
        let ghost before = r@;
        r.push(line);
        proof {
            assert(views(r@) =~= views(before).push(line@));
            assert(views(before) + seq![line@] =~= views(r@));
        }
    } else {
        proof {
            assert(s@.skip(start as int).len() == 0);
            assert(views(r@) + Seq::<Seq<char>>::empty() =~= views(r@));
        }
    }
    r
}

/// `p` occurs somewhere in `s`.
pub open spec fn has_infix(s: Seq<char>, p: Seq<char>) -> bool {
    exists|i: int| 0 <= i && i + p.len() <= s.len() && #[trigger] s.subrange(i, i + p.len()) == p
}

/// `p` occurs somewhere in `s`.
pub fn contains_str(s: &str, p: &str) -> (r: bool)
    ensures
        r == has_infix(s@, p@),
{
    let v = chars_of(s);
    let w = chars_of(p);
    if w.len() > v.len() {
        return false;
    }
    let last = v.len() - w.len();
    let mut i: usize = 0;
    while i <= last
        invariant
            last == v.len() - w.len(),
            w.len() <= v.len(),
            v@ == s@,
            w@ == p@,
            forall|j: int| 0 <= j < i ==> #[trigger] s@.subrange(j, j + p@.len()) != p@,
        decreases last + 1 - i,
    {
        let mut k: usize = 0;
        let mut same = true;
        while k < w.len()
            invariant
                i <= last,
                last == v.len() - w.len(),
                k <= w.len() <= v.len(),
                v@ == s@,
                w@ == p@,
                same ==> forall|j: int| 0 <= j < k ==> s@[i + j] == p@[j],
                !same ==> s@.subrange(i as int, i + p@.len()) != p@,
            decreases w.len() - k,
        {
            if v[i + k] != w[k] {
                assert(s@.subrange(i as int, i + p@.len())[k as int] != p@[k as int]);
                same = false;
            }
            k = k + 1;
        }
        if same {
            assert(s@.subrange(i as int, i + p@.len()) =~= p@);
            return true;
        }
        if i == last {
            assert forall|j: int| 0 <= j && j + p@.len() <= s@.len() implies #[trigger] s@.subrange(j, j + p@.len()) != p@ by {
                assert(j <= i);
            }
            return false;
        }
        i = i + 1;
    }
    false
}

/// The first position at or after `i` where `p` occurs in `s`.
pub open spec fn find_str_from(s: Seq<char>, p: Seq<char>, i: int) -> Option<int>
    decreases s.len() + 1 - i,
{
    if i < 0 || i + p.len() > s.len() {
        None
    } else if s.subrange(i, i + p.len()) == p {
        Some(i)
    } else {
        find_str_from(s, p, i + 1)
    }
}

/// The parts of `s` before and after the first occurrence of `p`.
pub open spec fn split_once_str_spec(s: Seq<char>, p: Seq<char>) -> Option<(Seq<char>, Seq<char>)> {
    match find_str_from(s, p, 0) {
        Some(i) => Some((s.take(i), s.skip(i + p.len()))),
        None => None,
    }
}

/// `find_str_from` finds the first true occurrence.
pub proof fn lemma_find_str_from(s: Seq<char>, p: Seq<char>, i: int)
    requires
        0 <= i,
    ensures
        find_str_from(s, p, i) matches Some(k) ==> i <= k && k + p.len() <= s.len() && s.subrange(
            k,
            k + p.len(),
        ) == p && forall|j: int| i <= j < k ==> #[trigger] s.subrange(j, j + p.len()) != p,
        find_str_from(s, p, i) is None ==> forall|j: int|
            i <= j && j + p.len() <= s.len() ==> #[trigger] s.subrange(j, j + p.len()) != p,
    decreases s.len() + 1 - i,
{
    if !(i + p.len() > s.len()) && s.subrange(i, i + p.len()) != p {
        lemma_find_str_from(s, p, i + 1);
    }
}

/// The first position where `p` occurs in `s`.
pub fn find_str(s: &str, p: &str) -> (r: Option<usize>)
    ensures
        find_str_from(s@, p@, 0) == match r {
            Some(k) => Some(k as int),
            None => None::<int>,
        },
{
    let v = chars_of(s);
    let w = chars_of(p);
    if w.len() > v.len() {
        return None;
    }
    let last = v.len() - w.len();
    let mut i: usize = 0;
    while i <= last
        invariant
            last == v.len() - w.len(),
            w.len() <= v.len(),
            v@ == s@,
            w@ == p@,
            find_str_from(s@, p@, 0) == find_str_from(s@, p@, i as int),
        decreases last + 1 - i,
    {
        let mut k: usize = 0;
        let mut same = true;
        while k < w.len()
            invariant
                i <= last,
                last == v.len() - w.len(),
                k <= w.len() <= v.len(),
                v@ == s@,
                w@ == p@,
                same ==> forall|j: int| 0 <= j < k ==> s@[i + j] == p@[j],
                !same ==> s@.subrange(i as int, i + p@.len()) != p@,
            decreases w.len() - k,
        {
            if v[i + k] != w[k] {
                assert(s@.subrange(i as int, i + p@.len())[k as int] != p@[k as int]);
                same = false;
            }
            k = k + 1;
        }
        if same {
            assert(s@.subrange(i as int, i + p@.len()) =~= p@);
            return Some(i);
        }
        if i == last {
            assert(find_str_from(s@, p@, i + 1) is None);
            return None;
        }
        i = i + 1;
    }
    None
}

/// The parts of `s` before and after the first occurrence of `p`.
pub fn split_once_str(s: &str, p: &str) -> (r: Option<(String, String)>)
    ensures
        split_once_str_spec(s@, p@) == match r {
            Some(x) => Some((x.0@, x.1@)),
            None => None::<(Seq<char>, Seq<char>)>,
        },
{
    match find_str(s, p) {
        Some(i) => {
            proof {
                lemma_find_str_from(s@, p@, 0);
            }
            let v = chars_of(s);
            let w = chars_of(p);
            let n = w.len();
            assert(find_str_from(s@, p@, 0) == Some(i as int));
            assert(i + p@.len() <= s@.len());
            assert(w@.len() == p@.len());
            assert(v@.len() == s@.len());
            assert(i + n <= v.len());
            let a = string_of(&v, 0, i);
            let b = string_of(&v, i + n, v.len());
            assert(a@ =~= s@.take(i as int));
            assert(b@ =~= s@.skip(i + p@.len()));
            Some((a, b))
        },
        None => None,
    }
}

/// The ASCII digit for `d`, which is below ten.
pub open spec fn digit_char(d: nat) -> char {
    ((d + 48) as u32) as char
}

/// The decimal digits of `n`, without leading zeros.
pub open spec fn decimal(n: nat) -> Seq<char>
    decreases n,
{
    if n < 10 {
        seq![digit_char(n)]
    } else {
        decimal(n / 10).push(digit_char(n % 10))
    }
}

/// The decimal digits of `n`.
pub fn decimal_str(n: u64) -> (r: String)
    ensures
        r@ == decimal(n as nat),
    decreases n,
{
    let d: u8 = (n % 10) as u8;
    let c: char = (d + 48) as char;
    assert(c == digit_char((n % 10) as nat));
    if n < 10 {
        let mut r = String::new();
        push_char(&mut r, c);
        assert(r@ =~= seq![c]);
        r
    } else {
        let mut r = decimal_str(n / 10);
        push_char(&mut r, c);
        r
    }
}

/// Calls `String::from_utf8`, which gives the text when the bytes are valid UTF-8 and an
/// error otherwise: the contract states that a text comes back exactly for valid UTF-8 (as
/// `vstd::utf8::valid_utf8` defines it) and that its characters are the decoded bytes. The
/// error value is mapped to `None`.
#[verifier::external_body]
pub(crate) fn string_from_utf8(bytes: Vec<u8>) -> (r: Option<String>)
    ensures
        r is Some <==> valid_utf8(bytes@),
        r matches Some(s) ==> s@ == decode_utf8(bytes@),
{
    String::from_utf8(bytes).ok()
}

/// The text that `String::from_utf8_lossy` makes of some bytes.
pub uninterp spec fn lossy_text(bytes: Seq<u8>) -> Seq<char>;

/// Calls `String::from_utf8_lossy`, which decodes the bytes and puts U+FFFD in place of each
/// invalid sequence: the contract states that the result is a function of the bytes, named
/// `lossy_text`, and that valid UTF-8 comes back decoded; where the replacements go is not
/// stated.
#[verifier::external_body]
pub(crate) fn string_from_utf8_lossy(bytes: &Vec<u8>) -> (r: String)
    ensures
        r@ == lossy_text(bytes@),
        valid_utf8(bytes@) ==> r@ == decode_utf8(bytes@),
{
    String::from_utf8_lossy(bytes).into_owned()
}

/// The lower-case form of a string, as Rust's Unicode case mapping gives it.
pub uninterp spec fn lowercase_of(s: Seq<char>) -> Seq<char>;

/// Calls `str::to_lowercase`. The contract states only that the result is a function of
/// the characters of `s`, named `lowercase_of`; what the Unicode case mapping gives is not
/// stated.
#[verifier::external_body]
pub(crate) fn to_lowercase(s: &str) -> (r: String)
    ensures
        r@ == lowercase_of(s@),
{
    s.to_lowercase()
}

} // verus!
