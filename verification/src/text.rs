//! Character and string helpers shared by the formatting and command modules.
use vstd::prelude::*;
use vstd::std_specs::iter::IteratorSpec;

verus! {

/// Appends one character to a string (std's `String::push`).
#[verifier::external_body]
pub(crate) fn push_char(s: &mut String, c: char)
    ensures
        final(s)@ == old(s)@.push(c),
{
    s.push(c);
}

/// Appends a string slice to a string.
pub fn push_str(s: &mut String, t: &str)
    ensures
        final(s)@ == old(s)@ + t@,
{
    s.append(t);
}

/// The characters of a string slice, in order.
pub fn to_chars(s: &str) -> (v: Vec<char>)
    ensures
        v@ == s@,
{
    broadcast use vstd::string::group_string_axioms;
    let mut v: Vec<char> = Vec::new();
    for c in it: s.chars()
        invariant
            v@ == it.seq().take(it.index() as int),
    {
        v.push(c);
    }
    v
}

/// The string made of the given characters.
pub fn from_chars(v: &Vec<char>) -> (s: String)
    ensures
        s@ == v@,
{
    let mut s = String::new();
    let mut i: usize = 0;
    while i < v.len()
        invariant
            i <= v.len(),
            s@ == v@.take(i as int),
        decreases v.len() - i,
    {
        push_char(&mut s, v[i]);
        i = i + 1;
        assert(v@.take(i as int) == v@.take((i - 1) as int).push(v@[i - 1]));
    }
    assert(v@.take(v.len() as int) == v@);
    s
}

/// An owned copy of a string slice.
pub fn owned(s: &str) -> (r: String)
    ensures
        r@ == s@,
{
    String::from_str(s)
}

/// The decimal digit character for `d < 10`.
pub open spec fn digit_char(d: nat) -> char {
    ((48 + d) as u32) as char
}

/// The decimal rendering of a natural number, without sign or leading zeros.
pub open spec fn decimal(n: nat) -> Seq<char>
    decreases n,
{
    if n < 10 {
        seq![digit_char(n)]
    } else {
        decimal(n / 10).push(digit_char(n % 10))
    }
}

/// The decimal digit character for `d < 10`.
pub fn digit_to_char(d: u64) -> (c: char)
    requires
        d < 10,
    ensures
        c == digit_char(d as nat),
{
    let c = ((48 + d) as u8) as char;
    assert(c == digit_char(d as nat)) by {
        assert(((48 + d) as u8) as char == ((48 + d) as u32) as char);
    }
    c
}

/// Appends the decimal rendering of `n`.
pub fn push_decimal(s: &mut String, n: u64)
    ensures
        final(s)@ == old(s)@ + decimal(n as nat),
    decreases n,
{
    if n < 10 {
        push_char(s, digit_to_char(n));
        assert(old(s)@ + decimal(n as nat) == old(s)@.push(digit_char(n as nat)));
    } else {
        push_decimal(s, n / 10);
        push_char(s, digit_to_char(n % 10));
        assert(decimal(n as nat) == decimal((n / 10) as nat).push(digit_char((n % 10) as nat)));
        assert(old(s)@ + decimal(n as nat) == (old(s)@ + decimal((n / 10) as nat)).push(
            digit_char((n % 10) as nat),
        ));
    }
}

/// The decimal rendering of `n`.
pub fn u64_to_decimal(n: u64) -> (s: String)
    ensures
        s@ == decimal(n as nat),
{
    let mut s = String::new();
    push_decimal(&mut s, n);
    assert(Seq::<char>::empty() + decimal(n as nat) == decimal(n as nat));
    s
}

/// Unicode `White_Space`, the property that `char::is_whitespace` tests.
pub open spec fn is_white_space(c: char) -> bool {
    let u = c as u32;
    ||| 0x09 <= u <= 0x0d
    ||| u == 0x20
    ||| u == 0x85
    ||| u == 0xa0
    ||| u == 0x1680
    ||| 0x2000 <= u <= 0x200a
    ||| u == 0x2028
    ||| u == 0x2029
    ||| u == 0x202f
    ||| u == 0x205f
    ||| u == 0x3000
}

/// Whether `c` is a Unicode white-space character.
pub fn is_whitespace_char(c: char) -> (b: bool)
    ensures
        b == is_white_space(c),
{
    let u = c as u32;
    (0x09 <= u && u <= 0x0d) || u == 0x20 || u == 0x85 || u == 0xa0 || u == 0x1680 || (0x2000
        <= u && u <= 0x200a) || u == 0x2028 || u == 0x2029 || u == 0x202f || u == 0x205f || u
        == 0x3000
}

/// What `char::to_uppercase` yields for a character outside ASCII: its Unicode uppercase
/// mapping.
pub uninterp spec fn upper_case_of(c: char) -> Seq<char>;

/// Whether `c` is an ASCII character.
pub open spec fn is_ascii_char(c: char) -> bool {
    (c as u32) < 128
}

/// The ASCII uppercase of `c`: `a`..`z` become `A`..`Z`, every other character stays.
pub open spec fn ascii_upper(c: char) -> char {
    let u = c as u32;
    if 97 <= u && u <= 122 {
        (u - 32) as char
    } else {
        c
    }
}

/// The uppercase mapping of `c`: for ASCII the letter case rule above, beyond it the
/// Unicode mapping.
pub open spec fn char_upper(c: char) -> Seq<char> {
    if is_ascii_char(c) {
        seq![ascii_upper(c)]
    } else {
        upper_case_of(c)
    }
}

/// std's `char::to_uppercase`, collected. An ASCII character maps to itself, but for
/// `a`..`z`, which map to `A`..`Z` (Unicode gives no other ASCII character an uppercase
/// mapping); beyond ASCII the result is the Unicode mapping, which is named here, not
/// spelled out.
#[verifier::external_body]
fn char_to_uppercase(c: char) -> (r: Vec<char>)
    ensures
        r@ == (if is_ascii_char(c) {
            seq![ascii_upper(c)]
        } else {
            upper_case_of(c)
        }),
{
    c.to_uppercase().collect()
}

/// Appends the uppercase mapping of `c`.
pub fn push_upper(s: &mut String, c: char)
    ensures
        final(s)@ == old(s)@ + char_upper(c),
{
    let up = char_to_uppercase(c);
    let mut i: usize = 0;
    while i < up.len()
        invariant
            i <= up.len(),
            up@ == char_upper(c),
            s@ == old(s)@ + up@.take(i as int),
        decreases up.len() - i,
    {
        push_char(s, up[i]);
        i = i + 1;
        assert(up@.take(i as int) == up@.take((i - 1) as int).push(up@[i - 1]));
    }
    assert(up@.take(up.len() as int) == up@);
}

/// Whether `needle` occurs in `hay` starting at position `i`.
pub open spec fn occurs_at(hay: Seq<char>, needle: Seq<char>, i: int) -> bool {
    0 <= i && i + needle.len() <= hay.len() && hay.subrange(i, i + needle.len()) == needle
}

/// Whether `needle` occurs somewhere in `hay` (`str::contains`).
pub open spec fn contains_seq(hay: Seq<char>, needle: Seq<char>) -> bool {
    exists|i: int| occurs_at(hay, needle, i)
}

fn matches_at(hay: &Vec<char>, needle: &Vec<char>, i: usize) -> (b: bool)
    requires
        i + needle@.len() <= hay@.len(),
    ensures
        b == occurs_at(hay@, needle@, i as int),
{
    let mut j: usize = 0;
    while j < needle.len()
        invariant
            j <= needle@.len(),
            i + needle.len() <= hay.len(),
            forall|k: int| 0 <= k < j ==> hay@[i + k] == needle@[k],
        decreases needle.len() - j,
    {
        if hay[i + j] != needle[j] {
            assert(hay@.subrange(i as int, i + needle@.len())[j as int] != needle@[j as int]);
            return false;
        }
        j = j + 1;
    }
    assert(hay@.subrange(i as int, i + needle@.len()) =~= needle@);
    true
}

/// Whether `needle` occurs in `hay`.
pub fn contains_chars(hay: &Vec<char>, needle: &Vec<char>) -> (b: bool)
    ensures
        b == contains_seq(hay@, needle@),
{
    if needle.len() > hay.len() {
        return false;
    }
    let limit = hay.len() - needle.len();
    let mut i: usize = 0;
    loop
        invariant
            needle@.len() <= hay@.len(),
            limit == hay@.len() - needle@.len(),
            i <= limit,
            forall|k: int| 0 <= k < i ==> !occurs_at(hay@, needle@, k),
        ensures
            forall|k: int| 0 <= k <= limit ==> !occurs_at(hay@, needle@, k),
        decreases limit - i,
    {
        if matches_at(hay, needle, i) {
            return true;
        }
        if i == limit {
            break;
        }
        i = i + 1;
    }
    assert forall|k: int| !occurs_at(hay@, needle@, k) by {
        if 0 <= k <= limit {
        }
    }
    false
}

/// Whether `needle` occurs in `hay` (`str::contains` on string slices).
pub fn str_contains(hay: &str, needle: &str) -> (b: bool)
    ensures
        b == contains_seq(hay@, needle@),
{
    let h = to_chars(hay);
    let n = to_chars(needle);
    contains_chars(&h, &n)
}

/// Removes the last character of a string (std's `String::pop`): `None` when the
/// string is empty, else the removed character.
#[verifier::external_body]
pub(crate) fn pop_char(s: &mut String) -> (r: Option<char>)
    ensures
        old(s)@.len() == 0 ==> r is None && final(s)@ == old(s)@,
        old(s)@.len() > 0 ==> r == Some(old(s)@.last()) && final(s)@ == old(s)@.drop_last(),
{
    s.pop()
}

/// A string with its leading Unicode white space removed.
pub open spec fn trim_start_seq(s: Seq<char>) -> Seq<char>
    decreases s.len(),
{
    if s.len() > 0 && is_white_space(s[0]) {
        trim_start_seq(s.drop_first())
    } else {
        s
    }
}

/// A string with its trailing Unicode white space removed.
pub open spec fn trim_end_seq(s: Seq<char>) -> Seq<char>
    decreases s.len(),
{
    if s.len() > 0 && is_white_space(s.last()) {
        trim_end_seq(s.drop_last())
    } else {
        s
    }
}

/// A string with leading and trailing Unicode white space removed (`str::trim`).
pub open spec fn trimmed(s: Seq<char>) -> Seq<char> {
    trim_end_seq(trim_start_seq(s))
}

proof fn lemma_trim_start_skip(s: Seq<char>, i: int)
    requires
        0 <= i <= s.len(),
        forall|k: int| 0 <= k < i ==> is_white_space(#[trigger] s[k]),
    ensures
        trim_start_seq(s) == trim_start_seq(s.subrange(i, s.len() as int)),
    decreases i,
{
    if i > 0 {
        assert(s.drop_first().subrange(i - 1, s.drop_first().len() as int) =~= s.subrange(
            i,
            s.len() as int,
        ));
        assert forall|k: int| 0 <= k < i - 1 implies is_white_space(#[trigger] s.drop_first()[k]) by {
            assert(s.drop_first()[k] == s[k + 1]);
        }
        lemma_trim_start_skip(s.drop_first(), i - 1);
        assert(s.subrange(0, s.len() as int) =~= s);
    } else {
        assert(s.subrange(0, s.len() as int) =~= s);
    }
}

proof fn lemma_trim_end_skip(s: Seq<char>, j: int)
    requires
        0 <= j <= s.len(),
        forall|k: int| j <= k < s.len() ==> is_white_space(#[trigger] s[k]),
    ensures
        trim_end_seq(s) == trim_end_seq(s.subrange(0, j)),
    decreases s.len() - j,
{
    if j < s.len() {
        assert(s.drop_last().subrange(0, j) =~= s.subrange(0, j));
        assert forall|k: int| j <= k < s.drop_last().len() implies is_white_space(
            #[trigger] s.drop_last()[k],
        ) by {
            assert(s.drop_last()[k] == s[k]);
        }
        assert(is_white_space(s[s.len() - 1]));
        lemma_trim_end_skip(s.drop_last(), j);
    } else {
        assert(s.subrange(0, j) =~= s);
    }
}

/// The string with leading and trailing Unicode white space removed.
pub fn trim(s: &str) -> (r: String)
    ensures
        r@ == trimmed(s@),
{
    let v = to_chars(s);
    let mut a: usize = 0;
    while a < v.len() && is_whitespace_char(v[a])
        invariant
            a <= v@.len(),
            forall|k: int| 0 <= k < a ==> is_white_space(#[trigger] v@[k]),
        decreases v.len() - a,
    {
        a = a + 1;
    }
    proof {
        lemma_trim_start_skip(v@, a as int);
    }
    let ghost t = v@.subrange(a as int, v@.len() as int);
    assert(trim_start_seq(t) == t) by {
        if t.len() > 0 {
            assert(t[0] == v@[a as int]);
        }
    }
    let mut b: usize = v.len();
    while b > a && is_whitespace_char(v[b - 1])
        invariant
            a <= b <= v@.len(),
            forall|k: int| b <= k < v@.len() ==> is_white_space(#[trigger] v@[k]),
        decreases b,
    {
        b = b - 1;
    }
    proof {
        lemma_trim_end_skip(t, b - a);
        assert forall|k: int| b - a <= k < t.len() implies is_white_space(#[trigger] t[k]) by {
            assert(t[k] == v@[a + k]);
        }
        let u = t.subrange(0, b - a);
        assert(u =~= v@.subrange(a as int, b as int));
        if u.len() > 0 {
            assert(u.last() == v@[b - 1]);
        }
        assert(trim_end_seq(u) == u);
    }
    let mut r = String::new();
    let mut i: usize = a;
    while i < b
        invariant
            a <= i <= b <= v@.len(),
            r@ == v@.subrange(a as int, i as int),
        decreases b - i,
    {
        push_char(&mut r, v[i]);
        i = i + 1;
        assert(v@.subrange(a as int, i as int) == v@.subrange(a as int, i - 1).push(v@[i - 1]));
    }
    r
}

/// The concatenation of a string slice and a string.
pub fn concat(a: &str, b: &str) -> (r: String)
    ensures
        r@ == a@ + b@,
{
    let mut r = owned(a);
    push_str(&mut r, b);
    r
}

/// Strings joined by a separator.
pub open spec fn join_seq(parts: Seq<Seq<char>>, sep: Seq<char>) -> Seq<char>
    decreases parts.len(),
{
    if parts.len() == 0 {
        seq![]
    } else if parts.len() == 1 {
        parts[0]
    } else {
        join_seq(parts.drop_last(), sep) + sep + parts.last()
    }
}

/// The strings of a vector joined by a separator (`[String]::join`).
pub fn join_strings(parts: &Vec<String>, sep: &str) -> (r: String)
    ensures
        r@ == join_seq(parts@.map_values(|p: String| p@), sep@),
{
    let ghost views = parts@.map_values(|p: String| p@);
    let mut r = String::new();
    let mut i: usize = 0;
    while i < parts.len()
        invariant
            i <= parts@.len(),
            views == parts@.map_values(|p: String| p@),
            r@ == join_seq(views.take(i as int), sep@),
        decreases parts.len() - i,
    {
        if i > 0 {
            push_str(&mut r, sep);
        }
        push_str(&mut r, parts[i].as_str());
        i = i + 1;
        assert(views.take(i as int).drop_last() == views.take(i - 1));
        assert(views.take(i as int).last() == parts@[i - 1]@);
        if i == 1 {
            assert(views.take(0) =~= Seq::<Seq<char>>::empty());
        }
    }
    assert(views.take(parts@.len() as int) =~= views);
    r
}

/// Whether two strings are equal.
pub fn str_equal(a: &str, b: &str) -> (r: bool)
    ensures
        r == (a@ == b@),
{
    let x = to_chars(a);
    let y = to_chars(b);
    if x.len() != y.len() {
        return false;
    }
    let mut i: usize = 0;
    while i < x.len()
        invariant
            i <= x@.len(),
            x@.len() == y@.len(),
            x@ == a@,
            y@ == b@,
            forall|k: int| 0 <= k < i ==> x@[k] == y@[k],
        decreases x.len() - i,
    {
        if x[i] != y[i] {
            assert(x@[i as int] != y@[i as int]);
            assert(x@ != y@);
            return false;
        }
        i = i + 1;
    }
    assert(x@ =~= y@);
    true
}

/// The views of a sequence of owned strings.
pub open spec fn strings_view(v: Seq<String>) -> Seq<Seq<char>> {
    v.map_values(|s: String| s@)
}

/// The view of an optional owned string.
pub open spec fn opt_view(o: Option<String>) -> Option<Seq<char>> {
    match o {
        Some(s) => Some(s@),
        None => None,
    }
}

/// Whether `s` begins with `prefix`.
pub open spec fn starts_with_seq(s: Seq<char>, prefix: Seq<char>) -> bool {
    prefix.len() <= s.len() && s.subrange(0, prefix.len() as int) == prefix
}

/// Whether every character of `s` is ASCII.
pub open spec fn all_ascii(s: Seq<char>) -> bool {
    forall|i: int| 0 <= i < s.len() ==> is_ascii_char(#[trigger] s[i])
}

/// The ASCII lowercase of `c`: `A`..`Z` become `a`..`z`, every other character stays.
pub open spec fn ascii_lower(c: char) -> char {
    let u = c as u32;
    if 65 <= u && u <= 90 {
        (u + 32) as char
    } else {
        c
    }
}

/// What `str::to_lowercase` gives for a text that is not all ASCII: its Unicode
/// lower-case mapping.
pub uninterp spec fn lower_case_of(s: Seq<char>) -> Seq<char>;

/// The lower-case mapping of a text: character by character for ASCII text, the
/// Unicode mapping otherwise.
pub open spec fn lower_text(s: Seq<char>) -> Seq<char> {
    if all_ascii(s) {
        s.map_values(|c: char| ascii_lower(c))
    } else {
        lower_case_of(s)
    }
}

/// std's `str::to_lowercase`. For ASCII text it maps `A`..`Z` to `a`..`z` and keeps
/// every other character (Unicode lowers no other ASCII character, and no ASCII
/// character depends on its neighbours); for other text the result is the Unicode
/// mapping, named here, not spelled out.
#[verifier::external_body]
pub(crate) fn to_lower(s: &str) -> (r: String)
    ensures
        r@ == (if all_ascii(s@) {
            s@.map_values(|c: char| ascii_lower(c))
        } else {
            lower_case_of(s@)
        }),
{
    s.to_lowercase()
}

/// What `str::to_uppercase` gives for a text that is not all ASCII: its Unicode
/// upper-case mapping.
pub uninterp spec fn upper_text_of(s: Seq<char>) -> Seq<char>;

/// The upper-case mapping of a text: character by character for ASCII text, the
/// Unicode mapping otherwise.
pub open spec fn upper_text(s: Seq<char>) -> Seq<char> {
    if all_ascii(s) {
        s.map_values(|c: char| ascii_upper(c))
    } else {
        upper_text_of(s)
    }
}

/// std's `str::to_uppercase`. For ASCII text it maps `a`..`z` to `A`..`Z` and keeps
/// every other character; for other text the result is the Unicode mapping, named
/// here, not spelled out.
#[verifier::external_body]
pub(crate) fn to_upper(s: &str) -> (r: String)
    ensures
        r@ == (if all_ascii(s@) {
            s@.map_values(|c: char| ascii_upper(c))
        } else {
            upper_text_of(s@)
        }),
{
    s.to_uppercase()
}

/// Whether `s` begins with the character `c`.
pub fn starts_with_char(s: &str, c: char) -> (b: bool)
    ensures
        b == (s@.len() > 0 && s@[0] == c),
{
    let v = to_chars(s);
    v.len() > 0 && v[0] == c
}

/// Whether `s` ends with `suffix`.
pub open spec fn ends_with_seq(s: Seq<char>, suffix: Seq<char>) -> bool {
    suffix.len() <= s.len() && s.subrange(s.len() - suffix.len(), s.len() as int) == suffix
}

/// Whether `s` ends with `suffix`.
pub fn str_ends_with(s: &str, suffix: &str) -> (b: bool)
    ensures
        b == ends_with_seq(s@, suffix@),
{
    let x = to_chars(s);
    let y = to_chars(suffix);
    if y.len() > x.len() {
        return false;
    }
    let off = x.len() - y.len();
    let mut i: usize = 0;
    while i < y.len()
        invariant
            x@ == s@,
            y@ == suffix@,
            x@.len() == x.len(),
            y@.len() == y.len(),
            y@.len() <= x@.len(),
            off == x@.len() - y@.len(),
            i <= y@.len(),
            forall|k: int| 0 <= k < i ==> x@[off + k] == y@[k],
        decreases y.len() - i,
    {
        if x[off + i] != y[i] {
            assert(x@.subrange(off as int, x@.len() as int)[i as int] != y@[i as int]);
            return false;
        }
        i = i + 1;
    }
    assert(x@.subrange(off as int, x@.len() as int) =~= y@);
    true
}

/// Whether the UTF-8 encoding of `s` is longer than `limit` bytes.
pub open spec fn utf8_width(c: char) -> nat {
    if (c as u32) < 0x80 {
        1
    } else if (c as u32) < 0x800 {
        2
    } else if (c as u32) < 0x10000 {
        3
    } else {
        4
    }
}

/// The length in bytes of the UTF-8 encoding of `s` (what `str::len` counts).
pub open spec fn utf8_len(s: Seq<char>) -> nat
    decreases s.len(),
{
    if s.len() == 0 {
        0
    } else {
        utf8_len(s.drop_last()) + utf8_width(s.last())
    }
}

proof fn lemma_utf8_len_monotone(s: Seq<char>, i: int)
    requires
        0 <= i <= s.len(),
    ensures
        utf8_len(s.take(i)) <= utf8_len(s),
    decreases s.len() - i,
{
    if i < s.len() {
        lemma_utf8_len_monotone(s, i + 1);
        assert(s.take(i + 1).drop_last() =~= s.take(i));
    } else {
        assert(s.take(i) =~= s);
    }
}

/// Whether the UTF-8 encoding of `s` is longer than `limit` bytes.
pub fn utf8_longer_than(s: &str, limit: u64) -> (b: bool)
    ensures
        b == (utf8_len(s@) > limit),
{
    let v = to_chars(s);
    let mut total: u64 = 0;
    let mut i: usize = 0;
    while i < v.len()
        invariant
            v@ == s@,
            i <= v@.len(),
            total == utf8_len(v@.take(i as int)),
            total <= limit,
        decreases v.len() - i,
    {
        let c = v[i] as u32;
        let w: u64 = if c < 0x80 {
            1
        } else if c < 0x800 {
            2
        } else if c < 0x10000 {
            3
        } else {
            4
        };
        assert(v@.take((i + 1) as int).drop_last() =~= v@.take(i as int));
        i = i + 1;
        if w > limit - total {
            proof {
                lemma_utf8_len_monotone(v@, i as int);
            }
            return true;
        }
        total = total + w;
    }
    assert(v@.take(v@.len() as int) =~= v@);
    false
}

/// The pieces of `s` between occurrences of `c`, as `str::split` yields them: at
/// least one, empty pieces included.
pub open spec fn split_on(s: Seq<char>, c: char) -> Seq<Seq<char>>
    decreases s.len(),
{
    if s.len() == 0 {
        seq![Seq::empty()]
    } else {
        let init = split_on(s.drop_last(), c);
        if s.last() == c {
            init.push(Seq::empty())
        } else {
            init.update(init.len() - 1, init.last().push(s.last()))
        }
    }
}

proof fn lemma_split_on_nonempty(s: Seq<char>, c: char)
    ensures
        split_on(s, c).len() >= 1,
    decreases s.len(),
{
    if s.len() > 0 {
        lemma_split_on_nonempty(s.drop_last(), c);
    }
}

/// The pieces of `s` between occurrences of `c`.
pub fn split_pieces(s: &str, c: char) -> (pieces: Vec<String>)
    ensures
        strings_view(pieces@) == split_on(s@, c),
{
    let v = to_chars(s);
    let mut pieces: Vec<String> = Vec::new();
    let mut cur = String::new();
    let mut i: usize = 0;
    assert(v@.take(0) =~= Seq::<char>::empty());
    assert(strings_view(pieces@).push(cur@) =~= split_on(v@.take(0), c));
    while i < v.len()
        invariant
            v@ == s@,
            i <= v@.len(),
            strings_view(pieces@).push(cur@) == split_on(v@.take(i as int), c),
        decreases v.len() - i,
    {
        let ghost prev = strings_view(pieces@);
        assert(v@.take((i + 1) as int).drop_last() =~= v@.take(i as int));
        proof {
            lemma_split_on_nonempty(v@.take(i as int), c);
        }
        if v[i] == c {
            let done = cur;
            cur = String::new();
            pieces.push(done);
            assert(strings_view(pieces@) =~= prev.push(done@));
            assert(strings_view(pieces@).push(cur@) =~= split_on(v@.take(i as int), c).push(Seq::empty()));
        } else {
            push_char(&mut cur, v[i]);
            assert(strings_view(pieces@).push(cur@) =~= split_on(v@.take(i as int), c).update(
                prev.len() as int,
                split_on(v@.take(i as int), c).last().push(v@[i as int]),
            ));
        }
        i = i + 1;
    }
    assert(v@.take(v@.len() as int) =~= v@);
    let ghost prev = strings_view(pieces@);
    pieces.push(cur);
    assert(strings_view(pieces@) =~= prev.push(cur@));
    pieces
}

/// `prefix`, then `middle`, then `suffix`.
pub fn path_with_tail(prefix: &str, middle: &str, suffix: &str) -> (p: String)
    ensures
        p@ == prefix@ + middle@ + suffix@,
{
    let mut p = owned(prefix);
    push_str(&mut p, middle);
    push_str(&mut p, suffix);
    p
}

} // verus!
