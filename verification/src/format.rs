//! Human-readable renderings of statistics keys and byte counts.
use vstd::prelude::*;
use crate::text::{
    decimal, digit_char, digit_to_char, is_white_space, is_whitespace_char, push_char, push_decimal,
    push_str, push_upper, to_chars, char_upper, ascii_upper, is_ascii_char, all_ascii,
};

verus! {

/// `1024` raised to the power `k`.
pub open spec fn pow1024(k: nat) -> nat
    decreases k,
{
    if k == 0 {
        1
    } else {
        1024 * pow1024((k - 1) as nat)
    }
}

/// `2` raised to the power `e`.
pub open spec fn two_pow(e: nat) -> nat
    decreases e,
{
    if e == 0 {
        1
    } else {
        2 * two_pow((e - 1) as nat)
    }
}

/// `2^53`: below it every integer is exactly a 64-bit float.
pub open spec fn float_exact_limit() -> nat {
    0x20_0000_0000_0000
}

/// How many low bits of `b` a 64-bit float cannot hold (its 53-bit significand).
pub open spec fn float_dropped_bits(b: nat) -> nat
    decreases b,
{
    if b < float_exact_limit() {
        0
    } else {
        1 + float_dropped_bits(b / 2)
    }
}

/// The 64-bit float nearest to `b`, ties to even, as an integer (what `b as f64` holds).
pub open spec fn float_nearest(b: nat) -> nat {
    let p = two_pow(float_dropped_bits(b));
    let q = b / p;
    let r = b % p;
    if 2 * r > p || (2 * r == p && q % 2 == 1) {
        (q + 1) * p
    } else {
        q * p
    }
}

/// The largest `k <= 4` with `1024^k <= r`, or 0: the unit that `format_bytes` picks.
pub open spec fn unit_index(r: nat) -> nat {
    if r >= pow1024(4) {
        4
    } else if r >= pow1024(3) {
        3
    } else if r >= pow1024(2) {
        2
    } else if r >= pow1024(1) {
        1
    } else {
        0
    }
}

/// The name of byte unit `k`.
pub open spec fn unit_name(k: nat) -> Seq<char> {
    if k == 0 {
        seq!['B']
    } else if k == 1 {
        seq!['K', 'B']
    } else if k == 2 {
        seq!['M', 'B']
    } else if k == 3 {
        seq!['G', 'B']
    } else {
        seq!['T', 'B']
    }
}

/// `r / d` written with one decimal, rounded half to even (as `{:.1}` prints it).
pub open spec fn one_decimal(r: nat, d: nat) -> Seq<char> {
    let ip = r / d;
    let frac = r % d;
    let t = (frac * 10) / d;
    let rem = (frac * 10) % d;
    let t2: nat = if 2 * rem > d || (2 * rem == d && t % 2 == 1) {
        t + 1
    } else {
        t
    };
    if t2 == 10 {
        decimal(ip + 1) + seq!['.', '0']
    } else {
        decimal(ip) + seq!['.', digit_char(t2)]
    }
}

/// What `format_bytes` returns for `bytes`.
pub open spec fn bytes_text(bytes: nat) -> Seq<char> {
    if bytes < 1024 {
        decimal(bytes) + seq![' ', 'B']
    } else {
        let r = float_nearest(bytes);
        let k = unit_index(r);
        one_decimal(r, pow1024(k)) + seq![' '] + unit_name(k)
    }
}

proof fn lemma_two_pow_positive(e: nat)
    ensures
        two_pow(e) >= 1,
    decreases e,
{
    if e > 0 {
        lemma_two_pow_positive((e - 1) as nat);
    }
}

proof fn lemma_pow1024_values()
    ensures
        pow1024(1) == 1024,
        pow1024(2) == 1024 * 1024,
        pow1024(3) == 1024 * 1024 * 1024,
        pow1024(4) == 1024 * 1024 * 1024 * 1024,
{
    reveal_with_fuel(pow1024, 5);
}

/// The integer that `bytes as f64` holds.
fn nearest_float_value(bytes: u64) -> (r: u128)
    ensures
        r == float_nearest(bytes as nat),
        r <= 0x2_0000_0000_0000_0000,
        bytes >= 1024 ==> r >= 1024,
{
    let mut m: u64 = bytes;
    let mut e: u64 = 0;
    let mut p: u64 = 1;
    while m >= 0x20_0000_0000_0000
        invariant
            float_dropped_bits(bytes as nat) == e + float_dropped_bits(m as nat),
            p == two_pow(e as nat),
            p >= 1,
            e < p,
            m as nat * p <= bytes,
            e > 0 ==> p as nat * 0x10_0000_0000_0000 <= bytes,
        decreases m,
    {
        assert(p as nat * 0x20_0000_0000_0000 <= bytes) by (nonlinear_arith)
            requires
                m >= 0x20_0000_0000_0000,
                m as nat * p <= bytes,
                p >= 1,
        {
        }
        assert((m / 2) as nat * (p * 2) <= bytes) by (nonlinear_arith)
            requires
                m as nat * p <= bytes,
                p >= 1,
        {
        }
        m = m / 2;
        p = p * 2;
        e = e + 1;
    }
    let q = bytes / p;
    let rem = bytes % p;
    proof {
        vstd::arithmetic::div_mod::lemma_fundamental_div_mod(bytes as int, p as int);
        if e > 0 {
            assert(p <= 0x1000) by (nonlinear_arith)
                requires
                    p as nat * 0x10_0000_0000_0000 <= bytes,
                    bytes < 0x1_0000_0000_0000_0000,
            {
            }
            assert(q >= 0x10_0000_0000_0000) by (nonlinear_arith)
                requires
                    p as nat * 0x10_0000_0000_0000 <= bytes,
                    q == bytes as int / p as int,
                    p >= 1,
            {
            }
        }
    }
    let r: u128 = if 2 * (rem as u128) > p as u128 || (2 * (rem as u128) == p as u128 && q % 2
        == 1) {
        assert(e > 0);
        assert((q + 1) as nat * p <= bytes as nat + p) by (nonlinear_arith)
            requires
                bytes == p * q + rem,
        {
        }
        assert((q + 1) as nat * p >= bytes as nat) by (nonlinear_arith)
            requires
                bytes == p * q + rem,
                rem < p,
        {
        }
        (q as u128 + 1) * (p as u128)
    } else {
        assert(q as nat * p <= bytes as nat) by (nonlinear_arith)
            requires
                bytes == p * q + rem,
        {
        }
        assert(bytes >= 1024 ==> q as nat * p >= 1024) by (nonlinear_arith)
            requires
                bytes == p * q + rem,
                e == 0 ==> p == 1 && rem == 0,
                e > 0 ==> q >= 0x10_0000_0000_0000,
                p >= 1,
        {
        }
        (q as u128) * (p as u128)
    };
    r
}

/// Formats byte values into human-readable sizes.
///
/// Below 1024 the count is written as an integer followed by ` B`; otherwise the
/// value is scaled by the largest power of 1024 up to TB that it reaches and
/// written with one decimal.
pub fn format_bytes(bytes: u64) -> (s: String)
    ensures
        s@ == bytes_text(bytes as nat),
{
    let mut s = String::new();
    if bytes < 1024 {
        push_decimal(&mut s, bytes);
        push_str(&mut s, " B");
        proof {
            reveal_strlit(" B");
        }
        assert(s@ == bytes_text(bytes as nat));
        return s;
    }
    let r = nearest_float_value(bytes);
    proof {
        lemma_pow1024_values();
    }
    let mut d: u128 = 1024;
    let mut k: u64 = 1;
    while k < 4 && r >= d * 1024
        invariant
            1 <= k <= 4,
            d == pow1024(k as nat),
            r >= d,
            r <= 0x2_0000_0000_0000_0000,
            k < 4 ==> d <= 1024 * 1024 * 1024,
        decreases 4 - k,
    {
        proof {
            lemma_pow1024_values();
        }
        d = d * 1024;
        k = k + 1;
    }
    assert(k as nat == unit_index(r as nat)) by {
        lemma_pow1024_values();
    }
    let ip = r / d;
    let frac = r % d;
    let t = (frac * 10) / d;
    let rem = (frac * 10) % d;
    let t2: u128 = if 2 * rem > d || (2 * rem == d && t % 2 == 1) {
        t + 1
    } else {
        t
    };
    assert(ip <= 0x80_0000_0000_0000) by (nonlinear_arith)
        requires
            ip == (r as int) / (d as int),
            d >= 1024,
            r <= 0x2_0000_0000_0000_0000,
    {
    }
    assert(t < 10) by (nonlinear_arith)
        requires
            frac < d,
            t == (frac as int * 10) / (d as int),
            d > 0,
    {
    }
    if t2 == 10 {
        push_decimal(&mut s, (ip + 1) as u64);
        push_str(&mut s, ".0 ");
        proof {
            reveal_strlit(".0 ");
        }
    } else {
        push_decimal(&mut s, ip as u64);
        push_char(&mut s, '.');
        push_char(&mut s, digit_to_char(t2 as u64));
        push_char(&mut s, ' ');
    }
    if k == 1 {
        push_str(&mut s, "KB");
        proof {
            reveal_strlit("KB");
        }
    } else if k == 2 {
        push_str(&mut s, "MB");
        proof {
            reveal_strlit("MB");
        }
    } else if k == 3 {
        push_str(&mut s, "GB");
        proof {
            reveal_strlit("GB");
        }
    } else {
        push_str(&mut s, "TB");
        proof {
            reveal_strlit("TB");
        }
    }
    assert(s@ =~= bytes_text(bytes as nat));
    s
}

} // verus!

verus! {

/// Characters that separate the words of a statistics key.
pub open spec fn is_key_separator(c: char) -> bool {
    c == '_' || is_white_space(c)
}

/// The words of a key: the maximal runs of characters that are neither `_` nor white space.
pub open spec fn key_words(s: Seq<char>) -> Seq<Seq<char>>
    decreases s.len(),
{
    if s.len() == 0 {
        seq![]
    } else {
        let prev = key_words(s.drop_last());
        let c = s.last();
        if is_key_separator(c) {
            prev
        } else if s.len() >= 2 && !is_key_separator(s[s.len() - 2]) {
            prev.drop_last().push(prev.last().push(c))
        } else {
            prev.push(seq![c])
        }
    }
}

/// A word with its first character replaced by that character's uppercase mapping.
pub open spec fn capitalized(w: Seq<char>) -> Seq<char> {
    char_upper(w[0]) + w.drop_first()
}

/// Words joined by single spaces.
pub open spec fn join_with_spaces(ws: Seq<Seq<char>>) -> Seq<char>
    decreases ws.len(),
{
    if ws.len() == 0 {
        seq![]
    } else if ws.len() == 1 {
        ws[0]
    } else {
        join_with_spaces(ws.drop_last()) + seq![' '] + ws.last()
    }
}

/// The label that `format_key_name` makes of a key.
pub open spec fn key_label(s: Seq<char>) -> Seq<char> {
    join_with_spaces(key_words(s).map_values(|w: Seq<char>| capitalized(w)))
}

proof fn lemma_key_words_nonempty(s: Seq<char>)
    ensures
        forall|j: int| 0 <= j < key_words(s).len() ==> #[trigger] key_words(s)[j].len() > 0,
        s.len() > 0 && !is_key_separator(s.last()) ==> key_words(s).len() > 0,
    decreases s.len(),
{
    if s.len() > 0 {
        lemma_key_words_nonempty(s.drop_last());
        let prev = key_words(s.drop_last());
        if !is_key_separator(s.last()) && s.len() >= 2 && !is_key_separator(s[s.len() - 2]) {
            assert(s.drop_last().last() == s[s.len() - 2]);
            assert(prev.len() > 0);
        }
    }
}

/// Formats a statistics key name into a human-readable label: underscores become
/// spaces, the text is split into words at white space, each word starts with its
/// first character uppercased, and the words are joined by single spaces
/// (`total_docs` → `Total Docs`).
pub fn format_key_name(key: &str) -> (label: String)
    ensures
        label@ == key_label(key@),
{
    let chars = to_chars(key);
    let mut words: Vec<Vec<char>> = Vec::new();
    let mut i: usize = 0;
    while i < chars.len()
        invariant
            i <= chars@.len(),
            chars@ == key@,
            words@.len() == key_words(chars@.take(i as int)).len(),
            forall|k: int|
                0 <= k < words@.len() ==> #[trigger] words@[k]@ == key_words(
                    chars@.take(i as int),
                )[k],
        decreases chars.len() - i,
    {
        let c = chars[i];
        let ghost pre = chars@.take(i as int);
        let ghost next = chars@.take(i + 1);
        let ghost kp = key_words(pre);
        proof {
            assert(next.drop_last() == pre);
            assert(next.last() == c);
            if i >= 1 {
                assert(next[next.len() - 2] == chars@[i - 1]);
                assert(pre.last() == chars@[i - 1]);
            }
        }
        let sep = c == '_' || is_whitespace_char(c);
        if sep {
            assert(key_words(next) == kp);
        } else if i >= 1 && !(chars[i - 1] == '_' || is_whitespace_char(chars[i - 1])) {
            proof {
                lemma_key_words_nonempty(pre);
            }
            let mut last = words.pop().unwrap();
            last.push(c);
            words.push(last);
            assert(key_words(next) == kp.drop_last().push(kp.last().push(c)));
            assert forall|k: int| 0 <= k < words@.len() implies #[trigger] words@[k]@ == key_words(
                next,
            )[k] by {
                if k < words@.len() - 1 {
                } else {
                    assert(words@[k]@ =~= kp.last().push(c));
                }
            }
        } else {
            words.push(vec![c]);
            assert(key_words(next) == kp.push(seq![c]));
            assert forall|k: int| 0 <= k < words@.len() implies #[trigger] words@[k]@ == key_words(
                next,
            )[k] by {
                if k == words@.len() - 1 {
                    assert(words@[k]@ =~= seq![c]);
                }
            }
        }
        i = i + 1;
    }
    assert(chars@.take(chars.len() as int) == chars@);
    let ghost ws = key_words(key@);
    proof {
        lemma_key_words_nonempty(key@);
    }
    let mut label = String::new();
    let mut j: usize = 0;
    while j < words.len()
        invariant
            j <= words@.len(),
            words@.len() == ws.len(),
            forall|k: int| 0 <= k < words@.len() ==> #[trigger] words@[k]@ == ws[k],
            forall|k: int| 0 <= k < ws.len() ==> #[trigger] ws[k].len() > 0,
            label@ == join_with_spaces(ws.map_values(|w: Seq<char>| capitalized(w)).take(j as int)),
        decreases words.len() - j,
    {
        let ghost caps = ws.map_values(|w: Seq<char>| capitalized(w));
        let ghost before = label@;
        let w = &words[j];
        assert(w@ == ws[j as int]);
        if j > 0 {
            push_char(&mut label, ' ');
        }
        push_upper(&mut label, w[0]);
        let mut k: usize = 1;
        while k < w.len()
            invariant
                1 <= k <= w@.len(),
                label@ == (if j > 0 { before + seq![' '] } else { before }) + char_upper(w@[0])
                    + w@.subrange(1, k as int),
            decreases w.len() - k,
        {
            push_char(&mut label, w[k]);
            k = k + 1;
            assert(w@.subrange(1, k as int) == w@.subrange(1, k - 1).push(w@[k - 1]));
        }
        j = j + 1;
        proof {
            assert(w@.subrange(1, w@.len() as int) == w@.drop_first());
            assert(caps.take(j as int).drop_last() == caps.take(j - 1));
            assert(caps.take(j as int).last() == capitalized(ws[j - 1]));
            if j == 1 {
                assert(caps.take(0) =~= Seq::<Seq<char>>::empty());
            }
            assert(label@ =~= join_with_spaces(caps.take(j as int)));
        }
    }
    assert(ws.map_values(|w: Seq<char>| capitalized(w)).take(words@.len() as int) =~= ws.map_values(
        |w: Seq<char>| capitalized(w),
    ));
    label
}

} // verus!

verus! {

/// Whether `w` is a word: non-empty, with no separator in it, all ASCII.
spec fn plain_word(w: Seq<char>) -> bool {
    &&& w.len() > 0
    &&& forall|i: int| 0 <= i < w.len() ==> !is_key_separator(#[trigger] w[i])
    &&& all_ascii(w)
}

proof fn lemma_ascii_upper(c: char)
    requires
        is_ascii_char(c),
    ensures
        is_ascii_char(ascii_upper(c)),
        ascii_upper(ascii_upper(c)) == ascii_upper(c),
        !is_key_separator(c) ==> !is_key_separator(ascii_upper(c)),
{
}

proof fn lemma_key_words_plain(s: Seq<char>)
    requires
        all_ascii(s),
    ensures
        forall|j: int| 0 <= j < key_words(s).len() ==> plain_word(#[trigger] key_words(s)[j]),
    decreases s.len(),
{
    lemma_key_words_nonempty(s);
    if s.len() > 0 {
        let p = s.drop_last();
        assert(all_ascii(p)) by {
            assert forall|i: int| 0 <= i < p.len() implies is_ascii_char(#[trigger] p[i]) by {
                assert(p[i] == s[i]);
            }
        }
        lemma_key_words_plain(p);
        lemma_key_words_nonempty(p);
        let prev = key_words(p);
        let c = s.last();
        assert(is_ascii_char(c)) by {
            assert(c == s[s.len() - 1]);
        }
        if !is_key_separator(c) && s.len() >= 2 && !is_key_separator(s[s.len() - 2]) {
            assert(p.last() == s[s.len() - 2]);
            assert(prev.len() > 0);
            let w = prev.last().push(c);
            assert(plain_word(prev[prev.len() - 1]));
            assert(plain_word(w)) by {
                assert forall|i: int| 0 <= i < w.len() implies !is_key_separator(#[trigger] w[i])
                    && is_ascii_char(w[i]) by {
                    if i < w.len() - 1 {
                        assert(w[i] == prev[prev.len() - 1][i]);
                    }
                }
            }
            let kw = key_words(s);
            assert forall|j: int| 0 <= j < kw.len() implies plain_word(#[trigger] kw[j]) by {
                if j < kw.len() - 1 {
                    assert(kw[j] == prev[j]);
                } else {
                    assert(kw[j] == w);
                }
            }
        } else if !is_key_separator(c) {
            let kw = key_words(s);
            assert(plain_word(seq![c])) by {
                assert forall|i: int| 0 <= i < 1 implies !is_key_separator(#[trigger] seq![c][i])
                    && is_ascii_char(seq![c][i]) by {
                    assert(seq![c][i] == c);
                }
            }
            assert forall|j: int| 0 <= j < kw.len() implies plain_word(#[trigger] kw[j]) by {
                if j < kw.len() - 1 {
                    assert(kw[j] == prev[j]);
                } else {
                    assert(kw[j] == seq![c]);
                }
            }
        }
    }
}

/// Appending the first `k` characters of a word to text that is empty or ends in a
/// separator adds that prefix as one more word.
proof fn lemma_key_words_append_word(p: Seq<char>, w: Seq<char>, k: int)
    requires
        p.len() == 0 || is_key_separator(p.last()),
        plain_word(w),
        1 <= k <= w.len(),
    ensures
        key_words(p + w.take(k)) == key_words(p).push(w.take(k)),
    decreases k,
{
    let s = p + w.take(k);
    assert(s.last() == w[k - 1]);
    if k == 1 {
        assert(s.drop_last() =~= p);
        assert(w.take(1) =~= seq![w[0]]);
        if s.len() >= 2 {
            assert(s[s.len() - 2] == p.last());
        }
    } else {
        lemma_key_words_append_word(p, w, k - 1);
        assert(s.drop_last() =~= p + w.take(k - 1));
        assert(s[s.len() - 2] == w[k - 2]);
        assert(w.take(k - 1).push(w[k - 1]) =~= w.take(k));
    }
}

proof fn lemma_key_words_of_join(ws: Seq<Seq<char>>)
    requires
        forall|j: int| 0 <= j < ws.len() ==> plain_word(#[trigger] ws[j]),
    ensures
        key_words(join_with_spaces(ws)) == ws,
    decreases ws.len(),
{
    if ws.len() == 0 {
        assert(ws =~= Seq::<Seq<char>>::empty());
    } else if ws.len() == 1 {
        let w = ws[0];
        assert(plain_word(w));
        assert(w.take(w.len() as int) =~= w);
        lemma_key_words_append_word(Seq::<char>::empty(), w, w.len() as int);
        assert(Seq::<char>::empty() + w.take(w.len() as int) =~= w);
        assert(key_words(Seq::<char>::empty()).push(w) =~= ws);
    } else {
        let init = ws.drop_last();
        lemma_key_words_of_join(init);
        let w = ws.last();
        assert(plain_word(ws[ws.len() - 1]));
        let p = join_with_spaces(init) + seq![' '];
        assert(p.drop_last() =~= join_with_spaces(init));
        assert(p.last() == ' ');
        assert(key_words(p) == init);
        lemma_key_words_append_word(p, w, w.len() as int);
        assert(w.take(w.len() as int) =~= w);
        assert(p + w.take(w.len() as int) =~= join_with_spaces(ws));
        assert(init.push(w) =~= ws);
    }
}

/// For a key made of ASCII characters, formatting is idempotent: the label of a label is
/// the label itself, and the label has exactly the capitalized words of the key.
pub proof fn lemma_key_label_idempotent(key: Seq<char>)
    requires
        all_ascii(key),
    ensures
        key_words(key_label(key)) == key_words(key).map_values(|w: Seq<char>| capitalized(w)),
        key_label(key_label(key)) == key_label(key),
{
    let kw = key_words(key);
    lemma_key_words_plain(key);
    let caps = kw.map_values(|w: Seq<char>| capitalized(w));
    assert forall|j: int| 0 <= j < caps.len() implies plain_word(#[trigger] caps[j]) by {
        let w = kw[j];
        assert(plain_word(w));
        lemma_ascii_upper(w[0]);
        let cw = capitalized(w);
        assert(cw == seq![ascii_upper(w[0])] + w.drop_first());
        assert forall|i: int| 0 <= i < cw.len() implies !is_key_separator(#[trigger] cw[i])
            && is_ascii_char(cw[i]) by {
            if i > 0 {
                assert(cw[i] == w[i]);
            } else {
                assert(!is_key_separator(w[0]));
            }
        }
        assert(caps[j] == cw);
    }
    lemma_key_words_of_join(caps);
    let caps2 = caps.map_values(|w: Seq<char>| capitalized(w));
    assert forall|j: int| 0 <= j < caps.len() implies #[trigger] caps2[j] == caps[j] by {
        let w = kw[j];
        assert(plain_word(w));
        lemma_ascii_upper(w[0]);
        assert(caps[j] == seq![ascii_upper(w[0])] + w.drop_first());
        assert(caps[j][0] == ascii_upper(w[0]));
        assert(caps[j].drop_first() =~= w.drop_first());
    }
    assert(caps2 =~= caps);
}

} // verus!
