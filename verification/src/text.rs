//! Text handling shared by the other modules: trimming, splitting, prefixes,
//! and decimal numbers, each stated over `Seq<char>`.

use vstd::prelude::*;
use vstd::string::StringExecFns;

verus! {

/// `head` followed by `tail`.
pub fn join(head: &str, tail: &str) -> (text: String)
    ensures
        text@ == head@ + tail@,
{
    let mut text = String::from_str(head);
    text.append(tail);
    text
}

/// The characters with the Unicode property `White_Space`.
pub open spec fn is_whitespace(c: char) -> bool {
    let u = c as u32;
    ||| 0x09 <= u <= 0x0D
    ||| u == 0x20
    ||| u == 0x85
    ||| u == 0xA0
    ||| u == 0x1680
    ||| 0x2000 <= u <= 0x200A
    ||| u == 0x2028
    ||| u == 0x2029
    ||| u == 0x202F
    ||| u == 0x205F
    ||| u == 0x3000
}

/// `s` without its leading whitespace.
pub open spec fn trim_start(s: Seq<char>) -> Seq<char>
    decreases s.len(),
{
    if s.len() > 0 && is_whitespace(s[0]) {
        trim_start(s.drop_first())
    } else {
        s
    }
}

/// `s` without its trailing whitespace.
pub open spec fn trim_end(s: Seq<char>) -> Seq<char>
    decreases s.len(),
{
    if s.len() > 0 && is_whitespace(s.last()) {
        trim_end(s.drop_last())
    } else {
        s
    }
}

/// `s` without leading and trailing whitespace.
pub open spec fn trimmed(s: Seq<char>) -> Seq<char> {
    trim_end(trim_start(s))
}

/// `s` without the run of `c` at its end.
pub open spec fn strip_trailing(s: Seq<char>, c: char) -> Seq<char>
    decreases s.len(),
{
    if s.len() > 0 && s.last() == c {
        strip_trailing(s.drop_last(), c)
    } else {
        s
    }
}

/// Skipping `k` leading whitespace characters that end at a non-whitespace
/// character, or at the end of `s`, is trimming the start.
pub proof fn lemma_trim_start_skips(s: Seq<char>, k: int)
    requires
        0 <= k <= s.len(),
        forall|j: int| 0 <= j < k ==> is_whitespace(#[trigger] s[j]),
        k < s.len() ==> !is_whitespace(s[k]),
    ensures
        trim_start(s) == s.skip(k),
    decreases k,
{
    if k == 0 {
        assert(s.skip(0) == s);
    } else {
        let rest = s.drop_first();
        assert forall|j: int| 0 <= j < k - 1 implies is_whitespace(#[trigger] rest[j]) by {
            assert(rest[j] == s[j + 1]);
        }
        lemma_trim_start_skips(rest, k - 1);
        assert(rest.skip(k - 1) == s.skip(k));
    }
}

/// Keeping the first `k` characters, where the rest is whitespace and the
/// `k`-th is not, is trimming the end.
pub proof fn lemma_trim_end_takes(s: Seq<char>, k: int)
    requires
        0 <= k <= s.len(),
        forall|j: int| k <= j < s.len() ==> is_whitespace(#[trigger] s[j]),
        k > 0 ==> !is_whitespace(s[k - 1]),
    ensures
        trim_end(s) == s.take(k),
    decreases s.len() - k,
{
    if k == s.len() {
        assert(s.take(k) == s);
    } else {
        let init = s.drop_last();
        lemma_trim_end_takes(init, k);
        assert(init.take(k) == s.take(k));
    }
}

/// Keeping the first `k` characters, where the rest is `c` and the `k`-th is
/// not, is stripping the trailing run of `c`.
pub proof fn lemma_strip_trailing_takes(s: Seq<char>, c: char, k: int)
    requires
        0 <= k <= s.len(),
        forall|j: int| k <= j < s.len() ==> #[trigger] s[j] == c,
        k > 0 ==> s[k - 1] != c,
    ensures
        strip_trailing(s, c) == s.take(k),
    decreases s.len() - k,
{
    if k == s.len() {
        assert(s.take(k) == s);
    } else {
        let init = s.drop_last();
        lemma_strip_trailing_takes(init, c, k);
        assert(init.take(k) == s.take(k));
    }
}

/// Whether `s` holds whitespace only.
pub open spec fn all_whitespace(s: Seq<char>) -> bool {
    forall|j: int| 0 <= j < s.len() ==> is_whitespace(#[trigger] s[j])
}

/// Trimming the start takes whitespace away from the start, and nothing
/// else: what is left does not begin with whitespace.
pub proof fn lemma_trim_start_parts(s: Seq<char>) -> (head: Seq<char>)
    ensures
        s == head + trim_start(s),
        all_whitespace(head),
        trim_start(s).len() > 0 ==> !is_whitespace(trim_start(s)[0]),
    decreases s.len(),
{
    if s.len() > 0 && is_whitespace(s[0]) {
        let rest = lemma_trim_start_parts(s.drop_first());
        let head = seq![s[0]] + rest;
        assert(s =~= seq![s[0]] + s.drop_first());
        assert(head + trim_start(s) =~= seq![s[0]] + (rest + trim_start(s.drop_first())));
        head
    } else {
        assert(s =~= Seq::<char>::empty() + trim_start(s));
        Seq::<char>::empty()
    }
}

/// Trimming the end takes whitespace away from the end, and nothing else:
/// what is left does not end with whitespace.
pub proof fn lemma_trim_end_parts(s: Seq<char>) -> (tail: Seq<char>)
    ensures
        s == trim_end(s) + tail,
        all_whitespace(tail),
        trim_end(s).len() > 0 ==> !is_whitespace(trim_end(s).last()),
    decreases s.len(),
{
    if s.len() > 0 && is_whitespace(s.last()) {
        let rest = lemma_trim_end_parts(s.drop_last());
        let tail = rest.push(s.last());
        assert(s =~= s.drop_last().push(s.last()));
        assert(trim_end(s) + tail =~= (trim_end(s.drop_last()) + rest).push(s.last()));
        tail
    } else {
        assert(s =~= trim_end(s) + Seq::<char>::empty());
        Seq::<char>::empty()
    }
}

/// Trimming takes whitespace away from both ends, and nothing else: `s` is
/// whitespace, the trimmed text, and whitespace again, and the trimmed text
/// neither begins nor ends with whitespace.
pub proof fn lemma_trimmed_parts(s: Seq<char>) -> (ends: (Seq<char>, Seq<char>))
    ensures
        s == ends.0 + trimmed(s) + ends.1,
        all_whitespace(ends.0),
        all_whitespace(ends.1),
        trimmed(s).len() > 0 ==> !is_whitespace(trimmed(s)[0]) && !is_whitespace(
            trimmed(s).last(),
        ),
{
    let head = lemma_trim_start_parts(s);
    let body = trim_start(s);
    let tail = lemma_trim_end_parts(body);
    assert(s =~= head + trimmed(s) + tail);
    if trimmed(s).len() > 0 {
        assert(body =~= trimmed(s) + tail);
        assert(trimmed(s)[0] == body[0]);
    }
    (head, tail)
}

/// Whether `c` is whitespace.
pub fn char_is_whitespace(c: char) -> (b: bool)
    ensures
        b == is_whitespace(c),
{
    let u: u32 = c as u32;
    (0x09 <= u && u <= 0x0D) || u == 0x20 || u == 0x85 || u == 0xA0 || u == 0x1680 || (0x2000 <= u
        && u <= 0x200A) || u == 0x2028 || u == 0x2029 || u == 0x202F || u == 0x205F || u == 0x3000
}

/// The part of `s` between its leading and its trailing whitespace.
pub fn trim(s: &str) -> (r: &str)
    ensures
        r@ == trimmed(s@),
{
    let n: usize = s.unicode_len();
    let mut start: usize = 0;
    let mut end: usize = 0;
    let mut i: usize = 0;
    for c in iter: s.chars()
        invariant
            iter.seq() == s@,
            n == s@.len(),
            i == iter.index(),
            start <= end <= i,
            forall|j: int| 0 <= j < start ==> is_whitespace(#[trigger] s@[j]),
            forall|j: int| end <= j < i ==> is_whitespace(#[trigger] s@[j]),
            start < end ==> !is_whitespace(s@[start as int]) && !is_whitespace(s@[end - 1]),
            start == end ==> start == i,
    {
        if char_is_whitespace(c) {
            if start == end {
                start = i + 1;
                end = i + 1;
            }
        } else {
            end = i + 1;
        }
        i = i + 1;
    }
    proof {
        let body = s@.skip(start as int);
        lemma_trim_start_skips(s@, start as int);
        lemma_trim_end_takes(body, end - start);
        assert(body.take(end - start) == s@.subrange(start as int, end as int));
    }
    s.substring_char(start, end)
}

/// `s` without the run of `c` at its end.
pub fn trim_end_matches(s: &str, c: char) -> (r: &str)
    ensures
        r@ == strip_trailing(s@, c),
{
    let n: usize = s.unicode_len();
    let mut end: usize = 0;
    let mut i: usize = 0;
    for d in iter: s.chars()
        invariant
            iter.seq() == s@,
            n == s@.len(),
            i == iter.index(),
            end <= i,
            forall|j: int| end <= j < i ==> #[trigger] s@[j] == c,
            end > 0 ==> s@[end - 1] != c,
    {
        if d != c {
            end = i + 1;
        }
        i = i + 1;
    }
    proof {
        lemma_strip_trailing_takes(s@, c, end as int);
    }
    s.substring_char(0, end)
}

/// The pieces of `s` between the occurrences of `sep`, in order. A text
/// without `sep` is one piece; two neighbouring separators enclose an empty
/// piece.
pub open spec fn pieces(s: Seq<char>, sep: char) -> Seq<Seq<char>>
    decreases s.len(),
{
    if s.len() == 0 {
        seq![Seq::<char>::empty()]
    } else {
        let before = pieces(s.drop_last(), sep);
        if s.last() == sep {
            before.push(Seq::<char>::empty())
        } else {
            before.drop_last().push(before.last().push(s.last()))
        }
    }
}

/// The pieces put together again, with `sep` between neighbours.
pub open spec fn rejoined(parts: Seq<Seq<char>>, sep: char) -> Seq<char>
    decreases parts.len(),
{
    if parts.len() == 0 {
        Seq::<char>::empty()
    } else if parts.len() == 1 {
        parts[0]
    } else {
        rejoined(parts.drop_last(), sep) + seq![sep] + parts.last()
    }
}

/// Splitting loses nothing and leaves no separator behind: there is at
/// least one piece, no piece holds `sep`, and the pieces with `sep` between
/// them are `s` again.
pub proof fn lemma_pieces_rejoin(s: Seq<char>, sep: char)
    ensures
        pieces(s, sep).len() >= 1,
        forall|k: int, j: int|
            0 <= k < pieces(s, sep).len() && 0 <= j < pieces(s, sep)[k].len() ==> pieces(
                s,
                sep,
            )[k][j] != sep,
        rejoined(pieces(s, sep), sep) == s,
    decreases s.len(),
{
    if s.len() == 0 {
        assert(rejoined(pieces(s, sep), sep) =~= s);
    } else {
        let before = pieces(s.drop_last(), sep);
        let c = s.last();
        lemma_pieces_rejoin(s.drop_last(), sep);
        let now = pieces(s, sep);
        if c == sep {
            assert(now.drop_last() == before);
            assert(rejoined(now, sep) =~= s);
        } else {
            let grown = before.last().push(c);
            assert(now.last() == grown);
            if before.len() == 1 {
                assert(rejoined(now, sep) =~= s);
            } else {
                assert(now.drop_last() == before.drop_last());
                assert(rejoined(now, sep) =~= rejoined(before, sep).push(c));
                assert(rejoined(now, sep) =~= s);
            }
            assert forall|k: int, j: int|
                0 <= k < now.len() && 0 <= j < now[k].len() implies now[k][j] != sep by {
                if k < now.len() - 1 {
                    assert(now[k] == before[k]);
                } else if j < before.last().len() {
                    assert(now[k][j] == before.last()[j]);
                }
            }
        }
    }
}

/// `s` after `prefix`, where `s` starts with it.
pub open spec fn without_prefix(s: Seq<char>, prefix: Seq<char>) -> Option<Seq<char>> {
    if prefix.is_prefix_of(s) {
        Some(s.skip(prefix.len() as int))
    } else {
        None
    }
}

/// The pieces of `s` between the occurrences of `sep`.
pub fn split<'a>(s: &'a str, sep: char) -> (out: Vec<&'a str>)
    ensures
        out@.len() == pieces(s@, sep).len(),
        forall|k: int| 0 <= k < out@.len() ==> (#[trigger] out@[k])@ == pieces(s@, sep)[k],
{
    let n: usize = s.unicode_len();
    let mut out: Vec<&'a str> = Vec::new();
    let mut start: usize = 0;
    let mut i: usize = 0;
    proof {
        assert(s@.take(0) == Seq::<char>::empty());
        assert(s@.subrange(0, 0) == Seq::<char>::empty());
    }
    for c in iter: s.chars()
        invariant
            iter.seq() == s@,
            n == s@.len(),
            i == iter.index(),
            start <= i,
            out@.len() + 1 == pieces(s@.take(i as int), sep).len(),
            forall|k: int|
                0 <= k < out@.len() ==> (#[trigger] out@[k])@ == pieces(s@.take(i as int), sep)[k],
            pieces(s@.take(i as int), sep).last() == s@.subrange(start as int, i as int),
    {
        proof {
            assert(s@.take(i + 1).drop_last() == s@.take(i as int));
            assert(s@.take(i + 1).last() == c);
        }
        if c == sep {
            out.push(s.substring_char(start, i));
            start = i + 1;
            proof {
                assert(s@.subrange(i + 1, i + 1) == Seq::<char>::empty());
            }
        } else {
            proof {
                assert(s@.subrange(start as int, i + 1) == s@.subrange(start as int, i as int).push(
                    c,
                ));
            }
        }
        i = i + 1;
    }
    proof {
        assert(s@.take(n as int) == s@);
    }
    out.push(s.substring_char(start, i));
    out
}

/// `s` after `prefix`, or `None` where `s` does not start with it.
pub fn strip_prefix<'a>(s: &'a str, prefix: &str) -> (r: Option<&'a str>)
    ensures
        match r {
            Some(rest) => without_prefix(s@, prefix@) == Some(rest@),
            None => without_prefix(s@, prefix@) is None,
        },
{
    let n: usize = s.unicode_len();
    let m: usize = prefix.unicode_len();
    if m > n {
        return None;
    }
    let mut k: usize = 0;
    while k < m
        invariant
            k <= m <= n,
            n == s@.len(),
            m == prefix@.len(),
            forall|j: int| 0 <= j < k ==> s@[j] == prefix@[j],
        decreases m - k,
    {
        if s.get_char(k) != prefix.get_char(k) {
            proof {
                assert(s@.subrange(0, m as int)[k as int] == s@[k as int]);
            }
            return None;
        }
        k = k + 1;
    }
    proof {
        assert(s@.subrange(0, m as int) =~= prefix@);
    }
    Some(s.substring_char(m, n))
}

/// Whether `a` and `b` hold the same characters.
pub fn str_equal(a: &str, b: &str) -> (r: bool)
    ensures
        r == (a@ == b@),
{
    let x: &[u8] = a.as_bytes();
    let y: &[u8] = b.as_bytes();
    proof {
        vstd::utf8::encode_utf8_decode_utf8(a@);
        vstd::utf8::encode_utf8_decode_utf8(b@);
        assert(x@ == vstd::utf8::encode_utf8(a@));
        assert(y@ == vstd::utf8::encode_utf8(b@));
    }
    if x.len() != y.len() {
        return false;
    }
    let mut k: usize = 0;
    while k < x.len()
        invariant
            k <= x.len(),
            x.len() == y.len(),
            x@ == vstd::utf8::encode_utf8(a@),
            y@ == vstd::utf8::encode_utf8(b@),
            forall|j: int| 0 <= j < k ==> x@[j] == y@[j],
        decreases x.len() - k,
    {
        if x[k] != y[k] {
            proof {
                assert(x@[k as int] != y@[k as int]);
            }
            return false;
        }
        k = k + 1;
    }
    proof {
        assert(x@ =~= y@);
    }
    true
}

/// `String::push` appends the one character to the text.
pub assume_specification[ String::push ](s: &mut String, ch: char)
    ensures
        final(s)@ == old(s)@.push(ch),
;

/// The ASCII digits `0` to `9`.
pub open spec fn is_digit(c: char) -> bool {
    0x30 <= c as u32 <= 0x39
}

/// The number that a digit stands for.
pub open spec fn digit_value(c: char) -> nat {
    if is_digit(c) {
        (c as u32 - 0x30) as nat
    } else {
        0
    }
}

/// The digit that stands for `d`, for `d` below ten.
pub open spec fn digit_char(d: nat) -> char {
    ((0x30 + d) as u8) as char
}

/// Whether `s` holds digits only.
pub open spec fn all_digits(s: Seq<char>) -> bool {
    forall|i: int| 0 <= i < s.len() ==> is_digit(#[trigger] s[i])
}

/// The number that the digits of `s` write in base ten.
pub open spec fn decimal_value(s: Seq<char>) -> nat
    decreases s.len(),
{
    if s.len() == 0 {
        0
    } else {
        decimal_value(s.drop_last()) * 10 + digit_value(s.last())
    }
}

/// `n` written in base ten, without leading zeros.
pub open spec fn decimal(n: nat) -> Seq<char>
    decreases n,
{
    if n < 10 {
        seq![digit_char(n)]
    } else {
        decimal(n / 10).push(digit_char(n % 10))
    }
}

/// `s` after its optional plus sign.
pub open spec fn unsigned_body(s: Seq<char>) -> Seq<char> {
    if s.len() > 0 && s[0] == '+' {
        s.drop_first()
    } else {
        s
    }
}

/// The number that `s` writes, where `s` is an optional plus sign followed by
/// one or more digits that write a number of at most `max`.
pub open spec fn unsigned_value(s: Seq<char>, max: nat) -> Option<nat> {
    let body = unsigned_body(s);
    if body.len() > 0 && all_digits(body) && decimal_value(body) <= max {
        Some(decimal_value(body))
    } else {
        None
    }
}

/// More digits never write a smaller number.
pub proof fn lemma_decimal_value_grows(s: Seq<char>, k: int)
    requires
        0 <= k <= s.len(),
    ensures
        decimal_value(s.take(k)) <= decimal_value(s),
    decreases s.len() - k,
{
    if k == s.len() {
        assert(s.take(k) == s);
    } else {
        lemma_decimal_value_grows(s.drop_last(), k);
        assert(s.drop_last().take(k) == s.take(k));
    }
}

/// Reading what was written gives the number back.
pub proof fn lemma_decimal_round_trip(n: nat, max: nat)
    requires
        n <= max,
    ensures
        unsigned_value(decimal(n), max) == Some(n),
        decimal(n).len() > 0,
        all_digits(decimal(n)),
        decimal_value(decimal(n)) == n,
    decreases n,
{
    let last = digit_char(n % 10);
    assert(is_digit(last) && digit_value(last) == n % 10) by {
        let b = (0x30 + n % 10) as u8;
        assert(0x30 <= b <= 0x39);
        assert((b as char) as u32 == b as u32);
    }
    if n < 10 {
        assert(decimal(n).drop_last() == Seq::<char>::empty());
        assert(decimal_value(decimal(n).drop_last()) == 0);
    } else {
        lemma_decimal_round_trip(n / 10, max);
        assert(decimal(n).drop_last() == decimal(n / 10));
    }
    assert(decimal(n)[0] != '+') by {
        assert(is_digit(decimal(n)[0]));
    }
}

/// Appends `n` in base ten to `out`.
pub fn push_decimal(out: &mut String, n: u64)
    ensures
        final(out)@ == old(out)@ + decimal(n as nat),
    decreases n,
{
    if n >= 10 {
        push_decimal(out, n / 10);
    }
    let digit: u8 = (n % 10) as u8;
    out.push((0x30u8 + digit) as char);
    proof {
        if n >= 10 {
            assert(old(out)@ + decimal((n / 10) as nat).push(digit_char((n % 10) as nat)) == (
            old(out)@ + decimal((n / 10) as nat)).push(digit_char((n % 10) as nat)));
        } else {
            assert(old(out)@ + seq![digit_char(n as nat)] == old(out)@.push(digit_char(n as nat)));
        }
    }
}

/// `n` in base ten.
pub fn decimal_string(n: u64) -> (s: String)
    ensures
        s@ == decimal(n as nat),
{
    let mut s = String::new();
    push_decimal(&mut s, n);
    proof {
        assert(Seq::<char>::empty() + decimal(n as nat) == decimal(n as nat));
    }
    s
}

/// Reads an unsigned number of at most `max`: an optional plus sign, then
/// digits only, at least one.
pub fn parse_unsigned(s: &str, max: u64) -> (r: Option<u64>)
    ensures
        match r {
            Some(v) => unsigned_value(s@, max as nat) == Some(v as nat),
            None => unsigned_value(s@, max as nat) is None,
        },
{
    let n: usize = s.unicode_len();
    let mut value: u64 = 0;
    let mut off: usize = 0;
    let mut i: usize = 0;
    proof {
        assert(s@.subrange(0, 0) == Seq::<char>::empty());
    }
    for c in iter: s.chars()
        invariant
            iter.seq() == s@,
            n == s@.len(),
            i == iter.index(),
            off <= i,
            off == (if i > 0 && s@[0] == '+' { 1int } else { 0int }),
            all_digits(s@.subrange(off as int, i as int)),
            value == decimal_value(s@.subrange(off as int, i as int)),
            value <= max,
    {
        let ghost body = unsigned_body(s@);
        proof {
            assert(i >= off);
            if i > 0 {
                assert(body == s@.skip(off as int));
            }
        }
        if i == 0 && c == '+' {
            off = 1;
            proof {
                assert(s@.subrange(1, 1) == Seq::<char>::empty());
            }
        } else {
            proof {
                if i == 0 {
                    assert(body == s@.skip(0));
                }
                assert(body == s@.skip(off as int));
                assert(body[i - off] == c);
                assert(body.take(i + 1 - off) == s@.subrange(off as int, i + 1));
                assert(s@.subrange(off as int, i + 1).drop_last() == s@.subrange(
                    off as int,
                    i as int,
                ));
                lemma_decimal_value_grows(body, i + 1 - off);
            }
            let u: u32 = c as u32;
            if u < 0x30 || u > 0x39 {
                return None;
            }
            let d: u64 = (u - 0x30) as u64;
            if d > max || value > (max - d) / 10 {
                return None;
            }
            value = value * 10 + d;
        }
        i = i + 1;
    }
    proof {
        assert(unsigned_body(s@) == s@.subrange(off as int, n as int));
    }
    if i == off {
        return None;
    }
    Some(value)
}

/// Reads a `u64`.
pub fn parse_u64(s: &str) -> (r: Option<u64>)
    ensures
        match r {
            Some(v) => unsigned_value(s@, u64::MAX as nat) == Some(v as nat),
            None => unsigned_value(s@, u64::MAX as nat) is None,
        },
{
    parse_unsigned(s, u64::MAX)
}

/// Reads a `u16`.
pub fn parse_u16(s: &str) -> (r: Option<u16>)
    ensures
        match r {
            Some(v) => unsigned_value(s@, u16::MAX as nat) == Some(v as nat),
            None => unsigned_value(s@, u16::MAX as nat) is None,
        },
{
    match parse_unsigned(s, 0xFFFF) {
        Some(v) => Some(v as u16),
        None => None,
    }
}

} // verus!
