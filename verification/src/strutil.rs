//! String and decimal-number helpers shared by the parsers and formatters.

use vstd::prelude::*;

verus! {

/// `p` is a prefix of `s`.
pub open spec fn prefix_of(s: Seq<char>, p: Seq<char>) -> bool {
    p.len() <= s.len() && s.take(p.len() as int) == p
}

/// Whether `s` starts with `p`, by character.
pub fn has_prefix(s: &str, p: &str) -> (r: bool)
    ensures
        r == prefix_of(s@, p@),
{
    let n: usize = s.unicode_len();
    let m: usize = p.unicode_len();
    if m > n {
        assert(!prefix_of(s@, p@));
        return false;
    }
    let mut i: usize = 0;
    while i < m
        invariant
            0 <= i <= m,
            m <= n,
            n == s@.len(),
            m == p@.len(),
            forall|j: int| 0 <= j < i ==> s@[j] == p@[j],
        decreases m - i,
    {
        if s.get_char(i) != p.get_char(i) {
            assert(s@.take(m as int)[i as int] != p@[i as int]);
            return false;
        }
        i = i + 1;
    }
    assert(s@.take(m as int) =~= p@);
    true
}

/// Whether the views of `a` and `b` are the same character sequence.
pub fn str_eq(a: &str, b: &str) -> (r: bool)
    ensures
        r == (a@ == b@),
{
    let n: usize = a.unicode_len();
    let m: usize = b.unicode_len();
    if n != m {
        return false;
    }
    let mut i: usize = 0;
    while i < n
        invariant
            0 <= i <= n,
            n == a@.len(),
            n == b@.len(),
            forall|j: int| 0 <= j < i ==> a@[j] == b@[j],
        decreases n - i,
    {
        if a.get_char(i) != b.get_char(i) {
            return false;
        }
        i = i + 1;
    }
    assert(a@ =~= b@);
    true
}

/// The character for one decimal digit value.
pub open spec fn digit_char(d: nat) -> char {
    if d == 0 { '0' }
    else if d == 1 { '1' }
    else if d == 2 { '2' }
    else if d == 3 { '3' }
    else if d == 4 { '4' }
    else if d == 5 { '5' }
    else if d == 6 { '6' }
    else if d == 7 { '7' }
    else if d == 8 { '8' }
    else { '9' }
}

/// Decimal rendering of a natural number, most significant digit first.
pub open spec fn dec_digits(n: nat) -> Seq<char>
    decreases n,
{
    if n < 10 {
        seq![digit_char(n)]
    } else {
        dec_digits(n / 10) + seq![digit_char(n % 10)]
    }
}

/// Decimal rendering of an integer, with a leading minus sign when negative.
pub open spec fn dec_int(i: int) -> Seq<char> {
    if i < 0 {
        seq!['-'] + dec_digits((-i) as nat)
    } else {
        dec_digits(i as nat)
    }
}

fn digit_str(d: u64) -> (r: &'static str)
    requires
        d < 10,
    ensures
        r@ =~= seq![digit_char(d as nat)],
{
    proof {
        reveal_strlit("0");
        reveal_strlit("1");
        reveal_strlit("2");
        reveal_strlit("3");
        reveal_strlit("4");
        reveal_strlit("5");
        reveal_strlit("6");
        reveal_strlit("7");
        reveal_strlit("8");
        reveal_strlit("9");
    }
    if d == 0 { "0" }
    else if d == 1 { "1" }
    else if d == 2 { "2" }
    else if d == 3 { "3" }
    else if d == 4 { "4" }
    else if d == 5 { "5" }
    else if d == 6 { "6" }
    else if d == 7 { "7" }
    else if d == 8 { "8" }
    else { "9" }
}

/// Render a `u64` in decimal.
pub fn u64_dec(n: u64) -> (r: String)
    ensures
        r@ == dec_digits(n as nat),
{
    let mut v: u64 = n;
    let mut out: String = String::new();
    while v >= 10
        invariant
            dec_digits(n as nat) == dec_digits(v as nat) + out@,
        decreases v,
    {
        let d: u64 = v % 10;
        out = String::from_str(digit_str(d)).concat(out.as_str());
        v = v / 10;
        assert(dec_digits(n as nat) == dec_digits(v as nat) + out@);
    }
    let res = String::from_str(digit_str(v)).concat(out.as_str());
    assert(res@ =~= dec_digits(n as nat));
    res
}

/// Render an `i64` in decimal, with a minus sign when negative.
pub fn i64_dec(i: i64) -> (r: String)
    ensures
        r@ == dec_int(i as int),
{
    if i >= 0 {
        u64_dec(i as u64)
    } else {
        let mag: u64 = if i == i64::MIN {
            9223372036854775808u64
        } else {
            (-i) as u64
        };
        proof {
            reveal_strlit("-");
        }
        let res = String::from_str("-").concat(u64_dec(mag).as_str());
        assert(res@ =~= dec_int(i as int));
        res
    }
}

/// Render an `i32` in decimal.
pub fn i32_dec(i: i32) -> (r: String)
    ensures
        r@ == dec_int(i as int),
{
    i64_dec(i as i64)
}

/// Render a `usize` in decimal.
pub fn usize_dec(n: usize) -> (r: String)
    ensures
        r@ == dec_digits(n as nat),
{
    u64_dec(n as u64)
}

/// Render a `u16` in decimal.
pub fn u16_dec(n: u16) -> (r: String)
    ensures
        r@ == dec_digits(n as nat),
{
    u64_dec(n as u64)
}

/// `n` copies of one character.
pub open spec fn repeat_char(c: char, n: nat) -> Seq<char>
    decreases n,
{
    if n == 0 {
        Seq::empty()
    } else {
        repeat_char(c, (n - 1) as nat) + seq![c]
    }
}

/// Character runs concatenate.
pub proof fn lemma_repeat_add(c: char, a: nat, b: nat)
    ensures
        repeat_char(c, a + b) == repeat_char(c, a) + repeat_char(c, b),
    decreases b,
{
    if b == 0 {
        assert(repeat_char(c, a) + repeat_char(c, 0) =~= repeat_char(c, a));
    } else {
        lemma_repeat_add(c, a, (b - 1) as nat);
        assert((repeat_char(c, a) + repeat_char(c, (b - 1) as nat)) + seq![c] =~= repeat_char(
            c,
            a,
        ) + (repeat_char(c, (b - 1) as nat) + seq![c]));
    }
}

/// A run of `n` spaces.
pub fn spaces(n: usize) -> (r: String)
    ensures
        r@ == repeat_char(' ', n as nat),
{
    proof {
        reveal_strlit(" ");
    }
    let mut out: String = String::new();
    let mut i: usize = 0;
    while i < n
        invariant
            0 <= i <= n,
            out@ == repeat_char(' ', i as nat),
        decreases n - i,
    {
        out.append(" ");
        proof {
            reveal_strlit(" ");
        }
        assert(out@ =~= repeat_char(' ', (i + 1) as nat));
        i = i + 1;
    }
    out
}

/// `s` left-padded with zeros to at least `w` characters.
pub open spec fn zero_pad(s: Seq<char>, w: nat) -> Seq<char> {
    if s.len() >= w {
        s
    } else {
        repeat_char('0', (w - s.len()) as nat) + s
    }
}

/// Left-pad a string with zeros to at least `w` characters.
pub fn pad_zeros(s: String, w: usize) -> (r: String)
    ensures
        r@ == zero_pad(s@, w as nat),
{
    proof {
        reveal_strlit("0");
    }
    let len: usize = s.as_str().unicode_len();
    if len >= w {
        return s;
    }
    let mut out: String = String::new();
    let mut i: usize = 0;
    let pad: usize = w - len;
    while i < pad
        invariant
            0 <= i <= pad,
            out@ == repeat_char('0', i as nat),
        decreases pad - i,
    {
        out.append("0");
        proof {
            reveal_strlit("0");
        }
        assert(out@ =~= repeat_char('0', (i + 1) as nat));
        i = i + 1;
    }
    let res = out.concat(s.as_str());
    assert(res@ =~= zero_pad(s@, w as nat));
    res
}

/// A decimal digit character.
pub open spec fn is_dec_digit(c: char) -> bool {
    48 <= c as int <= 57
}

/// The numeric value of a decimal digit character.
pub open spec fn digit_val(c: char) -> nat {
    (c as int - 48) as nat
}

/// All characters of `s` are decimal digits.
pub open spec fn all_digits(s: Seq<char>) -> bool {
    forall|i: int| 0 <= i < s.len() ==> is_dec_digit(s[i])
}

/// The number denoted by a digit sequence, most significant digit first.
pub open spec fn dec_val(s: Seq<char>) -> nat
    decreases s.len(),
{
    if s.len() == 0 {
        0
    } else {
        dec_val(s.drop_last()) * 10 + digit_val(s.last())
    }
}

/// `s` without one leading plus sign.
pub open spec fn strip_plus(s: Seq<char>) -> Seq<char> {
    if s.len() > 0 && s[0] == '+' {
        s.skip(1)
    } else {
        s
    }
}

/// What `str::parse::<u16>` accepts: an optional `+`, then one or more
/// digits denoting a value of at most 65535.
pub open spec fn parse_u16_spec(s: Seq<char>) -> Option<u16> {
    let d = strip_plus(s);
    if d.len() > 0 && all_digits(d) && dec_val(d) <= 0xffff {
        Some(dec_val(d) as u16)
    } else {
        None
    }
}

/// What `str::parse::<i32>` accepts: an optional sign, then one or more
/// digits denoting a value within the `i32` range.
pub open spec fn parse_i32_spec(s: Seq<char>) -> Option<i32> {
    if s.len() > 0 && s[0] == '-' {
        let d = s.skip(1);
        if d.len() > 0 && all_digits(d) && dec_val(d) <= 0x8000_0000 {
            Some((0 - dec_val(d) as int) as i32)
        } else {
            None
        }
    } else {
        let d = strip_plus(s);
        if d.len() > 0 && all_digits(d) && dec_val(d) <= 0x7fff_ffff {
            Some(dec_val(d) as i32)
        } else {
            None
        }
    }
}

/// A digit prefix never denotes more than the whole digit sequence.
proof fn lemma_dec_val_prefix(d: Seq<char>, k: int)
    requires
        0 <= k <= d.len(),
    ensures
        dec_val(d.take(k)) <= dec_val(d),
    decreases d.len(),
{
    if k < d.len() {
        lemma_dec_val_prefix(d.drop_last(), k);
        assert(d.take(k) =~= d.drop_last().take(k));
    } else {
        assert(d.take(k) =~= d);
    }
}

/// Parse an unsigned 16-bit decimal number as `str::parse::<u16>` does.
pub fn parse_u16(s: &str) -> (r: Option<u16>)
    ensures
        r == parse_u16_spec(s@),
{
    let n: usize = s.unicode_len();
    let start: usize = if n > 0 && s.get_char(0) == '+' {
        1
    } else {
        0
    };
    if start >= n {
        return None;
    }
    let ghost d = strip_plus(s@);
    assert(d =~= s@.subrange(start as int, n as int));
    let mut acc: u32 = 0;
    let mut i: usize = start;
    while i < n
        invariant
            start <= i <= n,
            n == s@.len(),
            d == s@.subrange(start as int, n as int),
            d == strip_plus(s@),
            all_digits(d.take(i - start)),
            acc == dec_val(d.take(i - start)),
            acc <= 0xffff,
        decreases n - i,
    {
        let c = s.get_char(i);
        let cv: u32 = c as u32;
        if cv < 48 || cv > 57 {
            assert(!is_dec_digit(d[i - start]));
            return None;
        }
        let next: u32 = acc * 10 + (cv - 48);
        assert(d.take(i + 1 - start).drop_last() =~= d.take(i - start));
        assert(next == dec_val(d.take(i + 1 - start)));
        if next > 0xffff {
            proof {
                if all_digits(d) && dec_val(d) <= 0xffff {
                    lemma_dec_val_prefix(d, i + 1 - start);
                }
            }
            return None;
        }
        acc = next;
        i = i + 1;
    }
    assert(d.take(n - start) =~= d);
    Some(acc as u16)
}

/// Parse a signed 32-bit decimal number as `str::parse::<i32>` does.
pub fn parse_i32(s: &str) -> (r: Option<i32>)
    ensures
        r == parse_i32_spec(s@),
{
    let n: usize = s.unicode_len();
    let neg: bool = n > 0 && s.get_char(0) == '-';
    let start: usize = if n > 0 && (s.get_char(0) == '+' || s.get_char(0) == '-') {
        1
    } else {
        0
    };
    if start >= n {
        return None;
    }
    let ghost d = if neg { s@.skip(1) } else { strip_plus(s@) };
    assert(d =~= s@.subrange(start as int, n as int));
    let mut acc: u32 = 0;
    let mut i: usize = start;
    let limit: u32 = if neg {
        0x8000_0000
    } else {
        0x7fff_ffff
    };
    while i < n
        invariant
            start <= i <= n,
            n == s@.len(),
            d == s@.subrange(start as int, n as int),
            neg == (s@.len() > 0 && s@[0] == '-'),
            d == (if neg { s@.skip(1) } else { strip_plus(s@) }),
            all_digits(d.take(i - start)),
            acc == dec_val(d.take(i - start)),
            acc <= limit,
            limit == if neg { 0x8000_0000u32 } else { 0x7fff_ffffu32 },
        decreases n - i,
    {
        let c = s.get_char(i);
        let cv: u32 = c as u32;
        if cv < 48 || cv > 57 {
            assert(!is_dec_digit(d[i - start]));
            return None;
        }
        let next_wide: u64 = (acc as u64) * 10 + ((cv - 48) as u64);
        assert(next_wide == dec_val(d.take(i + 1 - start))) by {
            assert(d.take(i + 1 - start).drop_last() =~= d.take(i - start));
        }
        if next_wide > limit as u64 {
            proof {
                if all_digits(d) && dec_val(d) <= limit {
                    lemma_dec_val_prefix(d, i + 1 - start);
                }
            }
            return None;
        }
        acc = next_wide as u32;
        i = i + 1;
    }
    assert(d.take(n - start) =~= d);
    if neg {
        if acc == 0x8000_0000 {
            Some(i32::MIN)
        } else {
            Some(-(acc as i32))
        }
    } else {
        Some(acc as i32)
    }
}

/// The number of newline characters in `s`.
pub open spec fn count_nl(s: Seq<char>) -> nat
    decreases s.len(),
{
    if s.len() == 0 {
        0
    } else {
        count_nl(s.drop_last()) + (if s.last() == '\n' { 1nat } else { 0nat })
    }
}

/// Newline counts add over concatenation.
pub proof fn lemma_count_nl_add(a: Seq<char>, b: Seq<char>)
    ensures
        count_nl(a + b) == count_nl(a) + count_nl(b),
    decreases b.len(),
{
    if b.len() == 0 {
        assert(a + b =~= a);
    } else {
        lemma_count_nl_add(a, b.drop_last());
        assert((a + b).drop_last() =~= a + b.drop_last());
    }
}

/// How many lines `str::lines` yields for `s`.
pub open spec fn line_count(s: Seq<char>) -> nat {
    if s.len() == 0 {
        0
    } else {
        1 + count_nl(s.take(s.len() - 1))
    }
}

/// The end of `s` once one final line terminator (`\n` or `\r\n`) is dropped.
pub open spec fn effective_end(s: Seq<char>) -> int {
    if s.len() >= 2 && s[s.len() - 2] == '\r' && s[s.len() - 1] == '\n' {
        s.len() - 2
    } else if s.len() >= 1 && s[s.len() - 1] == '\n' {
        s.len() - 1
    } else {
        s.len() as int
    }
}

/// The characters of `s` after its last newline.
pub open spec fn last_seg(s: Seq<char>) -> Seq<char>
    decreases s.len(),
{
    if s.len() == 0 {
        Seq::empty()
    } else if s.last() == '\n' {
        Seq::empty()
    } else {
        last_seg(s.drop_last()) + seq![s.last()]
    }
}

/// The last line of `s`, as `str::lines` yields it.
pub open spec fn last_line(s: Seq<char>) -> Seq<char> {
    last_seg(s.take(effective_end(s)))
}

/// `s` without one trailing carriage return.
pub open spec fn strip_cr(s: Seq<char>) -> Seq<char> {
    if s.len() > 0 && s.last() == '\r' {
        s.drop_last()
    } else {
        s
    }
}

/// The characters of `s` before its first newline.
pub open spec fn first_seg(s: Seq<char>) -> Seq<char>
    decreases s.len(),
{
    if s.len() == 0 {
        Seq::empty()
    } else if s[0] == '\n' {
        Seq::empty()
    } else {
        seq![s[0]] + first_seg(s.skip(1))
    }
}

/// The first line of `s`, as `str::lines` yields it.
pub open spec fn first_line(s: Seq<char>) -> Seq<char> {
    strip_cr(first_seg(s))
}

/// `s` with its first line and that line's terminator removed.
pub open spec fn drop_first_line(s: Seq<char>) -> Seq<char>
    decreases s.len(),
{
    if s.len() == 0 {
        s
    } else if s[0] == '\n' {
        s.skip(1)
    } else {
        drop_first_line(s.skip(1))
    }
}

/// The line of `s` at zero-based index `i`; empty when out of range.
pub open spec fn nth_line(s: Seq<char>, i: nat) -> Seq<char>
    decreases i,
{
    if i == 0 {
        first_line(s)
    } else {
        nth_line(drop_first_line(s), (i - 1) as nat)
    }
}

proof fn lemma_drop_first_line_at(t: Seq<char>, j: int)
    requires
        0 <= j <= t.len(),
        forall|l: int| 0 <= l < j ==> t[l] != '\n',
        j == t.len() || t[j] == '\n',
    ensures
        drop_first_line(t) == (if j == t.len() {
            Seq::<char>::empty()
        } else {
            t.skip(j + 1)
        }),
    decreases t.len(),
{
    if t.len() == 0 {
        assert(drop_first_line(t) =~= Seq::<char>::empty());
    } else if j == 0 {
        if t[0] == '\n' {
            assert(drop_first_line(t) == t.skip(1));
        } else {
            assert(false);
        }
    } else {
        assert(t[0] != '\n');
        lemma_drop_first_line_at(t.skip(1), j - 1);
        if j < t.len() {
            assert(t.skip(1).skip(j) =~= t.skip(j + 1));
        }
    }
}

proof fn lemma_nth_line_empty(i: nat)
    ensures
        nth_line(Seq::<char>::empty(), i) == Seq::<char>::empty(),
    decreases i,
{
    if i > 0 {
        assert(drop_first_line(Seq::<char>::empty()) == Seq::<char>::empty());
        lemma_nth_line_empty((i - 1) as nat);
    } else {
        assert(first_seg(Seq::<char>::empty()) == Seq::<char>::empty());
    }
}

/// The line of `s` at zero-based index `idx`; empty when out of range.
pub fn line_at(s: &str, idx: usize) -> (r: String)
    ensures
        r@ == nth_line(s@, idx as nat),
{
    let n: usize = s.unicode_len();
    let mut cur: usize = 0;
    let mut k: usize = idx;
    assert(s@.subrange(0, n as int) =~= s@);
    while k > 0
        invariant
            0 <= cur <= n,
            n == s@.len(),
            k <= idx,
            nth_line(s@, idx as nat) == nth_line(s@.subrange(cur as int, n as int), k as nat),
        decreases k,
    {
        let ghost suffix = s@.subrange(cur as int, n as int);
        let mut j: usize = cur;
        while j < n && s.get_char(j) != '\n'
            invariant
                cur <= j <= n,
                n == s@.len(),
                forall|l: int| cur <= l < j ==> s@[l] != '\n',
            decreases n - j,
        {
            j = j + 1;
        }
        proof {
            lemma_drop_first_line_at(suffix, j - cur);
        }
        if j == n {
            proof {
                lemma_nth_line_empty((k - 1) as nat);
            }
            return String::new();
        }
        proof {
            assert(suffix.skip(j - cur + 1) =~= s@.subrange(j + 1, n as int));
        }
        cur = j + 1;
        k = k - 1;
    }
    let ghost suffix = s@.subrange(cur as int, n as int);
    let mut j: usize = cur;
    while j < n && s.get_char(j) != '\n'
        invariant
            cur <= j <= n,
            n == s@.len(),
            forall|l: int| cur <= l < j ==> s@[l] != '\n',
        decreases n - j,
    {
        j = j + 1;
    }
    proof {
        lemma_first_seg_to(suffix, j - cur);
        assert(suffix.subrange(0, j - cur) =~= s@.subrange(cur as int, j as int));
    }
    let end: usize = if j > cur && s.get_char(j - 1) == '\r' {
        j - 1
    } else {
        j
    };
    let seg = s.substring_char(cur, end);
    assert(seg@ =~= nth_line(s@, idx as nat));
    seg.to_owned()
}

/// `s` without any leading occurrences of `c`.
pub open spec fn trim_start_ch(s: Seq<char>, c: char) -> Seq<char>
    decreases s.len(),
{
    if s.len() > 0 && s[0] == c {
        trim_start_ch(s.skip(1), c)
    } else {
        s
    }
}

/// Trim every leading occurrence of `c` from `s`.
pub fn trim_start_char(s: &str, c: char) -> (r: String)
    ensures
        r@ == trim_start_ch(s@, c),
{
    let n: usize = s.unicode_len();
    let mut a: usize = 0;
    assert(s@.subrange(0, n as int) =~= s@);
    while a < n && s.get_char(a) == c
        invariant
            0 <= a <= n,
            n == s@.len(),
            trim_start_ch(s@, c) == trim_start_ch(s@.subrange(a as int, n as int), c),
        decreases n - a,
    {
        assert(s@.subrange(a as int, n as int).skip(1) =~= s@.subrange(a + 1, n as int));
        a = a + 1;
    }
    let seg = s.substring_char(a, n);
    assert(seg@ == trim_start_ch(s@, c));
    seg.to_owned()
}

/// Split `s` at its first occurrence of `c`: the parts before and after,
/// or nothing when `c` does not occur.
pub open spec fn split_once_ch(s: Seq<char>, c: char) -> Option<(Seq<char>, Seq<char>)>
    decreases s.len(),
{
    if s.len() == 0 {
        None
    } else if s[0] == c {
        Some((Seq::empty(), s.skip(1)))
    } else {
        match split_once_ch(s.skip(1), c) {
            Some(p) => Some((seq![s[0]] + p.0, p.1)),
            None => None,
        }
    }
}

proof fn lemma_split_once_at(s: Seq<char>, c: char, j: int)
    requires
        0 <= j <= s.len(),
        forall|l: int| 0 <= l < j ==> s[l] != c,
        j == s.len() || s[j] == c,
    ensures
        split_once_ch(s, c) == (if j == s.len() {
            None::<(Seq<char>, Seq<char>)>
        } else {
            Some((s.subrange(0, j), s.skip(j + 1)))
        }),
    decreases s.len(),
{
    if s.len() == 0 {
    } else if j == 0 {
        assert(s[0] == c);
        assert(s.subrange(0, 0) =~= Seq::<char>::empty());
    } else {
        assert(s[0] != c);
        lemma_split_once_at(s.skip(1), c, j - 1);
        if j < s.len() {
            assert(s.subrange(0, j) =~= seq![s[0]] + s.skip(1).subrange(0, j - 1));
            assert(s.skip(1).skip(j) =~= s.skip(j + 1));
        }
    }
}

/// Split `s` at its first occurrence of `c`, as `str::split_once` does.
pub fn split_once_char(s: &str, c: char) -> (r: Option<(String, String)>)
    ensures
        match (r, split_once_ch(s@, c)) {
            (Some(p), Some(q)) => p.0@ == q.0 && p.1@ == q.1,
            (None, None) => true,
            _ => false,
        },
{
    let n: usize = s.unicode_len();
    let mut j: usize = 0;
    while j < n && s.get_char(j) != c
        invariant
            0 <= j <= n,
            n == s@.len(),
            forall|l: int| 0 <= l < j ==> s@[l] != c,
        decreases n - j,
    {
        j = j + 1;
    }
    proof {
        lemma_split_once_at(s@, c, j as int);
    }
    if j == n {
        None
    } else {
        let before = s.substring_char(0, j).to_owned();
        let after = s.substring_char(j + 1, n).to_owned();
        assert(before@ =~= s@.subrange(0, j as int));
        assert(after@ =~= s@.skip(j + 1));
        Some((before, after))
    }
}

/// `s` without any trailing characters equal to `c1` or `c2`.
pub open spec fn trim_end_in(s: Seq<char>, c1: char, c2: char) -> Seq<char>
    decreases s.len(),
{
    if s.len() > 0 && (s.last() == c1 || s.last() == c2) {
        trim_end_in(s.drop_last(), c1, c2)
    } else {
        s
    }
}

/// Count the lines of `s` as `str::lines` does.
pub fn count_lines(s: &str) -> (r: usize)
    ensures
        r == line_count(s@),
{
    let n: usize = s.unicode_len();
    if n == 0 {
        return 0;
    }
    let mut cnt: usize = 0;
    let mut i: usize = 0;
    while i < n - 1
        invariant
            0 <= i <= n - 1,
            n == s@.len(),
            n >= 1,
            cnt == count_nl(s@.take(i as int)),
            cnt <= i,
        decreases n - 1 - i,
    {
        if s.get_char(i) == '\n' {
            cnt = cnt + 1;
        }
        assert(s@.take(i + 1).drop_last() =~= s@.take(i as int));
        i = i + 1;
    }
    1 + cnt
}

/// If no newline follows position `k` and `k` sits just after a newline (or
/// at the start), the final segment of `t` is exactly `t[k..]`.
proof fn lemma_last_seg_from(t: Seq<char>, k: int)
    requires
        0 <= k <= t.len(),
        forall|j: int| k <= j < t.len() ==> t[j] != '\n',
        k == 0 || t[k - 1] == '\n',
    ensures
        last_seg(t) == t.subrange(k, t.len() as int),
    decreases t.len(),
{
    if t.len() == 0 {
        assert(last_seg(t) =~= t.subrange(k, t.len() as int));
    } else if k == t.len() {
        if k > 0 {
            assert(t.last() == '\n');
        }
        assert(last_seg(t) =~= t.subrange(k, t.len() as int));
    } else {
        assert(t.last() != '\n');
        lemma_last_seg_from(t.drop_last(), k);
        assert(t.subrange(k, t.len() as int) =~= t.drop_last().subrange(
            k,
            t.len() - 1,
        ) + seq![t.last()]);
    }
}

/// The last line of `s`, as an owned string.
pub fn last_line_str(s: &str) -> (r: String)
    ensures
        r@ == last_line(s@),
{
    let n: usize = s.unicode_len();
    let m: usize = if n >= 2 && s.get_char(n - 2) == '\r' && s.get_char(n - 1) == '\n' {
        n - 2
    } else if n >= 1 && s.get_char(n - 1) == '\n' {
        n - 1
    } else {
        n
    };
    assert(m == effective_end(s@));
    let mut start: usize = 0;
    let mut i: usize = 0;
    while i < m
        invariant
            0 <= start <= i <= m,
            m <= n,
            n == s@.len(),
            forall|j: int| start <= j < i ==> s@[j] != '\n',
            start == 0 || s@[start - 1] == '\n',
        decreases m - i,
    {
        if s.get_char(i) == '\n' {
            start = i + 1;
        }
        i = i + 1;
    }
    proof {
        lemma_last_seg_from(s@.take(m as int), start as int);
    }
    let seg = s.substring_char(start, m);
    assert(seg@ == last_line(s@));
    seg.to_owned()
}

/// If no newline precedes position `j` and `j` holds a newline (or is the
/// end), the first segment of `t` is exactly `t[..j]`.
proof fn lemma_first_seg_to(t: Seq<char>, j: int)
    requires
        0 <= j <= t.len(),
        forall|l: int| 0 <= l < j ==> t[l] != '\n',
        j == t.len() || t[j] == '\n',
    ensures
        first_seg(t) == t.subrange(0, j),
    decreases t.len(),
{
    if j == 0 {
        assert(first_seg(t) =~= t.subrange(0, 0));
    } else {
        assert(t[0] != '\n');
        lemma_first_seg_to(t.skip(1), j - 1);
        assert(t.subrange(0, j) =~= seq![t[0]] + t.skip(1).subrange(0, j - 1));
    }
}

/// The first line of `s`, as an owned string.
pub fn first_line_str(s: &str) -> (r: String)
    ensures
        r@ == first_line(s@),
{
    let n: usize = s.unicode_len();
    let mut j: usize = 0;
    while j < n && s.get_char(j) != '\n'
        invariant
            0 <= j <= n,
            n == s@.len(),
            forall|l: int| 0 <= l < j ==> s@[l] != '\n',
        decreases n - j,
    {
        j = j + 1;
    }
    proof {
        lemma_first_seg_to(s@, j as int);
    }
    let end: usize = if j > 0 && s.get_char(j - 1) == '\r' {
        j - 1
    } else {
        j
    };
    let seg = s.substring_char(0, end);
    assert(seg@ =~= first_line(s@));
    seg.to_owned()
}

/// Trim every trailing occurrence of `c1` or `c2` from `s`.
pub fn trim_end_chars(s: &str, c1: char, c2: char) -> (r: String)
    ensures
        r@ == trim_end_in(s@, c1, c2),
{
    let n: usize = s.unicode_len();
    let mut m: usize = n;
    assert(s@.take(n as int) =~= s@);
    let mut done = false;
    while !done && m > 0
        invariant
            0 <= m <= n,
            n == s@.len(),
            trim_end_in(s@, c1, c2) == trim_end_in(s@.take(m as int), c1, c2),
            done ==> m == 0 || !(s@[m - 1] == c1 || s@[m - 1] == c2),
        decreases m + (if done { 0int } else { 1int }),
    {
        let c = s.get_char(m - 1);
        if c == c1 || c == c2 {
            assert(s@.take(m as int).drop_last() =~= s@.take(m - 1));
            m = m - 1;
        } else {
            done = true;
        }
    }
    let seg = s.substring_char(0, m);
    assert(seg@ == trim_end_in(s@, c1, c2));
    seg.to_owned()
}

/// Whether `s` ends with the character `c`.
pub fn ends_with_char(s: &str, c: char) -> (r: bool)
    ensures
        r == (s@.len() > 0 && s@.last() == c),
{
    let n: usize = s.unicode_len();
    n > 0 && s.get_char(n - 1) == c
}

} // verus!
