//! Text utilities: ASCII whitespace trimming, decimal parsing of `u64`
//! values, and decimal formatting, each proved against a direct
//! mathematical description of the text.

use vstd::prelude::*;

verus! {

/// The whitespace characters that battery attribute files may carry around
/// their payload (the kernel emits a trailing newline).
pub open spec fn is_space_char(c: char) -> bool {
    c == ' ' || c == '\n' || c == '\t' || c == '\r'
}

/// `s` with its leading whitespace removed.
pub open spec fn trim_front(s: Seq<char>) -> Seq<char>
    decreases s.len(),
{
    if s.len() > 0 && is_space_char(s[0]) {
        trim_front(s.drop_first())
    } else {
        s
    }
}

/// `s` with its trailing whitespace removed.
pub open spec fn trim_back(s: Seq<char>) -> Seq<char>
    decreases s.len(),
{
    if s.len() > 0 && is_space_char(s.last()) {
        trim_back(s.drop_last())
    } else {
        s
    }
}

/// `s` with whitespace removed from both ends.
pub open spec fn trimmed(s: Seq<char>) -> Seq<char> {
    trim_back(trim_front(s))
}

proof fn lemma_trim_front_is_suffix(s: Seq<char>, i: int)
    requires
        0 <= i <= s.len(),
        forall|k: int| 0 <= k < i ==> is_space_char(s[k]),
        i < s.len() ==> !is_space_char(s[i]),
    ensures
        trim_front(s) == s.subrange(i, s.len() as int),
    decreases i,
{
    if i == 0 {
        if s.len() > 0 && is_space_char(s[0]) {
            assert(false);
        }
        assert(s.subrange(0, s.len() as int) =~= s);
    } else {
        let t = s.drop_first();
        lemma_trim_front_is_suffix(t, i - 1);
        assert(t.subrange(i - 1, t.len() as int) =~= s.subrange(i, s.len() as int));
    }
}

proof fn lemma_trim_back_is_prefix(s: Seq<char>, j: int)
    requires
        0 <= j <= s.len(),
        forall|k: int| j <= k < s.len() ==> is_space_char(s[k]),
        j > 0 ==> !is_space_char(s[j - 1]),
    ensures
        trim_back(s) == s.subrange(0, j),
    decreases s.len(),
{
    if j == s.len() {
        if s.len() > 0 && is_space_char(s.last()) {
            assert(false);
        }
        assert(s.subrange(0, j) =~= s);
    } else {
        let t = s.drop_last();
        lemma_trim_back_is_prefix(t, j);
        assert(t.subrange(0, j) =~= s.subrange(0, j));
    }
}

/// Removes ASCII whitespace (space, tab, newline, carriage return) from both
/// ends of `s`.
pub fn trim_str(s: &str) -> (r: &str)
    ensures
        r@ == trimmed(s@),
{
    let len = s.unicode_len();
    let mut i: usize = 0;
    while i < len && is_space(s.get_char(i))
        invariant
            0 <= i <= len,
            len == s@.len(),
            forall|k: int| 0 <= k < i ==> is_space_char(s@[k]),
        decreases len - i,
    {
        i = i + 1;
    }
    let mut j: usize = len;
    while j > i && is_space(s.get_char(j - 1))
        invariant
            i <= j <= len,
            len == s@.len(),
            forall|k: int| j <= k < len ==> is_space_char(s@[k]),
        decreases j,
    {
        j = j - 1;
    }
    proof {
        lemma_trim_front_is_suffix(s@, i as int);
        let t = s@.subrange(i as int, s@.len() as int);
        lemma_trim_back_is_prefix(t, j - i);
        assert(t.subrange(0, j - i) =~= s@.subrange(i as int, j as int));
    }
    s.substring_char(i, j)
}

/// Whether `c` is ASCII whitespace, as `is_space_char` describes.
pub fn is_space(c: char) -> (r: bool)
    ensures
        r == is_space_char(c),
{
    c == ' ' || c == '\n' || c == '\t' || c == '\r'
}

/// Whether `c` is a decimal digit.
pub open spec fn is_digit_char(c: char) -> bool {
    48 <= c as u32 && c as u32 <= 57
}

/// The numeric value of the digit `c`.
pub open spec fn digit_val(c: char) -> int {
    c as u32 - 48
}

/// `s` without an optional single leading `+` sign: the digits of a
/// non-negative decimal number.
pub open spec fn digits_part(s: Seq<char>) -> Seq<char> {
    if s.len() > 0 && s[0] == '+' {
        s.drop_first()
    } else {
        s
    }
}

/// Whether every character of `s` is a decimal digit.
pub open spec fn all_digits(s: Seq<char>) -> bool {
    forall|i: int| 0 <= i < s.len() ==> is_digit_char(s[i])
}

/// The value of `s` read as a decimal numeral, most significant digit first.
pub open spec fn dec_value(s: Seq<char>) -> int
    decreases s.len(),
{
    if s.len() == 0 {
        0
    } else {
        dec_value(s.drop_last()) * 10 + digit_val(s.last())
    }
}

/// Whether `s` is a decimal numeral for a `u64`: an optional leading `+`,
/// then at least one digit, with a value that fits in 64 bits.
pub open spec fn parses_to_u64(s: Seq<char>) -> bool {
    let d = digits_part(s);
    d.len() > 0 && all_digits(d) && dec_value(d) <= u64::MAX
}

/// The `u64` value of the numeral `s`.
pub open spec fn parsed_u64(s: Seq<char>) -> int {
    dec_value(digits_part(s))
}

proof fn lemma_dec_value_nonneg(s: Seq<char>)
    requires
        all_digits(s),
    ensures
        dec_value(s) >= 0,
    decreases s.len(),
{
    if s.len() > 0 {
        lemma_dec_value_nonneg(s.drop_last());
    }
}

proof fn lemma_dec_value_prefix_le(s: Seq<char>, m: int)
    requires
        all_digits(s),
        0 <= m <= s.len(),
    ensures
        dec_value(s.take(m)) <= dec_value(s),
    decreases s.len() - m,
{
    if m == s.len() {
        assert(s.take(m) =~= s);
    } else {
        let p = s.take(m);
        let q = s.take(m + 1);
        assert(q.drop_last() =~= p);
        assert(forall|i: int| 0 <= i < p.len() ==> is_digit_char(p[i]));
        lemma_dec_value_nonneg(p);
        assert(dec_value(q) == dec_value(p) * 10 + digit_val(q.last()));
        lemma_dec_value_prefix_le(s, m + 1);
    }
}

/// Parses `s` as a non-negative decimal integer: an optional single leading
/// `+`, then one or more digits. Returns `None` when `s` is not such a
/// numeral or its value does not fit in a `u64`.
pub fn parse_u64(s: &str) -> (r: Option<u64>)
    ensures
        r is Some <==> parses_to_u64(s@),
        r is Some ==> r->0 == parsed_u64(s@),
{
    let len = s.unicode_len();
    let ghost d = digits_part(s@);
    let mut k: usize = 0;
    if len > 0 && s.get_char(0) == '+' {
        k = 1;
    }
    proof {
        assert(d =~= s@.subrange(k as int, len as int));
    }
    if k >= len {
        return None;
    }
    let start = k;
    let mut acc: u64 = 0;
    while k < len
        invariant
            start <= k <= len,
            len == s@.len(),
            d == digits_part(s@),
            d == s@.subrange(start as int, len as int),
            all_digits(d.take(k - start)),
            acc == dec_value(d.take(k - start)),
        decreases len - k,
    {
        let c = s.get_char(k);
        let u = c as u32;
        proof {
            assert(d[k - start] == s@[k as int]);
        }
        if u < 48 || u > 57 {
            assert(!all_digits(d));
            return None;
        }
        let dig = (u - 48) as u64;
        proof {
            assert(d.take(k - start + 1).drop_last() =~= d.take(k - start));
        }
        if acc > (u64::MAX - dig) / 10 {
            proof {
                assert(acc * 10 + dig > u64::MAX) by (nonlinear_arith)
                    requires
                        acc > (u64::MAX - dig) / 10,
                        dig <= 9,
                ;
                assert(dec_value(d.take(k - start + 1)) > u64::MAX);
                if all_digits(d) {
                    lemma_dec_value_prefix_le(d, k - start + 1);
                }
            }
            return None;
        }
        proof {
            assert(acc * 10 + dig <= u64::MAX) by (nonlinear_arith)
                requires
                    acc <= (u64::MAX - dig) / 10,
                    dig <= 9,
            ;
        }
        acc = acc * 10 + dig;
        k = k + 1;
    }
    proof {
        assert(d.take(k - start) =~= d);
    }
    Some(acc)
}

/// The digit character for the value `d`.
pub open spec fn digit_char(d: int) -> char {
    if d == 0 {
        '0'
    } else if d == 1 {
        '1'
    } else if d == 2 {
        '2'
    } else if d == 3 {
        '3'
    } else if d == 4 {
        '4'
    } else if d == 5 {
        '5'
    } else if d == 6 {
        '6'
    } else if d == 7 {
        '7'
    } else if d == 8 {
        '8'
    } else {
        '9'
    }
}

/// The decimal numeral for the non-negative number `n`, without sign or
/// leading zeros (`0` itself is written `"0"`).
pub open spec fn dec_seq(n: int) -> Seq<char>
    decreases n,
{
    if n < 10 {
        seq![digit_char(n)]
    } else {
        dec_seq(n / 10).push(digit_char(n % 10))
    }
}

fn digit_str(d: u8) -> (r: &'static str)
    requires
        d < 10,
    ensures
        r@ =~= seq![digit_char(d as int)],
{
    proof {
        reveal_strlit("0");
        reveal_strlit("1");
        reveal_strlit("2");
        reveal_strlit("3");
        reveal_strlit("4");
        reveal_strlit("5");
        reveal_strlit("6");
        reveal_strlit("7");
        reveal_strlit("8");
        reveal_strlit("9");
    }
    match d {
        0 => "0",
        1 => "1",
        2 => "2",
        3 => "3",
        4 => "4",
        5 => "5",
        6 => "6",
        7 => "7",
        8 => "8",
        _ => "9",
    }
}

/// Appends the decimal numeral of `n` to `s`.
pub fn push_dec(s: &mut String, n: u8)
    ensures
        final(s)@ == old(s)@ + dec_seq(n as int),
    decreases n,
{
    if n >= 10 {
        push_dec(s, n / 10);
    }
    s.append(digit_str(n % 10));
    proof {
        assert(old(s)@ + dec_seq(n as int) =~= s@);
    }
}

} // verus!
