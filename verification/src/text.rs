//! Text helpers: literals, decimal numerals, character searches.

use vstd::prelude::*;

verus! {

/// The characters of `o`, or none.
pub open spec fn or_empty(o: Option<String>) -> Seq<char> {
    match o {
        Some(s) => s@,
        None => Seq::empty(),
    }
}

/// The characters of `o` where present, else `dflt`.
pub open spec fn or_text(o: Option<String>, dflt: Seq<char>) -> Seq<char> {
    match o {
        Some(s) => s@,
        None => dflt,
    }
}

/// The view of an optional string.
pub open spec fn opt_view(o: Option<String>) -> Option<Seq<char>> {
    match o {
        Some(s) => Some(s@),
        None => None,
    }
}

/// An owned copy of a string slice.
pub fn lit(s: &str) -> (r: String)
    ensures
        r@ == s@,
{
    s.to_string()
}

/// Appends one character to `s`.
#[verifier::external_body]
pub fn push_char(s: &mut String, c: char)
    ensures
        final(s)@ == old(s)@.push(c),
{
    s.push(c)
}

/// Appends `t` to `s`.
pub fn push_str(s: &mut String, t: &str)
    ensures
        final(s)@ == old(s)@ + t@,
{
    s.append(t)
}

/// `a` followed by `b`.
pub fn concat2(a: &str, b: &str) -> (r: String)
    ensures
        r@ == a@ + b@,
{
    let mut r = a.to_string();
    r.append(b);
    r
}

/// The string inside `o`, or an empty string.
pub fn unwrap_or_empty(o: Option<String>) -> (r: String)
    ensures
        r@ == or_empty(o),
        o matches Some(s) ==> r == s,
{
    match o {
        Some(s) => s,
        None => String::new(),
    }
}

/// The string inside `o`, or a copy of `dflt`.
pub fn unwrap_or_text(o: Option<String>, dflt: &str) -> (r: String)
    ensures
        r@ == or_text(o, dflt@),
{
    match o {
        Some(s) => s,
        None => dflt.to_string(),
    }
}

/// Whether two strings hold the same characters.
pub fn str_eq(a: &str, b: &str) -> (r: bool)
    ensures
        r == (a@ == b@),
{
    let x = a.to_string();
    let y = b.to_string();
    x == y
}

/// Whether `s` holds the character `c`.
pub fn has_char(s: &str, c: char) -> (r: bool)
    ensures
        r == s@.contains(c),
{
    let n = s.unicode_len();
    let mut i: usize = 0;
    while i < n
        invariant
            n == s@.len(),
            i <= n,
            forall|k: int| 0 <= k < i ==> s@[k] != c,
        decreases n - i,
    {
        if s.get_char(i) == c {
            assert(s@[i as int] == c);
            return true;
        }
        i = i + 1;
    }
    proof {
        if s@.contains(c) {
            let k = choose|k: int| 0 <= k < s@.len() && s@[k] == c;
            assert(s@[k] != c);
        }
    }
    false
}

/// The index of the last occurrence of `c` in `s`.
pub open spec fn last_index_of(s: Seq<char>, c: char) -> Option<int>
    decreases s.len(),
{
    if s.len() == 0 {
        None
    } else if s.last() == c {
        Some(s.len() - 1)
    } else {
        last_index_of(s.drop_last(), c)
    }
}

pub proof fn lemma_last_index_of(s: Seq<char>, c: char)
    ensures
        last_index_of(s, c) matches Some(i) ==> 0 <= i < s.len() && s[i] == c && forall|k: int|
            i < k < s.len() ==> s[k] != c,
        last_index_of(s, c) is None ==> forall|k: int| 0 <= k < s.len() ==> s[k] != c,
    decreases s.len(),
{
    if s.len() > 0 && s.last() != c {
        lemma_last_index_of(s.drop_last(), c);
        assert forall|k: int| 0 <= k < s.len() - 1 implies s[k] == s.drop_last()[k] by {}
    }
}

/// The character index of the last `c` in `s`, as `str::rfind` finds it.
pub fn rfind_char(s: &str, c: char) -> (r: Option<usize>)
    ensures
        r matches Some(i) ==> last_index_of(s@, c) == Some(i as int),
        r is None ==> last_index_of(s@, c) is None,
{
    proof {
        lemma_last_index_of(s@, c);
    }
    let n = s.unicode_len();
    let mut i: usize = n;
    while i > 0
        invariant
            n == s@.len(),
            i <= n,
            forall|k: int| i <= k < n ==> s@[k] != c,
            last_index_of(s@, c) matches Some(j) ==> 0 <= j < i && s@[j] == c && forall|k: int|
                j < k < s@.len() ==> s@[k] != c,
            last_index_of(s@, c) is None ==> forall|k: int| 0 <= k < s@.len() ==> s@[k] != c,
        decreases i,
    {
        if s.get_char(i - 1) == c {
            proof {
                if let Some(j) = last_index_of(s@, c) {
                    if j < i - 1 {
                        assert(s@[i - 1] == c);
                    }
                } else {
                    assert(s@[i - 1] != c);
                }
            }
            return Some(i - 1);
        }
        i = i - 1;
    }
    proof {
        if let Some(j) = last_index_of(s@, c) {
            assert(false);
        }
    }
    None
}

// ---------------------------------------------------------------------------
// Decimal numerals
// ---------------------------------------------------------------------------

pub open spec fn digit_char(d: nat) -> char {
    (48 + d) as char
}

/// The decimal numeral of `n`, as `Display` writes it.
pub open spec fn dec_nat(n: nat) -> Seq<char>
    decreases n,
{
    if n < 10 {
        seq![digit_char(n)]
    } else {
        dec_nat(n / 10).push(digit_char(n % 10))
    }
}

/// The decimal numeral of `i`, with a leading `-` when negative.
pub open spec fn dec_int(i: int) -> Seq<char> {
    if i < 0 {
        seq!['-'] + dec_nat((-i) as nat)
    } else {
        dec_nat(i as nat)
    }
}

fn push_decimal(s: &mut String, n: u64)
    ensures
        final(s)@ == old(s)@ + dec_nat(n as nat),
    decreases n,
{
    if n >= 10 {
        push_decimal(s, n / 10);
    }
    let d: u8 = (n % 10) as u8;
    let c = (48u8 + d) as char;
    let ghost before = s@;
    push_char(s, c);
    proof {
        if n >= 10 {
            assert(s@ =~= old(s)@ + dec_nat(n as nat));
        } else {
            assert(s@ =~= old(s)@ + dec_nat(n as nat));
        }
    }
}

/// The decimal numeral of `n`.
pub fn fmt_u64(n: u64) -> (r: String)
    ensures
        r@ == dec_nat(n as nat),
{
    let mut s = String::new();
    push_decimal(&mut s, n);
    assert(s@ =~= dec_nat(n as nat));
    s
}

/// The decimal numeral of `n`, signed.
pub fn fmt_i64(n: i64) -> (r: String)
    ensures
        r@ == dec_int(n as int),
{
    let mut s = String::new();
    if n < 0 {
        push_char(&mut s, '-');
        let m: u64 = (0i128 - n as i128) as u64;
        push_decimal(&mut s, m);
        assert(s@ =~= dec_int(n as int));
    } else {
        push_decimal(&mut s, n as u64);
        assert(s@ =~= dec_int(n as int));
    }
    s
}

pub open spec fn is_digit(c: char) -> bool {
    '0' <= c <= '9'
}

pub open spec fn all_digits(s: Seq<char>) -> bool {
    forall|i: int| 0 <= i < s.len() ==> is_digit(#[trigger] s[i])
}

/// The value of a run of decimal digits.
pub open spec fn digits_val(s: Seq<char>) -> nat
    decreases s.len(),
{
    if s.len() == 0 {
        0
    } else {
        digits_val(s.drop_last()) * 10 + ((s.last() as nat) - 48) as nat
    }
}

/// The digits of a numeral after an optional sign, and whether the sign is `-`.
pub open spec fn split_sign(s: Seq<char>, signed: bool) -> (bool, Seq<char>) {
    if s.len() > 0 && s[0] == '+' {
        (false, s.skip(1))
    } else if signed && s.len() > 0 && s[0] == '-' {
        (true, s.skip(1))
    } else {
        (false, s)
    }
}

/// The integer that `str::parse` reads from `s`: an optional sign (`-` only where
/// `signed`), then one or more ASCII digits.
pub open spec fn numeral_value(s: Seq<char>, signed: bool) -> Option<int> {
    let (neg, d) = split_sign(s, signed);
    if d.len() == 0 || !all_digits(d) {
        None
    } else if neg {
        Some(-(digits_val(d) as int))
    } else {
        Some(digits_val(d) as int)
    }
}

/// What `s.parse::<i64>()` gives.
pub open spec fn parse_i64_spec(s: Seq<char>) -> Option<i64> {
    match numeral_value(s, true) {
        Some(v) => if i64::MIN <= v <= i64::MAX {
            Some(v as i64)
        } else {
            None
        },
        None => None,
    }
}

/// What `s.parse::<u32>()` gives.
pub open spec fn parse_u32_spec(s: Seq<char>) -> Option<u32> {
    match numeral_value(s, false) {
        Some(v) => if 0 <= v <= u32::MAX {
            Some(v as u32)
        } else {
            None
        },
        None => None,
    }
}

pub open spec fn cap() -> nat {
    0x1_0000_0000_0000_0000
}

pub open spec fn capped(v: nat) -> nat {
    if v < cap() {
        v
    } else {
        cap()
    }
}

/// Reads the digits of `s` from character `start` on; `None` where one is not a digit.
/// The value is capped at 2^64.
fn read_digits(s: &str, start: usize) -> (r: Option<u128>)
    requires
        start <= s@.len(),
    ensures
        r is Some <==> all_digits(s@.skip(start as int)),
        r matches Some(v) ==> v == capped(digits_val(s@.skip(start as int))),
{
    let n = s.unicode_len();
    let mut i: usize = start;
    let mut acc: u128 = 0;
    while i < n
        invariant
            n == s@.len(),
            start <= i <= n,
            all_digits(s@.subrange(start as int, i as int)),
            acc == capped(digits_val(s@.subrange(start as int, i as int))),
        decreases n - i,
    {
        let c = s.get_char(i);
        if !('0' <= c && c <= '9') {
            proof {
                assert(s@.skip(start as int)[i - start] == c);
            }
            return None;
        }
        let ghost pre = s@.subrange(start as int, i as int);
        let ghost post = s@.subrange(start as int, i + 1);
        assert(post.drop_last() =~= pre);
        assert(post.last() == c);
        let d: u128 = (c as u32 - 48) as u128;
        assert(d == (c as nat) - 48);
        if acc >= 0x1_0000_0000_0000_0000u128 {
            assert(digits_val(post) >= cap()) by (nonlinear_arith)
                requires
                    digits_val(pre) >= cap(),
                    digits_val(post) == digits_val(pre) * 10 + d,
            ;
        } else {
            let next = acc * 10 + d;
            acc = if next >= 0x1_0000_0000_0000_0000u128 {
                0x1_0000_0000_0000_0000u128
            } else {
                next
            };
        }
        assert(all_digits(post)) by {
            assert forall|k: int| 0 <= k < post.len() implies is_digit(#[trigger] post[k]) by {
                if k < pre.len() {
                    assert(post[k] == pre[k]);
                }
            }
        }
        i = i + 1;
    }
    assert(s@.subrange(start as int, n as int) =~= s@.skip(start as int));
    Some(acc)
}

/// The numeral of `n` is a nonempty run of digits whose value is `n`.
proof fn lemma_dec_nat_digits(n: nat)
    ensures
        dec_nat(n).len() > 0,
        all_digits(dec_nat(n)),
        digits_val(dec_nat(n)) == n,
        is_digit(dec_nat(n)[0]),
    decreases n,
{
    assert((digit_char(n % 10) as nat) == 48 + n % 10);
    if n >= 10 {
        lemma_dec_nat_digits(n / 10);
        let d = dec_nat(n / 10);
        let s = dec_nat(n);
        assert(s == d.push(digit_char(n % 10)));
        assert(s.drop_last() =~= d);
        assert(s[0] == d[0]);
        assert forall|i: int| 0 <= i < s.len() implies is_digit(#[trigger] s[i]) by {
            if i < d.len() {
                assert(s[i] == d[i]);
            }
        }
        assert(s.last() == digit_char(n % 10));
        assert(digits_val(s) == digits_val(d) * 10 + ((s.last() as nat) - 48) as nat);
        assert((n / 10) * 10 + n % 10 == n);
    } else {
        let s = dec_nat(n);
        assert(s == seq![digit_char(n)]);
        assert(s.drop_last() =~= Seq::<char>::empty());
        assert(digits_val(s.drop_last()) == 0);
        assert(n % 10 == n);
        assert(digits_val(s) == digits_val(s.drop_last()) * 10 + ((s.last() as nat) - 48) as nat);
    }
}

/// What `fmt_i64` writes, `parse_i64` reads back.
pub proof fn law_decimal_roundtrip(x: i64)
    ensures
        parse_i64_spec(dec_int(x as int)) == Some(x),
{
    if x < 0 {
        let m = (-(x as int)) as nat;
        lemma_dec_nat_digits(m);
        let s = dec_int(x as int);
        assert(s[0] == '-');
        assert(s.skip(1) =~= dec_nat(m));
    } else {
        lemma_dec_nat_digits(x as nat);
        let s = dec_int(x as int);
        assert(s[0] != '+' && s[0] != '-');
    }
}

/// `s.parse::<i64>()`, as an option.
pub fn parse_i64(s: &str) -> (r: Option<i64>)
    ensures
        r == parse_i64_spec(s@),
{
    let n = s.unicode_len();
    let mut start: usize = 0;
    let mut neg = false;
    if n > 0 {
        let c = s.get_char(0);
        if c == '+' {
            start = 1;
        } else if c == '-' {
            start = 1;
            neg = true;
        }
    }
    let ghost d = s@.skip(start as int);
    assert(split_sign(s@, true) == (neg, d)) by {
        if start == 0 {
            assert(s@.skip(0) =~= s@);
        }
    }
    if start == n {
        return None;
    }
    match read_digits(s, start) {
        None => None,
        Some(v) => {
            if neg {
                if v <= 0x8000_0000_0000_0000u128 {
                    Some((0i128 - v as i128) as i64)
                } else {
                    None
                }
            } else {
                if v <= 0x7fff_ffff_ffff_ffffu128 {
                    Some(v as i64)
                } else {
                    None
                }
            }
        },
    }
}

/// `s.parse::<u32>()`, as an option.
pub fn parse_u32(s: &str) -> (r: Option<u32>)
    ensures
        r == parse_u32_spec(s@),
{
    let n = s.unicode_len();
    let mut start: usize = 0;
    if n > 0 {
        let c = s.get_char(0);
        if c == '+' {
            start = 1;
        }
    }
    let ghost d = s@.skip(start as int);
    assert(split_sign(s@, false) == (false, d)) by {
        if start == 0 {
            assert(s@.skip(0) =~= s@);
        }
    }
    if start == n {
        return None;
    }
    match read_digits(s, start) {
        None => None,
        Some(v) => {
            if v <= 0xffff_ffffu128 {
                Some(v as u32)
            } else {
                None
            }
        },
    }
}

/// `prefix` and the value, where there is one.
pub open spec fn opt_param(prefix: Seq<char>, v: Option<String>) -> Seq<char> {
    match v {
        Some(x) => prefix + x@,
        None => Seq::empty(),
    }
}

/// `prefix` and the decimal number, where there is one.
pub open spec fn opt_num_param(prefix: Seq<char>, v: Option<u32>) -> Seq<char> {
    match v {
        Some(n) => prefix + dec_nat(n as nat),
        None => Seq::empty(),
    }
}

/// Appends `prefix` and the value, where there is one.
pub fn push_opt(s: &mut String, prefix: &str, v: &Option<String>)
    ensures
        final(s)@ == old(s)@ + opt_param(prefix@, *v),
{
    match v {
        Some(x) => {
            push_str(s, prefix);
            push_str(s, x.as_str());
        },
        None => {},
    }
}

/// Appends `prefix` and the decimal number, where there is one.
pub fn push_opt_num(s: &mut String, prefix: &str, v: Option<u32>)
    ensures
        final(s)@ == old(s)@ + opt_num_param(prefix@, v),
{
    match v {
        Some(n) => {
            push_str(s, prefix);
            let t = fmt_u64(n as u64);
            push_str(s, t.as_str());
        },
        None => {},
    }
}

/// An optional count, or `d`.
pub open spec fn count_or(l: Option<u32>, d: u32) -> i64 {
    match l {
        Some(v) => v as i64,
        None => d as i64,
    }
}

} // verus!
