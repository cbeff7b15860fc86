//! Decimal rendering and parsing of the small numbers that appear in
//! schedule expressions, queue attributes and batch entry identifiers,
//! together with a few character-level string helpers.
use vstd::prelude::*;
use vstd::string::StrSliceExecFns;
use vstd::string::StringExecFns;

verus! {

/// The character for one decimal digit.
pub open spec fn digit_char(d: int) -> char {
    if d == 0 {
        '0'
    } else if d == 1 {
        '1'
    } else if d == 2 {
        '2'
    } else if d == 3 {
        '3'
    } else if d == 4 {
        '4'
    } else if d == 5 {
        '5'
    } else if d == 6 {
        '6'
    } else if d == 7 {
        '7'
    } else if d == 8 {
        '8'
    } else {
        '9'
    }
}

/// The decimal rendering of a natural number, most significant digit first.
pub open spec fn dec_digits(n: nat) -> Seq<char>
    decreases n,
{
    if n < 10 {
        seq![digit_char(n as int)]
    } else {
        dec_digits(n / 10) + seq![digit_char((n % 10) as int)]
    }
}

/// The decimal rendering of `n`, left-padded with zeros to two characters.
pub open spec fn pad2_digits(n: nat) -> Seq<char> {
    if n < 10 {
        seq!['0'] + dec_digits(n)
    } else {
        dec_digits(n)
    }
}

/// The decimal rendering of `n`, left-padded with zeros to four characters.
pub open spec fn pad4_digits(n: nat) -> Seq<char> {
    if n < 10 {
        seq!['0', '0', '0'] + dec_digits(n)
    } else if n < 100 {
        seq!['0', '0'] + dec_digits(n)
    } else if n < 1000 {
        seq!['0'] + dec_digits(n)
    } else {
        dec_digits(n)
    }
}

fn digit_str(d: u64) -> (r: &'static str)
    requires
        d < 10,
    ensures
        r@ == seq![digit_char(d as int)],
{
    proof {
        reveal_strlit("0");
        reveal_strlit("1");
        reveal_strlit("2");
        reveal_strlit("3");
        reveal_strlit("4");
        reveal_strlit("5");
        reveal_strlit("6");
        reveal_strlit("7");
        reveal_strlit("8");
        reveal_strlit("9");
    }
    let r = if d == 0 {
        "0"
    } else if d == 1 {
        "1"
    } else if d == 2 {
        "2"
    } else if d == 3 {
        "3"
    } else if d == 4 {
        "4"
    } else if d == 5 {
        "5"
    } else if d == 6 {
        "6"
    } else if d == 7 {
        "7"
    } else if d == 8 {
        "8"
    } else {
        "9"
    };
    proof {
        assert(r@ =~= seq![digit_char(d as int)]);
    }
    r
}

/// Renders `n` in decimal.
pub fn u64_to_dec(n: u64) -> (s: String)
    ensures
        s@ == dec_digits(n as nat),
    decreases n,
{
    if n < 10 {
        digit_str(n).to_owned()
    } else {
        let mut s = u64_to_dec(n / 10);
        s.append(digit_str(n % 10));
        s
    }
}

/// Renders `n` in decimal, zero-padded to two characters.
pub fn u64_to_dec2(n: u64) -> (s: String)
    requires
        n < 100,
    ensures
        s@ == pad2_digits(n as nat),
{
    if n < 10 {
        proof {
            reveal_strlit("0");
        }
        let mut s: String = "0".to_owned();
        s.append(digit_str(n));
        proof {
            assert(s@ =~= pad2_digits(n as nat));
        }
        s
    } else {
        u64_to_dec(n)
    }
}

/// Renders `n` in decimal, zero-padded to four characters.
pub fn u64_to_dec4(n: u64) -> (s: String)
    requires
        n < 10000,
    ensures
        s@ == pad4_digits(n as nat),
{
    if n < 10 {
        proof {
            reveal_strlit("000");
        }
        let mut s: String = "000".to_owned();
        s.append(digit_str(n));
        proof {
            assert(s@ =~= pad4_digits(n as nat));
        }
        s
    } else if n < 100 {
        proof {
            reveal_strlit("00");
        }
        let mut s: String = "00".to_owned();
        let t = u64_to_dec(n);
        s.append(t.as_str());
        proof {
            assert(s@ =~= pad4_digits(n as nat));
        }
        s
    } else if n < 1000 {
        proof {
            reveal_strlit("0");
        }
        let mut s: String = "0".to_owned();
        let t = u64_to_dec(n);
        s.append(t.as_str());
        proof {
            assert(s@ =~= pad4_digits(n as nat));
        }
        s
    } else {
        u64_to_dec(n)
    }
}

/// The decimal rendering of an integer, with a leading minus sign when
/// negative.
pub open spec fn int_digits(n: int) -> Seq<char> {
    if n < 0 {
        seq!['-'] + dec_digits((-n) as nat)
    } else {
        dec_digits(n as nat)
    }
}

/// Renders `n` in decimal, signed.
pub fn i32_to_dec(n: i32) -> (s: String)
    ensures
        s@ == int_digits(n as int),
{
    if n < 0 {
        proof {
            reveal_strlit("-");
        }
        let mut s: String = "-".to_owned();
        let m: u64 = (-(n as i64)) as u64;
        let t = u64_to_dec(m);
        s.append(t.as_str());
        proof {
            assert(s@ =~= int_digits(n as int));
        }
        s
    } else {
        u64_to_dec(n as u64)
    }
}

/// Whether `c` is a decimal digit.
pub open spec fn is_digit(c: char) -> bool {
    '0' <= c && c <= '9'
}

/// The value of one decimal digit character.
pub open spec fn digit_val(c: char) -> int {
    c as int - '0' as int
}

/// The numeric value of a digit string, most significant digit first.
pub open spec fn digits_val(s: Seq<char>) -> int
    decreases s.len(),
{
    if s.len() == 0 {
        0
    } else {
        digits_val(s.drop_last()) * 10 + digit_val(s.last())
    }
}

/// Whether `s` is a nonempty string of decimal digits.
pub open spec fn all_digits(s: Seq<char>) -> bool {
    s.len() > 0 && forall|i: int| 0 <= i < s.len() ==> is_digit(#[trigger] s[i])
}

proof fn lemma_digits_val_nonneg(s: Seq<char>)
    requires
        forall|i: int| 0 <= i < s.len() ==> is_digit(#[trigger] s[i]),
    ensures
        digits_val(s) >= 0,
    decreases s.len(),
{
    if s.len() > 0 {
        lemma_digits_val_nonneg(s.drop_last());
    }
}

proof fn lemma_digits_val_take_le(s: Seq<char>, i: int)
    requires
        forall|k: int| 0 <= k < s.len() ==> is_digit(#[trigger] s[k]),
        0 <= i <= s.len(),
    ensures
        digits_val(s.take(i)) <= digits_val(s),
    decreases s.len() - i,
{
    if i < s.len() {
        lemma_digits_val_take_le(s, i + 1);
        assert(s.take(i + 1).drop_last() =~= s.take(i));
        assert(s.take(i + 1).last() == s[i]);
        lemma_digits_val_nonneg(s.take(i));
    } else {
        assert(s.take(i) =~= s);
    }
}

/// A numeric field with any leading `+` stripped.
pub open spec fn field_body(s: Seq<char>) -> Seq<char> {
    if s.len() > 0 && s[0] == '+' {
        s.subrange(1, s.len() as int)
    } else {
        s
    }
}

/// The number a field of a schedule expression denotes, if any: an optional
/// leading `+`, then decimal digits, with a value no greater than `i32::MAX`.
pub open spec fn parsed_field(s: Seq<char>) -> Option<int> {
    if all_digits(field_body(s)) && digits_val(field_body(s)) <= 0x7fffffff {
        Some(digits_val(field_body(s)))
    } else {
        None
    }
}

/// Parses a numeric field as `str::parse::<i32>` would for non-negative
/// input: `None` when the text is not all digits or the value overflows.
pub fn parse_field(s: &str) -> (r: Option<i32>)
    ensures
        match r {
            Some(v) => parsed_field(s@) == Some(v as int),
            None => parsed_field(s@) is None,
        },
{
    let n = s.unicode_len();
    let start: usize = if n > 0 && s.get_char(0) == '+' {
        1
    } else {
        0
    };
    let ghost body = field_body(s@);
    proof {
        assert(body =~= s@.subrange(start as int, s@.len() as int));
    }
    if start >= n {
        assert(!all_digits(body));
        return None;
    }
    let mut i: usize = start;
    while i < n
        invariant
            start <= i <= n,
            n == s@.len(),
            start <= 1,
            body == field_body(s@),
            body == s@.subrange(start as int, s@.len() as int),
            forall|k: int| start <= k < i ==> is_digit(#[trigger] s@[k]),
        decreases n - i,
    {
        let c = s.get_char(i);
        if !(c >= '0' && c <= '9') {
            proof {
                assert(body[i - start] == s@[i as int]);
                assert(!all_digits(body));
            }
            return None;
        }
        i += 1;
    }
    proof {
        assert(forall|k: int| 0 <= k < body.len() ==> is_digit(#[trigger] body[k]));
        assert(all_digits(body));
    }
    let mut acc: u64 = 0;
    let mut j: usize = start;
    while j < n
        invariant
            start <= j <= n,
            n == s@.len(),
            start <= 1,
            body == field_body(s@),
            body == s@.subrange(start as int, s@.len() as int),
            all_digits(body),
            acc <= 0x7fffffff,
            acc as int == digits_val(body.take(j - start)),
        decreases n - j,
    {
        let c = s.get_char(j);
        proof {
            assert(body[j - start] == s@[j as int]);
            assert(is_digit(body[j - start]));
        }
        let d: u64 = (c as u32 as u64) - 48;
        let next: u64 = acc * 10 + d;
        proof {
            assert(body.take(j - start + 1).drop_last() =~= body.take(j - start));
            assert(body.take(j - start + 1).last() == body[j - start]);
            assert(next as int == digits_val(body.take(j - start + 1)));
        }
        if next > 0x7fffffff {
            proof {
                lemma_digits_val_take_le(body, j - start + 1);
            }
            return None;
        }
        acc = next;
        j += 1;
    }
    proof {
        assert(body.take(n - start) =~= body);
    }
    Some(acc as i32)
}

/// Whether `s` contains the character `c`.
pub fn contains_char(s: &str, c: char) -> (b: bool)
    ensures
        b == s@.contains(c),
{
    let n = s.unicode_len();
    let mut i: usize = 0;
    while i < n
        invariant
            i <= n,
            n == s@.len(),
            forall|j: int| 0 <= j < i ==> s@[j] != c,
        decreases n - i,
    {
        if s.get_char(i) == c {
            assert(s@.contains(c)) by {
                assert(s@[i as int] == c);
            }
            return true;
        }
        i += 1;
    }
    assert(!s@.contains(c));
    false
}

/// Whether `s` is exactly the one-character string `c`.
pub fn is_single_char(s: &str, c: char) -> (b: bool)
    ensures
        b == (s@ =~= seq![c]),
{
    let n = s.unicode_len();
    if n == 1 {
        let e = s.get_char(0) == c;
        proof {
            if e {
                assert(s@ =~= seq![c]);
            }
        }
        e
    } else {
        false
    }
}

} // verus!
