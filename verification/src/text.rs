//! Verified text helpers: decimal rendering of unsigned integers and
//! decimal parsing of ports, shared by the transport and resolver modules.

use vstd::prelude::*;

verus! {

/// The character for one decimal digit value.
pub open spec fn dec_digit(d: nat) -> char {
    if d == 0 {
        '0'
    } else if d == 1 {
        '1'
    } else if d == 2 {
        '2'
    } else if d == 3 {
        '3'
    } else if d == 4 {
        '4'
    } else if d == 5 {
        '5'
    } else if d == 6 {
        '6'
    } else if d == 7 {
        '7'
    } else if d == 8 {
        '8'
    } else {
        '9'
    }
}

/// Decimal rendering of a natural number, most significant digit first,
/// without leading zeroes (zero itself renders as "0").
pub open spec fn spec_dec(n: nat) -> Seq<char>
    decreases n,
{
    if n < 10 {
        seq![dec_digit(n)]
    } else {
        spec_dec(n / 10).push(dec_digit(n % 10))
    }
}

/// A one-character string for a single digit value.
fn digit_str(d: u64) -> (s: &'static str)
    requires
        d < 10,
    ensures
        s@ =~= seq![dec_digit(d as nat)],
{
    proof {
        reveal_strlit("0");
        reveal_strlit("1");
        reveal_strlit("2");
        reveal_strlit("3");
        reveal_strlit("4");
        reveal_strlit("5");
        reveal_strlit("6");
        reveal_strlit("7");
        reveal_strlit("8");
        reveal_strlit("9");
    }
    if d == 0 {
        "0"
    } else if d == 1 {
        "1"
    } else if d == 2 {
        "2"
    } else if d == 3 {
        "3"
    } else if d == 4 {
        "4"
    } else if d == 5 {
        "5"
    } else if d == 6 {
        "6"
    } else if d == 7 {
        "7"
    } else if d == 8 {
        "8"
    } else {
        "9"
    }
}

/// Renders `n` in decimal.
pub fn u64_to_string(n: u64) -> (s: String)
    ensures
        s@ == spec_dec(n as nat),
    decreases n,
{
    let d = n % 10;
    let c = digit_str(d);
    if n < 10 {
        c.to_owned()
    } else {
        let s = u64_to_string(n / 10).concat(c);
        proof {
            assert(s@ =~= spec_dec(n as nat));
        }
        s
    }
}

pub open spec fn is_dec_digit(c: char) -> bool {
    '0' <= c && c <= '9'
}

pub open spec fn digit_val(c: char) -> nat {
    (c as nat - '0' as nat) as nat
}

pub open spec fn all_dec_digits(s: Seq<char>) -> bool {
    forall|i: int| 0 <= i < s.len() ==> is_dec_digit(#[trigger] s[i])
}

/// The value of a digit string, most significant digit first.
pub open spec fn dec_val(s: Seq<char>) -> nat
    decreases s.len(),
{
    if s.len() == 0 {
        0
    } else {
        dec_val(s.drop_last()) * 10 + digit_val(s.last())
    }
}

/// What `str::parse::<u16>` accepts: an optional leading plus sign, then
/// one or more decimal digits whose value fits in sixteen bits.
pub open spec fn spec_parse_u16(s: Seq<char>) -> Option<u16> {
    let body = if s.len() > 0 && s[0] == '+' {
        s.subrange(1, s.len() as int)
    } else {
        s
    };
    if body.len() > 0 && all_dec_digits(body) && dec_val(body) <= 0xffff {
        Some(dec_val(body) as u16)
    } else {
        None
    }
}

/// Once a digit prefix exceeds the bound, any longer digit string does too.
proof fn lemma_dec_val_monotone(s: Seq<char>, i: int)
    requires
        0 <= i <= s.len(),
        dec_val(s.subrange(0, i)) > 0xffff,
    ensures
        dec_val(s) > 0xffff,
    decreases s.len() - i,
{
    if i == s.len() {
        assert(s.subrange(0, i) =~= s);
    } else {
        let t = s.subrange(0, i + 1);
        assert(t.drop_last() =~= s.subrange(0, i));
        assert(dec_val(t) == dec_val(s.subrange(0, i)) * 10 + digit_val(t.last()));
        lemma_dec_val_monotone(s, i + 1);
    }
}

/// Whether two pieces of text are the same characters.
pub fn str_eq(a: &str, b: &str) -> (r: bool)
    ensures
        r == (a@ == b@),
{
    a.to_owned().eq(&b.to_owned())
}

/// The position of the last colon, if any.
pub open spec fn rfind_colon(s: Seq<char>) -> Option<int>
    decreases s.len(),
{
    if s.len() == 0 {
        None
    } else if s.last() == ':' {
        Some(s.len() - 1)
    } else {
        rfind_colon(s.drop_last())
    }
}

/// `rfind_colon` names the last colon: nothing after it is one, and when it
/// is absent the text has no colon at all.
pub proof fn lemma_rfind_colon(s: Seq<char>)
    ensures
        rfind_colon(s) matches Some(j) ==> 0 <= j < s.len() && s[j] == ':' && forall|k: int|
            j < k < s.len() ==> s[k] != ':',
        rfind_colon(s) is None ==> forall|k: int| 0 <= k < s.len() ==> s[k] != ':',
    decreases s.len(),
{
    if s.len() > 0 && s.last() != ':' {
        lemma_rfind_colon(s.drop_last());
        match rfind_colon(s) {
            Some(j) => {
                assert forall|k: int| j < k < s.len() implies s[k] != ':' by {
                    if k < s.len() - 1 {
                        assert(s.drop_last()[k] == s[k]);
                    }
                }
            },
            None => {
                assert forall|k: int| 0 <= k < s.len() implies s[k] != ':' by {
                    if k < s.len() - 1 {
                        assert(s.drop_last()[k] == s[k]);
                    }
                }
            },
        }
    }
}

/// Finds the last colon of `s`, as `str::rfind(':')` would, by character
/// position.
pub fn rfind_colon_str(s: &str) -> (r: Option<usize>)
    ensures
        r matches Some(j) ==> rfind_colon(s@) == Some(j as int),
        r is None ==> rfind_colon(s@) is None,
{
    proof {
        lemma_rfind_colon_complete(s@);
    }
    let n = s.unicode_len();
    let mut i: usize = n;
    while i > 0
        invariant
            0 <= i <= n,
            n == s@.len(),
            forall|k: int| i <= k < n ==> s@[k] != ':',
        decreases i,
    {
        let c = s.get_char(i - 1);
        if c == ':' {
            proof {
                lemma_rfind_colon_complete(s@);
                lemma_rfind_colon(s@);
            }
            return Some(i - 1);
        }
        i = i - 1;
    }
    proof {
        lemma_rfind_colon(s@);
    }
    None
}

/// A text with a colon has a last colon.
proof fn lemma_rfind_colon_complete(s: Seq<char>)
    ensures
        (exists|k: int| 0 <= k < s.len() && s[k] == ':') ==> rfind_colon(s) is Some,
    decreases s.len(),
{
    if s.len() > 0 && s.last() != ':' {
        lemma_rfind_colon_complete(s.drop_last());
        if exists|k: int| 0 <= k < s.len() && s[k] == ':' {
            let k = choose|k: int| 0 <= k < s.len() && s[k] == ':';
            assert(s.drop_last()[k] == s[k]);
        }
    }
}

/// Every character encodes to between one and four UTF-8 bytes.
pub proof fn lemma_encode_utf8_len_bound(chars: Seq<char>)
    ensures
        chars.len() <= vstd::utf8::encode_utf8(chars).len() <= 4 * chars.len(),
    decreases chars.len(),
{
    if chars.len() > 0 {
        lemma_encode_utf8_len_bound(chars.drop_first());
    }
}

/// Parses a decimal `u16` from a character sequence, as `str::parse` would.
pub fn parse_u16(s: &str) -> (r: Option<u16>)
    ensures
        r == spec_parse_u16(s@),
{
    let n = s.unicode_len();
    let ghost whole = s@;
    let start: usize = if n > 0 && s.get_char(0) == '+' {
        1
    } else {
        0
    };
    let ghost body = if start == 1 {
        whole.subrange(1, whole.len() as int)
    } else {
        whole
    };
    if n == start {
        return None;
    }
    let mut val: u32 = 0;
    let mut i: usize = start;
    while i < n
        invariant
            whole == s@,
            start <= i <= n,
            n == whole.len(),
            start == 0 || start == 1,
            start == 1 ==> whole.len() > 0 && whole[0] == '+',
            start == 0 ==> !(whole.len() > 0 && whole[0] == '+'),
            body == (if start == 1 {
                whole.subrange(1, whole.len() as int)
            } else {
                whole
            }),
            all_dec_digits(body.subrange(0, i - start)),
            val == dec_val(body.subrange(0, i - start)),
            val <= 0xffff,
        decreases n - i,
    {
        let ghost j = i - start;
        let c = s.get_char(i);
        proof {
            assert(body[j] == c);
        }
        if !('0' <= c && c <= '9') {
            assert(!is_dec_digit(body[j]));
            return None;
        }
        let d: u32 = (c as u32) - ('0' as u32);
        let next: u32 = val * 10 + d;
        proof {
            assert(body.subrange(0, j + 1).drop_last() =~= body.subrange(0, j));
            assert(body.subrange(0, j + 1).last() == body[j]);
            assert(digit_val(c) == d);
            assert(dec_val(body.subrange(0, j + 1)) == next);
        }
        if next > 0xffff {
            proof {
                lemma_dec_val_monotone(body, j + 1);
            }
            return None;
        }
        val = next;
        i = i + 1;
        proof {
            assert forall|k: int| 0 <= k < j + 1 implies is_dec_digit(
                #[trigger] body.subrange(0, j + 1)[k],
            ) by {
                if k < j {
                    assert(body.subrange(0, j + 1)[k] == body.subrange(0, j)[k]);
                }
            }
        }
    }
    proof {
        assert(body.subrange(0, n - start) =~= body);
    }
    Some(val as u16)
}

} // verus!
