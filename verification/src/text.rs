//! Decimal numbers and text comparison over `Seq<char>` views.

use vstd::prelude::*;
use vstd::string::*;
use vstd::utf8::*;

verus! {

/// Whether `c` is one of the ten ASCII decimal digits.
pub open spec fn is_digit(c: char) -> bool {
    '0' <= c && c <= '9'
}

/// The number a decimal digit stands for.
pub open spec fn digit_value(c: char) -> nat {
    (c as nat - '0' as nat) as nat
}

/// The digit that stands for `d`, for `d < 10`.
pub open spec fn digit_char(d: nat) -> char {
    (d + '0' as nat) as char
}

/// Whether every character of `s` is a decimal digit.
pub open spec fn all_digits(s: Seq<char>) -> bool {
    forall|i: int| 0 <= i < s.len() ==> is_digit(#[trigger] s[i])
}

/// The number that a run of decimal digits denotes, most significant digit first.
pub open spec fn decimal_value(s: Seq<char>) -> nat
    decreases s.len(),
{
    if s.len() == 0 {
        0
    } else {
        decimal_value(s.drop_last()) * 10 + digit_value(s.last())
    }
}

/// The shortest decimal notation of `n`.
pub open spec fn decimal_digits(n: nat) -> Seq<char>
    decreases n,
{
    if n < 10 {
        seq![digit_char(n)]
    } else {
        decimal_digits(n / 10).push(digit_char(n % 10))
    }
}

/// The length of the sign in front of `s`: one for a leading `+`, else none.
pub open spec fn sign_len(s: Seq<char>) -> int {
    if s.len() > 0 && s[0] == '+' {
        1
    } else {
        0
    }
}

/// What is left of `s` once its sign is taken off.
pub open spec fn without_plus(s: Seq<char>) -> Seq<char> {
    s.subrange(sign_len(s), s.len() as int)
}

/// The port that `s` denotes: an optional `+`, then at least one decimal digit
/// and nothing else, with a value of at most 65535. Leading zeros are accepted.
pub open spec fn port_of_text(s: Seq<char>) -> Option<u16> {
    let d = without_plus(s);
    if d.len() > 0 && all_digits(d) && decimal_value(d) <= 65535 {
        Some(decimal_value(d) as u16)
    } else {
        None
    }
}

/// Appending digits never makes a decimal number smaller.
pub proof fn lemma_decimal_value_grows(s: Seq<char>, k: int)
    requires
        0 <= k <= s.len(),
    ensures
        decimal_value(s.subrange(0, k)) <= decimal_value(s),
    decreases s.len() - k,
{
    if k == s.len() {
        assert(s.subrange(0, k) =~= s);
    } else {
        lemma_decimal_value_grows(s.drop_last(), k);
        assert(s.drop_last().subrange(0, k) =~= s.subrange(0, k));
    }
}

/// What is written in decimal is made of digits alone and denotes the
/// number that was written.
pub proof fn lemma_decimal_digits(n: nat)
    ensures
        decimal_digits(n).len() > 0,
        all_digits(decimal_digits(n)),
        decimal_value(decimal_digits(n)) == n,
    decreases n,
{
    if n < 10 {
        let s = decimal_digits(n);
        assert(s.drop_last() =~= Seq::<char>::empty());
        assert(decimal_value(s.drop_last()) == 0);
    } else {
        lemma_decimal_digits(n / 10);
        let s = decimal_digits(n);
        assert(s.drop_last() =~= decimal_digits(n / 10));
    }
}

/// A port that is written in decimal is read back as itself.
pub proof fn law_port_is_read_back(port: u16)
    ensures
        port_of_text(decimal_digits(port as nat)) == Some(port),
{
    lemma_decimal_digits(port as nat);
    let s = decimal_digits(port as nat);
    assert(is_digit(s[0]));
    assert(without_plus(s) =~= s);
}

/// Reads a port number.
pub fn parse_port(s: &str) -> (port: Option<u16>)
    ensures
        port == port_of_text(s@),
{
    let ghost start: int = sign_len(s@);
    let mut first: bool = true;
    let mut any: bool = false;
    let mut value: u32 = 0;
    for c in it: s.chars()
        invariant
            it.seq() == s@,
            start == sign_len(s@),
            first == (it.index() == 0),
            any == (it.index() > start),
            !first ==> it.index() >= start,
            !first ==> all_digits(s@.subrange(start, it.index() as int)),
            !first ==> value == decimal_value(s@.subrange(start, it.index() as int)),
            first ==> value == 0,
            value <= 65535,
    {
        let ghost at: int = it.index() as int;
        if first && c == '+' {
            first = false;
            assert(s@.subrange(start, at + 1) =~= Seq::<char>::empty());
        } else {
            let ghost digits = without_plus(s@);
            if !('0' <= c && c <= '9') {
                assert(!is_digit(digits[at - start]));
                return None;
            }
            let digit: u32 = (c as u32) - ('0' as u32);
            let next: u32 = value * 10 + digit;
            proof {
                let before = s@.subrange(start, at);
                let after = s@.subrange(start, at + 1);
                assert(after.drop_last() =~= before);
                assert(after.last() == c);
                assert(before.len() == 0 ==> decimal_value(before) == 0);
                assert(next == decimal_value(after));
                assert(after =~= digits.subrange(0, at + 1 - start));
            }
            if next > 65535 {
                proof {
                    lemma_decimal_value_grows(digits, at + 1 - start);
                }
                return None;
            }
            first = false;
            any = true;
            value = next;
        }
    }
    if !any {
        return None;
    }
    Some(value as u16)
}

/// Whether two texts hold the same characters.
pub fn same_text(a: &str, b: &str) -> (same: bool)
    ensures
        same == (a@ == b@),
{
    let x = a.as_bytes();
    let y = b.as_bytes();
    proof {
        encode_utf8_decode_utf8(a@);
        encode_utf8_decode_utf8(b@);
    }
    if x.len() != y.len() {
        return false;
    }
    let mut i: usize = 0;
    while i < x.len()
        invariant
            i <= x@.len(),
            x@.len() == y@.len(),
            x@ == encode_utf8(a@),
            y@ == encode_utf8(b@),
            forall|j: int| 0 <= j < i ==> x@[j] == y@[j],
        decreases x@.len() - i,
    {
        if x[i] != y[i] {
            return false;
        }
        i = i + 1;
    }
    assert(x@ =~= y@);
    true
}

/// `String::push` of std: the character is added at the end of the text.
#[verifier::external_body]
pub(crate) fn push_char(out: &mut String, c: char)
    ensures
        final(out)@ == old(out)@.push(c),
{
    out.push(c);
}

/// Writes the shortest decimal notation of `n` at the end of `out`.
pub fn push_decimal(out: &mut String, n: u16)
    ensures
        final(out)@ == old(out)@ + decimal_digits(n as nat),
    decreases n,
{
    if n >= 10 {
        push_decimal(out, n / 10);
    }
    let digit: u8 = (n % 10) as u8;
    push_char(out, (digit + ('0' as u8)) as char);
    assert(out@ =~= old(out)@ + decimal_digits(n as nat));
}

} // verus!
