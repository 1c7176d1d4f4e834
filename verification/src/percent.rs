use vstd::prelude::*;

verus! {

/// The value of a hexadecimal digit (either case), or -1 for any other character.
pub open spec fn hex_digit_value(c: char) -> int {
    let n = c as u32;
    if 48 <= n <= 57 {
        n - 48
    } else if 97 <= n <= 102 {
        n - 87
    } else if 65 <= n <= 70 {
        n - 55
    } else {
        -1
    }
}

/// The byte that the two characters after a `%` stand for, read as a base-16
/// number the way `u8::from_str_radix` reads them (an optional leading `+`,
/// then hexadecimal digits).
pub open spec fn escape_value(a: char, b: char) -> Option<int> {
    if a == '+' {
        if hex_digit_value(b) >= 0 {
            Some(hex_digit_value(b))
        } else {
            None
        }
    } else if hex_digit_value(a) >= 0 && hex_digit_value(b) >= 0 {
        Some(16 * hex_digit_value(a) + hex_digit_value(b))
    } else {
        None
    }
}

/// `s` is ASCII and every `%` in it that is not itself part of an escape is
/// followed by two characters that form a byte value.
pub open spec fn percent_decodable(s: Seq<char>) -> bool
    decreases s.len(),
{
    if s.len() == 0 {
        true
    } else if s[0] == '%' {
        s.len() >= 3 && escape_value(s[1], s[2]) is Some && percent_decodable(s.skip(3))
    } else {
        (s[0] as u32) < 128 && percent_decodable(s.skip(1))
    }
}

/// Percent-decoding: each `%xy` becomes the character whose code is the byte
/// `xy`; every other character stays as it is.
pub open spec fn percent_decode(s: Seq<char>) -> Seq<char>
    decreases s.len(),
{
    if s.len() == 0 {
        Seq::<char>::empty()
    } else if s[0] == '%' && s.len() >= 3 {
        seq![(escape_value(s[1], s[2])->0) as char] + percent_decode(s.skip(3))
    } else {
        seq![s[0]] + percent_decode(s.skip(1))
    }
}

/// `urldecode::decode`: on an ASCII string whose every `%` starts an escape of
/// two characters that `u8::from_str_radix(_, 16)` accepts, it replaces each
/// escape by the character with that byte's code and copies every other
/// character. On any other string it panics, so those are left out.
#[verifier::external_body]
pub(crate) fn url_decode(url: String) -> (decoded: String)
    requires
        percent_decodable(url@),
    ensures
        decoded@ == percent_decode(url@),
{
    urldecode::decode(url)
}

/// The value of a hexadecimal digit, or -1.
fn hex_digit(c: char) -> (v: i32)
    ensures
        v == hex_digit_value(c),
{
    let n = c as u32;
    if 48 <= n && n <= 57 {
        (n - 48) as i32
    } else if 97 <= n && n <= 102 {
        (n - 87) as i32
    } else if 65 <= n && n <= 70 {
        (n - 55) as i32
    } else {
        -1
    }
}

/// Whether the two characters after a `%` form a byte value.
fn escape_ok(a: char, b: char) -> (ok: bool)
    ensures
        ok == escape_value(a, b) is Some,
{
    if a == '+' {
        hex_digit(b) >= 0
    } else {
        hex_digit(a) >= 0 && hex_digit(b) >= 0
    }
}

/// The characters of `s`, in order.
pub fn chars_of(s: &str) -> (cs: Vec<char>)
    ensures
        cs@ == s@,
{
    let mut cs: Vec<char> = Vec::new();
    for c in it: s.chars()
        invariant
            it.seq() == s@,
            cs@ == s@.take(it.index() as int),
    {
        proof {
            assert(s@.take(it.index() + 1) =~= s@.take(it.index() as int).push(c));
        }
        cs.push(c);
    }
    proof {
        assert(s@.take(s@.len() as int) =~= s@);
    }
    cs
}

/// Whether `s` can be percent-decoded without failure.
pub fn is_percent_decodable(s: &str) -> (ok: bool)
    ensures
        ok == percent_decodable(s@),
{
    let cs = chars_of(s);
    let n = cs.len();
    let mut i: usize = 0;
    proof {
        assert(cs@.skip(0) =~= cs@);
    }
    while i < n
        invariant
            n == cs@.len(),
            cs@ == s@,
            i <= n,
            percent_decodable(s@) == percent_decodable(cs@.skip(i as int)),
        decreases n - i,
    {
        let ghost rest = cs@.skip(i as int);
        let c = cs[i];
        assert(rest[0] == c);
        if c == '%' {
            if n - i < 3 {
                return false;
            }
            assert(rest[1] == cs@[i + 1] && rest[2] == cs@[i + 2]);
            if !escape_ok(cs[i + 1], cs[i + 2]) {
                return false;
            }
            assert(rest.skip(3) =~= cs@.skip(i + 3));
            i = i + 3;
        } else {
            if (c as u32) >= 128 {
                return false;
            }
            assert(rest.skip(1) =~= cs@.skip(i + 1));
            i = i + 1;
        }
    }
    true
}


/// The hexadecimal digit that stands for `v` (`0 <= v < 16`), as a lower-
/// or upper-case letter where `v` is 10 or more.
pub open spec fn hex_digit_char(v: int, upper: bool) -> char {
    if v < 10 {
        (48 + v) as char
    } else if upper {
        (55 + v) as char
    } else {
        (87 + v) as char
    }
}

/// Every character below 256 written as an escape `%xy`, with hexadecimal
/// digits in the given case.
pub open spec fn percent_encode(s: Seq<char>, upper: bool) -> Seq<char>
    decreases s.len(),
{
    if s.len() == 0 {
        Seq::<char>::empty()
    } else {
        let v = s[0] as u32 as int;
        seq!['%', hex_digit_char(v / 16, upper), hex_digit_char(v % 16, upper)] + percent_encode(
            s.drop_first(),
            upper,
        )
    }
}

/// Hexadecimal digits of either case are read as their values, and any two
/// of them after a `%`, in any mix of cases, form the byte `16 * hi + lo`.
pub proof fn law_hex_digits_either_case(hi: int, lo: int, upper_hi: bool, upper_lo: bool)
    requires
        0 <= hi < 16,
        0 <= lo < 16,
    ensures
        hex_digit_value(hex_digit_char(hi, upper_hi)) == hi,
        hex_digit_value(hex_digit_char(lo, upper_lo)) == lo,
        escape_value(hex_digit_char(hi, upper_hi), hex_digit_char(lo, upper_lo)) == Some(16 * hi + lo),
{
}

/// A character is the character of its code.
proof fn lemma_char_code_round_trip(c: char)
    ensures
        ((c as u32) as char) == c,
{
}

/// Percent-encoding any text of characters below 256, with digits of either
/// case, gives a text that can be decoded, and decoding it gives the text
/// back.
pub proof fn law_decode_inverts_encode(s: Seq<char>, upper: bool)
    requires
        forall|i: int| 0 <= i < s.len() ==> (#[trigger] s[i] as u32) < 256,
    ensures
        percent_decodable(percent_encode(s, upper)),
        percent_decode(percent_encode(s, upper)) == s,
    decreases s.len(),
{
    if s.len() > 0 {
        let rest = s.drop_first();
        assert forall|i: int| 0 <= i < rest.len() implies (#[trigger] rest[i] as u32) < 256 by {
            assert(rest[i] == s[i + 1]);
        }
        law_decode_inverts_encode(rest, upper);
        let v = s[0] as u32 as int;
        assert((s[0] as u32) < 256);
        law_hex_digits_either_case(v / 16, v % 16, upper, upper);
        assert(16 * (v / 16) + v % 16 == v);
        let e = percent_encode(s, upper);
        assert(e.skip(3) =~= percent_encode(rest, upper));
        assert(e[0] == '%');
        let x = v as char;
        assert((x as u32) == s[0] as u32);
        assert(((x as u32) as char) == x);
        lemma_char_code_round_trip(s[0]);
        assert(x == s[0]);
        assert(seq![s[0]] + rest =~= s);
    }
}

} // verus!
