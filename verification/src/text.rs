//! Decimal text utilities: rendering unsigned and signed integers as decimal
//! strings, and parsing decimal strings back, with the exact acceptance rules
//! of the standard library's integer parser (optional leading `+`, at least
//! one digit, overflow rejected).

use vstd::prelude::*;

verus! {

/// The character for one decimal digit value.
pub open spec fn digit_char(d: int) -> char {
    if d == 0 {
        '0'
    } else if d == 1 {
        '1'
    } else if d == 2 {
        '2'
    } else if d == 3 {
        '3'
    } else if d == 4 {
        '4'
    } else if d == 5 {
        '5'
    } else if d == 6 {
        '6'
    } else if d == 7 {
        '7'
    } else if d == 8 {
        '8'
    } else {
        '9'
    }
}

/// The decimal rendering of a natural number, most significant digit first,
/// with no leading zeros (the number zero renders as "0").
pub open spec fn dec_of(n: nat) -> Seq<char>
    decreases n,
{
    if n < 10 {
        seq![digit_char(n as int)]
    } else {
        dec_of(n / 10).push(digit_char((n % 10) as int))
    }
}

/// The decimal rendering of a signed number: a minus sign before the
/// magnitude when negative.
pub open spec fn dec_of_int(n: int) -> Seq<char> {
    if n < 0 {
        seq!['-'] + dec_of((-n) as nat)
    } else {
        dec_of(n as nat)
    }
}

/// Whether a character is a decimal digit.
pub open spec fn is_dec_digit(c: char) -> bool {
    48 <= c as u32 && c as u32 <= 57
}

/// The value of one decimal digit character.
pub open spec fn digit_val(c: char) -> nat {
    (c as u32 - 48) as nat
}

/// Whether every character of a sequence is a decimal digit.
pub open spec fn all_dec_digits(s: Seq<char>) -> bool {
    forall|i: int| 0 <= i < s.len() ==> is_dec_digit(#[trigger] s[i])
}

/// The numeric value of a sequence of decimal digit characters, read most
/// significant digit first.
pub open spec fn dec_val(s: Seq<char>) -> nat
    decreases s.len(),
{
    if s.len() == 0 {
        0
    } else {
        dec_val(s.drop_last()) * 10 + digit_val(s.last())
    }
}

fn digit_str(d: u64) -> (r: &'static str)
    requires
        d < 10,
    ensures
        r@ =~= seq![digit_char(d as int)],
{
    proof {
        reveal_strlit("0");
        reveal_strlit("1");
        reveal_strlit("2");
        reveal_strlit("3");
        reveal_strlit("4");
        reveal_strlit("5");
        reveal_strlit("6");
        reveal_strlit("7");
        reveal_strlit("8");
        reveal_strlit("9");
    }
    if d == 0 {
        "0"
    } else if d == 1 {
        "1"
    } else if d == 2 {
        "2"
    } else if d == 3 {
        "3"
    } else if d == 4 {
        "4"
    } else if d == 5 {
        "5"
    } else if d == 6 {
        "6"
    } else if d == 7 {
        "7"
    } else if d == 8 {
        "8"
    } else {
        "9"
    }
}

/// Render an unsigned number as its decimal string.
pub fn u64_to_dec_string(n: u64) -> (r: String)
    ensures
        r@ == dec_of(n as nat),
    decreases n,
{
    if n < 10 {
        let r = String::from_str(digit_str(n));
        proof {
            assert(r@ =~= dec_of(n as nat));
        }
        r
    } else {
        let mut r = u64_to_dec_string(n / 10);
        r.append(digit_str(n % 10));
        proof {
            assert(r@ =~= dec_of(n as nat));
        }
        r
    }
}

/// Render a signed number as its decimal string, with a minus sign when
/// negative.
pub fn i64_to_dec_string(n: i64) -> (r: String)
    ensures
        r@ == dec_of_int(n as int),
{
    if n >= 0 {
        u64_to_dec_string(n as u64)
    } else {
        let mag: u64 = if n == i64::MIN {
            9223372036854775808u64
        } else {
            (-n) as u64
        };
        let mut r = String::from_str("-");
        r.append(u64_to_dec_string(mag).as_str());
        proof {
            reveal_strlit("-");
            assert(r@ =~= dec_of_int(n as int));
        }
        r
    }
}

/// The digit part of a decimal numeral: the text after an optional leading
/// plus sign.
pub open spec fn unsigned_body(s: Seq<char>) -> Seq<char> {
    if s.len() >= 1 && s[0] == '+' {
        s.skip(1)
    } else {
        s
    }
}

/// How far the leading run of decimal digits extends.
pub open spec fn digit_prefix_len(s: Seq<char>) -> nat
    decreases s.len(),
{
    if s.len() == 0 || !is_dec_digit(s[0]) {
        0
    } else {
        1 + digit_prefix_len(s.skip(1))
    }
}

/// Why a decimal numeral was rejected, mirroring the standard library's
/// integer-parsing error kinds.
#[derive(Clone, Copy, Debug, PartialEq, Eq, Structural)]
pub enum IntParseError {
    /// The input was the empty string.
    Empty,
    /// A character other than a decimal digit was met.
    InvalidDigit,
    /// The digits read so far already exceed the allowed maximum.
    PosOverflow,
}

/// Whether a string is a well-formed unsigned decimal numeral no larger than
/// `max`: an optional plus sign, then one or more digits, value within range.
pub open spec fn parses_to_u64(s: Seq<char>, max: nat) -> bool {
    let body = unsigned_body(s);
    body.len() >= 1 && all_dec_digits(body) && dec_val(body) <= max
}

/// The error an unsigned decimal parse of `s` reports, when it fails.
pub open spec fn parse_failure(s: Seq<char>, max: nat) -> IntParseError {
    let body = unsigned_body(s);
    let k = digit_prefix_len(body);
    if s.len() == 0 {
        IntParseError::Empty
    } else if dec_val(body.take(k as int)) > max {
        IntParseError::PosOverflow
    } else {
        IntParseError::InvalidDigit
    }
}

proof fn lemma_dec_val_take_step(s: Seq<char>, i: int)
    requires
        0 <= i < s.len(),
    ensures
        dec_val(s.take(i + 1)) == dec_val(s.take(i)) * 10 + digit_val(s[i]),
{
    assert(s.take(i + 1).drop_last() =~= s.take(i));
    assert(s.take(i + 1).last() == s[i]);
}

proof fn lemma_digit_prefix_len_le(s: Seq<char>)
    ensures
        digit_prefix_len(s) <= s.len(),
        forall|i: int| 0 <= i < digit_prefix_len(s) ==> is_dec_digit(#[trigger] s[i]),
        digit_prefix_len(s) < s.len() ==> !is_dec_digit(s[digit_prefix_len(s) as int]),
    decreases s.len(),
{
    if s.len() != 0 && is_dec_digit(s[0]) {
        lemma_digit_prefix_len_le(s.skip(1));
        assert forall|i: int| 0 <= i < digit_prefix_len(s) implies is_dec_digit(#[trigger] s[i]) by {
            if i > 0 {
                assert(s[i] == s.skip(1)[i - 1]);
            }
        }
        if digit_prefix_len(s) < s.len() {
            assert(s[digit_prefix_len(s) as int] == s.skip(1)[digit_prefix_len(s.skip(1)) as int]);
        }
    }
}

/// Parse an unsigned decimal numeral, accepting exactly the strings the
/// standard library's unsigned integer parser accepts for a type whose
/// maximum is `max`, and reporting the same error kind otherwise.
pub fn parse_u64_in_range(s: &str, max: u64) -> (r: Result<u64, IntParseError>)
    ensures
        r is Ok <==> parses_to_u64(s@, max as nat),
        r is Ok ==> r->Ok_0 as nat == dec_val(unsigned_body(s@)),
        r is Err ==> r->Err_0 == parse_failure(s@, max as nat),
{
    let n = s.unicode_len();
    if n == 0 {
        return Err(IntParseError::Empty);
    }
    let ghost body: Seq<char> = unsigned_body(s@);
    let start: usize = if s.get_char(0) == '+' {
        1
    } else {
        0
    };
    assert(body =~= s@.skip(start as int));
    if start == n {
        // A bare sign has an empty digit part.
        assert(digit_prefix_len(body) == 0);
        assert(body.take(0) =~= Seq::<char>::empty());
        return Err(IntParseError::InvalidDigit);
    }
    let mut acc: u64 = 0;
    let mut i: usize = start;
    proof {
        assert(body.take(0) =~= Seq::<char>::empty());
        lemma_digit_prefix_len_le(body);
    }
    while i < n
        invariant
            start <= i <= n,
            n == s@.len(),
            max <= u64::MAX,
            body == unsigned_body(s@),
            body =~= s@.skip(start as int),
            n - start == body.len(),
            i - start <= digit_prefix_len(body),
            acc == dec_val(body.take(i - start)),
            acc <= max,
        decreases n - i,
    {
        let c = s.get_char(i);
        proof {
            assert(body[i - start] == s@[i as int]);
        }
        let u = c as u32;
        if !(48 <= u && u <= 57) {
            proof {
                lemma_digit_prefix_len_le(body);
                assert(digit_prefix_len(body) == i - start) by {
                    if digit_prefix_len(body) > i - start {
                        assert(is_dec_digit(body[i - start]));
                    }
                }
            }
            return Err(IntParseError::InvalidDigit);
        }
        let d = (u - 48) as u64;
        proof {
            lemma_dec_val_take_step(body, i - start);
            lemma_digit_prefix_len_le(body);
            assert(digit_prefix_len(body) > i - start) by {
                if digit_prefix_len(body) == i - start {
                    assert(!is_dec_digit(body[i - start]));
                }
            }
        }
        // The standard parser multiplies then adds, with a checked step each;
        // either overflowing the target range reports positive overflow.
        if acc > max / 10 || d > max - (acc * (10 as u64)) {
            proof {
                let j = i - start + 1;
                let k = digit_prefix_len(body) as int;
                assert(dec_val(body.take(j)) > max);
                lemma_dec_val_take_monotone(body, j, k);
                lemma_dec_val_take_monotone(body, j, body.len() as int);
                assert(body.take(body.len() as int) =~= body);
            }
            return Err(IntParseError::PosOverflow);
        }
        acc = acc * 10 + d;
        i = i + 1;
    }
    proof {
        assert(body.take(i - start) =~= body);
        lemma_digit_prefix_len_le(body);
        assert(all_dec_digits(body)) by {
            assert(digit_prefix_len(body) == body.len()) by {
                if digit_prefix_len(body) < body.len() {
                    assert(!is_dec_digit(body[digit_prefix_len(body) as int]));
                }
            }
        }
    }
    Ok(acc)
}

/// A number's decimal rendering reads back as the same number: it is
/// nonempty, made of digits, and its value is the number itself.
pub proof fn lemma_dec_of_round_trip(n: nat)
    ensures
        dec_of(n).len() >= 1,
        all_dec_digits(dec_of(n)),
        dec_val(dec_of(n)) == n,
    decreases n,
{
    if n < 10 {
        let s = dec_of(n);
        assert(s =~= seq![digit_char(n as int)]);
        assert(s.drop_last() =~= Seq::<char>::empty());
        assert(s.last() == digit_char(n as int));
        assert(dec_val(s) == dec_val(s.drop_last()) * 10 + digit_val(s.last()));
        assert(dec_val(Seq::<char>::empty()) == 0);
        assert(digit_val(digit_char(n as int)) == n);
    } else {
        lemma_dec_of_round_trip(n / 10);
        let prefix = dec_of(n / 10);
        let whole = dec_of(n);
        assert(whole == prefix.push(digit_char((n % 10) as int)));
        assert(whole.drop_last() =~= prefix);
        assert(dec_val(whole) == dec_val(prefix) * 10 + digit_val(whole.last()));
        assert(all_dec_digits(whole)) by {
            assert(forall|i: int|
                0 <= i < prefix.len() ==> #[trigger] whole[i] == prefix[i]);
        }
    }
}

proof fn lemma_dec_val_take_monotone(s: Seq<char>, j: int, k: int)
    requires
        0 <= j <= k <= s.len(),
    ensures
        dec_val(s.take(j)) <= dec_val(s.take(k)),
    decreases k - j,
{
    if j < k {
        lemma_dec_val_take_step(s, k - 1);
        lemma_dec_val_take_monotone(s, j, k - 1);
    }
}

} // verus!
