//! Decimal rendering and parsing for the canonical text forms the binding
//! produces, together with the round-trip laws between the two.

use vstd::prelude::*;

verus! {

/// The character for a single decimal digit.
pub open spec fn spec_digit_char(d: nat) -> char {
    if d == 0 {
        '0'
    } else if d == 1 {
        '1'
    } else if d == 2 {
        '2'
    } else if d == 3 {
        '3'
    } else if d == 4 {
        '4'
    } else if d == 5 {
        '5'
    } else if d == 6 {
        '6'
    } else if d == 7 {
        '7'
    } else if d == 8 {
        '8'
    } else {
        '9'
    }
}

/// True for the ten decimal digit characters.
pub open spec fn spec_is_digit(c: char) -> bool {
    '0' <= c && c <= '9'
}

/// The numeric value of a decimal digit character.
pub open spec fn spec_digit_val(c: char) -> nat {
    ((c as int) - ('0' as int)) as nat
}

/// The decimal representation of a number, without leading zeros (the
/// number zero is the single digit `0`).
pub open spec fn spec_dec_digits(n: nat) -> Seq<char>
    decreases n,
{
    if n < 10 {
        seq![spec_digit_char(n)]
    } else {
        spec_dec_digits(n / 10).push(spec_digit_char(n % 10))
    }
}

/// The number a sequence of decimal digit characters denotes.
pub open spec fn spec_dec_val(s: Seq<char>) -> nat
    decreases s.len(),
{
    if s.len() == 0 {
        0
    } else {
        spec_dec_val(s.drop_last()) * 10 + spec_digit_val(s.last())
    }
}

/// True when every character of the text is a decimal digit.
pub open spec fn spec_all_digits(s: Seq<char>) -> bool {
    forall|i: int| 0 <= i < s.len() ==> spec_is_digit(s[i])
}

/// A rendered number is at least one character long, consists of digits
/// only, and parses back to the number it was rendered from.
pub proof fn lemma_dec_digits_round_trip(n: nat)
    ensures
        spec_dec_digits(n).len() >= 1,
        spec_all_digits(spec_dec_digits(n)),
        spec_dec_val(spec_dec_digits(n)) == n,
    decreases n,
{
    if n < 10 {
        assert(spec_is_digit(spec_digit_char(n)));
        assert(spec_dec_digits(n) == seq![spec_digit_char(n)]);
        assert(spec_dec_digits(n).drop_last() =~= Seq::<char>::empty());
        assert(spec_dec_val(Seq::<char>::empty()) == 0);
        assert(spec_dec_digits(n).last() == spec_digit_char(n));
        assert(spec_dec_val(spec_dec_digits(n)) == spec_digit_val(spec_digit_char(n)));
        assert(spec_digit_val(spec_digit_char(n)) == n);
    } else {
        lemma_dec_digits_round_trip(n / 10);
        let prefix = spec_dec_digits(n / 10);
        let whole = prefix.push(spec_digit_char(n % 10));
        assert(whole.drop_last() =~= prefix);
        assert(whole.last() == spec_digit_char(n % 10));
        assert(spec_digit_val(spec_digit_char(n % 10)) == n % 10);
        assert(spec_dec_val(whole) == spec_dec_val(prefix) * 10 + n % 10);
        assert(spec_dec_val(prefix) == n / 10);
        assert((n / 10) * 10 + n % 10 == n) by (nonlinear_arith);
        assert(spec_is_digit(spec_digit_char(n % 10)));
        assert forall|i: int| 0 <= i < whole.len() implies spec_is_digit(whole[i]) by {
            if i < prefix.len() {
                assert(whole[i] == prefix[i]);
            }
        }
    }
}

/// Dropping trailing digits never increases the denoted value.
pub proof fn lemma_dec_val_prefix(s: Seq<char>, k: int)
    requires
        0 <= k <= s.len(),
    ensures
        spec_dec_val(s.take(k)) <= spec_dec_val(s),
    decreases s.len() - k,
{
    if k < s.len() {
        lemma_dec_val_prefix(s, k + 1);
        let t = s.take(k + 1);
        assert(t.drop_last() =~= s.take(k));
        assert(spec_dec_val(t) == spec_dec_val(s.take(k)) * 10 + spec_digit_val(t.last()));
        assert(spec_dec_val(s.take(k)) * 10 >= spec_dec_val(s.take(k))) by (nonlinear_arith);
    } else {
        assert(s.take(k) =~= s);
    }
}

/// The single-character string for a decimal digit.
pub fn digit_str(d: u64) -> (r: &'static str)
    requires
        d < 10,
    ensures
        r@ == seq![spec_digit_char(d as nat)],
{
    proof {
        reveal_strlit("0");
        reveal_strlit("1");
        reveal_strlit("2");
        reveal_strlit("3");
        reveal_strlit("4");
        reveal_strlit("5");
        reveal_strlit("6");
        reveal_strlit("7");
        reveal_strlit("8");
        reveal_strlit("9");
    }
    let r = match d {
        0 => "0",
        1 => "1",
        2 => "2",
        3 => "3",
        4 => "4",
        5 => "5",
        6 => "6",
        7 => "7",
        8 => "8",
        _ => "9",
    };
    proof {
        assert(r@ =~= seq![spec_digit_char(d as nat)]);
    }
    r
}

/// Renders a number in decimal, without leading zeros.
pub fn format_u64(n: u64) -> (r: String)
    ensures
        r@ == spec_dec_digits(n as nat),
    decreases n,
{
    if n < 10 {
        let s = digit_str(n);
        let r = s.to_owned();
        r
    } else {
        let mut r = format_u64(n / 10);
        r.append(digit_str(n % 10));
        proof {
            assert(spec_dec_digits((n / 10) as nat).push(spec_digit_char((n % 10) as nat))
                =~= spec_dec_digits((n / 10) as nat) + seq![spec_digit_char((n % 10) as nat)]);
        }
        r
    }
}

/// The decimal text of an integer: a minus sign for a negative number,
/// then the digits of its magnitude.
pub open spec fn spec_dec_int(n: int) -> Seq<char> {
    if n >= 0 {
        spec_dec_digits(n as nat)
    } else {
        seq!['-'] + spec_dec_digits((-n) as nat)
    }
}

/// Renders a signed number in decimal.
pub fn format_i64(n: i64) -> (r: String)
    ensures
        r@ == spec_dec_int(n as int),
{
    if n >= 0 {
        format_u64(n as u64)
    } else {
        let magnitude: u64 = if n == i64::MIN {
            9223372036854775808u64
        } else {
            (-n) as u64
        };
        proof {
            reveal_strlit("-");
        }
        let mut r = String::new();
        r.append("-");
        let digits = format_u64(magnitude);
        r.append(digits.as_str());
        proof {
            assert(r@ =~= seq!['-'] + spec_dec_digits(magnitude as nat));
        }
        r
    }
}

/// Parses the given character range of a string as an unsigned decimal
/// number of at most `cap`.  Parsing succeeds exactly when the range is
/// non-empty, holds digits only, and denotes a value within the cap.
pub fn parse_dec_capped(s: &str, from: usize, to: usize, cap: u64) -> (r: Result<u64, ()>)
    requires
        from <= to <= s@.len(),
        cap <= 0xFFFF_FFFF,
    ensures
        r is Ok <==> (from < to && spec_all_digits(s@.subrange(from as int, to as int))
            && spec_dec_val(s@.subrange(from as int, to as int)) <= cap),
        r matches Ok(v) ==> v == spec_dec_val(s@.subrange(from as int, to as int)),
{
    let ghost text = s@.subrange(from as int, to as int);
    if from == to {
        return Err(());
    }
    let mut acc: u64 = 0;
    let mut j: usize = from;
    while j < to
        invariant
            from <= j <= to <= s@.len(),
            text == s@.subrange(from as int, to as int),
            cap <= 0xFFFF_FFFF,
            acc <= cap,
            spec_all_digits(text.take(j - from)),
            acc == spec_dec_val(text.take(j - from)),
        decreases to - j,
    {
        let c = s.get_char(j);
        proof {
            assert(text[j - from] == s@[j as int]);
        }
        if !(c >= '0' && c <= '9') {
            proof {
                assert(!spec_is_digit(text[j - from]));
            }
            return Err(());
        }
        let d: u64 = (c as u32 as u64) - 48;
        proof {
            assert(d == spec_digit_val(text[j - from]));
            assert(d < 10);
        }
        let next: u64 = acc * 10 + d;
        proof {
            assert(text.take(j - from + 1).drop_last() =~= text.take(j - from));
            assert(text.take(j - from + 1).last() == text[j - from]);
            assert(spec_dec_val(text.take(j - from + 1)) == acc * 10 + d);
        }
        if next > cap {
            proof {
                lemma_dec_val_prefix(text, j - from + 1);
            }
            return Err(());
        }
        proof {
            assert forall|i: int| 0 <= i < j - from + 1 implies spec_is_digit(
                #[trigger] text.take(j - from + 1)[i],
            ) by {
                if i < j - from {
                    assert(text.take(j - from)[i] == text.take(j - from + 1)[i]);
                }
            }
        }
        acc = next;
        j += 1;
    }
    proof {
        assert(text.take(to - from) =~= text);
    }
    Ok(acc)
}

} // verus!
