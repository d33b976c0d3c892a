//! Decimal rendering of the integer bounds that scoring prompts quote.

use vstd::prelude::*;

verus! {

/// The character for one decimal digit.
pub open spec fn spec_digit(d: int) -> char {
    ((48 + d) as u8) as char
}

/// Decimal text of a non-negative number, most significant digit first and
/// without leading zeroes (`0` itself is the single digit `0`).
pub open spec fn spec_dec(n: nat) -> Seq<char>
    decreases n,
{
    if n < 10 {
        seq![spec_digit(n as int)]
    } else {
        spec_dec(n / 10) + seq![spec_digit((n % 10) as int)]
    }
}

/// Decimal text of a signed number: a minus sign before the magnitude when
/// it is negative.
pub open spec fn spec_int_text(n: int) -> Seq<char> {
    if n < 0 {
        seq!['-'] + spec_dec((-n) as nat)
    } else {
        spec_dec(n as nat)
    }
}

/// The one-character string for a decimal digit.
fn digit_str(d: u8) -> (r: &'static str)
    requires
        d < 10,
    ensures
        r@ == seq![spec_digit(d as int)],
{
    proof {
        reveal_strlit("0"); reveal_strlit("1"); reveal_strlit("2");
        reveal_strlit("3"); reveal_strlit("4"); reveal_strlit("5");
        reveal_strlit("6"); reveal_strlit("7"); reveal_strlit("8");
        reveal_strlit("9");
        assert("0"@ =~= seq![spec_digit(0)]);
        assert("1"@ =~= seq![spec_digit(1)]);
        assert("2"@ =~= seq![spec_digit(2)]);
        assert("3"@ =~= seq![spec_digit(3)]);
        assert("4"@ =~= seq![spec_digit(4)]);
        assert("5"@ =~= seq![spec_digit(5)]);
        assert("6"@ =~= seq![spec_digit(6)]);
        assert("7"@ =~= seq![spec_digit(7)]);
        assert("8"@ =~= seq![spec_digit(8)]);
        assert("9"@ =~= seq![spec_digit(9)]);
    }
    match d {
        0 => "0", 1 => "1", 2 => "2", 3 => "3", 4 => "4",
        5 => "5", 6 => "6", 7 => "7", 8 => "8", _ => "9",
    }
}

/// The decimal text a sequence of digits spells, least significant digit
/// first (the order a conversion loop produces them in).
pub open spec fn rev_digits(digs: Seq<u8>) -> Seq<char> {
    Seq::new(digs.len(), |k: int| spec_digit(digs[digs.len() - 1 - k] as int))
}

/// Renders an unsigned number in decimal.
pub fn u64_to_dec(n: u64) -> (r: String)
    ensures
        r@ == spec_dec(n as nat),
{
    let mut digs: Vec<u8> = Vec::new();
    let mut i: u64 = n;
    loop
        invariant_except_break
            spec_dec(n as nat) =~= spec_dec(i as nat) + rev_digits(digs@),
            forall|k: int| 0 <= k < digs@.len() ==> #[trigger] digs@[k] < 10,
        ensures
            spec_dec(n as nat) =~= rev_digits(digs@),
            forall|k: int| 0 <= k < digs@.len() ==> #[trigger] digs@[k] < 10,
        decreases i,
    {
        let d: u8 = (i % 10) as u8;
        proof {
            let ghost old_digs = digs@;
            assert(rev_digits(old_digs.push(d)) =~= seq![spec_digit(d as int)] + rev_digits(
                old_digs,
            ));
        }
        digs.push(d);
        if i < 10 {
            proof {
                assert(spec_dec(i as nat) =~= seq![spec_digit(d as int)]);
            }
            break;
        }
        proof {
            assert(spec_dec(i as nat) =~= spec_dec((i / 10) as nat) + seq![spec_digit(d as int)]);
        }
        i = i / 10;
    }
    let m = digs.len();
    let mut out = String::new();
    let mut k: usize = m;
    while k > 0
        invariant
            m == digs@.len(),
            k <= m,
            spec_dec(n as nat) =~= rev_digits(digs@),
            forall|j: int| 0 <= j < digs@.len() ==> #[trigger] digs@[j] < 10,
            out@ =~= rev_digits(digs@).take(m - k),
        decreases k,
    {
        k = k - 1;
        let s = digit_str(digs[k]);
        out.append(s);
        proof {
            let full = rev_digits(digs@);
            assert(full[m - k - 1] == spec_digit(digs@[k as int] as int));
            assert(full.take(m - k) =~= full.take(m - k - 1) + seq![full[m - k - 1]]);
        }
    }
    proof {
        assert(rev_digits(digs@).take(m as int) =~= rev_digits(digs@));
    }
    out
}

/// Renders a signed number in decimal.
pub fn i64_to_dec(n: i64) -> (r: String)
    ensures
        r@ == spec_int_text(n as int),
{
    if n >= 0 {
        u64_to_dec(n as u64)
    } else {
        let mag: u64 = if n == i64::MIN {
            9223372036854775808
        } else {
            (-n) as u64
        };
        let mut out = String::from_str("-");
        let digits = u64_to_dec(mag);
        out.append(digits.as_str());
        proof {
            reveal_strlit("-");
            assert("-"@ =~= seq!['-']);
            assert(out@ =~= seq!['-'] + spec_dec(mag as nat));
        }
        out
    }
}

} // verus!
