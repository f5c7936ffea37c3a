use vstd::prelude::*;
use vstd::string::StringExecFns;

verus! {

/// The character for one decimal digit.
pub open spec fn spec_digit_char(d: int) -> char {
    if d == 0 {
        '0'
    } else if d == 1 {
        '1'
    } else if d == 2 {
        '2'
    } else if d == 3 {
        '3'
    } else if d == 4 {
        '4'
    } else if d == 5 {
        '5'
    } else if d == 6 {
        '6'
    } else if d == 7 {
        '7'
    } else if d == 8 {
        '8'
    } else {
        '9'
    }
}

/// The decimal digits of `n`, most significant first.
pub open spec fn spec_dec_digits(n: nat) -> Seq<char>
    decreases n,
{
    if n < 10 {
        seq![spec_digit_char(n as int)]
    } else {
        spec_dec_digits(n / 10).push(spec_digit_char((n % 10) as int))
    }
}

/// The identifier of the token minted for a reveal: the fixed tag joined to
/// the decimal reveal number by a dot.
pub open spec fn spec_reveal_token_id(id: int) -> Seq<char> {
    "Reveal."@ + spec_dec_digits(id as nat)
}

/// The characters of the collected digits read back to front (digits are
/// collected least significant first).
pub open spec fn rev_digit_chars(ds: Seq<u32>) -> Seq<char> {
    Seq::new(ds.len(), |i: int| spec_digit_char(ds[ds.len() - 1 - i] as int))
}

/// Appends the character of one decimal digit.
fn push_digit(s: &mut String, d: u32)
    requires
        d < 10,
    ensures
        final(s)@ == old(s)@.push(spec_digit_char(d as int)),
{
    if d == 0 {
        s.append("0");
        proof {
            reveal_strlit("0");
            assert(s@ =~= old(s)@.push('0'));
        }
    } else if d == 1 {
        s.append("1");
        proof {
            reveal_strlit("1");
            assert(s@ =~= old(s)@.push('1'));
        }
    } else if d == 2 {
        s.append("2");
        proof {
            reveal_strlit("2");
            assert(s@ =~= old(s)@.push('2'));
        }
    } else if d == 3 {
        s.append("3");
        proof {
            reveal_strlit("3");
            assert(s@ =~= old(s)@.push('3'));
        }
    } else if d == 4 {
        s.append("4");
        proof {
            reveal_strlit("4");
            assert(s@ =~= old(s)@.push('4'));
        }
    } else if d == 5 {
        s.append("5");
        proof {
            reveal_strlit("5");
            assert(s@ =~= old(s)@.push('5'));
        }
    } else if d == 6 {
        s.append("6");
        proof {
            reveal_strlit("6");
            assert(s@ =~= old(s)@.push('6'));
        }
    } else if d == 7 {
        s.append("7");
        proof {
            reveal_strlit("7");
            assert(s@ =~= old(s)@.push('7'));
        }
    } else if d == 8 {
        s.append("8");
        proof {
            reveal_strlit("8");
            assert(s@ =~= old(s)@.push('8'));
        }
    } else {
        s.append("9");
        proof {
            reveal_strlit("9");
            assert(s@ =~= old(s)@.push('9'));
        }
    }
}

/// Builds the identifier of the token minted for reveal number `reveal_id`:
/// the fixed tag, a dot, and the number in decimal.
pub fn reveal_token_id(reveal_id: i32) -> (r: String)
    requires
        1 <= reveal_id,
    ensures
        r@ == spec_reveal_token_id(reveal_id as int),
{
    let mut digits: Vec<u32> = Vec::new();
    let mut n: u32 = reveal_id as u32;
    proof {
        assert(spec_dec_digits(reveal_id as nat) =~= spec_dec_digits(n as nat) + rev_digit_chars(
            digits@,
        ));
    }
    while n != 0
        invariant
            forall|j: int| 0 <= j < digits@.len() ==> #[trigger] digits@[j] < 10,
            spec_dec_digits(reveal_id as nat) == if n == 0 {
                rev_digit_chars(digits@)
            } else {
                spec_dec_digits(n as nat) + rev_digit_chars(digits@)
            },
        decreases n,
    {
        let d = n % 10;
        let ghost old_digits = digits@;
        let ghost old_n = n;
        digits.push(d);
        n = n / 10;
        proof {
            assert(rev_digit_chars(old_digits.push(d)) =~= seq![
                spec_digit_char(d as int),
            ] + rev_digit_chars(old_digits));
            if old_n < 10 {
                assert(spec_dec_digits(old_n as nat) == seq![spec_digit_char(d as int)]);
                assert(spec_dec_digits(old_n as nat) + rev_digit_chars(old_digits)
                    =~= rev_digit_chars(digits@));
            } else {
                assert(spec_dec_digits(old_n as nat) == spec_dec_digits((old_n / 10) as nat).push(
                    spec_digit_char(d as int),
                ));
                assert(spec_dec_digits(old_n as nat) + rev_digit_chars(old_digits)
                    =~= spec_dec_digits(n as nat) + rev_digit_chars(digits@));
            }
        }
    }
    let mut s: String = "Reveal.".to_owned();
    let mut i: usize = digits.len();
    proof {
        assert(s@ =~= "Reveal."@ + rev_digit_chars(digits@).take(digits@.len() - i));
    }
    while i > 0
        invariant
            i <= digits@.len(),
            forall|j: int| 0 <= j < digits@.len() ==> #[trigger] digits@[j] < 10,
            spec_dec_digits(reveal_id as nat) == rev_digit_chars(digits@),
            s@ == "Reveal."@ + rev_digit_chars(digits@).take(digits@.len() - i),
        decreases i,
    {
        i -= 1;
        let ghost old_s = s@;
        push_digit(&mut s, digits[i]);
        proof {
            let k = digits@.len() - i - 1;
            assert(rev_digit_chars(digits@)[k] == spec_digit_char(digits@[i as int] as int));
            assert(rev_digit_chars(digits@).take(k + 1) =~= rev_digit_chars(digits@).take(k).push(
                rev_digit_chars(digits@)[k],
            ));
            assert(s@ =~= "Reveal."@ + rev_digit_chars(digits@).take(k + 1));
        }
    }
    proof {
        assert(rev_digit_chars(digits@).take(digits@.len() as int) =~= rev_digit_chars(digits@));
    }
    s
}

} // verus!
