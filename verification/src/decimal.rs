//! Decimal rendering of machine integers, with enough lemmas to show that
//! distinct numbers render to distinct strings (child-order identifiers
//! derive their uniqueness from this).

use vstd::prelude::*;
use vstd::string::StringExecFns;

verus! {

/// The character for a single decimal digit.
pub open spec fn digit_char(d: int) -> char {
    if d == 0 {
        '0'
    } else if d == 1 {
        '1'
    } else if d == 2 {
        '2'
    } else if d == 3 {
        '3'
    } else if d == 4 {
        '4'
    } else if d == 5 {
        '5'
    } else if d == 6 {
        '6'
    } else if d == 7 {
        '7'
    } else if d == 8 {
        '8'
    } else {
        '9'
    }
}

/// The usual decimal rendering of a natural number, most significant digit
/// first, without leading zeros (except for the number zero itself).
pub open spec fn dec_digits(n: nat) -> Seq<char>
    decreases n,
{
    if n < 10 {
        seq![digit_char(n as int)]
    } else {
        dec_digits(n / 10) + seq![digit_char((n % 10) as int)]
    }
}

/// A one-character string for a single decimal digit.
fn digit_str(d: u64) -> (r: &'static str)
    requires
        d < 10,
    ensures
        r@ == seq![digit_char(d as int)],
{
    proof {
        reveal_strlit("0");
        reveal_strlit("1");
        reveal_strlit("2");
        reveal_strlit("3");
        reveal_strlit("4");
        reveal_strlit("5");
        reveal_strlit("6");
        reveal_strlit("7");
        reveal_strlit("8");
        reveal_strlit("9");
    }
    if d == 0 {
        "0"
    } else if d == 1 {
        "1"
    } else if d == 2 {
        "2"
    } else if d == 3 {
        "3"
    } else if d == 4 {
        "4"
    } else if d == 5 {
        "5"
    } else if d == 6 {
        "6"
    } else if d == 7 {
        "7"
    } else if d == 8 {
        "8"
    } else {
        "9"
    }
}

/// Renders `n` in decimal.
pub fn u64_to_dec(n: u64) -> (r: String)
    ensures
        r@ == dec_digits(n as nat),
    decreases n,
{
    if n < 10 {
        digit_str(n).to_owned()
    } else {
        let mut s = u64_to_dec(n / 10);
        s.append(digit_str(n % 10));
        s
    }
}

/// A decimal rendering has at least one digit, and at least two for
/// numbers of ten or more.
pub proof fn lemma_dec_digits_len(n: nat)
    ensures
        dec_digits(n).len() >= 1,
        n >= 10 ==> dec_digits(n).len() >= 2,
        n < 10 ==> dec_digits(n).len() == 1,
    decreases n,
{
    if n >= 10 {
        lemma_dec_digits_len(n / 10);
    }
}

/// Distinct numbers have distinct decimal renderings.
pub proof fn lemma_dec_digits_injective(m: nat, n: nat)
    requires
        dec_digits(m) == dec_digits(n),
    ensures
        m == n,
    decreases m,
{
    lemma_dec_digits_len(m);
    lemma_dec_digits_len(n);
    if m < 10 && n < 10 {
        assert(dec_digits(m)[0] == dec_digits(n)[0]);
        assert(dec_digits(m)[0] == digit_char(m as int));
        assert(dec_digits(n)[0] == digit_char(n as int));
        assert(m == n);
    } else if m >= 10 && n >= 10 {
        let dm = dec_digits(m);
        let dn = dec_digits(n);
        let pm = dec_digits(m / 10);
        let pn = dec_digits(n / 10);
        assert(dm.len() == pm.len() + 1);
        assert(dn.len() == pn.len() + 1);
        assert(pm.len() == pn.len());
        assert(dm[dm.len() - 1] == digit_char((m % 10) as int));
        assert(dn[dn.len() - 1] == digit_char((n % 10) as int));
        assert(m % 10 == n % 10);
        assert(pm =~= pn) by {
            assert(forall|i: int| 0 <= i < pm.len() ==> pm[i] == dm[i] && pn[i] == dn[i]);
        }
        lemma_dec_digits_injective(m / 10, n / 10);
        assert(m == 10 * (m / 10) + m % 10) by {
            vstd::arithmetic::div_mod::lemma_fundamental_div_mod(m as int, 10);
        }
        assert(n == 10 * (n / 10) + n % 10) by {
            vstd::arithmetic::div_mod::lemma_fundamental_div_mod(n as int, 10);
        }
    } else {
        assert(dec_digits(m).len() == dec_digits(n).len());
        assert(false);
    }
}

/// Appending distinct decimal renderings to one common prefix gives
/// distinct strings.
pub proof fn lemma_prefixed_dec_distinct(p: Seq<char>, i: nat, j: nat)
    requires
        i != j,
    ensures
        p + dec_digits(i) != p + dec_digits(j),
{
    if p + dec_digits(i) == p + dec_digits(j) {
        assert((p + dec_digits(i)).len() == (p + dec_digits(j)).len());
        assert(dec_digits(i).len() == dec_digits(j).len());
        assert(dec_digits(i) =~= dec_digits(j)) by {
            assert(forall|k: int|
                0 <= k < dec_digits(i).len() ==> dec_digits(i)[k] == (p + dec_digits(i))[p.len()
                    + k] && dec_digits(j)[k] == (p + dec_digits(j))[p.len() + k]);
        }
        lemma_dec_digits_injective(i, j);
    }
}

} // verus!
