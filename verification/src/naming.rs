//! Deterministic output names for the `{out}` placeholder: a fixed prefix
//! followed by the job's index in decimal.

use vstd::prelude::*;

verus! {

/// The decimal digit character for `d` (0 through 9).
pub open spec fn dec_digit(d: int) -> char {
    if d == 0 {
        '0'
    } else if d == 1 {
        '1'
    } else if d == 2 {
        '2'
    } else if d == 3 {
        '3'
    } else if d == 4 {
        '4'
    } else if d == 5 {
        '5'
    } else if d == 6 {
        '6'
    } else if d == 7 {
        '7'
    } else if d == 8 {
        '8'
    } else {
        '9'
    }
}

/// The decimal representation of `n`, most significant digit first.
pub open spec fn spec_decimal(n: nat) -> Seq<char>
    decreases n,
{
    if n < 10 {
        seq![dec_digit(n as int)]
    } else {
        spec_decimal(n / 10).push(dec_digit((n % 10) as int))
    }
}

fn digit_str(d: usize) -> (r: &'static str)
    requires
        d < 10,
    ensures
        r@ == seq![dec_digit(d as int)],
{
    if d == 0 {
        proof { reveal_strlit("0"); }
        assert("0"@ =~= seq![dec_digit(0)]);
        "0"
    } else if d == 1 {
        proof { reveal_strlit("1"); }
        assert("1"@ =~= seq![dec_digit(1)]);
        "1"
    } else if d == 2 {
        proof { reveal_strlit("2"); }
        assert("2"@ =~= seq![dec_digit(2)]);
        "2"
    } else if d == 3 {
        proof { reveal_strlit("3"); }
        assert("3"@ =~= seq![dec_digit(3)]);
        "3"
    } else if d == 4 {
        proof { reveal_strlit("4"); }
        assert("4"@ =~= seq![dec_digit(4)]);
        "4"
    } else if d == 5 {
        proof { reveal_strlit("5"); }
        assert("5"@ =~= seq![dec_digit(5)]);
        "5"
    } else if d == 6 {
        proof { reveal_strlit("6"); }
        assert("6"@ =~= seq![dec_digit(6)]);
        "6"
    } else if d == 7 {
        proof { reveal_strlit("7"); }
        assert("7"@ =~= seq![dec_digit(7)]);
        "7"
    } else if d == 8 {
        proof { reveal_strlit("8"); }
        assert("8"@ =~= seq![dec_digit(8)]);
        "8"
    } else {
        proof { reveal_strlit("9"); }
        assert("9"@ =~= seq![dec_digit(9)]);
        "9"
    }
}

/// The decimal representation of `n` as a string.
pub fn decimal_string(n: usize) -> (r: String)
    ensures
        r@ == spec_decimal(n as nat),
    decreases n,
{
    if n < 10 {
        digit_str(n).to_owned()
    } else {
        let mut r = decimal_string(n / 10);
        r.append(digit_str(n % 10));
        assert(r@ =~= spec_decimal((n / 10) as nat).push(dec_digit((n % 10) as int)));
        r
    }
}

proof fn lemma_decimal_len(n: nat)
    ensures
        spec_decimal(n).len() >= 1,
        n >= 10 ==> spec_decimal(n).len() >= 2,
    decreases n,
{
    if n >= 10 {
        lemma_decimal_len(n / 10);
    }
}

proof fn lemma_digit_injective(a: int, b: int)
    requires
        0 <= a <= 9,
        0 <= b <= 9,
        dec_digit(a) == dec_digit(b),
    ensures
        a == b,
{
}

proof fn lemma_decimal_injective(a: nat, b: nat)
    requires
        spec_decimal(a) == spec_decimal(b),
    ensures
        a == b,
    decreases a + b,
{
    if a < 10 && b < 10 {
        assert(spec_decimal(a)[0] == dec_digit(a as int));
        assert(spec_decimal(b)[0] == dec_digit(b as int));
        lemma_digit_injective(a as int, b as int);
    } else if a < 10 {
        lemma_decimal_len(b);
        assert(false);
    } else if b < 10 {
        lemma_decimal_len(a);
        assert(false);
    } else {
        let sa = spec_decimal((a / 10) as nat);
        let sb = spec_decimal((b / 10) as nat);
        let da = dec_digit((a % 10) as int);
        let db = dec_digit((b % 10) as int);
        assert(sa.push(da) == sb.push(db));
        assert(sa.len() == sb.len());
        assert(sa =~= sb) by {
            assert forall|k: int| 0 <= k < sa.len() implies sa[k] == sb[k] by {
                assert(sa.push(da)[k] == sa[k]);
                assert(sb.push(db)[k] == sb[k]);
            }
        }
        assert(da == db) by {
            assert(sa.push(da)[sa.len() as int] == da);
            assert(sb.push(db)[sb.len() as int] == db);
        }
        lemma_decimal_injective((a / 10) as nat, (b / 10) as nat);
        lemma_digit_injective((a % 10) as int, (b % 10) as int);
        assert(a == 10 * (a / 10) + (a % 10)) by {
            vstd::arithmetic::div_mod::lemma_fundamental_div_mod(a as int, 10);
        }
        assert(b == 10 * (b / 10) + (b % 10)) by {
            vstd::arithmetic::div_mod::lemma_fundamental_div_mod(b as int, 10);
        }
    }
}

/// The fixed prefix of every derived output name.
pub open spec fn out_prefix() -> Seq<char> {
    seq!['o', 'u', 't', 'p', 'u', 't']
}

/// The output name derived from a job index: the fixed prefix plus the index.
pub open spec fn spec_out_name(index: nat) -> Seq<char> {
    out_prefix() + spec_decimal(index)
}

/// Distinct job indices get distinct derived output names, so the `{out}`
/// names of the jobs of one run never collide.
pub proof fn lemma_out_names_distinct(a: nat, b: nat)
    requires
        a != b,
    ensures
        spec_out_name(a) != spec_out_name(b),
{
    if spec_out_name(a) == spec_out_name(b) {
        let p = out_prefix().len() as int;
        assert(spec_decimal(a) =~= spec_decimal(b)) by {
            assert(spec_out_name(a).len() == spec_out_name(b).len());
            assert forall|k: int| 0 <= k < spec_decimal(a).len() implies spec_decimal(a)[k]
                == spec_decimal(b)[k] by {
                assert(spec_out_name(a)[p + k] == spec_decimal(a)[k]);
                assert(spec_out_name(b)[p + k] == spec_decimal(b)[k]);
            }
        }
        lemma_decimal_injective(a, b);
    }
}

/// Derive the deterministic output filename for a job index, distinct across
/// the distinct indices of a run.
pub fn sanitize_filename(index: usize) -> (r: String)
    ensures
        r@ == spec_out_name(index as nat),
{
    proof { reveal_strlit("output"); }
    assert("output"@ =~= out_prefix());
    let mut r = "output".to_owned();
    let digits = decimal_string(index);
    r.append(digits.as_str());
    r
}

} // verus!
