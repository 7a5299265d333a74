//! The text form shared by the fixed-degree polynomials.
//!
//! Terms run from the highest power down. A zero term is left out, a unit
//! coefficient shows only its sign (the constant term keeps its digit), and
//! every term after the first is joined by `" + "` or `" - "`. The first
//! printed term carries at most a unary minus. A polynomial whose terms are
//! all zero reads `"0"`.

use vstd::prelude::*;
use vstd::string::{StrSliceExecFns, StringExecFns};

verus! {

/// Where a coefficient lies relative to zero; `Unordered` is a value that
/// compares with nothing, such as a NaN.
#[derive(Clone, Copy, Debug, PartialEq, Eq, Structural)]
pub enum Sign {
    Negative,
    Zero,
    Positive,
    Unordered,
}

/// One coefficient as the text form sees it: its sign, and its absolute
/// value written out in decimal (`"2.5"`, `"1"`).
#[derive(Debug)]
pub struct Coef {
    pub sign: Sign,
    pub magnitude: String,
}

impl Coef {
    pub fn new(sign: Sign, magnitude: String) -> (r: Coef)
        ensures
            r.sign == sign,
            r.magnitude@ == magnitude@,
    {
        Coef { sign, magnitude }
    }

    /// The absolute value is one.
    pub open spec fn is_unit(&self) -> bool {
        self.magnitude@ == seq!['1']
    }
}

/// The digit of a power that a fixed-degree polynomial can hold.
pub open spec fn digit(power: nat) -> char {
    if power == 2 {
        '2'
    } else if power == 3 {
        '3'
    } else {
        '4'
    }
}

/// What follows the coefficient of `x` raised to `power`.
pub open spec fn suffix_text(power: nat) -> Seq<char> {
    if power == 0 {
        seq![]
    } else if power == 1 {
        seq!['x']
    } else {
        seq!['x', '^', digit(power)]
    }
}

/// The token that joins a term to the one before it.
pub open spec fn separator_text(sign: Sign) -> Seq<char> {
    match sign {
        Sign::Positive => seq![' ', '+', ' '],
        Sign::Negative => seq![' ', '-', ' '],
        _ => seq![],
    }
}

/// What the first printed term shows of its sign.
pub open spec fn lead_sign_text(sign: Sign) -> Seq<char> {
    if sign == Sign::Negative {
        seq!['-']
    } else {
        seq![]
    }
}

/// Numeral and suffix of a nonzero term; a unit numeral is left out unless
/// nothing would remain.
pub open spec fn body_text(c: Coef, suffix: Seq<char>) -> Seq<char> {
    if c.is_unit() && suffix.len() > 0 {
        suffix
    } else {
        c.magnitude@ + suffix
    }
}

/// The text of one term, empty for a zero coefficient.
pub open spec fn term_text(c: Coef, suffix: Seq<char>, leading: bool) -> Seq<char> {
    if c.sign == Sign::Zero {
        seq![]
    } else if leading {
        lead_sign_text(c.sign) + body_text(c, suffix)
    } else {
        separator_text(c.sign) + body_text(c, suffix)
    }
}

/// The text of the terms `cs`, highest power first and the last one
/// constant; `started` tells whether a term was printed before them.
pub open spec fn terms_text(cs: Seq<Coef>, started: bool) -> Seq<char>
    decreases cs.len(),
{
    if cs.len() == 0 {
        seq![]
    } else if cs[0].sign == Sign::Zero {
        terms_text(cs.drop_first(), started)
    } else {
        term_text(cs[0], suffix_text((cs.len() - 1) as nat), !started) + terms_text(
            cs.drop_first(),
            true,
        )
    }
}

/// Every coefficient is zero.
pub open spec fn all_zero(cs: Seq<Coef>) -> bool {
    forall|i: int| 0 <= i < cs.len() ==> #[trigger] cs[i].sign == Sign::Zero
}

/// The text form of the polynomial with coefficients `cs`, highest power
/// first.
pub open spec fn rendered(cs: Seq<Coef>) -> Seq<char> {
    if all_zero(cs) {
        seq!['0']
    } else {
        terms_text(cs, false)
    }
}

/// A zero leading coefficient leaves no trace in the text: the polynomial
/// reads as the one made of the lower terms alone.
pub proof fn lemma_zero_leader_elided(cs: Seq<Coef>)
    requires
        cs.len() >= 1,
        cs[0].sign == Sign::Zero,
    ensures
        rendered(cs) == rendered(cs.drop_first()),
{
    assert(all_zero(cs) == all_zero(cs.drop_first())) by {
        if all_zero(cs.drop_first()) {
            assert forall|i: int| 0 <= i < cs.len() implies #[trigger] cs[i].sign == Sign::Zero by {
                if i > 0 {
                    assert(cs[i] == cs.drop_first()[i - 1]);
                }
            }
        }
        if all_zero(cs) {
            assert forall|i: int| 0 <= i < cs.drop_first().len() implies #[trigger] cs.drop_first()[i].sign
                == Sign::Zero by {
                assert(cs.drop_first()[i] == cs[i + 1]);
            }
        }
    }
}

/// Puts the joining token for `sign` in front of `string`.
pub fn plus_minus(sign: Sign, string: String) -> (r: String)
    ensures
        r@ == separator_text(sign) + string@,
{
    match sign {
        Sign::Positive => {
            let mut r = String::from_str(" + ");
            r.append(string.as_str());
            proof {
                reveal_strlit(" + ");
            }
            r
        },
        Sign::Negative => {
            let mut r = String::from_str(" - ");
            r.append(string.as_str());
            proof {
                reveal_strlit(" - ");
            }
            r
        },
        _ => {
            proof {
                assert(separator_text(sign) + string@ =~= string@);
            }
            string
        },
    }
}

/// Tells whether the absolute value of `c` is one.
fn is_unit(c: &Coef) -> (r: bool)
    ensures
        r == c.is_unit(),
{
    let m = c.magnitude.as_str();
    if m.unicode_len() == 1 {
        let r = m.get_char(0) == '1';
        proof {
            if r {
                assert(c.magnitude@ =~= seq!['1']);
            }
        }
        r
    } else {
        false
    }
}

/// The text of a term after the first one, with the given suffix.
pub fn signed_val(c: &Coef, suffix: &str) -> (r: String)
    ensures
        r@ == term_text(*c, suffix@, false),
{
    if c.sign == Sign::Zero {
        String::new()
    } else if is_unit(c) && suffix.unicode_len() > 0 {
        plus_minus(c.sign, String::from_str(suffix))
    } else {
        let mut unsigned = c.magnitude.clone();
        unsigned.append(suffix);
        plus_minus(c.sign, unsigned)
    }
}

/// The text of a constant term after the first one.
pub fn s_val_last(c: &Coef) -> (r: String)
    ensures
        r@ == term_text(*c, seq![], false),
{
    if c.sign == Sign::Zero {
        String::new()
    } else {
        let r = plus_minus(c.sign, c.magnitude.clone());
        proof {
            assert(c.magnitude@ + seq![] =~= c.magnitude@);
        }
        r
    }
}

/// The text of the first printed term, with the given suffix.
pub fn display_header(c: &Coef, suffix: &str) -> (r: String)
    ensures
        r@ == term_text(*c, suffix@, true),
{
    if c.sign == Sign::Zero {
        return String::new();
    }
    let mut r = if c.sign == Sign::Negative {
        String::from_str("-")
    } else {
        String::new()
    };
    proof {
        reveal_strlit("-");
    }
    if !(is_unit(c) && suffix.unicode_len() > 0) {
        r.append(c.magnitude.as_str());
    }
    r.append(suffix);
    proof {
        assert(r@ =~= lead_sign_text(c.sign) + body_text(*c, suffix@));
    }
    r
}

/// What follows the coefficient of `x` raised to `power`.
pub fn suffix(power: usize) -> (r: String)
    requires
        power <= 4,
    ensures
        r@ == suffix_text(power as nat),
{
    proof {
        reveal_strlit("x");
        reveal_strlit("x^2");
        reveal_strlit("x^3");
        reveal_strlit("x^4");
    }
    if power == 0 {
        String::new()
    } else if power == 1 {
        String::from_str("x")
    } else if power == 2 {
        String::from_str("x^2")
    } else if power == 3 {
        String::from_str("x^3")
    } else {
        String::from_str("x^4")
    }
}

/// The text form of the polynomial with coefficients `coefs`, highest power
/// first; a fixed-degree polynomial has at most five.
pub fn render(coefs: &Vec<Coef>) -> (r: String)
    requires
        coefs@.len() <= 5,
    ensures
        r@ == rendered(coefs@),
{
    let n = coefs.len();
    let mut out = String::new();
    let mut started = false;
    let mut i: usize = 0;
    proof {
        assert(coefs@.skip(0) =~= coefs@);
        assert(out@ + terms_text(coefs@, false) =~= terms_text(coefs@, false));
    }
    while i < n
        invariant
            n == coefs@.len(),
            n <= 5,
            i <= n,
            out@ + terms_text(coefs@.skip(i as int), started) == terms_text(coefs@, false),
            !started <==> all_zero(coefs@.take(i as int)),
        decreases n - i,
    {
        let c = &coefs[i];
        let power = n - 1 - i;
        let ghost rest = coefs@.skip(i as int);
        proof {
            assert(rest.drop_first() =~= coefs@.skip(i + 1));
            assert(rest[0] == coefs@[i as int]);
            assert(coefs@.take(i + 1) =~= coefs@.take(i as int).push(coefs@[i as int]));
        }
        if c.sign != Sign::Zero {
            let sfx = suffix(power);
            let t = if !started {
                display_header(c, sfx.as_str())
            } else if power > 0 {
                signed_val(c, sfx.as_str())
            } else {
                s_val_last(c)
            };
            out.append(t.as_str());
            proof {
                assert(out@ + terms_text(coefs@.skip(i + 1), true) =~= terms_text(coefs@, false));
                assert(!all_zero(coefs@.take(i + 1))) by {
                    assert(coefs@.take(i + 1)[i as int] == coefs@[i as int]);
                }
            }
            started = true;
        } else {
            proof {
                assert(all_zero(coefs@.take(i + 1)) == all_zero(coefs@.take(i as int))) by {
                    if all_zero(coefs@.take(i as int)) {
                        assert forall|j: int| 0 <= j < i + 1 implies #[trigger] coefs@.take(
                            i + 1,
                        )[j].sign == Sign::Zero by {
                            if j < i {
                                assert(coefs@.take(i + 1)[j] == coefs@.take(i as int)[j]);
                            }
                        }
                    } else {
                        let j = choose|j: int|
                            0 <= j < i && #[trigger] coefs@.take(i as int)[j].sign != Sign::Zero;
                        assert(coefs@.take(i + 1)[j] == coefs@.take(i as int)[j]);
                    }
                }
            }
        }
        i += 1;
    }
    proof {
        assert(coefs@.take(n as int) =~= coefs@);
        assert(coefs@.skip(n as int) =~= Seq::<Coef>::empty());
        assert(out@ =~= out@ + terms_text(coefs@.skip(n as int), started));
    }
    if started {
        out
    } else {
        proof {
            reveal_strlit("0");
        }
        String::from_str("0")
    }
}

} // verus!
