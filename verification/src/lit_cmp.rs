//! Ordering of literals: a total order bucket per kind, natural value
//! order inside a kind, lexicographic order for lists, strings and
//! tuples. Float literals are decimals and compare exactly.

use vstd::prelude::*;

use core::cmp::Ordering;

use crate::literal::LitModel;
use crate::literal::Literal;
use crate::literal::lemma_lits_view;
use crate::literal::lits_view;

verus! {

/// Well-formed literals: every float literal's scale stays within the
/// decimal range the tokenizer produces.
pub open spec fn lit_wf(l: LitModel) -> bool
    decreases l,
{
    match l {
        LitModel::Float { scale, .. } => scale <= 18,
        LitModel::List { elements, tail } => lits_wf(elements) && match tail {
            Option::Some(t) => lit_wf(*t),
            Option::None => true,
        },
        LitModel::Tuple(elements) => lits_wf(elements),
        _ => true,
    }
}

/// Well-formedness of every literal in a sequence.
pub open spec fn lits_wf(ls: Seq<LitModel>) -> bool
    decreases ls,
{
    if ls.len() == 0 {
        true
    } else {
        lit_wf(ls[0]) && lits_wf(ls.drop_first())
    }
}

/// The total order bucket of a literal's kind: numbers before atoms
/// before tuples before the empty list before lists and strings.
pub open spec fn lit_order(l: LitModel) -> int {
    match l {
        LitModel::Integer(_) => 1,
        LitModel::Float { .. } => 1,
        LitModel::Atom(_) => 2,
        LitModel::Bool(_) => 2,
        LitModel::Tuple(_) => 6,
        LitModel::Nil => 8,
        LitModel::List { .. } => 9,
        LitModel::Str(_) => 9,
    }
}

/// Ten to the given power.
pub open spec fn pow10(e: nat) -> int
    decreases e,
{
    if e == 0 {
        1
    } else {
        10 * pow10((e - 1) as nat)
    }
}

/// The exact value comparison of two decimals, cleared of denominators.
pub open spec fn float_cmp_model(ma: int, sa: nat, mb: int, sb: nat) -> Ordering {
    let left = ma * pow10(sb);
    let right = mb * pow10(sa);
    if left < right {
        Ordering::Less
    } else if left == right {
        Ordering::Equal
    } else {
        Ordering::Greater
    }
}

/// Lexicographic comparison of two character sequences by code point.
pub open spec fn chars_cmp(a: Seq<char>, b: Seq<char>) -> Ordering
    decreases a,
{
    if a.len() == 0 && b.len() == 0 {
        Ordering::Equal
    } else if a.len() == 0 {
        Ordering::Less
    } else if b.len() == 0 {
        Ordering::Greater
    } else if (a[0] as int) < (b[0] as int) {
        Ordering::Less
    } else if (a[0] as int) > (b[0] as int) {
        Ordering::Greater
    } else {
        chars_cmp(a.drop_first(), b.drop_first())
    }
}

/// Comparison of two literals of the same kind: numbers by value, atoms
/// and strings lexicographically, booleans with false first, lists and
/// tuples lexicographically by element.
pub open spec fn lit_cmp_same_model(a: LitModel, b: LitModel) -> Ordering
    decreases a, 0int,
{
    match (a, b) {
        (LitModel::Integer(x), LitModel::Integer(y)) => int_cmp(x, y),
        (
            LitModel::Float { mantissa: ma, scale: sa },
            LitModel::Float { mantissa: mb, scale: sb },
        ) => float_cmp_model(ma, sa, mb, sb),
        (LitModel::Atom(x), LitModel::Atom(y)) => chars_cmp(x, y),
        (LitModel::Bool(x), LitModel::Bool(y)) => {
            if x == y {
                Ordering::Equal
            } else if !x {
                Ordering::Less
            } else {
                Ordering::Greater
            }
        },
        (LitModel::Str(x), LitModel::Str(y)) => chars_cmp(x, y),
        (LitModel::Nil, LitModel::Nil) => Ordering::Equal,
        (LitModel::List { elements: x, .. }, LitModel::List { elements: y, .. }) => lits_cmp_lex(
            x,
            y,
        ),
        (LitModel::Tuple(x), LitModel::Tuple(y)) => lits_cmp_lex(x, y),
        _ => Ordering::Equal,
    }
}

/// The full comparison: by kind bucket first, then within the kind.
pub open spec fn lit_cmp_model(a: LitModel, b: LitModel) -> Ordering
    decreases a, 1int,
{
    if lit_order(a) < lit_order(b) {
        Ordering::Less
    } else if lit_order(a) > lit_order(b) {
        Ordering::Greater
    } else {
        lit_cmp_same_model(a, b)
    }
}

/// Lexicographic comparison of literal sequences by the full order.
pub open spec fn lits_cmp_lex(a: Seq<LitModel>, b: Seq<LitModel>) -> Ordering
    decreases a, 2int,
{
    if a.len() == 0 && b.len() == 0 {
        Ordering::Equal
    } else if a.len() == 0 {
        Ordering::Less
    } else if b.len() == 0 {
        Ordering::Greater
    } else {
        let head = lit_cmp_model(a[0], b[0]);
        if head == Ordering::Equal {
            lits_cmp_lex(a.drop_first(), b.drop_first())
        } else {
            head
        }
    }
}

/// Comparison of two integers as an ordering value.
pub open spec fn int_cmp(x: int, y: int) -> Ordering {
    if x < y {
        Ordering::Less
    } else if x == y {
        Ordering::Equal
    } else {
        Ordering::Greater
    }
}

/// Ten to the given power, executable.
fn pow10_exec(e: u32) -> (r: i128)
    requires
        e <= 18,
    ensures
        r == pow10(e as nat),
        1 <= r <= 1000000000000000000i128,
{
    let mut r: i128 = 1;
    let mut i: u32 = 0;
    while i < e
        invariant
            0 <= i <= e,
            e <= 18,
            r == pow10(i as nat),
            1 <= r <= pow10(i as nat),
            r <= 1000000000000000000i128,
        decreases e - i,
    {
        proof {
            lemma_pow10_bound((i + 1) as nat);
        }
        r = r * 10;
        i = i + 1;
    }
    r
}

/// Ten to any power is at least one.
proof fn lemma_pow10_pos(e: nat)
    ensures
        1 <= pow10(e),
    decreases e,
{
    if e > 0 {
        lemma_pow10_pos((e - 1) as nat);
    }
}

/// Ten to a power is monotone in the power.
proof fn lemma_pow10_mono(x: nat, y: nat)
    requires
        x <= y,
    ensures
        pow10(x) <= pow10(y),
    decreases y,
{
    if x < y {
        lemma_pow10_mono(x, (y - 1) as nat);
        lemma_pow10_pos((y - 1) as nat);
    }
}

/// Ten to a power of at most eighteen stays within eighteen digits.
proof fn lemma_pow10_bound(e: nat)
    requires
        e <= 18,
    ensures
        1 <= pow10(e) <= 1000000000000000000,
{
    lemma_pow10_pos(e);
    lemma_pow10_mono(e, 18);
    reveal_with_fuel(pow10, 20);
    assert(pow10(18) == 1000000000000000000);
}

/// Lexicographic comparison of two strings' characters.
fn str_cmp(a: &str, b: &str) -> (r: Ordering)
    ensures
        r == chars_cmp(a@, b@),
{
    let na = a.unicode_len();
    let nb = b.unicode_len();
    proof {
        assert(a@.skip(0) =~= a@);
        assert(b@.skip(0) =~= b@);
    }
    let mut i: usize = 0;
    while i < na && i < nb
        invariant
            0 <= i <= na,
            i <= nb,
            na == a@.len(),
            nb == b@.len(),
            chars_cmp(a@, b@) == chars_cmp(a@.skip(i as int), b@.skip(i as int)),
        decreases na - i,
    {
        let ca = a.get_char(i);
        let cb = b.get_char(i);
        proof {
            assert(a@.skip(i as int)[0] == a@[i as int]);
            assert(b@.skip(i as int)[0] == b@[i as int]);
            assert(a@.skip(i as int).drop_first() =~= a@.skip(i as int + 1));
            assert(b@.skip(i as int).drop_first() =~= b@.skip(i as int + 1));
        }
        if (ca as u32) < (cb as u32) {
            return Ordering::Less;
        }
        if (ca as u32) > (cb as u32) {
            return Ordering::Greater;
        }
        i = i + 1;
    }
    proof {
        assert(a@.skip(i as int).len() == na - i);
        assert(b@.skip(i as int).len() == nb - i);
    }
    if na == nb {
        Ordering::Equal
    } else if na < nb {
        Ordering::Less
    } else {
        Ordering::Greater
    }
}

impl Literal {
    /// The total order bucket of this literal's kind.
    pub fn get_order(&self) -> (r: u32)
        ensures
            r as int == lit_order(self@),
    {
        match self {
            Literal::Integer(_) => 1,
            Literal::Float(_) => 1,
            Literal::Atom(_) => 2,
            Literal::Bool(_) => 2,
            Literal::Tuple(_) => 6,
            Literal::Nil => 8,
            Literal::List { .. } => 9,
            Literal::Str(_) => 9,
        }
    }

    /// Compare two literals of the same kind, per
    /// [`lit_cmp_same_model`]; literals of different kinds within the
    /// same bucket (an integer and a float) are outside this method's
    /// contract and answer as equal rather than panicking.
    pub fn cmp_same_type(&self, other: &Literal) -> (r: Ordering)
        requires
            lit_wf(self@),
            lit_wf(other@),
        ensures
            r == lit_cmp_same_model(self@, other@),
        decreases *self, 0int,
    {
        match (self, other) {
            (Literal::Integer(x), Literal::Integer(y)) => {
                if *x < *y {
                    Ordering::Less
                } else if *x == *y {
                    Ordering::Equal
                } else {
                    Ordering::Greater
                }
            },
            (Literal::Float(a), Literal::Float(b)) => {
                let pb = pow10_exec(b.scale);
                let pa = pow10_exec(a.scale);
                proof {
                    assert((a.mantissa as int) * (pb as int)
                        <= 9223372036854775807 * 1000000000000000000 && (a.mantissa as int) * (
                    pb as int) >= (-9223372036854775808) * 1000000000000000000) by (nonlinear_arith)
                        requires
                            -9223372036854775808 <= a.mantissa as int <= 9223372036854775807,
                            1 <= pb as int <= 1000000000000000000,
                    ;
                    assert((b.mantissa as int) * (pa as int)
                        <= 9223372036854775807 * 1000000000000000000 && (b.mantissa as int) * (
                    pa as int) >= (-9223372036854775808) * 1000000000000000000) by (nonlinear_arith)
                        requires
                            -9223372036854775808 <= b.mantissa as int <= 9223372036854775807,
                            1 <= pa as int <= 1000000000000000000,
                    ;
                }
                let left = (a.mantissa as i128) * pb;
                let right = (b.mantissa as i128) * pa;
                if left < right {
                    Ordering::Less
                } else if left == right {
                    Ordering::Equal
                } else {
                    Ordering::Greater
                }
            },
            (Literal::Atom(x), Literal::Atom(y)) => str_cmp(x.as_str(), y.as_str()),
            (Literal::Bool(x), Literal::Bool(y)) => {
                if *x == *y {
                    Ordering::Equal
                } else if !*x {
                    Ordering::Less
                } else {
                    Ordering::Greater
                }
            },
            (Literal::Str(x), Literal::Str(y)) => str_cmp(x.as_str(), y.as_str()),
            (Literal::Nil, Literal::Nil) => Ordering::Equal,
            (Literal::List { elements: x, .. }, Literal::List { elements: y, .. }) => {
                lits_cmp_exec(x, y)
            },
            (Literal::Tuple(x), Literal::Tuple(y)) => lits_cmp_exec(x, y),
            _ => Ordering::Equal,
        }
    }

    /// The full comparison, per [`lit_cmp_model`]: kind buckets first,
    /// the same-kind order inside a bucket.
    pub fn cmp_lit(&self, other: &Literal) -> (r: Ordering)
        requires
            lit_wf(self@),
            lit_wf(other@),
        ensures
            r == lit_cmp_model(self@, other@),
        decreases *self, 1int,
    {
        let oa = self.get_order();
        let ob = other.get_order();
        if oa < ob {
            Ordering::Less
        } else if oa > ob {
            Ordering::Greater
        } else {
            self.cmp_same_type(other)
        }
    }
}

/// Lexicographic comparison of two literal vectors.
fn lits_cmp_exec(xs: &Vec<Literal>, ys: &Vec<Literal>) -> (r: Ordering)
    requires
        lits_wf(lits_view(xs@)),
        lits_wf(lits_view(ys@)),
    ensures
        r == lits_cmp_lex(lits_view(xs@), lits_view(ys@)),
    decreases xs@, 2int,
{
    proof {
        lemma_lits_view(xs@);
        lemma_lits_view(ys@);
        lemma_lits_wf_index(lits_view(xs@));
        lemma_lits_wf_index(lits_view(ys@));
    }
    let nx = xs.len();
    let ny = ys.len();
    proof {
        assert(lits_view(xs@).skip(0) =~= lits_view(xs@));
        assert(lits_view(ys@).skip(0) =~= lits_view(ys@));
    }
    let mut i: usize = 0;
    while i < nx && i < ny
        invariant
            0 <= i <= nx,
            i <= ny,
            nx == xs@.len(),
            ny == ys@.len(),
            lits_view(xs@).len() == xs@.len(),
            forall|j: int| 0 <= j < xs@.len() ==> lits_view(xs@)[j] == xs@[j]@,
            lits_view(ys@).len() == ys@.len(),
            forall|j: int| 0 <= j < ys@.len() ==> lits_view(ys@)[j] == ys@[j]@,
            forall|j: int| 0 <= j < xs@.len() ==> lit_wf(#[trigger] lits_view(xs@)[j]),
            forall|j: int| 0 <= j < ys@.len() ==> lit_wf(#[trigger] lits_view(ys@)[j]),
            lits_cmp_lex(lits_view(xs@), lits_view(ys@)) == lits_cmp_lex(
                lits_view(xs@).skip(i as int),
                lits_view(ys@).skip(i as int),
            ),
        decreases nx - i,
    {
        proof {
            assert(lits_view(xs@).skip(i as int)[0] == lits_view(xs@)[i as int]);
            assert(lits_view(ys@).skip(i as int)[0] == lits_view(ys@)[i as int]);
            assert(lits_view(xs@).skip(i as int).drop_first() =~= lits_view(xs@).skip(
                i as int + 1,
            ));
            assert(lits_view(ys@).skip(i as int).drop_first() =~= lits_view(ys@).skip(
                i as int + 1,
            ));
        }
        let head = xs[i].cmp_lit(&ys[i]);
        if !matches!(head, Ordering::Equal) {
            return head;
        }
        i = i + 1;
    }
    proof {
        assert(lits_view(xs@).skip(i as int).len() == nx - i);
        assert(lits_view(ys@).skip(i as int).len() == ny - i);
    }
    if nx == ny {
        Ordering::Equal
    } else if nx < ny {
        Ordering::Less
    } else {
        Ordering::Greater
    }
}

/// Well-formedness of a sequence gives well-formedness of each element.
proof fn lemma_lits_wf_index(ls: Seq<LitModel>)
    requires
        lits_wf(ls),
    ensures
        forall|j: int| 0 <= j < ls.len() ==> lit_wf(#[trigger] ls[j]),
    decreases ls.len(),
{
    if ls.len() > 0 {
        lemma_lits_wf_index(ls.drop_first());
        assert(forall|j: int| 1 <= j < ls.len() ==> ls.drop_first()[j - 1] == ls[j]);
    }
}

} // verus!
