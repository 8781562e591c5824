//! The laws of the version ordering: it is reflexive, antisymmetric (swapping
//! the sides flips the outcome) and transitive, so it orders versions
//! totally up to the equality that the trailing-zero rule induces.

use vstd::prelude::*;
use crate::comp_op::CompOp;
use crate::comp_op::is_ordering;
use crate::comp_op::lemma_evaluate_invert;
use crate::comp_op::spec_evaluate;
use crate::comp_op::spec_flip_ordering;
use crate::comp_op::spec_invert;
use crate::version_part::PartView;
use crate::version_part::spec_chars_cmp_from;
use crate::version_part::spec_part_cmp;
use crate::version_part::spec_part_vs_absent;
use crate::version_part::spec_opt_part_cmp;
use crate::version::part_at;
use crate::version::spec_cmp_from;
use crate::version::spec_version_cmp;

verus! {

proof fn lemma_chars_cmp_refl(a: Seq<char>, i: int)
    ensures
        spec_chars_cmp_from(a, a, i) == CompOp::Eq,
    decreases a.len() - i,
{
    if i < a.len() {
        lemma_chars_cmp_refl(a, i + 1);
    }
}

proof fn lemma_part_cmp_refl(x: PartView)
    ensures
        spec_part_cmp(x, x) == CompOp::Eq,
{
    match x {
        PartView::Txt(t) => lemma_chars_cmp_refl(t, 0),
        PartView::Num(_) => {},
    }
}

proof fn lemma_cmp_from_refl(a: Seq<PartView>, i: int)
    ensures
        spec_cmp_from(a, a, i) == CompOp::Eq,
    decreases a.len() - i,
{
    if i < a.len() {
        lemma_part_cmp_refl(a[i]);
        lemma_cmp_from_refl(a, i + 1);
    }
}

/// Reflexivity: every version compares equal to itself.
pub proof fn lemma_compare_reflexive(a: Seq<PartView>)
    ensures
        spec_version_cmp(a, a) == CompOp::Eq,
{
    lemma_cmp_from_refl(a, 0);
}

proof fn lemma_cmp_from_push(a: Seq<PartView>, p: PartView, i: int)
    requires
        0 <= i <= a.len(),
    ensures
        spec_cmp_from(a.push(p), a, i) == spec_part_vs_absent(p),
    decreases a.len() - i,
{
    if i < a.len() {
        assert(a.push(p)[i] == a[i]);
        lemma_part_cmp_refl(a[i]);
        lemma_cmp_from_push(a, p, i + 1);
    } else {
        assert(a.push(p)[i] == p);
        assert(spec_cmp_from(a.push(p), a, i + 1) == CompOp::Eq);
    }
}

/// The trailing-zero rule at the whole-version level: a version extended by
/// one more part compares to the unextended version as that part compares to
/// absence — equal for a zero number, greater for any other number and for
/// any text. So trailing zero-numeric parts never break a tie, and trailing
/// text parts always do.
pub proof fn lemma_trailing_part(a: Seq<PartView>, p: PartView)
    ensures
        spec_version_cmp(a.push(p), a) == spec_part_vs_absent(p),
{
    lemma_cmp_from_push(a, p, 0);
}

proof fn lemma_chars_cmp_flip(a: Seq<char>, b: Seq<char>, i: int)
    ensures
        spec_chars_cmp_from(b, a, i) == spec_flip_ordering(spec_chars_cmp_from(a, b, i)),
    decreases a.len() + b.len() - i,
{
    if i < a.len() && i < b.len() {
        lemma_chars_cmp_flip(a, b, i + 1);
    }
}

proof fn lemma_part_cmp_flip(x: PartView, y: PartView)
    ensures
        spec_part_cmp(y, x) == spec_flip_ordering(spec_part_cmp(x, y)),
{
    match (x, y) {
        (PartView::Txt(t), PartView::Txt(u)) => lemma_chars_cmp_flip(t, u, 0),
        _ => {},
    }
}

proof fn lemma_opt_cmp_flip(x: Option<PartView>, y: Option<PartView>)
    ensures
        spec_opt_part_cmp(y, x) == spec_flip_ordering(spec_opt_part_cmp(x, y)),
{
    match (x, y) {
        (Option::Some(p), Option::Some(q)) => lemma_part_cmp_flip(p, q),
        _ => {},
    }
}

proof fn lemma_cmp_from_flip(a: Seq<PartView>, b: Seq<PartView>, i: int)
    ensures
        spec_cmp_from(b, a, i) == spec_flip_ordering(spec_cmp_from(a, b, i)),
    decreases a.len() + b.len() - i,
{
    if i < a.len() || i < b.len() {
        lemma_opt_cmp_flip(part_at(a, i), part_at(b, i));
        if spec_opt_part_cmp(part_at(a, i), part_at(b, i)) == CompOp::Eq {
            lemma_cmp_from_flip(a, b, i + 1);
        }
    }
}

/// Antisymmetry: comparing the two versions in the other order gives the
/// inverse outcome — `Lt` and `Gt` trade places and `Eq` stays `Eq`.
pub proof fn lemma_compare_antisymmetric(a: Seq<PartView>, b: Seq<PartView>)
    ensures
        spec_version_cmp(b, a) == spec_flip_ordering(spec_version_cmp(a, b)),
{
    lemma_cmp_from_flip(a, b, 0);
}

proof fn lemma_chars_cmp_comp(a: Seq<char>, b: Seq<char>, c: Seq<char>, i: int)
    ensures
        spec_chars_cmp_from(a, b, i) == CompOp::Eq && spec_chars_cmp_from(b, c, i) == CompOp::Eq
            ==> spec_chars_cmp_from(a, c, i) == CompOp::Eq,
        spec_chars_cmp_from(a, b, i) == CompOp::Eq && spec_chars_cmp_from(b, c, i) == CompOp::Lt
            ==> spec_chars_cmp_from(a, c, i) == CompOp::Lt,
        spec_chars_cmp_from(a, b, i) == CompOp::Lt && spec_chars_cmp_from(b, c, i) == CompOp::Eq
            ==> spec_chars_cmp_from(a, c, i) == CompOp::Lt,
        spec_chars_cmp_from(a, b, i) == CompOp::Lt && spec_chars_cmp_from(b, c, i) == CompOp::Lt
            ==> spec_chars_cmp_from(a, c, i) == CompOp::Lt,
    decreases a.len() + b.len() + c.len() - i,
{
    if i < a.len() || i < b.len() || i < c.len() {
        lemma_chars_cmp_comp(a, b, c, i + 1);
    }
}

/// The part a position past every end normalises to: a zero number, which
/// the trailing-zero rule makes equal to absence.
spec fn opt_norm(o: Option<PartView>) -> PartView {
    match o {
        Option::Some(p) => p,
        Option::None => PartView::Num(0),
    }
}

proof fn lemma_opt_cmp_norm(x: Option<PartView>, y: Option<PartView>)
    ensures
        spec_opt_part_cmp(x, y) == spec_part_cmp(opt_norm(x), opt_norm(y)),
{
    match (x, y) {
        (Option::Some(p), Option::None) => {
            match p {
                PartView::Num(_) => {},
                PartView::Txt(_) => {},
            }
        },
        (Option::None, Option::Some(q)) => {
            match q {
                PartView::Num(_) => {},
                PartView::Txt(_) => {},
            }
        },
        _ => {},
    }
}

proof fn lemma_part_cmp_comp(x: PartView, y: PartView, z: PartView)
    ensures
        spec_part_cmp(x, y) == CompOp::Eq && spec_part_cmp(y, z) == CompOp::Eq ==> spec_part_cmp(
            x,
            z,
        ) == CompOp::Eq,
        spec_part_cmp(x, y) == CompOp::Eq && spec_part_cmp(y, z) == CompOp::Lt ==> spec_part_cmp(
            x,
            z,
        ) == CompOp::Lt,
        spec_part_cmp(x, y) == CompOp::Lt && spec_part_cmp(y, z) == CompOp::Eq ==> spec_part_cmp(
            x,
            z,
        ) == CompOp::Lt,
        spec_part_cmp(x, y) == CompOp::Lt && spec_part_cmp(y, z) == CompOp::Lt ==> spec_part_cmp(
            x,
            z,
        ) == CompOp::Lt,
{
    match (x, y, z) {
        (PartView::Txt(t), PartView::Txt(u), PartView::Txt(v)) => lemma_chars_cmp_comp(
            t,
            u,
            v,
            0,
        ),
        _ => {},
    }
}

proof fn lemma_opt_cmp_comp(x: Option<PartView>, y: Option<PartView>, z: Option<PartView>)
    ensures
        spec_opt_part_cmp(x, y) == CompOp::Eq && spec_opt_part_cmp(y, z) == CompOp::Eq
            ==> spec_opt_part_cmp(x, z) == CompOp::Eq,
        spec_opt_part_cmp(x, y) == CompOp::Eq && spec_opt_part_cmp(y, z) == CompOp::Lt
            ==> spec_opt_part_cmp(x, z) == CompOp::Lt,
        spec_opt_part_cmp(x, y) == CompOp::Lt && spec_opt_part_cmp(y, z) == CompOp::Eq
            ==> spec_opt_part_cmp(x, z) == CompOp::Lt,
        spec_opt_part_cmp(x, y) == CompOp::Lt && spec_opt_part_cmp(y, z) == CompOp::Lt
            ==> spec_opt_part_cmp(x, z) == CompOp::Lt,
{
    lemma_opt_cmp_norm(x, y);
    lemma_opt_cmp_norm(y, z);
    lemma_opt_cmp_norm(x, z);
    lemma_part_cmp_comp(opt_norm(x), opt_norm(y), opt_norm(z));
}

proof fn lemma_cmp_from_comp(a: Seq<PartView>, b: Seq<PartView>, c: Seq<PartView>, i: int)
    ensures
        spec_cmp_from(a, b, i) == CompOp::Lt && spec_cmp_from(b, c, i) == CompOp::Lt
            ==> spec_cmp_from(a, c, i) == CompOp::Lt,
    decreases a.len() + b.len() + c.len() - i,
{
    if i < a.len() || i < b.len() || i < c.len() {
        lemma_opt_cmp_comp(part_at(a, i), part_at(b, i), part_at(c, i));
        lemma_cmp_from_comp(a, b, c, i + 1);
    }
}

proof fn lemma_chars_cmp_is_ordering(a: Seq<char>, b: Seq<char>, i: int)
    ensures
        is_ordering(spec_chars_cmp_from(a, b, i)),
    decreases a.len() + b.len() - i,
{
    if i < a.len() && i < b.len() && !(a[i] < b[i]) && !(a[i] > b[i]) {
        lemma_chars_cmp_is_ordering(a, b, i + 1);
    }
}

proof fn lemma_opt_cmp_is_ordering(x: Option<PartView>, y: Option<PartView>)
    ensures
        is_ordering(spec_opt_part_cmp(x, y)),
{
    match (x, y) {
        (Option::Some(PartView::Txt(t)), Option::Some(PartView::Txt(u))) => {
            lemma_chars_cmp_is_ordering(t, u, 0)
        },
        _ => {},
    }
}

proof fn lemma_cmp_from_is_ordering(a: Seq<PartView>, b: Seq<PartView>, i: int)
    ensures
        is_ordering(spec_cmp_from(a, b, i)),
    decreases a.len() + b.len() - i,
{
    if i < a.len() || i < b.len() {
        lemma_opt_cmp_is_ordering(part_at(a, i), part_at(b, i));
        if spec_opt_part_cmp(part_at(a, i), part_at(b, i)) == CompOp::Eq {
            lemma_cmp_from_is_ordering(a, b, i + 1);
        }
    }
}

/// A comparison's outcome is always one of `Eq`, `Lt` and `Gt` — never a
/// query-only operator.
pub proof fn lemma_compare_is_ordering(a: Seq<PartView>, b: Seq<PartView>)
    ensures
        is_ordering(spec_version_cmp(a, b)),
{
    lemma_cmp_from_is_ordering(a, b, 0);
}

/// Predicate consistency: whenever two versions do not compare equal, asking
/// with an operator and asking with its inverse give opposite answers.
pub proof fn lemma_compare_to_consistent(a: Seq<PartView>, b: Seq<PartView>, op: CompOp)
    requires
        spec_version_cmp(a, b) != CompOp::Eq,
    ensures
        spec_evaluate(spec_version_cmp(a, b), op) == !spec_evaluate(
            spec_version_cmp(a, b),
            spec_invert(op),
        ),
{
    lemma_compare_is_ordering(a, b);
    lemma_evaluate_invert(spec_version_cmp(a, b), op);
}

/// Transitivity: when `a` is less than `b` and `b` is less than `c`, `a` is
/// less than `c`.
pub proof fn lemma_compare_transitive(a: Seq<PartView>, b: Seq<PartView>, c: Seq<PartView>)
    requires
        spec_version_cmp(a, b) == CompOp::Lt,
        spec_version_cmp(b, c) == CompOp::Lt,
    ensures
        spec_version_cmp(a, c) == CompOp::Lt,
{
    lemma_cmp_from_comp(a, b, c, 0);
}

} // verus!
