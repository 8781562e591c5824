//! One dot-separated segment of a version string, and the ordering between
//! two such parts or between a part and the absence of one.

use vstd::prelude::*;
use crate::comp_op::CompOp;
use crate::comp_op::is_ordering;
use crate::comp_op::spec_flip_ordering;

verus! {

/// One atomic segment between delimiters: a non-negative number, or an
/// opaque text token kept verbatim (no case folding).
pub enum Part {
    Numeric(u64),
    Text(Vec<char>),
}

/// The mathematical value of a part: an unbounded integer, or a sequence of
/// characters.
pub enum PartView {
    Num(nat),
    Txt(Seq<char>),
}

impl View for Part {
    type V = PartView;

    open spec fn view(&self) -> PartView {
        match self {
            Part::Numeric(n) => PartView::Num(*n as nat),
            Part::Text(t) => PartView::Txt(t@),
        }
    }
}

/// An ASCII decimal digit.
pub open spec fn spec_is_digit(c: char) -> bool {
    '0' <= c && c <= '9'
}

/// The accepted alphabet of a segment, exhaustively: the ASCII digits `0-9`,
/// the ASCII letters `a-z` and `A-Z`, and the three marks `-`, `_` and `+`.
/// Any other character makes the whole string unparseable. A `-` or `+` does
/// not start a new segment: only `.` delimits.
pub open spec fn spec_is_valid_char(c: char) -> bool {
    spec_is_digit(c)
        || ('a' <= c && c <= 'z')
        || ('A' <= c && c <= 'Z')
        || c == '-'
        || c == '_'
        || c == '+'
}

/// Every character of `s` is an ASCII digit.
pub open spec fn all_digits(s: Seq<char>) -> bool {
    forall|i: int| 0 <= i < s.len() ==> spec_is_digit(s[i])
}

/// Every character of `s` lies in the accepted alphabet.
pub open spec fn all_valid_chars(s: Seq<char>) -> bool {
    forall|i: int| 0 <= i < s.len() ==> spec_is_valid_char(s[i])
}

/// The numeric value of a sequence of ASCII digits, most significant first.
pub open spec fn digits_value(s: Seq<char>) -> int
    decreases s.len(),
{
    if s.len() == 0 {
        0
    } else {
        digits_value(s.drop_last()) * 10 + (s.last() as int - '0' as int)
    }
}

/// How one raw segment becomes a part: a segment made solely of ASCII digits
/// is numeric (unless its value exceeds the numeric range, which is an
/// explicit parse failure, never a silent wrap); any other non-empty segment
/// over the accepted alphabet is text; an empty segment or one with a
/// character outside the alphabet parses to nothing.
pub open spec fn spec_segment_part(s: Seq<char>) -> Option<PartView> {
    if s.len() == 0 {
        Option::None
    } else if all_digits(s) {
        if digits_value(s) <= u64::MAX {
            Option::Some(PartView::Num(digits_value(s) as nat))
        } else {
            Option::None
        }
    } else if all_valid_chars(s) {
        Option::Some(PartView::Txt(s))
    } else {
        Option::None
    }
}

/// Lexicographic comparison of two character sequences by character code,
/// from position `i` on: a proper prefix is less than the longer sequence.
pub open spec fn spec_chars_cmp_from(a: Seq<char>, b: Seq<char>, i: int) -> CompOp
    decreases a.len() + b.len() - i,
{
    if i < a.len() && i < b.len() {
        if a[i] < b[i] {
            CompOp::Lt
        } else if a[i] > b[i] {
            CompOp::Gt
        } else {
            spec_chars_cmp_from(a, b, i + 1)
        }
    } else if i < b.len() {
        CompOp::Lt
    } else if i < a.len() {
        CompOp::Gt
    } else {
        CompOp::Eq
    }
}

/// Lexicographic comparison of two character sequences by character code.
pub open spec fn spec_chars_cmp(a: Seq<char>, b: Seq<char>) -> CompOp {
    spec_chars_cmp_from(a, b, 0)
}

/// The ordering of two parts at the same position: numbers by value, texts
/// lexicographically, and a number is always less than a text (whatever the
/// number's size) — the numeric-before-text rule.
pub open spec fn spec_part_cmp(a: PartView, b: PartView) -> CompOp {
    match (a, b) {
        (PartView::Num(x), PartView::Num(y)) => if x < y {
            CompOp::Lt
        } else if x > y {
            CompOp::Gt
        } else {
            CompOp::Eq
        },
        (PartView::Txt(x), PartView::Txt(y)) => spec_chars_cmp(x, y),
        (PartView::Num(_), PartView::Txt(_)) => CompOp::Lt,
        (PartView::Txt(_), PartView::Num(_)) => CompOp::Gt,
    }
}

/// The trailing-zero rule: a part held against the absence of a part at the
/// same position. A zero number equals absence; any other number, and any
/// text whatever its content, exceeds absence.
pub open spec fn spec_part_vs_absent(a: PartView) -> CompOp {
    match a {
        PartView::Num(x) => if x == 0 {
            CompOp::Eq
        } else {
            CompOp::Gt
        },
        PartView::Txt(_) => CompOp::Gt,
    }
}

/// The ordering of two positions either of which may lie past its version's
/// end, absence modelled as `None`.
pub open spec fn spec_opt_part_cmp(a: Option<PartView>, b: Option<PartView>) -> CompOp {
    match (a, b) {
        (Option::Some(x), Option::Some(y)) => spec_part_cmp(x, y),
        (Option::Some(x), Option::None) => spec_part_vs_absent(x),
        (Option::None, Option::Some(y)) => spec_flip_ordering(spec_part_vs_absent(y)),
        (Option::None, Option::None) => CompOp::Eq,
    }
}

/// The value of a digit sequence is never negative.
pub proof fn lemma_digits_value_nonneg(s: Seq<char>)
    requires
        all_digits(s),
    ensures
        digits_value(s) >= 0,
    decreases s.len(),
{
    if s.len() > 0 {
        assert forall|k: int| 0 <= k < s.drop_last().len() implies spec_is_digit(
            s.drop_last()[k],
        ) by {
            assert(s.drop_last()[k] == s[k]);
        }
        lemma_digits_value_nonneg(s.drop_last());
    }
}

/// A prefix of a digit sequence never exceeds the whole sequence's value.
pub proof fn lemma_digits_value_prefix(s: Seq<char>, j: int)
    requires
        all_digits(s),
        0 <= j <= s.len(),
    ensures
        digits_value(s.take(j)) <= digits_value(s),
    decreases s.len(),
{
    if j == s.len() {
        assert(s.take(j) =~= s);
    } else {
        assert forall|k: int| 0 <= k < s.drop_last().len() implies spec_is_digit(
            s.drop_last()[k],
        ) by {
            assert(s.drop_last()[k] == s[k]);
        }
        assert(s.take(j) =~= s.drop_last().take(j));
        lemma_digits_value_prefix(s.drop_last(), j);
        lemma_digits_value_nonneg(s.drop_last());
    }
}

/// Compare two character sequences lexicographically by character code.
fn chars_cmp(a: &Vec<char>, b: &Vec<char>) -> (r: CompOp)
    ensures
        r == spec_chars_cmp(a@, b@),
        is_ordering(r),
{
    let mut i: usize = 0;
    loop
        invariant
            spec_chars_cmp(a@, b@) == spec_chars_cmp_from(a@, b@, i as int),
            i <= a.len() || i <= b.len(),
        decreases a@.len() + b@.len() - i,
    {
        if i < a.len() && i < b.len() {
            let x = a[i];
            let y = b[i];
            if x < y {
                return CompOp::Lt;
            } else if x > y {
                return CompOp::Gt;
            }
            i = i + 1;
        } else if i < b.len() {
            return CompOp::Lt;
        } else if i < a.len() {
            return CompOp::Gt;
        } else {
            return CompOp::Eq;
        }
    }
}

impl Part {
    /// Compare this part with another part at the same position.
    pub fn cmp_part(&self, other: &Part) -> (r: CompOp)
        ensures
            r == spec_part_cmp(self@, other@),
            is_ordering(r),
    {
        match (self, other) {
            (Part::Numeric(x), Part::Numeric(y)) => {
                if x < y {
                    CompOp::Lt
                } else if x > y {
                    CompOp::Gt
                } else {
                    CompOp::Eq
                }
            },
            (Part::Text(x), Part::Text(y)) => chars_cmp(x, y),
            (Part::Numeric(_), Part::Text(_)) => CompOp::Lt,
            (Part::Text(_), Part::Numeric(_)) => CompOp::Gt,
        }
    }

    /// Compare this part against the absence of a part (the trailing-zero
    /// rule).
    pub fn cmp_absent(&self) -> (r: CompOp)
        ensures
            r == spec_part_vs_absent(self@),
            is_ordering(r),
    {
        match self {
            Part::Numeric(x) => {
                if *x == 0 {
                    CompOp::Eq
                } else {
                    CompOp::Gt
                }
            },
            Part::Text(_) => CompOp::Gt,
        }
    }
}

} // verus!
