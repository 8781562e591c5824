//! A parsed version: an ordered sequence of parts, built from a raw string by
//! splitting on `'.'`, and compared part by part against another version.

use vstd::prelude::*;
use crate::comp_op::CompOp;
use crate::comp_op::is_ordering;
use crate::comp_op::spec_evaluate;
use crate::comp_op::evaluate;
use crate::version_part::Part;
use crate::version_part::PartView;
use crate::version_part::spec_segment_part;
use crate::version_part::spec_is_digit;
use crate::version_part::spec_is_valid_char;
use crate::version_part::all_digits;
use crate::version_part::digits_value;
use crate::version_part::spec_opt_part_cmp;

verus! {

/// The view of a sequence of parts.
pub open spec fn parts_view(s: Seq<Part>) -> Seq<PartView> {
    s.map_values(|p: Part| p@)
}

/// One step of the version grammar, read left to right: `rest` is the input
/// still to read, `cur` the segment gathered since the last delimiter, `acc`
/// the parts already made. A `'.'` (and the end of the input) closes the
/// current segment; a closed segment that is no valid part fails the whole
/// parse.
pub open spec fn spec_parse_rec(rest: Seq<char>, cur: Seq<char>, acc: Seq<PartView>) -> Option<
    Seq<PartView>,
>
    decreases rest.len(),
{
    if rest.len() == 0 {
        match spec_segment_part(cur) {
            Option::Some(p) => Option::Some(acc.push(p)),
            Option::None => Option::None,
        }
    } else if rest[0] == '.' {
        match spec_segment_part(cur) {
            Option::Some(p) => spec_parse_rec(rest.skip(1), Seq::empty(), acc.push(p)),
            Option::None => Option::None,
        }
    } else {
        spec_parse_rec(rest.skip(1), cur.push(rest[0]), acc)
    }
}

/// The version grammar: the string is split on `'.'` into segments and each
/// segment becomes one part. The parse fails — and yields no version at all —
/// when the string is empty, a segment is empty (leading, trailing or doubled
/// delimiters), a segment holds a character outside the accepted alphabet, or
/// a numeric segment overflows the numeric range.
pub open spec fn spec_parse(s: Seq<char>) -> Option<Seq<PartView>> {
    spec_parse_rec(s, Seq::empty(), Seq::empty())
}

/// The part a version has at position `i`, absence past its end as `None`.
pub open spec fn part_at(v: Seq<PartView>, i: int) -> Option<PartView> {
    if 0 <= i < v.len() {
        Option::Some(v[i])
    } else {
        Option::None
    }
}

/// Part-wise comparison of two versions from position `i` on: the first
/// position whose parts (or part against absence) differ decides; when every
/// position to the longer end compares equal, the versions are equal.
pub open spec fn spec_cmp_from(a: Seq<PartView>, b: Seq<PartView>, i: int) -> CompOp
    decreases a.len() + b.len() - i,
{
    if i < a.len() || i < b.len() {
        let r = spec_opt_part_cmp(part_at(a, i), part_at(b, i));
        if r == CompOp::Eq {
            spec_cmp_from(a, b, i + 1)
        } else {
            r
        }
    } else {
        CompOp::Eq
    }
}

/// The three-way ordering of two versions: part-wise from the first position.
pub open spec fn spec_version_cmp(a: Seq<PartView>, b: Seq<PartView>) -> CompOp {
    spec_cmp_from(a, b, 0)
}

/// A parsed version: the ordered parts, and the original string, which is
/// kept for display only and never reparsed.
pub struct Version {
    pub parts: Vec<Part>,
    pub source: String,
}

impl View for Version {
    type V = Seq<PartView>;

    open spec fn view(&self) -> Seq<PartView> {
        parts_view(self.parts@)
    }
}

/// Turn one closed segment into a part: all-digit segments become numbers
/// (an overflow of the numeric range is a parse failure, never a silent
/// wrap), any other segment over the accepted alphabet becomes text.
fn parse_segment(seg: Vec<char>) -> (r: Option<Part>)
    ensures
        match r {
            Option::Some(p) => spec_segment_part(seg@) == Option::Some(p@),
            Option::None => spec_segment_part(seg@) is None,
        },
{
    if seg.len() == 0 {
        return Option::None;
    }
    let mut i: usize = 0;
    let mut digits = true;
    while i < seg.len()
        invariant
            i <= seg.len(),
            digits == (forall|k: int| 0 <= k < i ==> spec_is_digit(seg@[k])),
            forall|k: int| 0 <= k < i ==> spec_is_valid_char(seg@[k]),
        decreases seg.len() - i,
    {
        let c = seg[i];
        let is_d = '0' <= c && c <= '9';
        let is_v = is_d || ('a' <= c && c <= 'z') || ('A' <= c && c <= 'Z') || c == '-' || c == '_'
            || c == '+';
        if !is_v {
            return Option::None;
        }
        if !is_d {
            digits = false;
        }
        i = i + 1;
    }
    if digits {
        let mut val: u64 = 0;
        let mut j: usize = 0;
        while j < seg.len()
            invariant
                all_digits(seg@),
                j <= seg.len(),
                val as int == digits_value(seg@.take(j as int)),
            decreases seg.len() - j,
        {
            let d = ((seg[j] as u32) - 48) as u64;
            proof {
                assert(seg@.take(j as int + 1).drop_last() =~= seg@.take(j as int));
                assert(seg@.take(j as int + 1).last() == seg@[j as int]);
            }
            let next = match val.checked_mul(10) {
                Option::Some(v10) => v10.checked_add(d),
                Option::None => Option::None,
            };
            match next {
                Option::Some(v) => {
                    val = v;
                },
                Option::None => {
                    proof {
                        crate::version_part::lemma_digits_value_prefix(seg@, j as int + 1);
                    }
                    return Option::None;
                },
            }
            j = j + 1;
        }
        proof {
            assert(seg@.take(seg@.len() as int) =~= seg@);
        }
        Option::Some(Part::Numeric(val))
    } else {
        Option::Some(Part::Text(seg))
    }
}

impl Version {
    /// Parse a raw version string. Returns the parsed version exactly when
    /// the string fits the version grammar, and nothing otherwise; a parsed
    /// version always has at least one part.
    pub fn from(s: &str) -> (r: Option<Version>)
        ensures
            match r {
                Option::Some(v) => spec_parse(s@) == Option::Some(v@) && v@.len() >= 1
                    && v.source@ == s@,
                Option::None => spec_parse(s@) is None,
            },
    {
        let n = s.unicode_len();
        let mut parts: Vec<Part> = Vec::new();
        let mut seg: Vec<char> = Vec::new();
        let mut i: usize = 0;
        proof {
            assert(s@.skip(0) =~= s@);
            assert(seg@ =~= Seq::<char>::empty());
            assert(parts_view(parts@) =~= Seq::<PartView>::empty());
        }
        while i < n
            invariant
                n == s@.len(),
                i <= n,
                spec_parse(s@) == spec_parse_rec(s@.skip(i as int), seg@, parts_view(parts@)),
            decreases n - i,
        {
            let c = s.get_char(i);
            proof {
                assert(s@.skip(i as int)[0] == s@[i as int]);
                assert(s@.skip(i as int).skip(1) =~= s@.skip(i as int + 1));
            }
            if c == '.' {
                let closed = seg;
                seg = Vec::new();
                match parse_segment(closed) {
                    Option::Some(p) => {
                        proof {
                            assert(parts_view(parts@.push(p)) =~= parts_view(parts@).push(p@));
                            assert(seg@ =~= Seq::<char>::empty());
                        }
                        parts.push(p);
                    },
                    Option::None => {
                        return Option::None;
                    },
                }
            } else {
                seg.push(c);
            }
            i = i + 1;
        }
        proof {
            assert(s@.skip(n as int) =~= Seq::<char>::empty());
        }
        match parse_segment(seg) {
            Option::Some(p) => {
                proof {
                    assert(parts_view(parts@.push(p)) =~= parts_view(parts@).push(p@));
                }
                parts.push(p);
                Option::Some(Version { parts, source: s.to_owned() })
            },
            Option::None => Option::None,
        }
    }

    /// Compare this version to another, part by part: the result is the
    /// three-way ordering of the two versions.
    pub fn compare(&self, other: &Version) -> (r: CompOp)
        ensures
            r == spec_version_cmp(self@, other@),
            is_ordering(r),
    {
        let mut i: usize = 0;
        loop
            invariant
                spec_version_cmp(self@, other@) == spec_cmp_from(self@, other@, i as int),
                self@.len() == self.parts@.len(),
                other@.len() == other.parts@.len(),
                i <= self.parts.len() || i <= other.parts.len(),
            decreases self.parts@.len() + other.parts@.len() - i,
        {
            let a_present = i < self.parts.len();
            let b_present = i < other.parts.len();
            if a_present && b_present {
                let r = self.parts[i].cmp_part(&other.parts[i]);
                match r {
                    CompOp::Eq => {},
                    _ => {
                        return r;
                    },
                }
            } else if a_present {
                let r = self.parts[i].cmp_absent();
                match r {
                    CompOp::Eq => {},
                    _ => {
                        return r;
                    },
                }
            } else if b_present {
                // Absence stands on the left here, so the outcome flips.
                let r = other.parts[i].cmp_absent();
                match r {
                    CompOp::Eq => {},
                    CompOp::Gt => {
                        return CompOp::Lt;
                    },
                    _ => {
                        return CompOp::Gt;
                    },
                }
            } else {
                return CompOp::Eq;
            }
            i = i + 1;
        }
    }

    /// Compare this version to another and tell whether the given operator
    /// accepts the outcome.
    pub fn compare_to(&self, other: &Version, operator: &CompOp) -> (r: bool)
        ensures
            r == spec_evaluate(spec_version_cmp(self@, other@), *operator),
    {
        let ord = self.compare(other);
        evaluate(ord, operator)
    }
}

} // verus!
