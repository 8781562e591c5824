//! Comparison of dotted version-number strings.
//!
//! A version string such as `"1.2.3"`, `"1.0-alpha"` or `"v2.1"` is split on
//! `'.'` into parts, each part either a non-negative number or an opaque text
//! token, and two versions are ordered part by part. Versions of different
//! lengths are compared by treating the missing positions as absent: a
//! trailing zero-numeric part equals absence (so `"1.0"` equals `"1"`), while
//! a trailing text part exceeds it (so `"1.0a"` exceeds `"1.0"`).

use vstd::prelude::*;

pub mod comp_op;
pub mod laws;
pub mod version;
pub mod version_part;

use crate::comp_op::CompOp;
use crate::comp_op::is_ordering;
use crate::comp_op::spec_evaluate;
use crate::version::Version;
use crate::version::spec_parse;
use crate::version::spec_version_cmp;

verus! {

/// The façade: the two entry points that take raw version strings.
pub struct VersionCompare {}

impl VersionCompare {
    /// Compare two version number strings: the result is `Eq`, `Lt` or `Gt`,
    /// and an error exactly when either string fails to parse.
    pub fn compare(a: &str, b: &str) -> (r: Result<CompOp, ()>)
        ensures
            match r {
                Result::Ok(ord) => spec_parse(a@) matches Some(pa) && spec_parse(b@) matches Some(
                    pb,
                ) && ord == spec_version_cmp(pa, pb) && is_ordering(ord),
                Result::Err(_) => spec_parse(a@) is None || spec_parse(b@) is None,
            },
    {
        let a_ver = Version::from(a);
        let b_ver = Version::from(b);
        match (a_ver, b_ver) {
            (Option::Some(av), Option::Some(bv)) => Result::Ok(av.compare(&bv)),
            _ => Result::Err(()),
        }
    }

    /// Compare two version number strings and tell whether the given operator
    /// accepts their ordering; an error exactly when either string fails to
    /// parse.
    pub fn compare_to(a: &str, b: &str, operator: &CompOp) -> (r: Result<bool, ()>)
        ensures
            match r {
                Result::Ok(t) => spec_parse(a@) matches Some(pa) && spec_parse(b@) matches Some(
                    pb,
                ) && t == spec_evaluate(spec_version_cmp(pa, pb), *operator),
                Result::Err(_) => spec_parse(a@) is None || spec_parse(b@) is None,
            },
    {
        let a_ver = Version::from(a);
        let b_ver = Version::from(b);
        match (a_ver, b_ver) {
            (Option::Some(av), Option::Some(bv)) => Result::Ok(av.compare_to(&bv, operator)),
            _ => Result::Err(()),
        }
    }
}

} // verus!
