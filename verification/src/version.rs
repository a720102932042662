//! Release-version checks: whether a commit message names a version of
//! the form `major.minor.patch`, and the workspace package records the
//! publishing flow works over.

use vstd::prelude::*;
use vstd::string::StrSliceExecFns;
use vstd::string::StringExecFns;

use crate::text::{is_ascii_digit, trim_of, trimmed};

verus! {

/// One workspace package: where it lives and what it is called.
pub struct PackageInfo {
    pub location: String,
    pub name: String,
}

/// The witness of a leading `digits.digits.digits` shape: the positions
/// of the two dots.
pub open spec fn valid_version_witness(s: Seq<char>, i: int, j: int) -> bool {
    &&& 1 <= i
    &&& i + 2 <= j
    &&& j + 2 <= s.len()
    &&& s[i] == '.'
    &&& s[j] == '.'
    &&& forall|k: int| 0 <= k < i ==> is_ascii_digit(#[trigger] s[k])
    &&& forall|k: int| i < k < j ==> is_ascii_digit(#[trigger] s[k])
    &&& is_ascii_digit(s[j + 1])
}

/// Whether a string starts with a `major.minor.patch` version.
pub open spec fn spec_valid_version(s: Seq<char>) -> bool {
    exists|i: int, j: int| #[trigger] valid_version_witness(s, i, j)
}

/// The first non-digit position at or after `from`.
fn scan_digits(s: &str, n: usize, from: usize) -> (idx: usize)
    requires
        n == s@.len(),
        from <= n,
    ensures
        from <= idx <= n,
        forall|k: int| from <= k < idx ==> is_ascii_digit(#[trigger] s@[k]),
        idx < n ==> !is_ascii_digit(s@[idx as int]),
{
    let mut i: usize = from;
    while i < n
        invariant
            from <= i <= n,
            n == s@.len(),
            forall|k: int| from <= k < i ==> is_ascii_digit(#[trigger] s@[k]),
        decreases n - i,
    {
        let c = s.get_char(i);
        if !('0' <= c && c <= '9') {
            return i;
        }
        i = i + 1;
    }
    n
}

/// Decide whether a string starts with a `major.minor.patch` version.
pub fn is_valid_version(version: &str) -> (r: bool)
    ensures
        r == spec_valid_version(version@),
{
    let n: usize = version.unicode_len();
    let i0 = scan_digits(version, n, 0);
    if i0 == 0 || i0 >= n || version.get_char(i0) != '.' {
        proof {
            assert forall|i: int, j: int| !(#[trigger] valid_version_witness(
                version@,
                i,
                j,
            )) by {
                if valid_version_witness(version@, i, j) {
                    if i < i0 {
                        assert(is_ascii_digit(version@[i]));
                        assert(version@[i] == '.');
                        assert(false);
                    } else if i > i0 {
                        assert(i0 < version@.len());
                        assert(is_ascii_digit(version@[i0 as int]));
                        assert(false);
                    } else {
                        assert(i0 >= 1 && i0 < version@.len() && version@[i0 as int] == '.');
                        assert(false);
                    }
                }
            }
        }
        return false;
    }
    let j0 = scan_digits(version, n, i0 + 1);
    if j0 == i0 + 1 || j0 >= n || version.get_char(j0) != '.' {
        proof {
            assert forall|i: int, j: int| !(#[trigger] valid_version_witness(
                version@,
                i,
                j,
            )) by {
                if valid_version_witness(version@, i, j) {
                    if i < i0 {
                        assert(is_ascii_digit(version@[i]));
                        assert(false);
                    } else if i > i0 {
                        assert(is_ascii_digit(version@[i0 as int]));
                        assert(false);
                    } else {
                        if j < j0 {
                            assert(is_ascii_digit(version@[j]));
                            assert(false);
                        } else if j > j0 {
                            assert((i0 as int) < (j0 as int) && (j0 as int) < j);
                            assert(is_ascii_digit(version@[j0 as int]));
                            assert(false);
                        } else {
                            assert(j0 as int >= i0 + 2 && j0 < version@.len()
                                && version@[j0 as int] == '.');
                            assert(false);
                        }
                    }
                }
            }
        }
        return false;
    }
    if j0 + 1 >= n {
        proof {
            assert forall|i: int, j: int| !(#[trigger] valid_version_witness(
                version@,
                i,
                j,
            )) by {
                if valid_version_witness(version@, i, j) {
                    if i < i0 {
                        assert(is_ascii_digit(version@[i]));
                        assert(false);
                    } else if i > i0 {
                        assert(is_ascii_digit(version@[i0 as int]));
                        assert(false);
                    } else if j < j0 {
                        assert(is_ascii_digit(version@[j]));
                        assert(false);
                    } else if j > j0 {
                        assert(is_ascii_digit(version@[j0 as int]));
                        assert(false);
                    } else {
                        assert(j + 2 <= version@.len());
                        assert(false);
                    }
                }
            }
        }
        return false;
    }
    let c = version.get_char(j0 + 1);
    if '0' <= c && c <= '9' {
        proof {
            assert(valid_version_witness(version@, i0 as int, j0 as int));
        }
        true
    } else {
        proof {
            assert forall|i: int, j: int| !(#[trigger] valid_version_witness(
                version@,
                i,
                j,
            )) by {
                if valid_version_witness(version@, i, j) {
                    if i < i0 {
                        assert(is_ascii_digit(version@[i]));
                        assert(false);
                    } else if i > i0 {
                        assert(is_ascii_digit(version@[i0 as int]));
                        assert(false);
                    } else if j < j0 {
                        assert(is_ascii_digit(version@[j]));
                        assert(false);
                    } else if j > j0 {
                        assert(is_ascii_digit(version@[j0 as int]));
                        assert(false);
                    } else {
                        assert(is_ascii_digit(version@[j0 + 1]));
                        assert(false);
                    }
                }
            }
        }
        false
    }
}

/// The version named by a commit message: its trimmed first line must
/// start with a `major.minor.patch` version, else there is no release.
pub fn get_version_from_message(message: &str) -> (r: Option<String>)
    ensures
        r is Some <==> spec_valid_version(trim_of(message@)),
        r matches Some(v) ==> v@ == trim_of(message@),
{
    let t = trimmed(message);
    if is_valid_version(t.as_str()) {
        Some(t)
    } else {
        None
    }
}

} // verus!
