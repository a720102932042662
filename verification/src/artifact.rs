//! Build-artifact bookkeeping: which collected files are C++ bridge
//! sources or headers, where each artifact category lives, and how a
//! library is renamed when packaged. The directory walking and copying
//! stay outside the library.

use vstd::prelude::*;
use vstd::string::StringExecFns;

use crate::paths::{has_suffix, spec_has_suffix};
use crate::text::push_char;

verus! {

/// The collected build artifacts of one target: C++ bridge sources,
/// headers, and the built static libraries.
pub struct Artifacts {
    pub identifier: String,
    pub srcs: Vec<String>,
    pub headers: Vec<String>,
    pub libs: Vec<String>,
}

/// One artifact category.
#[derive(PartialEq, Eq, Structural)]
pub enum ArtifactType {
    Src,
    Header,
    Lib,
}

impl Artifacts {
    /// The collected paths of one category.
    pub fn path_of(&self, artifact_type: ArtifactType) -> (r: &Vec<String>)
        ensures
            artifact_type is Src ==> r@ == self.srcs@,
            artifact_type is Header ==> r@ == self.headers@,
            artifact_type is Lib ==> r@ == self.libs@,
    {
        match artifact_type {
            ArtifactType::Src => &self.srcs,
            ArtifactType::Header => &self.headers,
            ArtifactType::Lib => &self.libs,
        }
    }
}

/// Whether a collected file is a C++ bridge source.
pub fn is_cxx_src_name(name: &str) -> (r: bool)
    ensures
        r == (spec_has_suffix(name@, ".c"@) || spec_has_suffix(name@, ".cc"@)),
{
    let a = has_suffix(name, ".c");
    let b = has_suffix(name, ".cc");
    a || b
}

/// Whether a collected file is a C++ bridge header.
pub fn is_cxx_header_name(name: &str) -> (r: bool)
    ensures
        r == (spec_has_suffix(name@, ".h"@) || spec_has_suffix(name@, ".hh"@)),
{
    let a = has_suffix(name, ".h");
    let b = has_suffix(name, ".hh");
    a || b
}

/// The packaged name of a built library: a `-prebuilt` mark before its
/// extension.
pub fn prebuilt_lib_name(name: &str, ext: &str) -> (r: Option<String>)
    ensures
        r is Some <==> spec_has_suffix(name@, "."@ + ext@),
        r matches Some(s) ==> s@ == name@.subrange(
            0,
            name@.len() - ext@.len() - 1,
        ) + "-prebuilt."@ + ext@,
{
    let mut dotted = ".".to_owned();
    dotted.append(ext);
    if !has_suffix(name, dotted.as_str()) {
        proof {
            assert(dotted@ == "."@ + ext@);
        }
        return None;
    }
    let n: usize = vstd::string::StrSliceExecFns::unicode_len(name);
    let m: usize = vstd::string::StrSliceExecFns::unicode_len(dotted.as_str());
    proof {
        reveal_strlit(".");
        assert(dotted@.len() == 1 + ext@.len());
    }
    let stem_len: usize = n - m;
    let mut out = String::new();
    let mut i: usize = 0;
    while i < stem_len
        invariant
            i <= stem_len,
            stem_len <= n,
            n == name@.len(),
            out@ == name@.subrange(0, i as int),
        decreases stem_len - i,
    {
        let c = vstd::string::StrSliceExecFns::get_char(name, i);
        push_char(&mut out, c);
        i = i + 1;
        proof {
            assert(name@.subrange(0, i as int) =~= name@.subrange(0, i - 1 as int).push(
                name@[i - 1],
            ));
        }
    }
    out.append("-prebuilt.");
    out.append(ext);
    proof {
        assert(dotted@ == "."@ + ext@);
        assert(stem_len == name@.len() - ext@.len() - 1);
    }
    Some(out)
}

} // verus!
