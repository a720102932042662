//! Build-time path helpers and the pure decision rules behind the
//! file-system checks: which file names count as headers or podspecs, and
//! what a configured gradle or podspec file must contain. The directory
//! walking itself stays outside the library.

use vstd::prelude::*;
use vstd::string::StringExecFns;

use crate::constants::{spec_path_join, path_join};
use crate::env::Platform;
use crate::text::{contains_str, spec_contains};

verus! {

/// The built library's file name on one platform.
pub fn to_lib_name(name: &String, platform: Platform) -> (r: String)
    ensures
        platform is Android ==> r@ == "lib"@ + name@ + ".so"@,
        platform is Ios ==> r@ == "lib"@ + name@ + ".a"@,
{
    let mut out = "lib".to_owned();
    out.append(name.as_str());
    match platform {
        Platform::Android => out.append(".so"),
        Platform::Ios => out.append(".a"),
    }
    out
}

/// The generator's scratch directory under the project root.
pub fn tmp_dir(project_root: &str) -> (r: String)
    ensures
        r@ == spec_path_join(project_root@, ".craby"@),
{
    path_join(project_root, ".craby")
}

/// One crate's directory under the project's `crates` workspace.
pub fn crate_dir(project_root: &str, crate_name: &str) -> (r: String)
    ensures
        r@ == spec_path_join(spec_path_join(project_root@, "crates"@), crate_name@),
{
    let p = path_join(project_root, "crates");
    path_join(p.as_str(), crate_name)
}

/// One crate's manifest path under the project's `crates` workspace.
pub fn crate_manifest_path(project_root: &str, crate_name: &str) -> (r: String)
    ensures
        r@ == spec_path_join(
            spec_path_join(spec_path_join(project_root@, "crates"@), crate_name@),
            "Cargo.toml"@,
        ),
{
    let p = crate_dir(project_root, crate_name);
    path_join(p.as_str(), "Cargo.toml")
}

/// The release directory of one build target under the project root.
pub fn crate_target_dir(project_root: &str, target: &str) -> (r: String)
    ensures
        r@ == spec_path_join(
            spec_path_join(spec_path_join(project_root@, "target"@), target@),
            "release"@,
        ),
{
    let p = path_join(project_root, "target");
    let p2 = path_join(p.as_str(), target);
    path_join(p2.as_str(), "release")
}

/// The Android subproject's gradle build file.
pub fn android_build_gradle_path(project_root: &str) -> (r: String)
    ensures
        r@ == spec_path_join(
            spec_path_join(project_root@, "android"@),
            "build.gradle"@,
        ),
{
    let p = path_join(project_root, "android");
    path_join(p.as_str(), "build.gradle")
}

/// The Android packaged native libraries directory.
pub fn android_jni_libs_dir(project_root: &str) -> (r: String)
    ensures
        r@ == spec_path_join(
            spec_path_join(
                spec_path_join(spec_path_join(project_root@, "android"@), "src"@),
                "main"@,
            ),
            "jniLibs"@,
        ),
{
    let p = path_join(project_root, "android");
    let p2 = path_join(p.as_str(), "src");
    let p3 = path_join(p2.as_str(), "main");
    path_join(p3.as_str(), "jniLibs")
}

/// The packaged xcframework path for one library.
pub fn ios_framework_path(project_root: &str, lib_name: &str) -> (r: String)
    ensures
        r@ == spec_path_join(
            spec_path_join(project_root@, "ios"@),
            "framework/lib"@ + lib_name@ + ".xcframework"@,
        ),
{
    let p = path_join(project_root, "ios");
    let mut leaf = "framework/lib".to_owned();
    leaf.append(lib_name);
    leaf.append(".xcframework");
    path_join(p.as_str(), leaf.as_str())
}

/// Where the binding headers are collected.
pub fn binding_header_dir(project_root: &str) -> (r: String)
    ensures
        r@ == spec_path_join(spec_path_join(project_root@, ".craby"@), "include"@),
{
    let p = tmp_dir(project_root);
    path_join(p.as_str(), "include")
}

/// Whether `s` ends with `suffix`.
pub open spec fn spec_has_suffix(s: Seq<char>, suffix: Seq<char>) -> bool {
    s.len() >= suffix.len() && s.subrange(s.len() - suffix.len(), s.len() as int) == suffix
}

/// Whether a string ends with a given suffix.
pub fn has_suffix(s: &str, suffix: &str) -> (r: bool)
    ensures
        r == spec_has_suffix(s@, suffix@),
{
    let n: usize = vstd::string::StrSliceExecFns::unicode_len(s);
    let m: usize = vstd::string::StrSliceExecFns::unicode_len(suffix);
    if m > n {
        return false;
    }
    let mut j: usize = 0;
    while j < m
        invariant
            j <= m,
            m <= n,
            n == s@.len(),
            m == suffix@.len(),
            forall|k: int| 0 <= k < j ==> s@[n - m + k] == suffix@[k],
        decreases m - j,
    {
        if vstd::string::StrSliceExecFns::get_char(s, n - m + j)
            != vstd::string::StrSliceExecFns::get_char(suffix, j) {
            proof {
                assert(s@.subrange(s@.len() - suffix@.len(), s@.len() as int)[j as int] == s@[n - m
                    + j]);
            }
            return false;
        }
        j = j + 1;
    }
    proof {
        assert(s@.subrange(s@.len() - suffix@.len(), s@.len() as int) =~= suffix@);
    }
    true
}

/// Whether a directory entry is a collected binding header.
pub fn is_header_file_name(name: &str) -> (r: bool)
    ensures
        r == spec_has_suffix(name@, ".h"@),
{
    has_suffix(name, ".h")
}

/// Whether a directory entry is a CocoaPods spec file.
pub fn is_podspec_name(name: &str) -> (r: bool)
    ensures
        r == spec_has_suffix(name@, ".podspec"@),
{
    has_suffix(name, ".podspec")
}

/// What a configured Android gradle build file must contain: the
/// packaged-library source-set wiring.
pub open spec fn spec_gradle_configured(content: Seq<char>) -> bool {
    spec_contains(content, "jniLibs.srcDirs"@) && spec_contains(content, "src/main/jniLibs"@)
}

/// Decide whether a gradle build file's content is configured for the
/// generated native libraries.
pub fn is_gradle_content_configured(content: &str) -> (r: bool)
    ensures
        r == spec_gradle_configured(content@),
{
    let a = contains_str(content, "jniLibs.srcDirs");
    let b = contains_str(content, "src/main/jniLibs");
    a && b
}

/// What a configured podspec must contain: a vendored-frameworks clause.
/// The reference to the packaged xcframework itself is checked against
/// the project's real library name by the caller.
pub open spec fn spec_podspec_configured(content: Seq<char>, lib_name: Seq<char>) -> bool {
    spec_contains(content, ".vendored_frameworks"@) && spec_contains(
        content,
        "ios/framework/lib"@ + lib_name + ".xcframework"@,
    )
}

/// Decide whether a podspec's content is configured for the project's
/// packaged xcframework.
pub fn is_podspec_content_configured(content: &str, lib_name: &str) -> (r: bool)
    ensures
        r == spec_podspec_configured(content@, lib_name@),
{
    let a = contains_str(content, ".vendored_frameworks");
    let mut needle = "ios/framework/lib".to_owned();
    needle.append(lib_name);
    needle.append(".xcframework");
    let b = contains_str(content, needle.as_str());
    a && b
}

} // verus!
