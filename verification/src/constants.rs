//! Project-layout constants: where generated artifacts live relative to
//! the project root. Paths are plain `/`-joined strings, so every
//! emitter's destination derives from the same functions.

use vstd::prelude::*;
use vstd::string::StringExecFns;

use crate::text::{flat_case, flat_of, push_char, snake_case, snake_of, SanitizedString};

verus! {

/// The marker prefix of the content-hash comment in generated files.
pub fn hash_comment_prefix() -> (r: String)
    ensures
        r@ == "// Hash:"@,
{
    "// Hash:".to_owned()
}

/// The filename prefix of module specification source files.
pub fn spec_file_prefix() -> (r: String)
    ensures
        r@ == "Native"@,
{
    "Native".to_owned()
}

/// `a` and `b` joined with a path separator.
pub open spec fn spec_path_join(a: Seq<char>, b: Seq<char>) -> Seq<char> {
    a + "/"@ + b
}

/// Join one more component onto a path.
pub fn path_join(base: &str, component: &str) -> (r: String)
    ensures
        r@ == spec_path_join(base@, component@),
{
    let mut out = base.to_owned();
    out.append("/");
    out.append(component);
    out
}

/// The Rust toolchain targets the generated project builds for.
pub fn toolchain_targets() -> (r: Vec<String>)
    ensures
        crate::text::views_of(r@) =~= seq![
            "aarch64-linux-android"@,
            "armv7-linux-androideabi"@,
            "x86_64-linux-android"@,
            "i686-linux-android"@,
            "aarch64-apple-ios"@,
            "aarch64-apple-ios-sim"@,
            "x86_64-apple-ios"@,
        ],
{
    let mut v: Vec<String> = Vec::new();
    v.push("aarch64-linux-android".to_owned());
    v.push("armv7-linux-androideabi".to_owned());
    v.push("x86_64-linux-android".to_owned());
    v.push("i686-linux-android".to_owned());
    v.push("aarch64-apple-ios".to_owned());
    v.push("aarch64-apple-ios-sim".to_owned());
    v.push("x86_64-apple-ios".to_owned());
    v
}

/// The Android ABI names, in the order matching the Android targets of
/// `toolchain_targets`.
pub fn android_abi_targets() -> (r: Vec<String>)
    ensures
        crate::text::views_of(r@) =~= seq![
            "arm64-v8a"@,
            "armeabi-v7a"@,
            "x86_64"@,
            "x86"@,
        ],
{
    let mut v: Vec<String> = Vec::new();
    v.push("arm64-v8a".to_owned());
    v.push("armeabi-v7a".to_owned());
    v.push("x86_64".to_owned());
    v.push("x86".to_owned());
    v
}

/// The base name of the built library: the sanitized project name,
/// flattened.
pub fn lib_base_name(name: &SanitizedString) -> (r: String)
    ensures
        r@ == flat_of(name.0@),
{
    flat_case(name.0.as_str())
}

/// The destination name of the built library, e.g. `libsomelibrary-prebuilt.a`.
pub fn dest_lib_name(name: &SanitizedString) -> (r: String)
    ensures
        r@ == "lib"@ + flat_of(name.0@) + "-prebuilt.a"@,
{
    let mut out = "lib".to_owned();
    let flat = flat_case(name.0.as_str());
    out.append(flat.as_str());
    out.append("-prebuilt.a");
    out
}

/// The developer's implementation module for one schema module,
/// e.g. `some_module_impl`.
pub fn impl_mod_name(name: &str) -> (r: String)
    ensures
        r@ == snake_of(name@) + "_impl"@,
{
    let mut out = snake_case(name);
    out.append("_impl");
    out
}

/// The generator's scratch directory under the project root.
pub fn craby_tmp_dir(project_root: &str) -> (r: String)
    ensures
        r@ == spec_path_join(project_root@, ".craby"@),
{
    path_join(project_root, ".craby")
}

/// The release directory of one build target.
pub fn crate_target_dir(target_dir: &str, target: &str) -> (r: String)
    ensures
        r@ == spec_path_join(spec_path_join(target_dir@, target@), "release"@),
{
    let p = path_join(target_dir, target);
    path_join(p.as_str(), "release")
}

/// The generated Rust crate's directory.
pub fn crate_dir(project_root: &str) -> (r: String)
    ensures
        r@ == spec_path_join(spec_path_join(project_root@, "crates"@), "lib"@),
{
    let p = path_join(project_root, "crates");
    path_join(p.as_str(), "lib")
}

/// The generated Rust crate's manifest path.
pub fn crate_manifest_path(project_root: &str) -> (r: String)
    ensures
        r@ == spec_path_join(
            spec_path_join(spec_path_join(project_root@, "crates"@), "lib"@),
            "Cargo.toml"@,
        ),
{
    let p = crate_dir(project_root);
    path_join(p.as_str(), "Cargo.toml")
}

/// Where the C++ bridge sources of one target land.
pub fn cxx_bridge_dir(project_root: &str, target: &str) -> (r: String)
    ensures
        r@ == spec_path_join(
            spec_path_join(spec_path_join(project_root@, "target"@), target@),
            "cxxbridge"@,
        ),
{
    let p = path_join(project_root, "target");
    let p2 = path_join(p.as_str(), target);
    path_join(p2.as_str(), "cxxbridge")
}

/// The include directory the bridge headers are collected into.
pub fn cxx_bridge_include_dir(project_root: &str) -> (r: String)
    ensures
        r@ == spec_path_join(
            spec_path_join(spec_path_join(project_root@, "crates"@), "lib"@),
            "include"@,
        ),
{
    let p = crate_dir(project_root);
    path_join(p.as_str(), "include")
}

/// The C++ sources directory of the project.
pub fn cxx_dir(project_root: &str) -> (r: String)
    ensures
        r@ == spec_path_join(project_root@, "cpp"@),
{
    path_join(project_root, "cpp")
}

/// The Android subproject directory.
pub fn android_path(project_root: &str) -> (r: String)
    ensures
        r@ == spec_path_join(project_root@, "android"@),
{
    path_join(project_root, "android")
}

/// The Android main source set directory.
pub fn android_src_main_path(project_root: &str) -> (r: String)
    ensures
        r@ == spec_path_join(
            spec_path_join(spec_path_join(project_root@, "android"@), "src"@),
            "main"@,
        ),
{
    let p = android_path(project_root);
    let p2 = path_join(p.as_str(), "src");
    path_join(p2.as_str(), "main")
}

/// The Android JNI sources directory.
pub fn jni_base_path(project_root: &str) -> (r: String)
    ensures
        r@ == spec_path_join(
            spec_path_join(
                spec_path_join(spec_path_join(project_root@, "android"@), "src"@),
                "main"@,
            ),
            "jni"@,
        ),
{
    let p = android_src_main_path(project_root);
    path_join(p.as_str(), "jni")
}

/// Every dot of a package path replaced by a path separator.
pub open spec fn spec_dots_to_slashes(s: Seq<char>) -> Seq<char> {
    s.map_values(|c: char| if c == '.' { '/' } else { c })
}

fn dots_to_slashes(value: &str) -> (r: String)
    ensures
        r@ == spec_dots_to_slashes(value@),
{
    let n: usize = vstd::string::StrSliceExecFns::unicode_len(value);
    let mut out = String::new();
    let mut i: usize = 0;
    while i < n
        invariant
            i <= n,
            n == value@.len(),
            out@ == spec_dots_to_slashes(value@.subrange(0, i as int)),
        decreases n - i,
    {
        let c = vstd::string::StrSliceExecFns::get_char(value, i);
        if c == '.' {
            push_char(&mut out, '/');
        } else {
            push_char(&mut out, c);
        }
        i = i + 1;
        assert(value@.subrange(0, i as int) =~= value@.subrange(0, i - 1 as int).push(
            value@[i - 1],
        ));
        assert(out@ =~= spec_dots_to_slashes(value@.subrange(0, i as int)));
    }
    proof {
        assert(value@.subrange(0, n as int) =~= value@);
    }
    out
}

/// The Java sources directory for one Android package: the main source
/// set's `java` directory with one nested directory per package segment.
pub fn java_base_path(project_root: &str, android_package_name: &str) -> (r: String)
    ensures
        r@ == spec_path_join(
            spec_path_join(
                spec_path_join(
                    spec_path_join(spec_path_join(project_root@, "android"@), "src"@),
                    "main"@,
                ),
                "java"@,
            ),
            spec_dots_to_slashes(android_package_name@),
        ),
{
    let p = android_src_main_path(project_root);
    let p2 = path_join(p.as_str(), "java");
    let pkg = dots_to_slashes(android_package_name);
    path_join(p2.as_str(), pkg.as_str())
}

/// The iOS subproject directory.
pub fn ios_base_path(project_root: &str) -> (r: String)
    ensures
        r@ == spec_path_join(project_root@, "ios"@),
{
    path_join(project_root, "ios")
}

} // verus!
