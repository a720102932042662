//! The orchestrator: runs every generator over one context in a fixed
//! order — the native-bridge emitter first, so downstream targets can
//! assume its output exists — and returns the concatenated artifact list.
//! Either every artifact of a run is produced, or none is.

use vstd::prelude::*;
use vstd::string::StringExecFns;

use crate::context::CodegenContext;
use crate::errors::CodegenError;
use crate::gen_android::{spec_android_artifacts, AndroidGenerator};
use crate::gen_cxx::{spec_cxx_artifacts, spec_ctx_ok, CxxGenerator};
use crate::gen_ios::{spec_module_provider, spec_module_provider_path, IosGenerator};
use crate::gen_rs::{spec_rs_artifacts, spec_rs_ctx_ok, RsGenerator};
use crate::gen_types::{artifact_views, ArtifactView, TemplateResult};
use crate::paths::spec_has_suffix;

verus! {

/// Options of the codegen command.
pub struct CodegenOptions {
    pub project_root: String,
    pub overwrite: bool,
}

/// Whether a whole context can be generated: every schema's methods
/// resolve, and no schema hoists alias or enum declarations.
pub open spec fn spec_generation_ok(ctx: CodegenContext) -> bool {
    spec_ctx_ok(ctx) && spec_rs_ctx_ok(ctx.schemas@)
}

/// Every artifact of one generation pass, in emission order: the C++
/// bridge, the Android target, the iOS target, then the host bindings.
pub open spec fn spec_all_artifacts(ctx: CodegenContext) -> Seq<ArtifactView> {
    spec_cxx_artifacts(ctx) + spec_android_artifacts(ctx) + seq![
        ArtifactView {
            path: spec_module_provider_path(ctx),
            content: spec_module_provider(ctx),
            overwrite: true,
        },
    ] + spec_rs_artifacts(ctx)
}

/// Run every generator over `ctx` and collect the artifacts. No file is
/// handed out unless the whole run succeeded.
pub fn generate_all(ctx: &CodegenContext) -> (r: Result<Vec<TemplateResult>, CodegenError>)
    ensures
        r is Ok <==> spec_generation_ok(*ctx),
        r matches Ok(v) ==> artifact_views(v@) == spec_all_artifacts(*ctx),
        r matches Err(e) ==> exists|j: int|
            0 <= j < ctx.schemas@.len() && e.module@ == (#[trigger] ctx.schemas@[j]).module_name@,
{
    let cxx = CxxGenerator::new();
    let android = AndroidGenerator::new();
    let ios = IosGenerator::new();
    let rs = RsGenerator::new();

    let mut results = match cxx.generate_artifacts(ctx) {
        Ok(v) => v,
        Err(e) => {
            proof {
                let j = choose|j: int|
                    0 <= j < ctx.schemas@.len() && !crate::gen_cxx::spec_cxx_schema_ok(
                        #[trigger] ctx.schemas@[j],
                    ) && crate::gen_cxx::spec_cxx_module_error(e, ctx.schemas@[j]);
                assert(e.module@ == ctx.schemas@[j].module_name@);
            }
            return Err(e);
        },
    };
    let mut android_results = android.generate_artifacts(ctx);
    let mut ios_results = ios.generate_artifacts(ctx);
    let mut rs_results = match rs.generate_artifacts(ctx) {
        Ok(v) => v,
        Err(e) => {
            proof {
                let j = choose|j: int|
                    0 <= j < ctx.schemas@.len() && !crate::gen_rs::spec_rs_schema_ok(
                        #[trigger] ctx.schemas@[j],
                    ) && crate::gen_rs::spec_rs_module_error(e, ctx.schemas@[j]);
                assert(e.module@ == ctx.schemas@[j].module_name@);
            }
            return Err(e);
        },
    };
    let ghost a_cxx = results@;
    let ghost a_android = android_results@;
    let ghost a_ios = ios_results@;
    let ghost a_rs = rs_results@;
    results.append(&mut android_results);
    results.append(&mut ios_results);
    results.append(&mut rs_results);
    proof {
        lemma_artifact_views_concat(a_cxx, a_android);
        lemma_artifact_views_concat(a_cxx + a_android, a_ios);
        lemma_artifact_views_concat(a_cxx + a_android + a_ios, a_rs);
        assert(results@ == ((a_cxx + a_android) + a_ios) + a_rs);
        assert(artifact_views(results@) =~= spec_all_artifacts(*ctx));
    }
    Ok(results)
}

pub proof fn lemma_artifact_views_concat(a: Seq<TemplateResult>, b: Seq<TemplateResult>)
    ensures
        artifact_views(a + b) == artifact_views(a) + artifact_views(b),
{
    assert(artifact_views(a + b) =~= artifact_views(a) + artifact_views(b));
}

/// Determinism: the artifacts of a run are a function of the context
/// alone, so two runs over the same context yield the same artifact set
/// — same paths, same content, same overwrite flags.
pub proof fn lemma_generation_deterministic(
    ctx: CodegenContext,
    r1: Seq<TemplateResult>,
    r2: Seq<TemplateResult>,
)
    requires
        artifact_views(r1) == spec_all_artifacts(ctx),
        artifact_views(r2) == spec_all_artifacts(ctx),
    ensures
        artifact_views(r1) == artifact_views(r2),
        r1.len() == r2.len(),
        forall|i: int|
            0 <= i < r1.len() ==> (#[trigger] r1[i]@).path == r2[i]@.path && r1[i]@.content
                == r2[i]@.content && r1[i]@.overwrite == r2[i]@.overwrite,
{
    assert(artifact_views(r1).len() == r1.len());
    assert(artifact_views(r2).len() == r2.len());
    assert forall|i: int| 0 <= i < r1.len() implies (#[trigger] r1[i]@).path == r2[i]@.path
        && r1[i]@.content == r2[i]@.content && r1[i]@.overwrite == r2[i]@.overwrite by {
        assert(artifact_views(r1)[i] == r1[i]@);
        assert(artifact_views(r2)[i] == r2[i]@);
    }
}

/// The marker every fully regenerated file carries.
pub fn generated_comment() -> (r: String)
    ensures
        r@ == "This file was generated by Craby. Do not edit manually"@,
{
    "This file was generated by Craby. Do not edit manually".to_owned()
}

/// The text written for a regenerated artifact: the marker in the
/// target's comment syntax when the destination has a known one, the
/// bare content otherwise. Source files take a line comment, CMake
/// files a hash comment.
pub open spec fn spec_with_generated_comment(path: Seq<char>, code: Seq<char>) -> Seq<char> {
    if spec_has_suffix(path, ".rs"@) || spec_has_suffix(path, ".cpp"@) || spec_has_suffix(
        path,
        ".hpp"@,
    ) || spec_has_suffix(path, ".mm"@) {
        "// "@ + "This file was generated by Craby. Do not edit manually"@ + "\n"@ + code + "\n"@
    } else if spec_has_suffix(path, ".txt"@) {
        "# "@ + "This file was generated by Craby. Do not edit manually"@ + "\n"@ + code + "\n"@
    } else {
        code + "\n"@
    }
}

/// Annotate a regenerated artifact with the generated-file marker.
pub fn with_generated_comment(path: &str, code: &str) -> (r: String)
    ensures
        r@ == spec_with_generated_comment(path@, code@),
{
    let line = crate::paths::has_suffix(path, ".rs") || crate::paths::has_suffix(path, ".cpp")
        || crate::paths::has_suffix(path, ".hpp") || crate::paths::has_suffix(path, ".mm");
    if line {
        let mut out = "// ".to_owned();
        let marker = generated_comment();
        out.append(marker.as_str());
        out.append("\n");
        out.append(code);
        out.append("\n");
        out
    } else if crate::paths::has_suffix(path, ".txt") {
        let mut out = "# ".to_owned();
        let marker = generated_comment();
        out.append(marker.as_str());
        out.append("\n");
        out.append(code);
        out.append("\n");
        out
    } else {
        without_generated_comment(code)
    }
}

/// The text written for a one-time scaffold: the bare content, closed by
/// a newline, with no marker — the file belongs to the developer.
pub fn without_generated_comment(code: &str) -> (r: String)
    ensures
        r@ == code@ + "\n"@,
{
    let mut out = code.to_owned();
    out.append("\n");
    out
}

} // verus!
