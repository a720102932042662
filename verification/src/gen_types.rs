//! The generator interfaces: a template renders context into files, a
//! generator places them, and an invoker erases the generator's template
//! type for the orchestrator.

use vstd::prelude::*;

use crate::context::CodegenContext;
use crate::errors::CodegenError;

verus! {

/// One generated file: where it goes, what it holds, and whether the
/// writer may replace an existing file with it.
#[derive(Debug)]
pub struct TemplateResult {
    /// Destination path, relative to the project root.
    pub path: String,
    /// Generated text.
    pub content: String,
    /// `true`: the file is fully regenerated and may clobber user edits.
    /// `false`: a one-time scaffold that must never be silently overwritten.
    pub overwrite: bool,
}


/// The mathematical shape of one artifact.
pub struct ArtifactView {
    pub path: Seq<char>,
    pub content: Seq<char>,
    pub overwrite: bool,
}

impl View for TemplateResult {
    type V = ArtifactView;

    open spec fn view(&self) -> ArtifactView {
        ArtifactView { path: self.path@, content: self.content@, overwrite: self.overwrite }
    }
}

/// The views of a sequence of artifacts.
pub open spec fn artifact_views(rs: Seq<TemplateResult>) -> Seq<ArtifactView> {
    rs.map_values(|r: TemplateResult| r@)
}

pub proof fn lemma_artifact_views_push(rs: Seq<TemplateResult>, x: TemplateResult)
    ensures
        artifact_views(rs.push(x)) == artifact_views(rs).push(x@),
{
    assert(artifact_views(rs.push(x)) =~= artifact_views(rs).push(x@));
}

/// Renders one kind of file from the generation context.
pub trait Template {
    type FileType;

    fn render(&self, ctx: &CodegenContext, file_type: &Self::FileType) -> Result<
        Vec<TemplateResult>,
        CodegenError,
    >;
}

/// Produces all of one target's artifacts from the generation context.
pub trait Generator<T: Template> {
    /// Whether a previously generated file with this name belongs to this
    /// generator and should be removed before regeneration.
    fn cleanup_matches(file_name: &str) -> bool;

    fn generate(&self, ctx: &CodegenContext) -> Result<Vec<TemplateResult>, CodegenError>;

    fn template_ref(&self) -> &T;
}

/// A generator with its template type erased, so the orchestrator can
/// hold every target behind one interface.
pub trait GeneratorInvoker {
    fn invoke_generate(&self, ctx: &CodegenContext) -> Result<Vec<TemplateResult>, CodegenError>;
}

} // verus!
