//! The iOS generator: one Objective-C++ module provider that registers
//! every schema module with the runtime at load time.

use vstd::prelude::*;
use vstd::string::StringExecFns;

use crate::constants::{ios_base_path, spec_path_join};
use crate::context::{
    spec_cxx_module_name, spec_cxx_namespace, spec_objc_provider_name, CodegenContext,
    CxxNamespace, ObjCProviderName, Schema, cxx_mod_cls_name,
};
use crate::errors::CodegenError;
use crate::gen_types::{
    artifact_views, ArtifactView, Generator, GeneratorInvoker, Template, TemplateResult,
};
use crate::paths::spec_has_suffix;
use crate::text::{
    join_strings, indent_str, lemma_views_push, spec_indent, spec_join, spec_spaces, views_of,
};

verus! {

pub struct IosTemplate;

pub struct IosGenerator;

pub enum IosFileType {
    ModuleProvider,
}

/// The import line of one module's C++ class header.
pub open spec fn spec_ios_include(s: Schema) -> Seq<char> {
    "#import \""@ + spec_cxx_module_name(s.module_name@) + ".hpp\""@
}

pub open spec fn spec_ios_includes(schemas: Seq<Schema>) -> Seq<Seq<char>> {
    schemas.map_values(|s: Schema| spec_ios_include(s))
}

/// The namespace-qualified C++ class of one module.
pub open spec fn spec_ns_module(project: Seq<char>, s: Schema) -> Seq<char> {
    spec_cxx_namespace(project) + "::modules::"@ + spec_cxx_module_name(s.module_name@)
}

/// The data-path handoff statement for one module.
pub open spec fn spec_prepare_line(project: Seq<char>, s: Schema) -> Seq<char> {
    spec_ns_module(project, s) + "::dataPath = dataPath;"@
}

pub open spec fn spec_prepare_lines(project: Seq<char>, schemas: Seq<Schema>) -> Seq<Seq<char>> {
    schemas.map_values(|s: Schema| spec_prepare_line(project, s))
}

/// The registration block for one module.
pub open spec fn spec_ios_register(project: Seq<char>, s: Schema) -> Seq<char> {
    "facebook::react::registerCxxModuleToGlobalModuleMap(\n    "@ + spec_ns_module(project, s)
        + "::kModuleName,\n    [](std::shared_ptr<facebook::react::CallInvoker> jsInvoker) {\n      return std::make_shared<"@
        + spec_ns_module(project, s) + ">(jsInvoker);\n    });"@
}

pub open spec fn spec_ios_registers(project: Seq<char>, schemas: Seq<Schema>) -> Seq<Seq<char>> {
    schemas.map_values(|s: Schema| spec_ios_register(project, s))
}

/// The static data-path lookup of the generated provider.
pub open spec fn spec_get_data_path_text() -> Seq<char> {
    "+ (NSString *)getDataPath {\n  NSString *appGroupID = [[NSBundle mainBundle] objectForInfoDictionaryKey:@\"AppGroupID\"];\n  NSString *dataPath = nil;\n\n  if (appGroupID != nil) {\n    NSFileManager *fileManager = [NSFileManager defaultManager];\n    NSURL *containerURL = [fileManager containerURLForSecurityApplicationGroupIdentifier:appGroupID];\n\n    if (containerURL == nil) {\n      throw [NSException exceptionWithName:@\"CrabyInitializationException\"\n                                    reason:[NSString stringWithFormat:@\"Invalid AppGroup ID: %@\", appGroupID]\n                                  userInfo:nil];\n    } else {\n      dataPath = [containerURL path];\n    }\n  } else {\n    NSArray *paths = NSSearchPathForDirectoriesInDomains(NSDocumentDirectory, NSUserDomainMask, true);\n    dataPath = [paths firstObject];\n  }\n\n  return dataPath;\n}"@
}

/// The whole module provider file.
pub open spec fn spec_module_provider(ctx: CodegenContext) -> Seq<char> {
    spec_join(spec_ios_includes(ctx.schemas@), "\n"@)
        + "\n#import <ReactCommon/CxxTurboModuleUtils.h>\n#include <string>\n\n@interface "@
        + spec_objc_provider_name(ctx.project_name@) + " : NSObject\n@end\n\n@implementation "@
        + spec_objc_provider_name(ctx.project_name@)
        + "\n\n+ (void)load {\n  const char *cDataPath = [[self getDataPath] UTF8String];\n  std::string dataPath(cDataPath);\n\n"@
        + spec_indent(spec_join(spec_prepare_lines(ctx.project_name@, ctx.schemas@), "\n"@),
            spec_spaces(2),
        ) + "\n\n"@ + spec_indent(
        spec_join(spec_ios_registers(ctx.project_name@, ctx.schemas@), "\n"@),
        spec_spaces(2),
    ) + "\n}\n\n"@ + spec_get_data_path_text() + "\n\n@end"@
}

/// The provider file's destination, relative to the project root.
pub open spec fn spec_module_provider_path(ctx: CodegenContext) -> Seq<char> {
    spec_path_join(
        spec_path_join(ctx.root@, "ios"@),
        spec_objc_provider_name(ctx.project_name@) + ".mm"@,
    )
}

impl IosTemplate {
    /// Render the module provider implementation.
    #[verifier::loop_isolation(false)]
    pub fn module_provider(&self, ctx: &CodegenContext) -> (r: String)
        ensures
            r@ == spec_module_provider(*ctx),
    {
        let schemas = &ctx.schemas;
        let mut includes: Vec<String> = Vec::new();
        let mut prepares: Vec<String> = Vec::new();
        let mut registers: Vec<String> = Vec::new();
        let ns = CxxNamespace::new(ctx.project_name.as_str());
        let mut i: usize = 0;
        while i < schemas.len()
            invariant
                i <= schemas@.len(),
                ns.0@ == spec_cxx_namespace(ctx.project_name@),
                views_of(includes@) == spec_ios_includes(schemas@.subrange(0, i as int)),
                views_of(prepares@) == spec_prepare_lines(
                    ctx.project_name@,
                    schemas@.subrange(0, i as int),
                ),
                views_of(registers@) == spec_ios_registers(
                    ctx.project_name@,
                    schemas@.subrange(0, i as int),
                ),
            decreases schemas@.len() - i,
        {
            let cxx_mod = cxx_mod_cls_name(schemas[i].module_name.as_str());
            let mut nsmod = ns.0.clone();
            nsmod.append("::modules::");
            nsmod.append(cxx_mod.as_str());

            let mut import_line = "#import \"".to_owned();
            import_line.append(cxx_mod.as_str());
            import_line.append(".hpp\"");

            let mut prepare = nsmod.clone();
            prepare.append("::dataPath = dataPath;");

            let mut register = "facebook::react::registerCxxModuleToGlobalModuleMap(\n    "
                .to_owned();
            register.append(nsmod.as_str());
            register.append(
                "::kModuleName,\n    [](std::shared_ptr<facebook::react::CallInvoker> jsInvoker) {\n      return std::make_shared<",
            );
            register.append(nsmod.as_str());
            register.append(">(jsInvoker);\n    });");

            proof {
                lemma_views_push(includes@, import_line);
                lemma_views_push(prepares@, prepare);
                lemma_views_push(registers@, register);
            }
            includes.push(import_line);
            prepares.push(prepare);
            registers.push(register);
            i = i + 1;
            proof {
                let prefix = schemas@.subrange(0, i - 1 as int);
                assert(schemas@.subrange(0, i as int) =~= prefix.push(schemas@[i - 1]));
                assert(spec_ios_includes(prefix.push(schemas@[i - 1])) =~= spec_ios_includes(
                    prefix,
                ).push(spec_ios_include(schemas@[i - 1])));
                assert(spec_prepare_lines(ctx.project_name@, prefix.push(schemas@[i - 1]))
                    =~= spec_prepare_lines(ctx.project_name@, prefix).push(
                    spec_prepare_line(ctx.project_name@, schemas@[i - 1]),
                ));
                assert(spec_ios_registers(ctx.project_name@, prefix.push(schemas@[i - 1]))
                    =~= spec_ios_registers(ctx.project_name@, prefix).push(
                    spec_ios_register(ctx.project_name@, schemas@[i - 1]),
                ));
            }
        }
        proof {
            assert(schemas@.subrange(0, schemas@.len() as int) =~= schemas@);
        }
        let provider = ObjCProviderName::new(ctx.project_name.as_str());
        let includes_joined = join_strings(&includes, "\n");
        let prepares_joined = join_strings(&prepares, "\n");
        let registers_joined = join_strings(&registers, "\n");
        let prepares_ind = indent_str(prepares_joined.as_str(), 2);
        let registers_ind = indent_str(registers_joined.as_str(), 2);

        let mut out = includes_joined;
        out.append("\n#import <ReactCommon/CxxTurboModuleUtils.h>\n#include <string>\n\n@interface ");
        out.append(provider.0.as_str());
        out.append(" : NSObject\n@end\n\n@implementation ");
        out.append(provider.0.as_str());
        out.append(
            "\n\n+ (void)load {\n  const char *cDataPath = [[self getDataPath] UTF8String];\n  std::string dataPath(cDataPath);\n\n",
        );
        out.append(prepares_ind.as_str());
        out.append("\n\n");
        out.append(registers_ind.as_str());
        out.append("\n}\n\n");
        out.append(
            "+ (NSString *)getDataPath {\n  NSString *appGroupID = [[NSBundle mainBundle] objectForInfoDictionaryKey:@\"AppGroupID\"];\n  NSString *dataPath = nil;\n\n  if (appGroupID != nil) {\n    NSFileManager *fileManager = [NSFileManager defaultManager];\n    NSURL *containerURL = [fileManager containerURLForSecurityApplicationGroupIdentifier:appGroupID];\n\n    if (containerURL == nil) {\n      throw [NSException exceptionWithName:@\"CrabyInitializationException\"\n                                    reason:[NSString stringWithFormat:@\"Invalid AppGroup ID: %@\", appGroupID]\n                                  userInfo:nil];\n    } else {\n      dataPath = [containerURL path];\n    }\n  } else {\n    NSArray *paths = NSSearchPathForDirectoriesInDomains(NSDocumentDirectory, NSUserDomainMask, true);\n    dataPath = [paths firstObject];\n  }\n\n  return dataPath;\n}",
        );
        out.append("\n\n@end");
        out
    }
}

impl Template for IosTemplate {
    type FileType = IosFileType;

    fn render(&self, ctx: &CodegenContext, file_type: &Self::FileType) -> Result<
        Vec<TemplateResult>,
        CodegenError,
    > {
        match file_type {
            IosFileType::ModuleProvider => {
                let content = self.module_provider(ctx);
                let provider = ObjCProviderName::new(ctx.project_name.as_str());
                let base = ios_base_path(ctx.root.as_str());
                let mut name = provider.0;
                name.append(".mm");
                let path = crate::constants::path_join(base.as_str(), name.as_str());
                let mut results: Vec<TemplateResult> = Vec::new();
                results.push(TemplateResult { path, content, overwrite: true });
                Ok(results)
            },
        }
    }
}

impl IosGenerator {
    pub fn new() -> (r: IosGenerator) {
        IosGenerator
    }

    /// Produce the iOS artifacts: exactly the module provider, fully
    /// regenerated on every pass.
    pub fn generate_artifacts(&self, ctx: &CodegenContext) -> (r: Vec<TemplateResult>)
        ensures
            artifact_views(r@) == seq![
                ArtifactView {
                    path: spec_module_provider_path(*ctx),
                    content: spec_module_provider(*ctx),
                    overwrite: true,
                },
            ],
    {
        let content = IosTemplate.module_provider(ctx);
        let provider = ObjCProviderName::new(ctx.project_name.as_str());
        let base = ios_base_path(ctx.root.as_str());
        let mut name = provider.0;
        name.append(".mm");
        let path = crate::constants::path_join(base.as_str(), name.as_str());
        let mut results: Vec<TemplateResult> = Vec::new();
        results.push(TemplateResult { path, content, overwrite: true });
        proof {
            assert(artifact_views(results@) =~= seq![
                ArtifactView {
                    path: spec_module_provider_path(*ctx),
                    content: spec_module_provider(*ctx),
                    overwrite: true,
                },
            ]);
        }
        results
    }
}

impl Generator<IosTemplate> for IosGenerator {
    /// Previously generated provider files are Objective-C++ sources.
    fn cleanup_matches(file_name: &str) -> (r: bool)
        ensures
            r == spec_has_suffix(file_name@, ".mm"@),
    {
        crate::paths::has_suffix(file_name, ".mm")
    }

    fn generate(&self, ctx: &CodegenContext) -> Result<Vec<TemplateResult>, CodegenError> {
        Ok(self.generate_artifacts(ctx))
    }

    fn template_ref(&self) -> &IosTemplate {
        &IosTemplate
    }
}

impl GeneratorInvoker for IosGenerator {
    fn invoke_generate(&self, ctx: &CodegenContext) -> Result<Vec<TemplateResult>, CodegenError> {
        self.generate(ctx)
    }
}

} // verus!
