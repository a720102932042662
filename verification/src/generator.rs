//! The per-schema generator: renders one module's host binding block and
//! its Android and iOS FFI modules as whole source texts.

use vstd::prelude::*;
use vstd::string::StringExecFns;

use crate::emit::{
    spec_method_cause, spec_method_ok, spec_rs_fn,
};
use crate::emit_ffi::{
    spec_android_ffi_fn, spec_ios_ffi_fn, spec_needs_interop, spec_needs_interop_ok,
};
use crate::env::Platform;
use crate::errors::CodegenError;
use crate::resolver::spec_interop_import;
use crate::schema::{FunctionSpec, Schema, TypeAnnotation};
use crate::text::{
    join_strings, lemma_views_push, sanitize_str, spec_join, spec_sanitize, views_of,
};

verus! {

/// Whether every method of a schema resolves.
pub open spec fn spec_schema_ok(s: Schema) -> bool {
    forall|i: int|
        0 <= i < s.module_spec.methods@.len() ==> spec_method_ok(
            #[trigger] s.module_spec.methods@[i],
        )
}

/// Whether any method of a schema needs marshalling.
pub open spec fn spec_schema_needs_interop(s: Schema) -> bool {
    exists|i: int|
        0 <= i < s.module_spec.methods@.len() && spec_needs_interop(
            #[trigger] s.module_spec.methods@[i],
        )
}

/// The shape of an error reported for a schema: it names the module, and
/// one of the module's methods caused it.
pub open spec fn spec_module_error(e: CodegenError, s: Schema) -> bool {
    &&& e.module@ == s.module_name@
    &&& exists|i: int|
        0 <= i < s.module_spec.methods@.len() && !spec_method_ok(
            #[trigger] s.module_spec.methods@[i],
        ) && spec_method_cause(e, s.module_spec.methods@[i])
}

/// The rendered host methods of a schema, in declaration order.
pub open spec fn spec_module_method_texts(methods: Seq<FunctionSpec>) -> Seq<Seq<char>> {
    methods.map_values(|m: FunctionSpec| spec_rs_fn(m, 4, true))
}

/// One module's host binding block: a `pub mod` named by the canonical
/// sanitization, importing the implementation module, holding one
/// forwarding function per schema method.
pub open spec fn spec_generate_module(s: Schema) -> Seq<char> {
    "pub mod "@ + spec_sanitize(s.module_name@) + " {\n    use crate::"@ + "impls"@ + ";\n\n"@
        + spec_join(spec_module_method_texts(s.module_spec.methods@), "\n\n"@) + "\n}"@
}

pub open spec fn spec_android_method_texts(
    methods: Seq<FunctionSpec>,
    lib: Seq<char>,
    mod_name: Seq<char>,
    pkg: Seq<char>,
    class: Seq<char>,
) -> Seq<Seq<char>> {
    methods.map_values(|m: FunctionSpec| spec_android_ffi_fn(m, lib, mod_name, pkg, class))
}

/// The import lines of an Android FFI module: the JNI preamble, plus the
/// interop import exactly when some method marshals a string.
pub open spec fn spec_android_import_lines(s: Schema) -> Seq<Seq<char>> {
    seq!["use craby_core::jni::sys::*;"@, "use craby_core::jni::{objects::JObject, JNIEnv};"@]
        + if spec_schema_needs_interop(s) {
        seq!["use "@ + spec_interop_import(Platform::Android) + ";"@]
    } else {
        Seq::<Seq<char>>::empty()
    }
}

/// One module's Android FFI source: imports, a blank line, then one
/// exported JNI function per method.
pub open spec fn spec_generate_android(s: Schema, lib: Seq<char>, pkg: Seq<char>) -> Seq<char> {
    spec_join(spec_android_import_lines(s), "\n"@) + "\n\n"@ + spec_join(
        spec_android_method_texts(
            s.module_spec.methods@,
            lib,
            spec_sanitize(s.module_name@),
            pkg,
            s.module_name@ + "Module"@,
        ),
        "\n\n"@,
    )
}

pub open spec fn spec_ios_method_texts(
    methods: Seq<FunctionSpec>,
    lib: Seq<char>,
    mod_name: Seq<char>,
) -> Seq<Seq<char>> {
    methods.map_values(|m: FunctionSpec| spec_ios_ffi_fn(m, lib, mod_name))
}

/// The import lines of an iOS FFI module.
pub open spec fn spec_ios_import_lines(s: Schema) -> Seq<Seq<char>> {
    seq!["use std::os::raw::*;"@] + if spec_schema_needs_interop(s) {
        seq!["use "@ + spec_interop_import(Platform::Ios) + ";"@]
    } else {
        Seq::<Seq<char>>::empty()
    }
}

/// One module's iOS FFI source: imports, a blank line, then one exported
/// C function per method.
pub open spec fn spec_generate_ios(s: Schema, lib: Seq<char>) -> Seq<char> {
    spec_join(spec_ios_import_lines(s), "\n"@) + "\n\n"@ + spec_join(
        spec_ios_method_texts(s.module_spec.methods@, lib, spec_sanitize(s.module_name@)),
        "\n\n"@,
    )
}

/// The interop import a marshalled type needs on `platform`.
pub fn interop_import(platform: Platform) -> (r: String)
    ensures
        r@ == spec_interop_import(platform),
{
    match platform {
        Platform::Android => "craby_core::android::interop::string::*".to_owned(),
        Platform::Ios => "craby_core::ios::interop::string::*".to_owned(),
    }
}

impl Schema {
    /// The interop imports this schema's generated FFI module needs:
    /// the platform's conversion import when any method marshals a
    /// string, nothing otherwise. Methods that are not function-shaped
    /// contribute nothing.
    #[verifier::loop_isolation(false)]
    pub fn get_interop_imports(&self, platform: Platform) -> (r: Result<
        Vec<String>,
        CodegenError,
    >)
        ensures
            r is Ok <==> forall|i: int|
                0 <= i < self.module_spec.methods@.len() ==> spec_needs_interop_ok(
                    #[trigger] self.module_spec.methods@[i],
                ),
            r matches Ok(v) ==> {
                &&& v@.len() == (if spec_schema_needs_interop(*self) {
                    1int
                } else {
                    0int
                })
                &&& spec_schema_needs_interop(*self) ==> v@[0]@ == spec_interop_import(platform)
            },
            r matches Err(e) ==> spec_module_error(e, *self),
    {
        let methods = &self.module_spec.methods;
        let mut found: bool = false;
        let mut i: usize = 0;
        while i < methods.len()
            invariant
                i <= methods@.len(),
                forall|k: int|
                    0 <= k < i ==> spec_needs_interop_ok(#[trigger] methods@[k]),
                found == exists|k: int|
                    0 <= k < i && spec_needs_interop(#[trigger] methods@[k]),
            decreases methods@.len() - i,
        {
            match methods[i].needs_interop(platform) {
                Ok(b) => {
                    if b {
                        found = true;
                    }
                },
                Err(e) => {
                    proof {
                        assert(!spec_method_ok(methods@[i as int]));
                    }
                    return Err(e.at_module(self.module_name.as_str()));
                },
            }
            i = i + 1;
        }
        let mut imports: Vec<String> = Vec::new();
        if found {
            imports.push(interop_import(platform));
        }
        Ok(imports)
    }
}

/// Renders one module schema into host and FFI source texts.
pub struct CodeGenerator;

impl CodeGenerator {
    pub fn new() -> (r: CodeGenerator) {
        CodeGenerator
    }

    /// Render the host binding block of one schema.
    #[verifier::loop_isolation(false)]
    pub fn generate_module(&self, schema: &Schema) -> (r: Result<String, CodegenError>)
        ensures
            r is Ok <==> spec_schema_ok(*schema),
            r matches Ok(s) ==> s@ == spec_generate_module(*schema),
            r matches Err(e) ==> spec_module_error(e, *schema),
    {
        let methods = &schema.module_spec.methods;
        let mut texts: Vec<String> = Vec::new();
        let mut i: usize = 0;
        while i < methods.len()
            invariant
                i <= methods@.len(),
                views_of(texts@) == spec_module_method_texts(methods@.subrange(0, i as int)),
                forall|k: int| 0 <= k < i ==> spec_method_ok(#[trigger] methods@[k]),
            decreases methods@.len() - i,
        {
            match methods[i].to_rs_fn(4, true) {
                Ok(t) => {
                    proof {
                        lemma_views_push(texts@, t);
                    }
                    texts.push(t);
                },
                Err(e) => {
                    return Err(e.at_module(schema.module_name.as_str()));
                },
            }
            i = i + 1;
            proof {
                let prefix = methods@.subrange(0, i - 1 as int);
                assert(methods@.subrange(0, i as int) =~= prefix.push(methods@[i - 1]));
                assert(spec_module_method_texts(prefix.push(methods@[i - 1]))
                    =~= spec_module_method_texts(prefix).push(
                    spec_rs_fn(methods@[i - 1], 4, true),
                ));
            }
        }
        proof {
            assert(methods@.subrange(0, methods@.len() as int) =~= methods@);
        }
        let joined = join_strings(&texts, "\n\n");
        let mod_name = sanitize_str(schema.module_name.as_str());
        let mut out = "pub mod ".to_owned();
        out.append(mod_name.as_str());
        out.append(" {\n    use crate::");
        out.append("impls");
        out.append(";\n\n");
        out.append(joined.as_str());
        out.append("\n}");
        Ok(out)
    }

    /// Render the Android FFI module of one schema.
    #[verifier::loop_isolation(false)]
    pub fn generate_android_ffi_module(
        &self,
        schema: &Schema,
        lib_name: &String,
        java_package_name: &String,
    ) -> (r: Result<String, CodegenError>)
        ensures
            r is Ok <==> spec_schema_ok(*schema),
            r matches Ok(s) ==> s@ == spec_generate_android(
                *schema,
                lib_name@,
                java_package_name@,
            ),
            r matches Err(e) ==> spec_module_error(e, *schema),
    {
        let methods = &schema.module_spec.methods;
        let mod_name = sanitize_str(schema.module_name.as_str());
        let mut class_name = schema.module_name.clone();
        class_name.append("Module");
        let interop_imports = match schema.get_interop_imports(Platform::Android) {
            Ok(v) => v,
            Err(e) => {
                proof {
                    let j = choose|j: int|
                        0 <= j < methods@.len() && !spec_needs_interop_ok(
                            #[trigger] methods@[j],
                        );
                    assert(!spec_method_ok(methods@[j]));
                }
                return Err(e);
            },
        };
        let mut imports: Vec<String> = Vec::new();
        imports.push("use craby_core::jni::sys::*;".to_owned());
        imports.push("use craby_core::jni::{objects::JObject, JNIEnv};".to_owned());
        let mut k: usize = 0;
        while k < interop_imports.len()
            invariant
                k <= interop_imports@.len(),
                interop_imports@.len() <= 1,
                spec_schema_needs_interop(*schema) ==> interop_imports@[0]@
                    == spec_interop_import(Platform::Android),
                interop_imports@.len() == (if spec_schema_needs_interop(*schema) {
                    1int
                } else {
                    0int
                }),
                k == 0 ==> views_of(imports@) == spec_android_import_lines(*schema).subrange(
                    0,
                    2,
                ),
                k == 1 ==> views_of(imports@) == spec_android_import_lines(*schema),
            decreases interop_imports@.len() - k,
        {
            let mut line = "use ".to_owned();
            line.append(interop_imports[k].as_str());
            line.append(";");
            proof {
                lemma_views_push(imports@, line);
            }
            imports.push(line);
            k = k + 1;
            proof {
                assert(views_of(imports@) =~= spec_android_import_lines(*schema));
            }
        }
        proof {
            if !spec_schema_needs_interop(*schema) {
                assert(views_of(imports@) =~= spec_android_import_lines(*schema));
            }
        }
        let imports_joined = join_strings(&imports, "\n");
        let mut texts: Vec<String> = Vec::new();
        let mut i: usize = 0;
        while i < methods.len()
            invariant
                i <= methods@.len(),
                views_of(texts@) == spec_android_method_texts(
                    methods@.subrange(0, i as int),
                    lib_name@,
                    spec_sanitize(schema.module_name@),
                    java_package_name@,
                    schema.module_name@ + "Module"@,
                ),
                mod_name@ == spec_sanitize(schema.module_name@),
                class_name@ == schema.module_name@ + "Module"@,
                forall|k2: int| 0 <= k2 < i ==> spec_method_ok(#[trigger] methods@[k2]),
            decreases methods@.len() - i,
        {
            match methods[i].to_android_ffi_fn(lib_name, &mod_name, java_package_name,
                &class_name) {
                Ok(t) => {
                    proof {
                        lemma_views_push(texts@, t);
                    }
                    texts.push(t);
                },
                Err(e) => {
                    return Err(e.at_module(schema.module_name.as_str()));
                },
            }
            i = i + 1;
            proof {
                let prefix = methods@.subrange(0, i - 1 as int);
                assert(methods@.subrange(0, i as int) =~= prefix.push(methods@[i - 1]));
                assert(spec_android_method_texts(
                    prefix.push(methods@[i - 1]),
                    lib_name@,
                    spec_sanitize(schema.module_name@),
                    java_package_name@,
                    schema.module_name@ + "Module"@,
                ) =~= spec_android_method_texts(
                    prefix,
                    lib_name@,
                    spec_sanitize(schema.module_name@),
                    java_package_name@,
                    schema.module_name@ + "Module"@,
                ).push(
                    spec_android_ffi_fn(
                        methods@[i - 1],
                        lib_name@,
                        spec_sanitize(schema.module_name@),
                        java_package_name@,
                        schema.module_name@ + "Module"@,
                    ),
                ));
            }
        }
        proof {
            assert(methods@.subrange(0, methods@.len() as int) =~= methods@);
        }
        let methods_joined = join_strings(&texts, "\n\n");
        let mut out = imports_joined;
        out.append("\n\n");
        out.append(methods_joined.as_str());
        Ok(out)
    }

    /// Render the iOS FFI module of one schema.
    #[verifier::loop_isolation(false)]
    pub fn generate_ios_ffi_module(&self, schema: &Schema, lib_name: &String) -> (r: Result<
        String,
        CodegenError,
    >)
        ensures
            r is Ok <==> spec_schema_ok(*schema),
            r matches Ok(s) ==> s@ == spec_generate_ios(*schema, lib_name@),
            r matches Err(e) ==> spec_module_error(e, *schema),
    {
        let methods = &schema.module_spec.methods;
        let mod_name = sanitize_str(schema.module_name.as_str());
        let interop_imports = match schema.get_interop_imports(Platform::Ios) {
            Ok(v) => v,
            Err(e) => {
                proof {
                    let j = choose|j: int|
                        0 <= j < methods@.len() && !spec_needs_interop_ok(
                            #[trigger] methods@[j],
                        );
                    assert(!spec_method_ok(methods@[j]));
                }
                return Err(e);
            },
        };
        let mut imports: Vec<String> = Vec::new();
        imports.push("use std::os::raw::*;".to_owned());
        let mut k: usize = 0;
        while k < interop_imports.len()
            invariant
                k <= interop_imports@.len(),
                interop_imports@.len() <= 1,
                spec_schema_needs_interop(*schema) ==> interop_imports@[0]@
                    == spec_interop_import(Platform::Ios),
                interop_imports@.len() == (if spec_schema_needs_interop(*schema) {
                    1int
                } else {
                    0int
                }),
                k == 0 ==> views_of(imports@) == spec_ios_import_lines(*schema).subrange(0, 1),
                k == 1 ==> views_of(imports@) == spec_ios_import_lines(*schema),
            decreases interop_imports@.len() - k,
        {
            let mut line = "use ".to_owned();
            line.append(interop_imports[k].as_str());
            line.append(";");
            proof {
                lemma_views_push(imports@, line);
            }
            imports.push(line);
            k = k + 1;
            proof {
                assert(views_of(imports@) =~= spec_ios_import_lines(*schema));
            }
        }
        proof {
            if !spec_schema_needs_interop(*schema) {
                assert(views_of(imports@) =~= spec_ios_import_lines(*schema));
            }
        }
        let imports_joined = join_strings(&imports, "\n");
        let mut texts: Vec<String> = Vec::new();
        let mut i: usize = 0;
        while i < methods.len()
            invariant
                i <= methods@.len(),
                views_of(texts@) == spec_ios_method_texts(
                    methods@.subrange(0, i as int),
                    lib_name@,
                    spec_sanitize(schema.module_name@),
                ),
                mod_name@ == spec_sanitize(schema.module_name@),
                forall|k2: int| 0 <= k2 < i ==> spec_method_ok(#[trigger] methods@[k2]),
            decreases methods@.len() - i,
        {
            match methods[i].to_ios_ffi_fn(lib_name, &mod_name) {
                Ok(t) => {
                    proof {
                        lemma_views_push(texts@, t);
                    }
                    texts.push(t);
                },
                Err(e) => {
                    return Err(e.at_module(schema.module_name.as_str()));
                },
            }
            i = i + 1;
            proof {
                let prefix = methods@.subrange(0, i - 1 as int);
                assert(methods@.subrange(0, i as int) =~= prefix.push(methods@[i - 1]));
                assert(spec_ios_method_texts(
                    prefix.push(methods@[i - 1]),
                    lib_name@,
                    spec_sanitize(schema.module_name@),
                ) =~= spec_ios_method_texts(
                    prefix,
                    lib_name@,
                    spec_sanitize(schema.module_name@),
                ).push(spec_ios_ffi_fn(methods@[i - 1], lib_name@, spec_sanitize(
                    schema.module_name@,
                ))));
            }
        }
        proof {
            assert(methods@.subrange(0, methods@.len() as int) =~= methods@);
        }
        let methods_joined = join_strings(&texts, "\n\n");
        let mut out = imports_joined;
        out.append("\n\n");
        out.append(methods_joined.as_str());
        Ok(out)
    }
}

} // verus!
