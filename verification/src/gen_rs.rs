//! The host-binding generator: the generated crate's entry, its cxx
//! bridge, the per-module trait declarations, the shared type aliases,
//! and one never-overwritten implementation stub per module.

use vstd::prelude::*;
use vstd::string::StringExecFns;

use crate::constants::{impl_mod_name, path_join, spec_path_join};
use crate::context::{CodegenContext, Schema, Signal};
use crate::emit::{
    spec_method_cause, spec_method_ok, spec_param_ok, spec_param_texts, spec_params_ok,
};
use crate::errors::CodegenError;
use crate::gen_types::{
    artifact_views, ArtifactView, Generator, GeneratorInvoker, Template, TemplateResult,
};
use crate::resolver::{is_supported_base, spec_rust_type, spec_type_text, spec_variant_name};
use crate::schema::{FunctionSpec, Parameter, TypeAnnotation};
use crate::text::{
    camel_case, camel_of, indent_str, join_strings, lemma_views_push, pascal_case, pascal_of,
    sanitize_str, snake_case, snake_of, spec_indent, spec_join, spec_sanitize, spec_spaces,
    views_of,
};

verus! {

pub struct RsTemplate;

pub struct RsGenerator;

pub enum RsFileType {
    /// lib.rs
    CrateEntry,
    /// ffi.rs
    FFIEntry,
    /// types.rs
    Types,
    /// generated.rs
    Generated,
}

/// One schema's contribution to the cxx bridge: its extern declarations
/// and the constructor glue.
pub struct RsCxxBridge {
    pub func_extern_sigs: Vec<String>,
    pub func_impls: Vec<String>,
}

/// The trait-method signature of one schema method: a `&self` receiver
/// ahead of the resolved parameters.
pub open spec fn spec_impl_sig(f: FunctionSpec) -> Seq<char> {
    match f.type_annotation {
        TypeAnnotation::FunctionTypeAnnotation { return_type_annotation, params } => {
            let ret = if *return_type_annotation is VoidTypeAnnotation {
                Seq::<char>::empty()
            } else {
                " -> "@ + spec_type_text(spec_rust_type(*return_type_annotation))
            };
            let ps = if params@.len() == 0 {
                Seq::<char>::empty()
            } else {
                ", "@ + spec_join(spec_param_texts(params@), ", "@)
            };
            "fn "@ + spec_sanitize(f.name@) + "(&self"@ + ps + ")"@ + ret
        },
        _ => Seq::<char>::empty(),
    }
}

/// The cxx extern declaration of one schema method.
pub open spec fn spec_bridge_method_sig(f: FunctionSpec, module_name: Seq<char>) -> Seq<char> {
    match f.type_annotation {
        TypeAnnotation::FunctionTypeAnnotation { return_type_annotation, params } => {
            let ret = if *return_type_annotation is VoidTypeAnnotation {
                Seq::<char>::empty()
            } else {
                " -> "@ + spec_type_text(spec_rust_type(*return_type_annotation))
            };
            let ps = if params@.len() == 0 {
                Seq::<char>::empty()
            } else {
                ", "@ + spec_join(spec_param_texts(params@), ", "@)
            };
            "#[cxx_name = \""@ + camel_of(f.name@) + "\"]\nfn "@ + spec_sanitize(f.name@)
                + "(self: &"@ + pascal_of(module_name) + ps + ")"@ + ret + ";"@
        },
        _ => Seq::<char>::empty(),
    }
}

pub open spec fn spec_bridge_method_sigs(methods: Seq<FunctionSpec>, module_name: Seq<char>)
    -> Seq<Seq<char>> {
    methods.map_values(|f: FunctionSpec| spec_bridge_method_sig(f, module_name))
}

/// The extern declarations of one schema: its opaque type, its
/// constructor, and one declaration per method.
pub open spec fn spec_bridge_extern_sigs(s: Schema) -> Seq<Seq<char>> {
    seq![
        "type "@ + pascal_of(s.module_name@) + ";"@,
        "#[cxx_name = \"create"@ + pascal_of(s.module_name@) + "\"]\nfn create_"@ + snake_of(
            s.module_name@,
        ) + "(id: usize) -> Box<"@ + pascal_of(s.module_name@) + ">;"@,
    ] + spec_bridge_method_sigs(s.methods@, s.module_name@)
}

/// The constructor glue of one schema.
pub open spec fn spec_bridge_create_impl(s: Schema) -> Seq<char> {
    "fn create_"@ + snake_of(s.module_name@) + "(id: usize) -> Box<"@ + pascal_of(s.module_name@)
        + "> {\n    Box::new("@ + pascal_of(s.module_name@) + "::new(id))\n}"@
}

impl Schema {
    /// Render this schema's cxx bridge contribution.
    #[verifier::loop_isolation(false)]
    pub fn as_rs_cxx_bridge(&self) -> (r: Result<RsCxxBridge, CodegenError>)
        ensures
            r is Ok <==> crate::gen_cxx::spec_cxx_schema_ok(*self),
            r matches Ok(b) ==> {
                &&& views_of(b.func_extern_sigs@) == spec_bridge_extern_sigs(*self)
                &&& views_of(b.func_impls@) == seq![spec_bridge_create_impl(*self)]
            },
            r matches Err(e) ==> crate::gen_cxx::spec_cxx_module_error(e, *self),
    {
        let methods = &self.methods;
        let pascal = pascal_case(self.module_name.as_str());
        let snake = snake_case(self.module_name.as_str());

        let mut sigs: Vec<String> = Vec::new();
        let mut type_line = "type ".to_owned();
        type_line.append(pascal.as_str());
        type_line.append(";");
        sigs.push(type_line);
        let mut create_line = "#[cxx_name = \"create".to_owned();
        create_line.append(pascal.as_str());
        create_line.append("\"]\nfn create_");
        create_line.append(snake.as_str());
        create_line.append("(id: usize) -> Box<");
        create_line.append(pascal.as_str());
        create_line.append(">;");
        sigs.push(create_line);
        proof {
            assert(views_of(sigs@) =~= spec_bridge_extern_sigs(*self).subrange(0, 2));
        }
        let mut i: usize = 0;
        while i < methods.len()
            invariant
                i <= methods@.len(),
                pascal@ == pascal_of(self.module_name@),
                views_of(sigs@) == spec_bridge_extern_sigs(*self).subrange(0, 2 + i as int),
                2 + i as int <= spec_bridge_extern_sigs(*self).len(),
                forall|k: int| 0 <= k < i ==> spec_method_ok(#[trigger] methods@[k]),
            decreases methods@.len() - i,
        {
            let sig = match methods[i].bridge_method_sig(&self.module_name, &pascal) {
                Ok(s) => s,
                Err(e) => {
                    proof {
                        assert(!spec_method_ok(methods@[i as int]));
                    }
                    return Err(e.at_module(self.module_name.as_str()));
                },
            };
            proof {
                lemma_views_push(sigs@, sig);
                assert(spec_bridge_method_sigs(methods@, self.module_name@)[i as int]
                    == spec_bridge_method_sig(methods@[i as int], self.module_name@));
            }
            sigs.push(sig);
            i = i + 1;
            proof {
                assert(views_of(sigs@) =~= spec_bridge_extern_sigs(*self).subrange(
                    0,
                    2 + i as int,
                ));
            }
        }
        proof {
            assert(spec_bridge_extern_sigs(*self).subrange(
                0,
                spec_bridge_extern_sigs(*self).len() as int,
            ) =~= spec_bridge_extern_sigs(*self));
        }
        let mut create_impl = "fn create_".to_owned();
        create_impl.append(snake.as_str());
        create_impl.append("(id: usize) -> Box<");
        create_impl.append(pascal.as_str());
        create_impl.append("> {\n    Box::new(");
        create_impl.append(pascal.as_str());
        create_impl.append("::new(id))\n}");
        let mut impls: Vec<String> = Vec::new();
        impls.push(create_impl);
        proof {
            assert(views_of(impls@) =~= seq![spec_bridge_create_impl(*self)]);
        }
        Ok(RsCxxBridge { func_extern_sigs: sigs, func_impls: impls })
    }
}

impl FunctionSpec {
    /// Render this method's trait signature: `fn name(&self, ...) -> Ret`.
    #[verifier::loop_isolation(false)]
    pub fn as_impl_sig(&self) -> (r: Result<String, CodegenError>)
        ensures
            r is Ok <==> spec_method_ok(*self),
            r matches Ok(s) ==> s@ == spec_impl_sig(*self),
            r matches Err(e) ==> crate::emit::spec_method_error(e, *self),
    {
        match &self.type_annotation {
            TypeAnnotation::FunctionTypeAnnotation { return_type_annotation, params } => {
                let ret_ty = match return_type_annotation.get_rust_type() {
                    Ok(t) => t,
                    Err(e) => {
                        return Err(e.at_method(self.name.as_str()));
                    },
                };
                let mut parts: Vec<String> = Vec::new();
                let mut i: usize = 0;
                while i < params.len()
                    invariant
                        i <= params@.len(),
                        views_of(parts@) == spec_param_texts(params@.subrange(0, i as int)),
                        forall|k: int| 0 <= k < i ==> spec_param_ok(#[trigger] params@[k]),
                    decreases params@.len() - i,
                {
                    match params[i].to_rs_param() {
                        Ok(t) => {
                            proof {
                                lemma_views_push(parts@, t);
                            }
                            parts.push(t);
                        },
                        Err(e) => {
                            proof {
                                assert(!spec_param_ok(params@[i as int]));
                                assert(!spec_params_ok(params@));
                            }
                            return Err(e.at_method(self.name.as_str()));
                        },
                    }
                    i = i + 1;
                    proof {
                        let prefix = params@.subrange(0, i - 1 as int);
                        assert(params@.subrange(0, i as int) =~= prefix.push(params@[i - 1]));
                        crate::emit::lemma_param_texts_push(prefix, params@[i - 1]);
                    }
                }
                proof {
                    assert(params@.subrange(0, params@.len() as int) =~= params@);
                }
                let sanitized = sanitize_str(self.name.as_str());
                let mut out = "fn ".to_owned();
                out.append(sanitized.as_str());
                out.append("(&self");
                if parts.len() > 0 {
                    let joined = join_strings(&parts, ", ");
                    out.append(", ");
                    out.append(joined.as_str());
                }
                out.append(")");
                match &ret_ty {
                    crate::resolver::Type::Void => {},
                    _ => {
                        out.append(" -> ");
                        let rt = ret_ty.to_text();
                        out.append(rt.as_str());
                    },
                }
                proof {
                    if spec_rust_type(**return_type_annotation) is Void {
                        assert(**return_type_annotation is VoidTypeAnnotation);
                    }
                    assert(out@ =~= spec_impl_sig(*self));
                }
                Ok(out)
            },
            _ => Err(
                CodegenError::unsupported(self.type_annotation.variant_name()).at_method(
                    self.name.as_str(),
                ),
            ),
        }
    }

    /// Render this method's cxx extern declaration.
    #[verifier::loop_isolation(false)]
    pub fn bridge_method_sig(&self, module_name: &String, pascal: &String) -> (r: Result<
        String,
        CodegenError,
    >)
        requires
            pascal@ == pascal_of(module_name@),
        ensures
            r is Ok <==> spec_method_ok(*self),
            r matches Ok(s) ==> s@ == spec_bridge_method_sig(*self, module_name@),
            r matches Err(e) ==> crate::emit::spec_method_error(e, *self),
    {
        match &self.type_annotation {
            TypeAnnotation::FunctionTypeAnnotation { return_type_annotation, params } => {
                let ret_ty = match return_type_annotation.get_rust_type() {
                    Ok(t) => t,
                    Err(e) => {
                        return Err(e.at_method(self.name.as_str()));
                    },
                };
                let mut parts: Vec<String> = Vec::new();
                let mut i: usize = 0;
                while i < params.len()
                    invariant
                        i <= params@.len(),
                        views_of(parts@) == spec_param_texts(params@.subrange(0, i as int)),
                        forall|k: int| 0 <= k < i ==> spec_param_ok(#[trigger] params@[k]),
                    decreases params@.len() - i,
                {
                    match params[i].to_rs_param() {
                        Ok(t) => {
                            proof {
                                lemma_views_push(parts@, t);
                            }
                            parts.push(t);
                        },
                        Err(e) => {
                            proof {
                                assert(!spec_param_ok(params@[i as int]));
                                assert(!spec_params_ok(params@));
                            }
                            return Err(e.at_method(self.name.as_str()));
                        },
                    }
                    i = i + 1;
                    proof {
                        let prefix = params@.subrange(0, i - 1 as int);
                        assert(params@.subrange(0, i as int) =~= prefix.push(params@[i - 1]));
                        crate::emit::lemma_param_texts_push(prefix, params@[i - 1]);
                    }
                }
                proof {
                    assert(params@.subrange(0, params@.len() as int) =~= params@);
                }
                let camel = camel_case(self.name.as_str());
                let sanitized = sanitize_str(self.name.as_str());
                let mut out = "#[cxx_name = \"".to_owned();
                out.append(camel.as_str());
                out.append("\"]\nfn ");
                out.append(sanitized.as_str());
                out.append("(self: &");
                out.append(pascal.as_str());
                if parts.len() > 0 {
                    let joined = join_strings(&parts, ", ");
                    out.append(", ");
                    out.append(joined.as_str());
                }
                out.append(")");
                match &ret_ty {
                    crate::resolver::Type::Void => {},
                    _ => {
                        out.append(" -> ");
                        let rt = ret_ty.to_text();
                        out.append(rt.as_str());
                    },
                }
                out.append(";");
                proof {
                    if spec_rust_type(**return_type_annotation) is Void {
                        assert(**return_type_annotation is VoidTypeAnnotation);
                    }
                    assert(out@ =~= spec_bridge_method_sig(*self, module_name@));
                }
                Ok(out)
            },
            _ => Err(
                CodegenError::unsupported(self.type_annotation.variant_name()).at_method(
                    self.name.as_str(),
                ),
            ),
        }
    }
}

pub open spec fn spec_signal_enum_name(s: Schema) -> Seq<char> {
    s.module_name@ + "Signal"@
}

pub open spec fn spec_signal_members(s: Schema) -> Seq<Seq<char>> {
    s.signals@.map_values(|sig: Signal| pascal_of(sig.name@) + ","@)
}

pub open spec fn spec_signal_match_lines(s: Schema) -> Seq<Seq<char>> {
    s.signals@.map_values(
        |sig: Signal|
            spec_signal_enum_name(s) + "::"@ + pascal_of(sig.name@)
                + " => manager.emit(self.id(), \""@ + sig.name@ + "\"),"@,
    )
}

/// The closed signal enumeration of one schema.
pub open spec fn spec_signal_enum(s: Schema) -> Seq<char> {
    "pub enum "@ + spec_signal_enum_name(s) + " {\n    "@ + spec_join(
        spec_signal_members(s),
        "\n"@,
    ) + "\n}\n"@
}

/// The emission method of one schema's trait.
pub open spec fn spec_emit_fn(s: Schema) -> Seq<char> {
    "fn emit(&self, signal_name: "@ + spec_signal_enum_name(s)
        + ") {\n    let manager = crate::ffi::bridging::get_signal_manager();\n    match signal_name {\n"@
        + spec_indent(spec_join(spec_signal_match_lines(s), "\n"@), spec_spaces(8))
        + "\n    }\n}"@
}

pub open spec fn spec_method_sig_lines(methods: Seq<FunctionSpec>) -> Seq<Seq<char>> {
    methods.map_values(|m: FunctionSpec| spec_impl_sig(m) + ";"@)
}

/// One schema's trait block: the constructor, identifier accessor, the
/// emission method and signal enumeration when signals are declared, and
/// one signature per method.
pub open spec fn spec_rs_spec(s: Schema) -> Seq<char> {
    (if s.signals@.len() > 0 {
        spec_signal_enum(s) + "\n"@
    } else {
        Seq::<char>::empty()
    }) + "pub trait "@ + pascal_of(s.module_name@ + "Spec"@)
        + " {\n    fn new(id: usize) -> Self;\n    fn id(&self) -> usize;\n"@ + (if s.signals@.len()
        > 0 {
        spec_indent(spec_emit_fn(s), spec_spaces(4)) + "\n"@
    } else {
        Seq::<char>::empty()
    }) + spec_indent(spec_join(spec_method_sig_lines(s.methods@), "\n"@), spec_spaces(4))
        + "\n}"@
}

pub open spec fn spec_stub_fns(methods: Seq<FunctionSpec>) -> Seq<Seq<char>> {
    methods.map_values(
        |m: FunctionSpec| spec_impl_sig(m) + " {\n    panic!(\"not yet implemented\");\n}"@,
    )
}

/// One schema's developer stub: a struct implementing the trait with
/// loudly failing method bodies. Written once, never overwritten.
pub open spec fn spec_rs_impl(s: Schema) -> Seq<char> {
    "use crate::ffi::bridging::*;\nuse crate::generated::*;\nuse crate::types::*;\n\npub struct "@
        + pascal_of(s.module_name@) + " {\n    id: usize,\n}\n\nimpl "@ + pascal_of(
        s.module_name@ + "Spec"@,
    ) + " for "@ + pascal_of(s.module_name@) + " {\n    fn new(id: usize) -> Self {\n        "@
        + pascal_of(s.module_name@)
        + " { id }\n    }\n\n    fn id(&self) -> usize {\n        self.id\n    }\n\n"@
        + spec_indent(spec_join(spec_stub_fns(s.methods@), "\n\n"@), spec_spaces(4)) + "\n}"@
}

pub open spec fn spec_impl_mod_text(s: Schema) -> Seq<char> {
    snake_of(s.module_name@) + "_impl"@
}

pub open spec fn spec_mod_decls(schemas: Seq<Schema>) -> Seq<Seq<char>> {
    schemas.map_values(|s: Schema| "pub(crate) mod "@ + spec_impl_mod_text(s) + ";"@)
}

/// The generated crate's entry file.
pub open spec fn spec_lib_rs(schemas: Seq<Schema>) -> Seq<char> {
    "#[rustfmt::skip]\npub(crate) mod ffi;\npub(crate) mod generated;\npub(crate) mod types;\n\n"@
        + spec_join(spec_mod_decls(schemas), "\n"@)
}

pub open spec fn spec_use_lines(schemas: Seq<Schema>) -> Seq<Seq<char>> {
    schemas.map_values(|s: Schema| "use crate::"@ + spec_impl_mod_text(s) + "::*;"@)
}

/// All extern declarations of every schema, in order.
pub open spec fn spec_all_extern_sigs(schemas: Seq<Schema>) -> Seq<Seq<char>>
    decreases schemas.len(),
{
    if schemas.len() == 0 {
        Seq::empty()
    } else {
        spec_bridge_extern_sigs(schemas[0]) + spec_all_extern_sigs(schemas.drop_first())
    }
}

pub proof fn lemma_all_extern_sigs_push(s: Seq<Schema>, x: Schema)
    ensures
        spec_all_extern_sigs(s.push(x)) == spec_all_extern_sigs(s) + spec_bridge_extern_sigs(x),
    decreases s.len(),
{
    if s.len() == 0 {
        assert(s.push(x)[0] == x);
        assert(s.push(x).drop_first() =~= Seq::<Schema>::empty());
        assert(spec_all_extern_sigs(Seq::<Schema>::empty()) == Seq::<Seq<char>>::empty());
        assert(spec_all_extern_sigs(s.push(x)) =~= spec_all_extern_sigs(s)
            + spec_bridge_extern_sigs(x));
    } else {
        assert(s.push(x)[0] == s[0]);
        assert(s.push(x).drop_first() =~= s.drop_first().push(x));
        lemma_all_extern_sigs_push(s.drop_first(), x);
        assert(spec_all_extern_sigs(s.push(x)) =~= spec_all_extern_sigs(s)
            + spec_bridge_extern_sigs(x));
    }
}

/// The `extern "C++"` block importing the signal manager.
pub open spec fn spec_signal_manager_block() -> Seq<char> {
    "#[namespace = \"craby::signals\"]\nunsafe extern \"C++\" {\n    include!(\"signals.h\");\n\n    type SignalManager;\n\n    fn emit(self: &SignalManager, id: usize, name: &str);\n    #[rust_name = \"get_signal_manager\"]\n    fn getSignalManager() -> &'static SignalManager;\n}"@
}

pub open spec fn spec_ctx_has_signals(schemas: Seq<Schema>) -> bool {
    exists|i: int| 0 <= i < schemas.len() && (#[trigger] schemas[i].signals@.len()) > 0
}

/// The whole cxx bridge module declaration.
pub open spec fn spec_rs_cxx_extern(schemas: Seq<Schema>) -> Seq<char> {
    "#[cxx::bridge(namespace = \"craby::bridging\")]\npub mod bridging {\n"@ + spec_indent(
        "extern \"Rust\" {\n"@ + spec_indent(
            spec_join(spec_all_extern_sigs(schemas), "\n\n"@),
            spec_spaces(4),
        ) + "\n}\n"@ + (if spec_ctx_has_signals(schemas) {
            "\n"@ + spec_signal_manager_block()
        } else {
            Seq::<char>::empty()
        }),
        spec_spaces(4),
    ) + "\n}"@
}

pub open spec fn spec_create_impl_texts(schemas: Seq<Schema>) -> Seq<Seq<char>> {
    schemas.map_values(|s: Schema| spec_bridge_create_impl(s))
}

/// The generated crate's bridge file.
pub open spec fn spec_ffi_rs(schemas: Seq<Schema>) -> Seq<char> {
    "#[rustfmt::skip]\n"@ + spec_join(spec_use_lines(schemas), "\n"@)
        + "\nuse crate::generated::*;\n\nuse bridging::*;\n\n"@ + spec_rs_cxx_extern(schemas)
        + "\n\n"@ + spec_join(spec_create_impl_texts(schemas), "\n\n"@)
}

/// The shared type aliases of the generated crate.
pub open spec fn spec_types_rs() -> Seq<char> {
    "#[rustfmt::skip]\npub type Boolean = bool;\npub type Number = f64;\npub type String = std::string::String;\npub type Array<T> = Vec<T>;\npub type Promise<T> = Result<T, anyhow::Error>;\npub type Void = ();\n\npub mod promise {\n    use super::Promise;\n\n    pub fn resolve<T>(val: T) -> Promise<T> {\n        Ok(val)\n    }\n\n    pub fn rejected<T>(err: impl AsRef<str>) -> Promise<T> {\n        Err(anyhow::anyhow!(err.as_ref().to_string()))\n    }\n}\n\npub struct Nullable<T> {\n    val: Option<T>,\n}\n\nimpl<T> Nullable<T> {\n    pub fn new(val: Option<T>) -> Self {\n        Nullable { val }\n    }\n\n    pub fn some(val: T) -> Self {\n        Nullable { val: Some(val) }\n    }\n\n    pub fn none() -> Self {\n        Nullable { val: None }\n    }\n\n    pub fn value(mut self, val: T) -> Self {\n        self.val = Some(val);\n        self\n    }\n\n    pub fn value_of(&self) -> Option<&T> {\n        self.val.as_ref()\n    }\n\n    pub fn into_value(self) -> Option<T> {\n        self.val\n    }\n}"@
}

pub open spec fn spec_rs_spec_texts(schemas: Seq<Schema>) -> Seq<Seq<char>> {
    schemas.map_values(|s: Schema| spec_rs_spec(s))
}

/// The generated trait declarations file.
pub open spec fn spec_generated_rs(schemas: Seq<Schema>) -> Seq<char> {
    "#[rustfmt::skip]\nuse crate::ffi::bridging::*;\nuse crate::types::*;\n\n"@ + spec_join(
        spec_rs_spec_texts(schemas),
        "\n\n"@,
    )
}

/// Whether a schema can be rendered whole: every method resolves, and it
/// hoists no alias or enum declarations (both are outside the supported
/// subset and fail the run).
pub open spec fn spec_rs_schema_ok(s: Schema) -> bool {
    crate::gen_cxx::spec_cxx_schema_ok(s) && s.aliases@.len() == 0 && s.enums@.len() == 0
}

pub open spec fn spec_rs_module_error(e: CodegenError, s: Schema) -> bool {
    &&& e.module@ == s.module_name@
    &&& {
        ||| exists|i: int|
            0 <= i < s.methods@.len() && !spec_method_ok(#[trigger] s.methods@[i])
                && spec_method_cause(e, s.methods@[i])
        ||| (s.aliases@.len() > 0 && e.construct@ == spec_variant_name(s.aliases@[0]))
        ||| (s.enums@.len() > 0 && e.construct@ == spec_variant_name(s.enums@[0]))
    }
}

pub open spec fn spec_rs_ctx_ok(schemas: Seq<Schema>) -> bool {
    forall|i: int| 0 <= i < schemas.len() ==> spec_rs_schema_ok(#[trigger] schemas[i])
}

pub open spec fn spec_rs_ctx_error(e: CodegenError, schemas: Seq<Schema>) -> bool {
    exists|i: int|
        0 <= i < schemas.len() && !spec_rs_schema_ok(#[trigger] schemas[i])
            && spec_rs_module_error(e, schemas[i])
}

impl RsTemplate {
    /// The file name each host file type is written under.
    pub fn file_path(&self, file_type: &RsFileType) -> (r: String)
        ensures
            file_type is CrateEntry ==> r@ == "lib.rs"@,
            file_type is FFIEntry ==> r@ == "ffi.rs"@,
            file_type is Generated ==> r@ == "generated.rs"@,
            file_type is Types ==> r@ == "types.rs"@,
    {
        match file_type {
            RsFileType::CrateEntry => "lib.rs".to_owned(),
            RsFileType::FFIEntry => "ffi.rs".to_owned(),
            RsFileType::Generated => "generated.rs".to_owned(),
            RsFileType::Types => "types.rs".to_owned(),
        }
    }

    /// Render one schema's trait block.
    #[verifier::loop_isolation(false)]
    pub fn rs_spec(&self, schema: &Schema) -> (r: Result<String, CodegenError>)
        ensures
            r is Ok <==> crate::gen_cxx::spec_cxx_schema_ok(*schema),
            r matches Ok(s) ==> s@ == spec_rs_spec(*schema),
            r matches Err(e) ==> crate::gen_cxx::spec_cxx_module_error(e, *schema),
    {
        let methods = &schema.methods;
        let signals = &schema.signals;
        let mut sig_lines: Vec<String> = Vec::new();
        let mut i: usize = 0;
        while i < methods.len()
            invariant
                i <= methods@.len(),
                views_of(sig_lines@) == spec_method_sig_lines(methods@.subrange(0, i as int)),
                forall|k: int| 0 <= k < i ==> spec_method_ok(#[trigger] methods@[k]),
            decreases methods@.len() - i,
        {
            let mut line = match methods[i].as_impl_sig() {
                Ok(s) => s,
                Err(e) => {
                    proof {
                        assert(!spec_method_ok(methods@[i as int]));
                    }
                    return Err(e.at_module(schema.module_name.as_str()));
                },
            };
            line.append(";");
            proof {
                lemma_views_push(sig_lines@, line);
            }
            sig_lines.push(line);
            i = i + 1;
            proof {
                let prefix = methods@.subrange(0, i - 1 as int);
                assert(methods@.subrange(0, i as int) =~= prefix.push(methods@[i - 1]));
                assert(spec_method_sig_lines(prefix.push(methods@[i - 1]))
                    =~= spec_method_sig_lines(prefix).push(
                    spec_impl_sig(methods@[i - 1]) + ";"@,
                ));
            }
        }
        proof {
            assert(methods@.subrange(0, methods@.len() as int) =~= methods@);
        }
        let sigs_joined = join_strings(&sig_lines, "\n");
        let sigs_ind = indent_str(sigs_joined.as_str(), 4);

        let mut trait_src = schema.module_name.clone();
        trait_src.append("Spec");
        let trait_name = pascal_case(trait_src.as_str());

        let mut out = String::new();
        if signals.len() > 0 {
            let mut enum_name = schema.module_name.clone();
            enum_name.append("Signal");
            let mut members: Vec<String> = Vec::new();
            let mut match_lines: Vec<String> = Vec::new();
            let mut j: usize = 0;
            while j < signals.len()
                invariant
                    j <= signals@.len(),
                    enum_name@ == spec_signal_enum_name(*schema),
                    views_of(members@) == spec_signal_members(*schema).subrange(0, j as int),
                    views_of(match_lines@) == spec_signal_match_lines(*schema).subrange(
                        0,
                        j as int,
                    ),
                decreases signals@.len() - j,
            {
                let pascal_member = pascal_case(signals[j].name.as_str());
                let mut member = pascal_member.clone();
                member.append(",");
                let mut match_line = enum_name.clone();
                match_line.append("::");
                match_line.append(pascal_member.as_str());
                match_line.append(" => manager.emit(self.id(), \"");
                match_line.append(signals[j].name.as_str());
                match_line.append("\"),");
                proof {
                    assert(member@ == spec_signal_members(*schema)[j as int]);
                    assert(match_line@ == spec_signal_match_lines(*schema)[j as int]);
                    lemma_views_push(members@, member);
                    lemma_views_push(match_lines@, match_line);
                }
                members.push(member);
                match_lines.push(match_line);
                j = j + 1;
                proof {
                    assert(views_of(members@) =~= spec_signal_members(*schema).subrange(
                        0,
                        j as int,
                    ));
                    assert(views_of(match_lines@) =~= spec_signal_match_lines(
                        *schema,
                    ).subrange(0, j as int));
                }
            }
            proof {
                assert(spec_signal_members(*schema).subrange(
                    0,
                    spec_signal_members(*schema).len() as int,
                ) =~= spec_signal_members(*schema));
                assert(spec_signal_match_lines(*schema).subrange(
                    0,
                    spec_signal_match_lines(*schema).len() as int,
                ) =~= spec_signal_match_lines(*schema));
            }
            let members_joined = join_strings(&members, "\n");
            let match_joined = join_strings(&match_lines, "\n");
            let match_ind = indent_str(match_joined.as_str(), 8);

            out.append("pub enum ");
            out.append(enum_name.as_str());
            out.append(" {\n    ");
            out.append(members_joined.as_str());
            out.append("\n}\n");
            out.append("\n");
            out.append("pub trait ");
            out.append(trait_name.as_str());
            out.append(" {\n    fn new(id: usize) -> Self;\n    fn id(&self) -> usize;\n");
            let mut emit_fn = "fn emit(&self, signal_name: ".to_owned();
            emit_fn.append(enum_name.as_str());
            emit_fn.append(
                ") {\n    let manager = crate::ffi::bridging::get_signal_manager();\n    match signal_name {\n",
            );
            emit_fn.append(match_ind.as_str());
            emit_fn.append("\n    }\n}");
            proof {
                assert(emit_fn@ =~= spec_emit_fn(*schema));
            }
            let emit_ind = indent_str(emit_fn.as_str(), 4);
            out.append(emit_ind.as_str());
            out.append("\n");
        } else {
            out.append("pub trait ");
            out.append(trait_name.as_str());
            out.append(" {\n    fn new(id: usize) -> Self;\n    fn id(&self) -> usize;\n");
        }
        out.append(sigs_ind.as_str());
        out.append("\n}");
        proof {
            assert(out@ =~= spec_rs_spec(*schema));
        }
        Ok(out)
    }

    /// Render one schema's developer stub file.
    #[verifier::loop_isolation(false)]
    pub fn rs_impl(&self, schema: &Schema) -> (r: Result<String, CodegenError>)
        ensures
            r is Ok <==> crate::gen_cxx::spec_cxx_schema_ok(*schema),
            r matches Ok(s) ==> s@ == spec_rs_impl(*schema),
            r matches Err(e) ==> crate::gen_cxx::spec_cxx_module_error(e, *schema),
    {
        let methods = &schema.methods;
        let mut stubs: Vec<String> = Vec::new();
        let mut i: usize = 0;
        while i < methods.len()
            invariant
                i <= methods@.len(),
                views_of(stubs@) == spec_stub_fns(methods@.subrange(0, i as int)),
                forall|k: int| 0 <= k < i ==> spec_method_ok(#[trigger] methods@[k]),
            decreases methods@.len() - i,
        {
            let mut stub = match methods[i].as_impl_sig() {
                Ok(s) => s,
                Err(e) => {
                    proof {
                        assert(!spec_method_ok(methods@[i as int]));
                    }
                    return Err(e.at_module(schema.module_name.as_str()));
                },
            };
            stub.append(" {\n    panic!(\"not yet implemented\");\n}");
            proof {
                lemma_views_push(stubs@, stub);
            }
            stubs.push(stub);
            i = i + 1;
            proof {
                let prefix = methods@.subrange(0, i - 1 as int);
                assert(methods@.subrange(0, i as int) =~= prefix.push(methods@[i - 1]));
                assert(spec_stub_fns(prefix.push(methods@[i - 1])) =~= spec_stub_fns(
                    prefix,
                ).push(spec_impl_sig(methods@[i - 1]) + " {\n    panic!(\"not yet implemented\");\n}"@));
            }
        }
        proof {
            assert(methods@.subrange(0, methods@.len() as int) =~= methods@);
        }
        let stubs_joined = join_strings(&stubs, "\n\n");
        let stubs_ind = indent_str(stubs_joined.as_str(), 4);
        let pascal = pascal_case(schema.module_name.as_str());
        let mut trait_src = schema.module_name.clone();
        trait_src.append("Spec");
        let trait_name = pascal_case(trait_src.as_str());

        let mut out = "use crate::ffi::bridging::*;\nuse crate::generated::*;\nuse crate::types::*;\n\npub struct "
            .to_owned();
        out.append(pascal.as_str());
        out.append(" {\n    id: usize,\n}\n\nimpl ");
        out.append(trait_name.as_str());
        out.append(" for ");
        out.append(pascal.as_str());
        out.append(" {\n    fn new(id: usize) -> Self {\n        ");
        out.append(pascal.as_str());
        out.append(" { id }\n    }\n\n    fn id(&self) -> usize {\n        self.id\n    }\n\n");
        out.append(stubs_ind.as_str());
        out.append("\n}");
        proof {
            assert(out@ =~= spec_rs_impl(*schema));
        }
        Ok(out)
    }

    /// Render the generated crate's entry file.
    #[verifier::loop_isolation(false)]
    pub fn lib_rs(&self, schemas: &Vec<Schema>) -> (r: String)
        ensures
            r@ == spec_lib_rs(schemas@),
    {
        let mut decls: Vec<String> = Vec::new();
        let mut i: usize = 0;
        while i < schemas.len()
            invariant
                i <= schemas@.len(),
                views_of(decls@) == spec_mod_decls(schemas@.subrange(0, i as int)),
            decreases schemas@.len() - i,
        {
            let im = impl_mod_name(schemas[i].module_name.as_str());
            let mut decl = "pub(crate) mod ".to_owned();
            decl.append(im.as_str());
            decl.append(";");
            proof {
                lemma_views_push(decls@, decl);
            }
            decls.push(decl);
            i = i + 1;
            proof {
                let prefix = schemas@.subrange(0, i - 1 as int);
                assert(schemas@.subrange(0, i as int) =~= prefix.push(schemas@[i - 1]));
                assert(spec_mod_decls(prefix.push(schemas@[i - 1])) =~= spec_mod_decls(
                    prefix,
                ).push("pub(crate) mod "@ + spec_impl_mod_text(schemas@[i - 1]) + ";"@));
            }
        }
        proof {
            assert(schemas@.subrange(0, schemas@.len() as int) =~= schemas@);
        }
        let decls_joined = join_strings(&decls, "\n");
        let mut out = "#[rustfmt::skip]\npub(crate) mod ffi;\npub(crate) mod generated;\npub(crate) mod types;\n\n"
            .to_owned();
        out.append(decls_joined.as_str());
        out
    }

    /// Render the generated crate's bridge file.
    #[verifier::loop_isolation(false)]
    pub fn ffi_rs(&self, schemas: &Vec<Schema>) -> (r: Result<String, CodegenError>)
        ensures
            r is Ok <==> (forall|i: int|
                0 <= i < schemas@.len() ==> crate::gen_cxx::spec_cxx_schema_ok(
                    #[trigger] schemas@[i],
                )),
            r matches Ok(s) ==> s@ == spec_ffi_rs(schemas@),
            r matches Err(e) ==> exists|i: int|
                0 <= i < schemas@.len() && !crate::gen_cxx::spec_cxx_schema_ok(
                    #[trigger] schemas@[i],
                ) && crate::gen_cxx::spec_cxx_module_error(e, schemas@[i]),
    {
        let mut use_lines: Vec<String> = Vec::new();
        let mut sigs: Vec<String> = Vec::new();
        let mut impls: Vec<String> = Vec::new();
        let mut has_signals: bool = false;
        let mut i: usize = 0;
        while i < schemas.len()
            invariant
                i <= schemas@.len(),
                views_of(use_lines@) == spec_use_lines(schemas@.subrange(0, i as int)),
                views_of(sigs@) == spec_all_extern_sigs(schemas@.subrange(0, i as int)),
                views_of(impls@) == spec_create_impl_texts(schemas@.subrange(0, i as int)),
                has_signals == exists|k: int|
                    0 <= k < i && (#[trigger] schemas@[k].signals@.len()) > 0,
                forall|k: int|
                    0 <= k < i ==> crate::gen_cxx::spec_cxx_schema_ok(#[trigger] schemas@[k]),
            decreases schemas@.len() - i,
        {
            let bridge = match schemas[i].as_rs_cxx_bridge() {
                Ok(b) => b,
                Err(e) => {
                    return Err(e);
                },
            };
            let im = impl_mod_name(schemas[i].module_name.as_str());
            let mut use_line = "use crate::".to_owned();
            use_line.append(im.as_str());
            use_line.append("::*;");
            proof {
                lemma_views_push(use_lines@, use_line);
            }
            use_lines.push(use_line);
            let ghost pre_sigs = sigs@;
            let ghost pre_impls = impls@;
            extend_strings_rs(&mut sigs, &bridge.func_extern_sigs);
            extend_strings_rs(&mut impls, &bridge.func_impls);
            proof {
                crate::text::lemma_views_concat(pre_sigs, bridge.func_extern_sigs@);
                crate::text::lemma_views_concat(pre_impls, bridge.func_impls@);
            }
            if schemas[i].signals.len() > 0 {
                has_signals = true;
            }
            i = i + 1;
            proof {
                let prefix = schemas@.subrange(0, i - 1 as int);
                assert(schemas@.subrange(0, i as int) =~= prefix.push(schemas@[i - 1]));
                assert(spec_use_lines(prefix.push(schemas@[i - 1])) =~= spec_use_lines(
                    prefix,
                ).push("use crate::"@ + spec_impl_mod_text(schemas@[i - 1]) + "::*;"@));
                lemma_all_extern_sigs_push(prefix, schemas@[i - 1]);
                assert(views_of(sigs@) =~= spec_all_extern_sigs(
                    schemas@.subrange(0, i as int),
                ));
                assert(spec_create_impl_texts(prefix.push(schemas@[i - 1]))
                    =~= spec_create_impl_texts(prefix).push(
                    spec_bridge_create_impl(schemas@[i - 1]),
                ));
                assert(views_of(impls@) =~= spec_create_impl_texts(
                    schemas@.subrange(0, i as int),
                ));
            }
        }
        proof {
            assert(schemas@.subrange(0, schemas@.len() as int) =~= schemas@);
        }
        let use_joined = join_strings(&use_lines, "\n");
        let sigs_joined = join_strings(&sigs, "\n\n");
        let sigs_ind = indent_str(sigs_joined.as_str(), 4);
        let impls_joined = join_strings(&impls, "\n\n");

        let mut inner = "extern \"Rust\" {\n".to_owned();
        inner.append(sigs_ind.as_str());
        inner.append("\n}\n");
        if has_signals {
            inner.append("\n");
            inner.append(
                "#[namespace = \"craby::signals\"]\nunsafe extern \"C++\" {\n    include!(\"signals.h\");\n\n    type SignalManager;\n\n    fn emit(self: &SignalManager, id: usize, name: &str);\n    #[rust_name = \"get_signal_manager\"]\n    fn getSignalManager() -> &'static SignalManager;\n}",
            );
        }
        proof {
            assert(has_signals == spec_ctx_has_signals(schemas@));
            assert(inner@ =~= "extern \"Rust\" {\n"@ + spec_indent(
                spec_join(spec_all_extern_sigs(schemas@), "\n\n"@),
                spec_spaces(4),
            ) + "\n}\n"@ + (if spec_ctx_has_signals(schemas@) {
                "\n"@ + spec_signal_manager_block()
            } else {
                Seq::<char>::empty()
            }));
        }
        let inner_ind = indent_str(inner.as_str(), 4);
        let mut bridge_mod = "#[cxx::bridge(namespace = \"craby::bridging\")]\npub mod bridging {\n"
            .to_owned();
        bridge_mod.append(inner_ind.as_str());
        bridge_mod.append("\n}");
        proof {
            assert(bridge_mod@ =~= spec_rs_cxx_extern(schemas@));
        }

        let mut out = "#[rustfmt::skip]\n".to_owned();
        out.append(use_joined.as_str());
        out.append("\nuse crate::generated::*;\n\nuse bridging::*;\n\n");
        out.append(bridge_mod.as_str());
        out.append("\n\n");
        out.append(impls_joined.as_str());
        proof {
            assert(out@ =~= spec_ffi_rs(schemas@));
        }
        Ok(out)
    }

    /// Render the generated crate's shared type aliases.
    pub fn types_rs(&self) -> (r: String)
        ensures
            r@ == spec_types_rs(),
    {
        "#[rustfmt::skip]\npub type Boolean = bool;\npub type Number = f64;\npub type String = std::string::String;\npub type Array<T> = Vec<T>;\npub type Promise<T> = Result<T, anyhow::Error>;\npub type Void = ();\n\npub mod promise {\n    use super::Promise;\n\n    pub fn resolve<T>(val: T) -> Promise<T> {\n        Ok(val)\n    }\n\n    pub fn rejected<T>(err: impl AsRef<str>) -> Promise<T> {\n        Err(anyhow::anyhow!(err.as_ref().to_string()))\n    }\n}\n\npub struct Nullable<T> {\n    val: Option<T>,\n}\n\nimpl<T> Nullable<T> {\n    pub fn new(val: Option<T>) -> Self {\n        Nullable { val }\n    }\n\n    pub fn some(val: T) -> Self {\n        Nullable { val: Some(val) }\n    }\n\n    pub fn none() -> Self {\n        Nullable { val: None }\n    }\n\n    pub fn value(mut self, val: T) -> Self {\n        self.val = Some(val);\n        self\n    }\n\n    pub fn value_of(&self) -> Option<&T> {\n        self.val.as_ref()\n    }\n\n    pub fn into_value(self) -> Option<T> {\n        self.val\n    }\n}".to_owned()
    }

    /// Render the generated trait declarations file. A schema that hoists
    /// alias or enum declarations is outside the supported subset and
    /// fails the run, identifying the offending construct.
    #[verifier::loop_isolation(false)]
    pub fn generated_rs(&self, schemas: &Vec<Schema>) -> (r: Result<String, CodegenError>)
        ensures
            r is Ok <==> spec_rs_ctx_ok(schemas@),
            r matches Ok(s) ==> s@ == spec_generated_rs(schemas@),
            r matches Err(e) ==> spec_rs_ctx_error(e, schemas@),
    {
        let mut texts: Vec<String> = Vec::new();
        let mut i: usize = 0;
        while i < schemas.len()
            invariant
                i <= schemas@.len(),
                views_of(texts@) == spec_rs_spec_texts(schemas@.subrange(0, i as int)),
                forall|k: int| 0 <= k < i ==> spec_rs_schema_ok(#[trigger] schemas@[k]),
            decreases schemas@.len() - i,
        {
            if schemas[i].aliases.len() > 0 {
                let construct = schemas[i].aliases[0].variant_name();
                return Err(
                    CodegenError::unsupported(construct).at_module(
                        schemas[i].module_name.as_str(),
                    ),
                );
            }
            if schemas[i].enums.len() > 0 {
                let construct = schemas[i].enums[0].variant_name();
                return Err(
                    CodegenError::unsupported(construct).at_module(
                        schemas[i].module_name.as_str(),
                    ),
                );
            }
            let text = match self.rs_spec(&schemas[i]) {
                Ok(t) => t,
                Err(e) => {
                    return Err(e);
                },
            };
            proof {
                lemma_views_push(texts@, text);
            }
            texts.push(text);
            i = i + 1;
            proof {
                let prefix = schemas@.subrange(0, i - 1 as int);
                assert(schemas@.subrange(0, i as int) =~= prefix.push(schemas@[i - 1]));
                assert(spec_rs_spec_texts(prefix.push(schemas@[i - 1])) =~= spec_rs_spec_texts(
                    prefix,
                ).push(spec_rs_spec(schemas@[i - 1])));
            }
        }
        proof {
            assert(schemas@.subrange(0, schemas@.len() as int) =~= schemas@);
        }
        let joined = join_strings(&texts, "\n\n");
        let mut out = "#[rustfmt::skip]\nuse crate::ffi::bridging::*;\nuse crate::types::*;\n\n"
            .to_owned();
        out.append(joined.as_str());
        Ok(out)
    }
}

fn extend_strings_rs(dst: &mut Vec<String>, src: &Vec<String>)
    ensures
        final(dst)@ == old(dst)@ + src@,
{
    let mut i: usize = 0;
    while i < src.len()
        invariant
            i <= src@.len(),
            dst@ == old(dst)@ + src@.subrange(0, i as int),
        decreases src@.len() - i,
    {
        dst.push(src[i].clone());
        i = i + 1;
        proof {
            assert(src@.subrange(0, i as int) =~= src@.subrange(0, i - 1 as int).push(
                src@[i - 1],
            ));
            assert(dst@ =~= old(dst)@ + src@.subrange(0, i as int));
        }
    }
    proof {
        assert(src@.subrange(0, src@.len() as int) =~= src@);
    }
}

/// The never-overwritten stub artifacts of each schema.
pub open spec fn spec_stub_artifacts(base: Seq<char>, schemas: Seq<Schema>) -> Seq<ArtifactView>
    decreases schemas.len(),
{
    if schemas.len() == 0 {
        Seq::empty()
    } else {
        seq![
            ArtifactView {
                path: spec_path_join(base, spec_impl_mod_text(schemas[0]) + ".rs"@),
                content: spec_rs_impl(schemas[0]),
                overwrite: false,
            },
        ] + spec_stub_artifacts(base, schemas.drop_first())
    }
}

pub proof fn lemma_stub_artifacts_push(base: Seq<char>, s: Seq<Schema>, x: Schema)
    ensures
        spec_stub_artifacts(base, s.push(x)) == spec_stub_artifacts(base, s).push(
            ArtifactView {
                path: spec_path_join(base, spec_impl_mod_text(x) + ".rs"@),
                content: spec_rs_impl(x),
                overwrite: false,
            },
        ),
    decreases s.len(),
{
    if s.len() == 0 {
        assert(s.push(x)[0] == x);
        assert(s.push(x).drop_first() =~= Seq::<Schema>::empty());
        assert(spec_stub_artifacts(base, Seq::<Schema>::empty()) == Seq::<ArtifactView>::empty());
        assert(spec_stub_artifacts(base, s.push(x)) =~= spec_stub_artifacts(base, s).push(
            ArtifactView {
                path: spec_path_join(base, spec_impl_mod_text(x) + ".rs"@),
                content: spec_rs_impl(x),
                overwrite: false,
            },
        ));
    } else {
        assert(s.push(x)[0] == s[0]);
        assert(s.push(x).drop_first() =~= s.drop_first().push(x));
        lemma_stub_artifacts_push(base, s.drop_first(), x);
        assert(spec_stub_artifacts(base, s.push(x)) =~= spec_stub_artifacts(base, s).push(
            ArtifactView {
                path: spec_path_join(base, spec_impl_mod_text(x) + ".rs"@),
                content: spec_rs_impl(x),
                overwrite: false,
            },
        ));
    }
}

/// The host-side sources directory of the generated crate.
pub open spec fn spec_rs_base(root: Seq<char>) -> Seq<char> {
    spec_path_join(spec_path_join(spec_path_join(root, "crates"@), "lib"@), "src"@)
}

/// All host-binding artifacts of one pass: the four regenerated files,
/// then one never-overwritten stub per schema.
pub open spec fn spec_rs_artifacts(ctx: CodegenContext) -> Seq<ArtifactView> {
    seq![
        ArtifactView {
            path: spec_path_join(spec_rs_base(ctx.root@), "lib.rs"@),
            content: spec_lib_rs(ctx.schemas@),
            overwrite: true,
        },
        ArtifactView {
            path: spec_path_join(spec_rs_base(ctx.root@), "ffi.rs"@),
            content: spec_ffi_rs(ctx.schemas@),
            overwrite: true,
        },
        ArtifactView {
            path: spec_path_join(spec_rs_base(ctx.root@), "generated.rs"@),
            content: spec_generated_rs(ctx.schemas@),
            overwrite: true,
        },
        ArtifactView {
            path: spec_path_join(spec_rs_base(ctx.root@), "types.rs"@),
            content: spec_types_rs(),
            overwrite: true,
        },
    ] + spec_stub_artifacts(spec_rs_base(ctx.root@), ctx.schemas@)
}

impl RsGenerator {
    pub fn new() -> (r: RsGenerator) {
        RsGenerator
    }

    /// Produce all host-binding artifacts.
    #[verifier::loop_isolation(false)]
    #[verifier::rlimit(60)]
    pub fn generate_artifacts(&self, ctx: &CodegenContext) -> (r: Result<
        Vec<TemplateResult>,
        CodegenError,
    >)
        ensures
            r is Ok <==> spec_rs_ctx_ok(ctx.schemas@),
            r matches Ok(v) ==> artifact_views(v@) == spec_rs_artifacts(*ctx),
            r matches Err(e) ==> spec_rs_ctx_error(e, ctx.schemas@),
    {
        let template = RsTemplate;
        let crate_d = crate::constants::crate_dir(ctx.root.as_str());
        let base = path_join(crate_d.as_str(), "src");
        let lib_content = template.lib_rs(&ctx.schemas);
        let ffi_content = match template.ffi_rs(&ctx.schemas) {
            Ok(c) => c,
            Err(e) => {
                proof {
                    let j = choose|j: int|
                        0 <= j < ctx.schemas@.len() && !crate::gen_cxx::spec_cxx_schema_ok(
                            #[trigger] ctx.schemas@[j],
                        ) && crate::gen_cxx::spec_cxx_module_error(e, ctx.schemas@[j]);
                    assert(!spec_rs_schema_ok(ctx.schemas@[j]));
                }
                return Err(e);
            },
        };
        let generated_content = match template.generated_rs(&ctx.schemas) {
            Ok(c) => c,
            Err(e) => {
                return Err(e);
            },
        };
        let types_content = template.types_rs();
        let mut results: Vec<TemplateResult> = Vec::new();
        results.push(
            TemplateResult {
                path: path_join(base.as_str(), "lib.rs"),
                content: lib_content,
                overwrite: true,
            },
        );
        results.push(
            TemplateResult {
                path: path_join(base.as_str(), "ffi.rs"),
                content: ffi_content,
                overwrite: true,
            },
        );
        results.push(
            TemplateResult {
                path: path_join(base.as_str(), "generated.rs"),
                content: generated_content,
                overwrite: true,
            },
        );
        results.push(
            TemplateResult {
                path: path_join(base.as_str(), "types.rs"),
                content: types_content,
                overwrite: true,
            },
        );
        proof {
            assert(artifact_views(results@) =~= spec_rs_artifacts(*ctx).subrange(0, 4));
        }
        let schemas = &ctx.schemas;
        let mut i: usize = 0;
        while i < schemas.len()
            invariant
                i <= schemas@.len(),
                base@ == spec_rs_base(ctx.root@),
                artifact_views(results@) == spec_rs_artifacts(*ctx).subrange(0, 4)
                    + spec_stub_artifacts(spec_rs_base(ctx.root@), schemas@.subrange(0, i as int)),
                forall|k: int|
                    0 <= k < schemas@.len() ==> spec_rs_schema_ok(#[trigger] schemas@[k]),
            decreases schemas@.len() - i,
        {
            let stub_content = match template.rs_impl(&schemas[i]) {
                Ok(c) => c,
                Err(e) => {
                    return Err(e);
                },
            };
            let im = impl_mod_name(schemas[i].module_name.as_str());
            let mut file = im;
            file.append(".rs");
            let res = TemplateResult {
                path: path_join(base.as_str(), file.as_str()),
                content: stub_content,
                overwrite: false,
            };
            proof {
                crate::gen_types::lemma_artifact_views_push(results@, res);
            }
            results.push(res);
            i = i + 1;
            proof {
                let prefix = schemas@.subrange(0, i - 1 as int);
                assert(schemas@.subrange(0, i as int) =~= prefix.push(schemas@[i - 1]));
                lemma_stub_artifacts_push(spec_rs_base(ctx.root@), prefix, schemas@[i - 1]);
                assert(artifact_views(results@) =~= spec_rs_artifacts(*ctx).subrange(0, 4)
                    + spec_stub_artifacts(
                    spec_rs_base(ctx.root@),
                    schemas@.subrange(0, i as int),
                ));
            }
        }
        proof {
            assert(schemas@.subrange(0, schemas@.len() as int) =~= schemas@);
            assert(spec_rs_artifacts(*ctx).subrange(0, 4) + spec_stub_artifacts(
                spec_rs_base(ctx.root@),
                schemas@,
            ) =~= spec_rs_artifacts(*ctx));
        }
        Ok(results)
    }
}

impl Template for RsTemplate {
    type FileType = RsFileType;

    fn render(&self, ctx: &CodegenContext, file_type: &Self::FileType) -> Result<
        Vec<TemplateResult>,
        CodegenError,
    > {
        let name = self.file_path(file_type);
        let content = match file_type {
            RsFileType::CrateEntry => self.lib_rs(&ctx.schemas),
            RsFileType::FFIEntry => {
                match self.ffi_rs(&ctx.schemas) {
                    Ok(c) => c,
                    Err(e) => {
                        return Err(e);
                    },
                }
            },
            RsFileType::Generated => {
                match self.generated_rs(&ctx.schemas) {
                    Ok(c) => c,
                    Err(e) => {
                        return Err(e);
                    },
                }
            },
            RsFileType::Types => self.types_rs(),
        };
        let mut results: Vec<TemplateResult> = Vec::new();
        results.push(TemplateResult { path: name, content, overwrite: true });
        Ok(results)
    }
}

impl Generator<RsTemplate> for RsGenerator {
    /// The host generator writes into fixed destinations: nothing is
    /// cleaned up by name.
    fn cleanup_matches(file_name: &str) -> (r: bool)
        ensures
            r == false,
    {
        false
    }

    fn generate(&self, ctx: &CodegenContext) -> Result<Vec<TemplateResult>, CodegenError> {
        self.generate_artifacts(ctx)
    }

    fn template_ref(&self) -> &RsTemplate {
        &RsTemplate
    }
}

impl GeneratorInvoker for RsGenerator {
    fn invoke_generate(&self, ctx: &CodegenContext) -> Result<Vec<TemplateResult>, CodegenError> {
        self.generate(ctx)
    }
}

} // verus!
