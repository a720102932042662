//! Platform FFI emission: one exported function per schema method, with
//! platform-mandated naming and marshalling. The managed-runtime ABI
//! (Android/JNI) uses a long mangled name and two leading runtime
//! parameters; the native ABI (iOS/C) exports the bare method name.

use vstd::prelude::*;
use vstd::string::StringExecFns;

use crate::env::Platform;
use crate::errors::CodegenError;
use crate::resolver::{is_string_family, is_supported_base, spec_ffi_text, spec_rust_type, Type};
use crate::schema::{spec_unwrap_nullable, FunctionSpec, Parameter, TypeAnnotation};
use crate::text::{
    join_strings, lemma_views_push, pascal_case, pascal_of, push_char, sanitize_str, spec_join,
    spec_sanitize, views_of,
};
use crate::emit::{spec_method_error, spec_method_ok, spec_param_ok, spec_params_ok};

verus! {

/// Every dot replaced by an underscore, as JNI symbol mangling asks of a
/// package path.
pub open spec fn spec_dots_to_underscores(s: Seq<char>) -> Seq<char> {
    s.map_values(|c: char| if c == '.' { '_' } else { c })
}

pub fn dots_to_underscores(value: &str) -> (r: String)
    ensures
        r@ == spec_dots_to_underscores(value@),
{
    let n: usize = vstd::string::StrSliceExecFns::unicode_len(value);
    let mut out = String::new();
    let mut i: usize = 0;
    while i < n
        invariant
            i <= n,
            n == value@.len(),
            out@ == spec_dots_to_underscores(value@.subrange(0, i as int)),
        decreases n - i,
    {
        let c = vstd::string::StrSliceExecFns::get_char(value, i);
        if c == '.' {
            push_char(&mut out, '_');
        } else {
            push_char(&mut out, c);
        }
        i = i + 1;
        assert(value@.subrange(0, i as int) =~= value@.subrange(0, i - 1 as int).push(
            value@[i - 1],
        ));
        assert(out@ =~= spec_dots_to_underscores(value@.subrange(0, i as int)));
    }
    proof {
        assert(value@.subrange(0, n as int) =~= value@);
    }
    out
}

/// The JNI export name for one method: the mangled package path, the
/// wrapping class, and the method name in Pascal case behind `native`.
pub open spec fn spec_jni_fn_name(name: Seq<char>, pkg: Seq<char>, class: Seq<char>) -> Seq<
    char,
> {
    "Java_"@ + spec_dots_to_underscores(pkg) + "_"@ + class + "_native"@ + pascal_of(name)
}

/// Build the JNI export name for a method.
pub fn to_jni_fn_name(name: &String, java_package_name: &String, class_name: &String) -> (r:
    String)
    ensures
        r@ == spec_jni_fn_name(name@, java_package_name@, class_name@),
{
    let mut out = "Java_".to_owned();
    let pkg = dots_to_underscores(java_package_name.as_str());
    out.append(pkg.as_str());
    out.append("_");
    out.append(class_name.as_str());
    out.append("_native");
    let pascal = pascal_case(name.as_str());
    out.append(pascal.as_str());
    out
}

/// A rendered FFI parameter: `name: FfiType`.
pub open spec fn spec_ffi_param_text(p: Parameter, platform: Platform) -> Seq<char> {
    p.name@ + ": "@ + spec_ffi_text(spec_unwrap_nullable(p.type_annotation).0, platform)
}

pub open spec fn spec_ffi_param_texts(params: Seq<Parameter>, platform: Platform) -> Seq<
    Seq<char>,
> {
    params.map_values(|p: Parameter| spec_ffi_param_text(p, platform))
}

pub proof fn lemma_ffi_param_texts_push(s: Seq<Parameter>, x: Parameter, platform: Platform)
    ensures
        spec_ffi_param_texts(s.push(x), platform) == spec_ffi_param_texts(s, platform).push(
            spec_ffi_param_text(x, platform),
        ),
{
    assert(spec_ffi_param_texts(s.push(x), platform) =~= spec_ffi_param_texts(s, platform).push(
        spec_ffi_param_text(x, platform),
    ));
}

/// Whether a method's FFI entry point needs any marshalling: its return
/// type or any parameter is a string type.
pub open spec fn spec_needs_interop(f: FunctionSpec) -> bool {
    match f.type_annotation {
        TypeAnnotation::FunctionTypeAnnotation { return_type_annotation, params } => {
            is_string_family(*return_type_annotation) || exists|i: int|
                0 <= i < params@.len() && is_string_family(
                    spec_unwrap_nullable(#[trigger] params@[i].type_annotation).0,
                )
        },
        _ => false,
    }
}

/// Whether `needs_interop` can answer: a method that is not
/// function-shaped is simply reported as needing no marshalling.
pub open spec fn spec_needs_interop_ok(f: FunctionSpec) -> bool {
    !(f.type_annotation is FunctionTypeAnnotation) || spec_method_ok(f)
}

/// The marshalling statement emitted for one string parameter.
pub open spec fn spec_conv_line(p: Parameter, platform: Platform) -> Seq<char> {
    match platform {
        Platform::Android => {
            "    let "@ + p.name@ + " = "@ + "String::from_native"@ + "("@ + p.name@
                + ", &mut env).unwrap();"@
        },
        Platform::Ios => {
            "    let "@ + p.name@ + " = "@ + "String::from_native"@ + "("@ + p.name@
                + ").unwrap();"@
        },
    }
}

/// The marshalling statements of a parameter list, in order: one line per
/// string parameter, none for the others.
pub open spec fn spec_conv_lines(params: Seq<Parameter>, platform: Platform) -> Seq<Seq<char>>
    decreases params.len(),
{
    if params.len() == 0 {
        Seq::empty()
    } else {
        let rest = spec_conv_lines(params.drop_first(), platform);
        if is_string_family(spec_unwrap_nullable(params[0].type_annotation).0) {
            seq![spec_conv_line(params[0], platform)] + rest
        } else {
            rest
        }
    }
}

pub proof fn lemma_conv_lines_push(s: Seq<Parameter>, x: Parameter, platform: Platform)
    ensures
        spec_conv_lines(s.push(x), platform) == if is_string_family(
            spec_unwrap_nullable(x.type_annotation).0,
        ) {
            spec_conv_lines(s, platform).push(spec_conv_line(x, platform))
        } else {
            spec_conv_lines(s, platform)
        },
    decreases s.len(),
{
    let stringy = is_string_family(spec_unwrap_nullable(x.type_annotation).0);
    if s.len() == 0 {
        assert(s.push(x)[0] == x);
        assert(s.push(x).drop_first() =~= Seq::<Parameter>::empty());
        assert(spec_conv_lines(Seq::<Parameter>::empty(), platform) == Seq::<Seq<char>>::empty());
        assert(spec_conv_lines(s, platform) == Seq::<Seq<char>>::empty());
        if stringy {
            assert(spec_conv_lines(s.push(x), platform) == seq![spec_conv_line(x, platform)]
                + Seq::<Seq<char>>::empty());
            assert(seq![spec_conv_line(x, platform)] + Seq::<Seq<char>>::empty() =~= Seq::<
                Seq<char>,
            >::empty().push(spec_conv_line(x, platform)));
        } else {
            assert(spec_conv_lines(s.push(x), platform) == Seq::<Seq<char>>::empty());
        }
    } else {
        assert(s.push(x)[0] == s[0]);
        assert(s.push(x).drop_first() =~= s.drop_first().push(x));
        lemma_conv_lines_push(s.drop_first(), x, platform);
        let rest_pushed = spec_conv_lines(s.drop_first().push(x), platform);
        assert(spec_conv_lines(s.push(x), platform) == if is_string_family(
            spec_unwrap_nullable(s[0].type_annotation).0,
        ) {
            seq![spec_conv_line(s[0], platform)] + rest_pushed
        } else {
            rest_pushed
        });
        if is_string_family(spec_unwrap_nullable(s[0].type_annotation).0) {
            if stringy {
                assert(seq![spec_conv_line(s[0], platform)] + spec_conv_lines(
                    s.drop_first(),
                    platform,
                ).push(spec_conv_line(x, platform)) =~= (seq![spec_conv_line(s[0], platform)]
                    + spec_conv_lines(s.drop_first(), platform)).push(
                    spec_conv_line(x, platform),
                ));
            }
        }
    }
}

/// The marshalling block above a generated FFI body: the statements
/// joined by newlines, with a trailing newline — or nothing at all.
pub open spec fn spec_conv_block(params: Seq<Parameter>, platform: Platform) -> Seq<char> {
    let lines = spec_conv_lines(params, platform);
    if lines.len() == 0 {
        Seq::<char>::empty()
    } else {
        spec_join(lines, "\n"@) + "\n"@
    }
}

pub open spec fn spec_args_text(params: Seq<Parameter>) -> Seq<char> {
    spec_join(crate::emit::spec_arg_views(params), ", "@)
}

/// The dispatching call at the heart of a generated FFI body.
pub open spec fn spec_ffi_call(f: FunctionSpec, lib: Seq<char>, mod_name: Seq<char>) -> Seq<
    char,
> {
    match f.type_annotation {
        TypeAnnotation::FunctionTypeAnnotation { params, .. } => {
            lib + "::"@ + mod_name + "::"@ + spec_sanitize(f.name@) + "("@ + spec_args_text(
                params@,
            ) + ")"@
        },
        _ => Seq::<char>::empty(),
    }
}

/// The body of a generated FFI function: the marshalling block, then the
/// dispatching call — bound and converted when the return value itself
/// needs marshalling, returned directly otherwise.
pub open spec fn spec_ffi_body(
    f: FunctionSpec,
    lib: Seq<char>,
    mod_name: Seq<char>,
    platform: Platform,
) -> Seq<char> {
    match f.type_annotation {
        TypeAnnotation::FunctionTypeAnnotation { return_type_annotation, params } => {
            let conv = spec_conv_block(params@, platform);
            if is_string_family(*return_type_annotation) {
                let tail = match platform {
                    Platform::Android => ");\n    ret.to_native(&mut env).unwrap()"@,
                    Platform::Ios => ");\n    ret.to_native().unwrap()"@,
                };
                conv + "    let ret = "@ + lib + "::"@ + mod_name + "::"@ + spec_sanitize(f.name@)
                    + "("@ + spec_args_text(params@) + tail
            } else {
                conv + "    "@ + lib + "::"@ + mod_name + "::"@ + spec_sanitize(f.name@) + "("@
                    + spec_args_text(params@) + ")"@
            }
        },
        _ => Seq::<char>::empty(),
    }
}

/// The return annotation of a generated FFI function: nothing for void.
pub open spec fn spec_ffi_ret_annotation(f: FunctionSpec, platform: Platform) -> Seq<char> {
    match f.type_annotation {
        TypeAnnotation::FunctionTypeAnnotation { return_type_annotation, .. } => {
            if *return_type_annotation is VoidTypeAnnotation {
                Seq::<char>::empty()
            } else {
                " -> "@ + spec_ffi_text(*return_type_annotation, platform)
            }
        },
        _ => Seq::<char>::empty(),
    }
}

/// The parameter list of a generated Android FFI function: the runtime
/// environment handle (mutable exactly when some marshalling needs it),
/// the calling-class handle, then the method's own parameters.
pub open spec fn spec_android_params_sig(f: FunctionSpec) -> Seq<char> {
    match f.type_annotation {
        TypeAnnotation::FunctionTypeAnnotation { params, .. } => {
            let env_param = if spec_needs_interop(f) {
                "mut env: JNIEnv"@
            } else {
                "_env: JNIEnv"@
            };
            spec_join(
                seq![
                    env_param,
                    "_class: JObject"@,
                    spec_join(spec_ffi_param_texts(params@, Platform::Android), ", "@),
                ],
                ", "@,
            )
        },
        _ => Seq::<char>::empty(),
    }
}

/// A whole generated Android FFI function.
pub open spec fn spec_android_ffi_fn(
    f: FunctionSpec,
    lib: Seq<char>,
    mod_name: Seq<char>,
    pkg: Seq<char>,
    class: Seq<char>,
) -> Seq<char> {
    "#[no_mangle]\npub extern \"C\" fn "@ + spec_jni_fn_name(f.name@, pkg, class) + "("@
        + spec_android_params_sig(f) + ")"@ + spec_ffi_ret_annotation(f, Platform::Android)
        + " {\n"@ + spec_ffi_body(f, lib, mod_name, Platform::Android) + "\n}"@
}

/// A whole generated iOS FFI function: the bare method name, C types.
pub open spec fn spec_ios_ffi_fn(f: FunctionSpec, lib: Seq<char>, mod_name: Seq<char>) -> Seq<
    char,
> {
    match f.type_annotation {
        TypeAnnotation::FunctionTypeAnnotation { params, .. } => {
            "#[no_mangle]\npub extern \"C\" fn "@ + f.name@ + "("@ + spec_join(
                spec_ffi_param_texts(params@, Platform::Ios),
                ", "@,
            ) + ")"@ + spec_ffi_ret_annotation(f, Platform::Ios) + " {\n"@ + spec_ffi_body(
                f,
                lib,
                mod_name,
                Platform::Ios,
            ) + "\n}"@
        },
        _ => Seq::<char>::empty(),
    }
}

impl Parameter {
    /// Render this parameter with its platform FFI type.
    pub fn to_ffi_param(&self, platform: Platform) -> (r: Result<String, CodegenError>)
        ensures
            r is Ok <==> spec_param_ok(*self),
            r matches Ok(s) ==> s@ == spec_ffi_param_text(*self, platform),
            r matches Err(e) ==> {
                &&& e.construct@ == crate::resolver::spec_variant_name(
                    spec_unwrap_nullable(self.type_annotation).0,
                )
                &&& e.param@ == self.name@
                &&& e.method@ == Seq::<char>::empty()
                &&& e.module@ == Seq::<char>::empty()
            },
    {
        let (inner, _nullable) = self.type_annotation.unwrap_nullable();
        let ffi_type = match inner.to_ffi_type(platform) {
            Ok(t) => t,
            Err(e) => {
                return Err(e.at_param(self.name.as_str()));
            },
        };
        let mut out = self.name.clone();
        out.append(": ");
        out.append(ffi_type.as_str());
        Ok(out)
    }
}

impl FunctionSpec {
    /// Whether this method's FFI entry point needs any marshalling. A
    /// method that is not function-shaped needs none.
    #[verifier::loop_isolation(false)]
    pub fn needs_interop(&self, platform: Platform) -> (r: Result<bool, CodegenError>)
        ensures
            r is Ok <==> spec_needs_interop_ok(*self),
            r matches Ok(b) ==> b == spec_needs_interop(*self),
            r matches Err(e) ==> spec_method_error(e, *self),
    {
        match &self.type_annotation {
            TypeAnnotation::FunctionTypeAnnotation { return_type_annotation, params } => {
                let ret_interop = match return_type_annotation.get_interop_info(platform) {
                    Ok(x) => x,
                    Err(e) => {
                        return Err(e.at_method(self.name.as_str()));
                    },
                };
                let mut found: bool = false;
                let mut i: usize = 0;
                while i < params.len()
                    invariant
                        i <= params@.len(),
                        forall|k: int| 0 <= k < i ==> spec_param_ok(#[trigger] params@[k]),
                        found == exists|k: int|
                            0 <= k < i && is_string_family(
                                spec_unwrap_nullable(#[trigger] params@[k].type_annotation).0,
                            ),
                    decreases params@.len() - i,
                {
                    let (inner, _nullable) = params[i].type_annotation.unwrap_nullable();
                    match inner.get_interop_info(platform) {
                        Ok(io) => {
                            if io.import_module.is_some() {
                                proof {
                                    assert(is_string_family(
                                        spec_unwrap_nullable(params@[i as int].type_annotation).0,
                                    ));
                                }
                                found = true;
                            }
                        },
                        Err(e) => {
                            proof {
                                assert(!spec_param_ok(params@[i as int]));
                                assert(!spec_params_ok(params@));
                            }
                            return Err(
                                e.at_param(params[i].name.as_str()).at_method(
                                    self.name.as_str(),
                                ),
                            );
                        },
                    }
                    i = i + 1;
                }
                Ok(found || ret_interop.import_module.is_some())
            },
            _ => Ok(false),
        }
    }

    /// Render this method as an exported Android (JNI) FFI function.
    #[verifier::loop_isolation(false)]
    pub fn to_android_ffi_fn(
        &self,
        lib_name: &String,
        mod_name: &String,
        java_package_name: &String,
        class_name: &String,
    ) -> (r: Result<String, CodegenError>)
        ensures
            r is Ok <==> spec_method_ok(*self),
            r matches Ok(s) ==> s@ == spec_android_ffi_fn(
                *self,
                lib_name@,
                mod_name@,
                java_package_name@,
                class_name@,
            ),
            r matches Err(e) ==> spec_method_error(e, *self),
    {
        match &self.type_annotation {
            TypeAnnotation::FunctionTypeAnnotation { return_type_annotation, params } => {
                let needs = match self.needs_interop(Platform::Android) {
                    Ok(b) => b,
                    Err(e) => {
                        return Err(e);
                    },
                };
                let jni_fn_name = to_jni_fn_name(&self.name, java_package_name, class_name);
                let ret_interop = match return_type_annotation.get_interop_info(
                    Platform::Android,
                ) {
                    Ok(x) => x,
                    Err(e) => {
                        return Err(e.at_method(self.name.as_str()));
                    },
                };
                let mut ptexts: Vec<String> = Vec::new();
                let mut conv_lines: Vec<String> = Vec::new();
                let mut args: Vec<String> = Vec::new();
                let mut i: usize = 0;
                while i < params.len()
                    invariant
                        i <= params@.len(),
                        views_of(ptexts@) == spec_ffi_param_texts(
                            params@.subrange(0, i as int),
                            Platform::Android,
                        ),
                        views_of(conv_lines@) == spec_conv_lines(
                            params@.subrange(0, i as int),
                            Platform::Android,
                        ),
                        views_of(args@) == crate::emit::spec_arg_views(
                            params@.subrange(0, i as int),
                        ),
                        forall|k: int| 0 <= k < i ==> spec_param_ok(#[trigger] params@[k]),
                    decreases params@.len() - i,
                {
                    let pt = match params[i].to_ffi_param(Platform::Android) {
                        Ok(t) => t,
                        Err(e) => {
                            proof {
                                assert(!spec_param_ok(params@[i as int]));
                                assert(!spec_params_ok(params@));
                            }
                            return Err(e.at_method(self.name.as_str()));
                        },
                    };
                    let (inner, _nullable) = params[i].type_annotation.unwrap_nullable();
                    let interop_info = match inner.get_interop_info(Platform::Android) {
                        Ok(x) => x,
                        Err(e) => {
                            proof {
                                assert(!spec_param_ok(params@[i as int]));
                                assert(!spec_params_ok(params@));
                            }
                            return Err(
                                e.at_param(params[i].name.as_str()).at_method(
                                    self.name.as_str(),
                                ),
                            );
                        },
                    };
                    match interop_info.from_ffi_fn {
                        Some(from_ffi_fn) => {
                            let mut line = "    let ".to_owned();
                            line.append(params[i].name.as_str());
                            line.append(" = ");
                            line.append(from_ffi_fn.as_str());
                            line.append("(");
                            line.append(params[i].name.as_str());
                            line.append(", &mut env).unwrap();");
                            proof {
                                assert(is_string_family(
                                    spec_unwrap_nullable(params@[i as int].type_annotation).0,
                                ));
                                assert(line@ == spec_conv_line(
                                    params@[i as int],
                                    Platform::Android,
                                ));
                                lemma_views_push(conv_lines@, line);
                            }
                            conv_lines.push(line);
                        },
                        None => {
                            proof {
                                assert(!is_string_family(
                                    spec_unwrap_nullable(params@[i as int].type_annotation).0,
                                ));
                            }
                        },
                    }
                    let nm = params[i].name.clone();
                    proof {
                        lemma_views_push(args@, nm);
                        lemma_views_push(ptexts@, pt);
                    }
                    args.push(nm);
                    ptexts.push(pt);
                    i = i + 1;
                    proof {
                        let prefix = params@.subrange(0, i - 1 as int);
                        assert(params@.subrange(0, i as int) =~= prefix.push(params@[i - 1]));
                        lemma_ffi_param_texts_push(prefix, params@[i - 1], Platform::Android);
                        lemma_conv_lines_push(prefix, params@[i - 1], Platform::Android);
                        crate::emit::lemma_arg_views_push(prefix, params@[i - 1]);
                    }
                }
                proof {
                    assert(params@.subrange(0, params@.len() as int) =~= params@);
                }
                let own_params_sig = join_strings(&ptexts, ", ");
                let env_param = if needs {
                    "mut env: JNIEnv".to_owned()
                } else {
                    "_env: JNIEnv".to_owned()
                };
                let mut sig_parts: Vec<String> = Vec::new();
                sig_parts.push(env_param);
                sig_parts.push("_class: JObject".to_owned());
                sig_parts.push(own_params_sig);
                let params_sig = join_strings(&sig_parts, ", ");
                proof {
                    assert(views_of(sig_parts@) =~= seq![
                        if spec_needs_interop(*self) {
                            "mut env: JNIEnv"@
                        } else {
                            "_env: JNIEnv"@
                        },
                        "_class: JObject"@,
                        spec_join(
                            spec_ffi_param_texts(params@, Platform::Android),
                            ", "@,
                        ),
                    ]);
                }
                let args_text = join_strings(&args, ", ");
                let conv_block = if conv_lines.len() == 0 {
                    String::new()
                } else {
                    let mut cb = join_strings(&conv_lines, "\n");
                    cb.append("\n");
                    cb
                };
                let sanitized = sanitize_str(self.name.as_str());
                let mut body = conv_block;
                match ret_interop.to_ffi_fn {
                    Some(_to_ffi_fn) => {
                        proof {
                            assert(is_string_family(**return_type_annotation));
                        }
                        body.append("    let ret = ");
                        body.append(lib_name.as_str());
                        body.append("::");
                        body.append(mod_name.as_str());
                        body.append("::");
                        body.append(sanitized.as_str());
                        body.append("(");
                        body.append(args_text.as_str());
                        body.append(");\n    ret.to_native(&mut env).unwrap()");
                    },
                    None => {
                        proof {
                            assert(!is_string_family(**return_type_annotation));
                        }
                        body.append("    ");
                        body.append(lib_name.as_str());
                        body.append("::");
                        body.append(mod_name.as_str());
                        body.append("::");
                        body.append(sanitized.as_str());
                        body.append("(");
                        body.append(args_text.as_str());
                        body.append(")");
                    },
                }
                let mut out = "#[no_mangle]\npub extern \"C\" fn ".to_owned();
                out.append(jni_fn_name.as_str());
                out.append("(");
                out.append(params_sig.as_str());
                out.append(")");
                match **return_type_annotation {
                    TypeAnnotation::VoidTypeAnnotation => {},
                    _ => {
                        out.append(" -> ");
                        let rt = match return_type_annotation.to_ffi_type(Platform::Android) {
                            Ok(t) => t,
                            Err(e) => {
                                return Err(e.at_method(self.name.as_str()));
                            },
                        };
                        out.append(rt.as_str());
                    },
                }
                out.append(" {\n");
                out.append(body.as_str());
                out.append("\n}");
                proof {
                    assert(out@ =~= spec_android_ffi_fn(
                        *self,
                        lib_name@,
                        mod_name@,
                        java_package_name@,
                        class_name@,
                    ));
                }
                Ok(out)
            },
            _ => Err(
                CodegenError::unsupported(self.type_annotation.variant_name()).at_method(
                    self.name.as_str(),
                ),
            ),
        }
    }

    /// Render this method as an exported iOS (C ABI) FFI function.
    #[verifier::loop_isolation(false)]
    pub fn to_ios_ffi_fn(&self, lib_name: &String, mod_name: &String) -> (r: Result<
        String,
        CodegenError,
    >)
        ensures
            r is Ok <==> spec_method_ok(*self),
            r matches Ok(s) ==> s@ == spec_ios_ffi_fn(*self, lib_name@, mod_name@),
            r matches Err(e) ==> spec_method_error(e, *self),
    {
        match &self.type_annotation {
            TypeAnnotation::FunctionTypeAnnotation { return_type_annotation, params } => {
                let ret_interop = match return_type_annotation.get_interop_info(Platform::Ios) {
                    Ok(x) => x,
                    Err(e) => {
                        return Err(e.at_method(self.name.as_str()));
                    },
                };
                let mut ptexts: Vec<String> = Vec::new();
                let mut conv_lines: Vec<String> = Vec::new();
                let mut args: Vec<String> = Vec::new();
                let mut i: usize = 0;
                while i < params.len()
                    invariant
                        i <= params@.len(),
                        views_of(ptexts@) == spec_ffi_param_texts(
                            params@.subrange(0, i as int),
                            Platform::Ios,
                        ),
                        views_of(conv_lines@) == spec_conv_lines(
                            params@.subrange(0, i as int),
                            Platform::Ios,
                        ),
                        views_of(args@) == crate::emit::spec_arg_views(
                            params@.subrange(0, i as int),
                        ),
                        forall|k: int| 0 <= k < i ==> spec_param_ok(#[trigger] params@[k]),
                    decreases params@.len() - i,
                {
                    let pt = match params[i].to_ffi_param(Platform::Ios) {
                        Ok(t) => t,
                        Err(e) => {
                            proof {
                                assert(!spec_param_ok(params@[i as int]));
                                assert(!spec_params_ok(params@));
                            }
                            return Err(e.at_method(self.name.as_str()));
                        },
                    };
                    let (inner, _nullable) = params[i].type_annotation.unwrap_nullable();
                    let interop_info = match inner.get_interop_info(Platform::Ios) {
                        Ok(x) => x,
                        Err(e) => {
                            proof {
                                assert(!spec_param_ok(params@[i as int]));
                                assert(!spec_params_ok(params@));
                            }
                            return Err(
                                e.at_param(params[i].name.as_str()).at_method(
                                    self.name.as_str(),
                                ),
                            );
                        },
                    };
                    match interop_info.from_ffi_fn {
                        Some(from_ffi_fn) => {
                            let mut line = "    let ".to_owned();
                            line.append(params[i].name.as_str());
                            line.append(" = ");
                            line.append(from_ffi_fn.as_str());
                            line.append("(");
                            line.append(params[i].name.as_str());
                            line.append(").unwrap();");
                            proof {
                                assert(is_string_family(
                                    spec_unwrap_nullable(params@[i as int].type_annotation).0,
                                ));
                                assert(line@ == spec_conv_line(params@[i as int], Platform::Ios));
                                lemma_views_push(conv_lines@, line);
                            }
                            conv_lines.push(line);
                        },
                        None => {
                            proof {
                                assert(!is_string_family(
                                    spec_unwrap_nullable(params@[i as int].type_annotation).0,
                                ));
                            }
                        },
                    }
                    let nm = params[i].name.clone();
                    proof {
                        lemma_views_push(args@, nm);
                        lemma_views_push(ptexts@, pt);
                    }
                    args.push(nm);
                    ptexts.push(pt);
                    i = i + 1;
                    proof {
                        let prefix = params@.subrange(0, i - 1 as int);
                        assert(params@.subrange(0, i as int) =~= prefix.push(params@[i - 1]));
                        lemma_ffi_param_texts_push(prefix, params@[i - 1], Platform::Ios);
                        lemma_conv_lines_push(prefix, params@[i - 1], Platform::Ios);
                        crate::emit::lemma_arg_views_push(prefix, params@[i - 1]);
                    }
                }
                proof {
                    assert(params@.subrange(0, params@.len() as int) =~= params@);
                }
                let params_sig = join_strings(&ptexts, ", ");
                let args_text = join_strings(&args, ", ");
                let conv_block = if conv_lines.len() == 0 {
                    String::new()
                } else {
                    let mut cb = join_strings(&conv_lines, "\n");
                    cb.append("\n");
                    cb
                };
                let sanitized = sanitize_str(self.name.as_str());
                let mut body = conv_block;
                match ret_interop.to_ffi_fn {
                    Some(_to_ffi_fn) => {
                        proof {
                            assert(is_string_family(**return_type_annotation));
                        }
                        body.append("    let ret = ");
                        body.append(lib_name.as_str());
                        body.append("::");
                        body.append(mod_name.as_str());
                        body.append("::");
                        body.append(sanitized.as_str());
                        body.append("(");
                        body.append(args_text.as_str());
                        body.append(");\n    ret.to_native().unwrap()");
                    },
                    None => {
                        proof {
                            assert(!is_string_family(**return_type_annotation));
                        }
                        body.append("    ");
                        body.append(lib_name.as_str());
                        body.append("::");
                        body.append(mod_name.as_str());
                        body.append("::");
                        body.append(sanitized.as_str());
                        body.append("(");
                        body.append(args_text.as_str());
                        body.append(")");
                    },
                }
                let mut out = "#[no_mangle]\npub extern \"C\" fn ".to_owned();
                out.append(self.name.as_str());
                out.append("(");
                out.append(params_sig.as_str());
                out.append(")");
                match **return_type_annotation {
                    TypeAnnotation::VoidTypeAnnotation => {},
                    _ => {
                        out.append(" -> ");
                        let rt = match return_type_annotation.to_ffi_type(Platform::Ios) {
                            Ok(t) => t,
                            Err(e) => {
                                return Err(e.at_method(self.name.as_str()));
                            },
                        };
                        out.append(rt.as_str());
                    },
                }
                out.append(" {\n");
                out.append(body.as_str());
                out.append("\n}");
                proof {
                    assert(out@ =~= spec_ios_ffi_fn(*self, lib_name@, mod_name@));
                }
                Ok(out)
            },
            _ => Err(
                CodegenError::unsupported(self.type_annotation.variant_name()).at_method(
                    self.name.as_str(),
                ),
            ),
        }
    }
}

} // verus!
