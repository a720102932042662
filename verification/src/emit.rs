//! Per-method emission for the host language: parameter renderings, method
//! signatures, and dispatching method bodies. Every identifier in the
//! emitted text derives from the canonical transforms in `text`, so
//! independently generated files agree on all shared names.

use vstd::prelude::*;
use vstd::string::StringExecFns;

use crate::errors::CodegenError;
use crate::resolver::{is_supported_base, spec_rust_type, spec_type_text, spec_variant_name, Type};
use crate::schema::{spec_unwrap_nullable, FunctionSpec, Parameter, TypeAnnotation};
use crate::text::{join_strings, sanitize_str, spec_join, spec_sanitize, spec_spaces, views_of};

verus! {

/// The module generated host bindings dispatch into: the developer's
/// implementation module.
pub open spec fn spec_impl_mod() -> Seq<char> {
    "impls"@
}

/// Whether a parameter's annotation, unwrapped of its nullable layers,
/// resolves.
pub open spec fn spec_param_ok(p: Parameter) -> bool {
    is_supported_base(spec_unwrap_nullable(p.type_annotation).0)
}

pub open spec fn spec_params_ok(params: Seq<Parameter>) -> bool {
    forall|i: int| 0 <= i < params.len() ==> spec_param_ok(#[trigger] params[i])
}

/// Whether a whole method resolves: a function-type annotation whose
/// return type and every parameter lie in the supported subset.
pub open spec fn spec_method_ok(f: FunctionSpec) -> bool {
    match f.type_annotation {
        TypeAnnotation::FunctionTypeAnnotation { return_type_annotation, params } => {
            is_supported_base(*return_type_annotation) && spec_params_ok(params@)
        },
        _ => false,
    }
}

/// The shape of an error reported for a method: it names the method, and
/// its construct is the method's own annotation (when that is not a
/// function type), the unsupported return type, or the unsupported
/// annotation of one of the parameters.
pub open spec fn spec_method_error(e: CodegenError, f: FunctionSpec) -> bool {
    spec_method_cause(e, f) && e.module@ == Seq::<char>::empty()
}

/// The method-level part of an error's shape, leaving the module field
/// open for the surrounding layer.
pub open spec fn spec_method_cause(e: CodegenError, f: FunctionSpec) -> bool {
    &&& e.method@ == f.name@
    &&& {
        ||| {
            &&& !(f.type_annotation is FunctionTypeAnnotation)
            &&& e.construct@ == spec_variant_name(f.type_annotation)
        }
        ||| {
            &&& f.type_annotation matches TypeAnnotation::FunctionTypeAnnotation {
                return_type_annotation,
                ..
            }
            &&& !is_supported_base(*return_type_annotation)
            &&& e.construct@ == spec_variant_name(*return_type_annotation)
            &&& e.param@ == Seq::<char>::empty()
        }
        ||| {
            &&& f.type_annotation matches TypeAnnotation::FunctionTypeAnnotation { params, .. }
            &&& exists|i: int|
                0 <= i < params@.len() && !spec_param_ok(#[trigger] params@[i]) && e.param@
                    == params@[i].name@ && e.construct@ == spec_variant_name(
                    spec_unwrap_nullable(params@[i].type_annotation).0,
                )
        }
    }
}

/// The host type expression of a parameter: the innermost non-nullable
/// annotation's type, wrapped in the nullable wrapper when the parameter
/// is optional or nullable at any depth — and never wrapped twice.
pub open spec fn spec_param_type_text(p: Parameter) -> Seq<char> {
    let inner = spec_unwrap_nullable(p.type_annotation).0;
    let nullable = spec_unwrap_nullable(p.type_annotation).1;
    let ty = spec_rust_type(inner);
    let base = spec_type_text(ty);
    if p.optional && !nullable {
        "Option<"@ + base + ">"@
    } else if nullable || p.optional {
        if ty is Nullable {
            base
        } else {
            "Option<"@ + base + ">"@
        }
    } else {
        base
    }
}

/// A rendered host parameter: `name: Type`.
pub open spec fn spec_param_text(p: Parameter) -> Seq<char> {
    p.name@ + ": "@ + spec_param_type_text(p)
}

pub open spec fn spec_param_texts(params: Seq<Parameter>) -> Seq<Seq<char>> {
    params.map_values(|p: Parameter| spec_param_text(p))
}

/// A rendered host method signature:
/// `fn name(params) -> Ret`, with no return annotation for void.
pub open spec fn spec_rs_fn_sig(f: FunctionSpec, sanitize: bool) -> Seq<char> {
    match f.type_annotation {
        TypeAnnotation::FunctionTypeAnnotation { return_type_annotation, params } => {
            let name = if sanitize {
                spec_sanitize(f.name@)
            } else {
                f.name@
            };
            let params_sig = spec_join(spec_param_texts(params@), ", "@);
            let ret = if *return_type_annotation is VoidTypeAnnotation {
                Seq::<char>::empty()
            } else {
                " -> "@ + spec_type_text(spec_rust_type(*return_type_annotation))
            };
            "fn "@ + name + "("@ + params_sig + ")"@ + ret
        },
        _ => Seq::<char>::empty(),
    }
}

pub open spec fn spec_arg_views(params: Seq<Parameter>) -> Seq<Seq<char>> {
    params.map_values(|p: Parameter| p.name@)
}

/// A rendered host method: the signature above an indented body that
/// forwards to the implementation module with the arguments in order.
pub open spec fn spec_rs_fn(f: FunctionSpec, ident: nat, sanitize: bool) -> Seq<char> {
    match f.type_annotation {
        TypeAnnotation::FunctionTypeAnnotation { params, .. } => {
            let args = spec_join(spec_arg_views(params@), ", "@);
            let body = spec_impl_mod() + "::"@ + spec_sanitize(f.name@) + "("@ + args + ")"@;
            spec_spaces(ident) + "pub "@ + spec_rs_fn_sig(f, sanitize) + " {\n    "@ + spec_spaces(
                ident,
            ) + body + "\n"@ + spec_spaces(ident) + "}"@
        },
        _ => Seq::<char>::empty(),
    }
}

pub proof fn lemma_param_texts_push(s: Seq<Parameter>, x: Parameter)
    ensures
        spec_param_texts(s.push(x)) == spec_param_texts(s).push(spec_param_text(x)),
{
    assert(spec_param_texts(s.push(x)) =~= spec_param_texts(s).push(spec_param_text(x)));
}

pub proof fn lemma_arg_views_push(s: Seq<Parameter>, x: Parameter)
    ensures
        spec_arg_views(s.push(x)) == spec_arg_views(s).push(x.name@),
{
    assert(spec_arg_views(s.push(x)) =~= spec_arg_views(s).push(x.name@));
}

fn wrap_option(base: String) -> (r: String)
    ensures
        r@ == "Option<"@ + base@ + ">"@,
{
    let mut out = "Option<".to_owned();
    out.append(base.as_str());
    out.append(">");
    out
}

impl Parameter {
    /// Render this parameter for the host language, resolving nullable
    /// and optional signals to a single wrapper level.
    pub fn to_rs_param(&self) -> (r: Result<String, CodegenError>)
        ensures
            r is Ok <==> spec_param_ok(*self),
            r matches Ok(s) ==> s@ == spec_param_text(*self),
            r matches Err(e) ==> {
                &&& e.construct@ == spec_variant_name(spec_unwrap_nullable(self.type_annotation).0)
                &&& e.param@ == self.name@
                &&& e.method@ == Seq::<char>::empty()
                &&& e.module@ == Seq::<char>::empty()
            },
    {
        let (inner, nullable) = self.type_annotation.unwrap_nullable();
        let ty = match inner.get_rust_type() {
            Ok(t) => t,
            Err(e) => {
                return Err(e.at_param(self.name.as_str()));
            },
        };
        let base = ty.to_text();
        let final_type = if self.optional && !nullable {
            wrap_option(base)
        } else if nullable || self.optional {
            match &ty {
                Type::Nullable(_) => base,
                _ => wrap_option(base),
            }
        } else {
            base
        };
        let mut out = self.name.clone();
        out.append(": ");
        out.append(final_type.as_str());
        Ok(out)
    }
}

impl FunctionSpec {
    /// Render this method's host signature. `sanitize` chooses whether
    /// the method name is sanitized to the host naming convention.
    #[verifier::loop_isolation(false)]
    pub fn to_rs_fn_sig(&self, sanitize: bool) -> (r: Result<String, CodegenError>)
        ensures
            r is Ok <==> spec_method_ok(*self),
            r matches Ok(s) ==> s@ == spec_rs_fn_sig(*self, sanitize),
            r matches Err(e) ==> spec_method_error(e, *self),
    {
        match &self.type_annotation {
            TypeAnnotation::FunctionTypeAnnotation { return_type_annotation, params } => {
                let ret_ty = match return_type_annotation.get_rust_type() {
                    Ok(t) => t,
                    Err(e) => {
                        return Err(e.at_method(self.name.as_str()));
                    },
                };
                let mut parts: Vec<String> = Vec::new();
                let mut i: usize = 0;
                while i < params.len()
                    invariant
                        i <= params@.len(),
                        views_of(parts@) == spec_param_texts(params@.subrange(0, i as int)),
                        forall|k: int| 0 <= k < i ==> spec_param_ok(#[trigger] params@[k]),
                    decreases params@.len() - i,
                {
                    match params[i].to_rs_param() {
                        Ok(t) => {
                            proof {
                                crate::text::lemma_views_push(parts@, t);
                            }
                            parts.push(t);
                        },
                        Err(e) => {
                            proof {
                                assert(!spec_param_ok(params@[i as int]));
                                assert(!spec_params_ok(params@));
                            }
                            return Err(e.at_method(self.name.as_str()));
                        },
                    }
                    i = i + 1;
                    proof {
                        let prefix = params@.subrange(0, i - 1 as int);
                        assert(params@.subrange(0, i as int) =~= prefix.push(params@[i - 1]));
                        lemma_param_texts_push(prefix, params@[i - 1]);
                    }
                }
                proof {
                    assert(params@.subrange(0, params@.len() as int) =~= params@);
                }
                let params_sig = join_strings(&parts, ", ");
                let name = if sanitize {
                    sanitize_str(self.name.as_str())
                } else {
                    self.name.clone()
                };
                let mut out = "fn ".to_owned();
                out.append(name.as_str());
                out.append("(");
                out.append(params_sig.as_str());
                out.append(")");
                match &ret_ty {
                    Type::Void => {},
                    _ => {
                        out.append(" -> ");
                        let ret_text = ret_ty.to_text();
                        out.append(ret_text.as_str());
                    },
                }
                proof {
                    if spec_rust_type(**return_type_annotation) is Void {
                        assert(**return_type_annotation is VoidTypeAnnotation);
                    }
                }
                Ok(out)
            },
            _ => Err(
                CodegenError::unsupported(self.type_annotation.variant_name()).at_method(
                    self.name.as_str(),
                ),
            ),
        }
    }

    /// Render this method as a public host function whose body forwards
    /// to the implementation module, indented by `ident` spaces.
    #[verifier::loop_isolation(false)]
    pub fn to_rs_fn(&self, ident: usize, sanitize: bool) -> (r: Result<String, CodegenError>)
        ensures
            r is Ok <==> spec_method_ok(*self),
            r matches Ok(s) ==> s@ == spec_rs_fn(*self, ident as nat, sanitize),
            r matches Err(e) ==> spec_method_error(e, *self),
    {
        match &self.type_annotation {
            TypeAnnotation::FunctionTypeAnnotation { params, .. } => {
                let fn_sig = match self.to_rs_fn_sig(sanitize) {
                    Ok(s) => s,
                    Err(e) => {
                        return Err(e);
                    },
                };
                let mut names: Vec<String> = Vec::new();
                let mut i: usize = 0;
                while i < params.len()
                    invariant
                        i <= params@.len(),
                        views_of(names@) == spec_arg_views(params@.subrange(0, i as int)),
                    decreases params@.len() - i,
                {
                    let nm = params[i].name.clone();
                    proof {
                        crate::text::lemma_views_push(names@, nm);
                    }
                    names.push(nm);
                    i = i + 1;
                    proof {
                        let prefix = params@.subrange(0, i - 1 as int);
                        assert(params@.subrange(0, i as int) =~= prefix.push(params@[i - 1]));
                        lemma_arg_views_push(prefix, params@[i - 1]);
                    }
                }
                proof {
                    assert(params@.subrange(0, params@.len() as int) =~= params@);
                }
                let args = join_strings(&names, ", ");
                let pad = crate::text::spaces(ident);
                let sanitized = sanitize_str(self.name.as_str());
                let mut out = pad.clone();
                out.append("pub ");
                out.append(fn_sig.as_str());
                out.append(" {\n    ");
                out.append(pad.as_str());
                out.append("impls");
                out.append("::");
                out.append(sanitized.as_str());
                out.append("(");
                out.append(args.as_str());
                out.append(")");
                out.append("\n");
                out.append(pad.as_str());
                out.append("}");
                Ok(out)
            },
            _ => Err(
                CodegenError::unsupported(self.type_annotation.variant_name()).at_method(
                    self.name.as_str(),
                ),
            ),
        }
    }
}

} // verus!
