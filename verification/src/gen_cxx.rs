//! The native-bridge generator: one C++ TurboModule class per schema
//! (header and implementation), the shared bridging templates, the
//! thread-pool utility header, and the signal-manager header. The
//! generated class owns one host-binding instance, dispatches methods
//! through a method table, and tears itself down exactly once.

use vstd::prelude::*;
use vstd::string::StringExecFns;

use crate::constants::{cxx_bridge_include_dir, cxx_dir, path_join, spec_path_join};
use crate::context::{cxx_mod_cls_name, spec_cxx_module_name, CodegenContext, Schema, Signal};
use crate::emit::{spec_method_cause, spec_method_ok, spec_param_ok, spec_params_ok};
use crate::errors::CodegenError;
use crate::gen_types::{
    artifact_views, ArtifactView, Generator, GeneratorInvoker, Template, TemplateResult,
};
use crate::resolver::{is_string_family, is_supported_base, spec_variant_name};
use crate::schema::{spec_unwrap_nullable, FunctionSpec, Parameter, TypeAnnotation};
use crate::text::{
    camel_case, camel_of, flat_case, flat_of, indent_str, join_strings, lemma_views_push,
    pascal_case, pascal_of, sanitize_str, spec_dec_digits, spec_indent, spec_join, spec_sanitize,
    spec_spaces, usize_to_string, views_of,
};

verus! {

pub struct CxxTemplate;

pub struct CxxGenerator;

pub enum CxxFileType {
    /// The per-module class files.
    Mod,
    /// bridging-generated.hpp
    BridgingHpp,
    /// CrabyUtils.hpp
    UtilsHpp,
    /// CrabySignals.h
    SignalsH,
}

/// One rendered C++ method: its exposed name, its method-table metadata
/// entry, and its full implementation.
pub struct CxxMethod {
    pub name: String,
    pub metadata: String,
    pub impl_func: String,
}

/// The C++ type a supported annotation marshals through.
pub open spec fn spec_cxx_type_text(t: TypeAnnotation) -> Seq<char> {
    if t is BooleanTypeAnnotation {
        "bool"@
    } else if is_string_family(t) {
        "rust::String"@
    } else {
        "double"@
    }
}

/// The argument-conversion line of one parameter at one position.
pub open spec fn spec_cxx_arg_line(i: nat, p: Parameter) -> Seq<char> {
    "auto "@ + p.name@ + " = react::bridging::fromJs<"@ + spec_cxx_type_text(
        spec_unwrap_nullable(p.type_annotation).0,
    ) + ">(rt, args["@ + spec_dec_digits(i) + "], thisModule.callInvoker_);"@
}

pub open spec fn spec_cxx_arg_lines(params: Seq<Parameter>) -> Seq<Seq<char>> {
    params.map(|i: int, p: Parameter| spec_cxx_arg_line(i as nat, p))
}

/// The method-table metadata entry of one method.
pub open spec fn spec_cxx_metadata(f: FunctionSpec, module_name: Seq<char>) -> Seq<char> {
    match f.type_annotation {
        TypeAnnotation::FunctionTypeAnnotation { params, .. } => {
            "MethodMetadata{"@ + spec_dec_digits(params@.len()) + ", &"@ + spec_cxx_module_name(
                module_name,
            ) + "::"@ + camel_of(f.name@) + "}"@
        },
        _ => Seq::<char>::empty(),
    }
}

/// The dispatching call at the end of a generated C++ method body.
pub open spec fn spec_cxx_call(f: FunctionSpec) -> Seq<char> {
    match f.type_annotation {
        TypeAnnotation::FunctionTypeAnnotation { return_type_annotation, params } => {
            let args = spec_join(crate::emit::spec_arg_views(params@), ", "@);
            if *return_type_annotation is VoidTypeAnnotation {
                "module->"@ + spec_sanitize(f.name@) + "("@ + args
                    + ");\n    return jsi::Value::undefined();"@
            } else {
                "auto res = module->"@ + spec_sanitize(f.name@) + "("@ + args
                    + ");\n    return react::bridging::toJs(rt, res);"@
            }
        },
        _ => Seq::<char>::empty(),
    }
}

/// A whole generated C++ method implementation: argument count check,
/// argument marshalling, the dispatching call, and error re-signaling at
/// the dispatch boundary.
pub open spec fn spec_cxx_impl_func(f: FunctionSpec, module_name: Seq<char>) -> Seq<char> {
    match f.type_annotation {
        TypeAnnotation::FunctionTypeAnnotation { params, .. } => {
            "jsi::Value "@ + spec_cxx_module_name(module_name) + "::"@ + camel_of(f.name@)
                + "(jsi::Runtime &rt,\n                      react::TurboModule &turboModule,\n                      const jsi::Value args[],\n                      size_t count) {\n  auto &thisModule = static_cast<"@
                + spec_cxx_module_name(module_name)
                + " &>(turboModule);\n  auto module = thisModule.module_;\n\n  try {\n    if ("@
                + spec_dec_digits(params@.len()) + " != count) {\n      throw jsi::JSError(rt, \"Expected "@
                + spec_dec_digits(params@.len()) + " argument(s)\");\n    }\n\n"@ + spec_indent(
                spec_join(spec_cxx_arg_lines(params@), "\n"@),
                spec_spaces(4),
            ) + "\n    "@ + spec_cxx_call(f)
                + "\n  } catch (const jsi::JSError &err) {\n    throw err;\n  } catch (const std::exception &err) {\n    throw jsi::JSError(rt, craby::utils::errorMessage(err));\n  }\n}"@
        },
        _ => Seq::<char>::empty(),
    }
}

/// The declaration of one exposed C++ method.
pub open spec fn spec_cxx_method_def(name: Seq<char>) -> Seq<char> {
    "static facebook::jsi::Value\n"@ + camel_of(name)
        + "(facebook::jsi::Runtime &rt,\n    facebook::react::TurboModule &turboModule,\n    const facebook::jsi::Value args[], size_t count);"@
}

impl FunctionSpec {
    /// Render this method for the C++ bridge: its method-table entry and
    /// its implementation.
    #[verifier::loop_isolation(false)]
    pub fn as_cxx_method(&self, module_name: &String) -> (r: Result<CxxMethod, CodegenError>)
        ensures
            r is Ok <==> spec_method_ok(*self),
            r matches Ok(m) ==> {
                &&& m.name@ == self.name@
                &&& m.metadata@ == spec_cxx_metadata(*self, module_name@)
                &&& m.impl_func@ == spec_cxx_impl_func(*self, module_name@)
            },
            r matches Err(e) ==> crate::emit::spec_method_error(e, *self),
    {
        match &self.type_annotation {
            TypeAnnotation::FunctionTypeAnnotation { return_type_annotation, params } => {
                if let Err(e) = return_type_annotation.get_rust_type() {
                    return Err(e.at_method(self.name.as_str()));
                }
                let cxx_mod = cxx_mod_cls_name(module_name.as_str());
                let camel = camel_case(self.name.as_str());
                let arity = usize_to_string(params.len());

                let mut arg_lines: Vec<String> = Vec::new();
                let mut args: Vec<String> = Vec::new();
                let mut i: usize = 0;
                while i < params.len()
                    invariant
                        i <= params@.len(),
                        views_of(arg_lines@) == spec_cxx_arg_lines(
                            params@.subrange(0, i as int),
                        ),
                        views_of(args@) == crate::emit::spec_arg_views(
                            params@.subrange(0, i as int),
                        ),
                        forall|k: int| 0 <= k < i ==> spec_param_ok(#[trigger] params@[k]),
                    decreases params@.len() - i,
                {
                    let (inner, _nullable) = params[i].type_annotation.unwrap_nullable();
                    let cxx_ty = match inner.get_rust_type() {
                        Ok(ty) => {
                            match ty {
                                crate::resolver::Type::Boolean => "bool".to_owned(),
                                crate::resolver::Type::String => "rust::String".to_owned(),
                                _ => "double".to_owned(),
                            }
                        },
                        Err(e) => {
                            proof {
                                assert(!spec_param_ok(params@[i as int]));
                                assert(!spec_params_ok(params@));
                            }
                            return Err(
                                e.at_param(params[i].name.as_str()).at_method(
                                    self.name.as_str(),
                                ),
                            );
                        },
                    };
                    proof {
                        assert(cxx_ty@ == spec_cxx_type_text(
                            spec_unwrap_nullable(params@[i as int].type_annotation).0,
                        ));
                    }
                    let idx = usize_to_string(i);
                    let mut line = "auto ".to_owned();
                    line.append(params[i].name.as_str());
                    line.append(" = react::bridging::fromJs<");
                    line.append(cxx_ty.as_str());
                    line.append(">(rt, args[");
                    line.append(idx.as_str());
                    line.append("], thisModule.callInvoker_);");

                    let nm = params[i].name.clone();
                    proof {
                        lemma_views_push(arg_lines@, line);
                        lemma_views_push(args@, nm);
                    }
                    arg_lines.push(line);
                    args.push(nm);
                    i = i + 1;
                    proof {
                        let prefix = params@.subrange(0, i - 1 as int);
                        assert(params@.subrange(0, i as int) =~= prefix.push(params@[i - 1]));
                        assert(spec_cxx_arg_lines(prefix.push(params@[i - 1]))
                            =~= spec_cxx_arg_lines(prefix).push(
                            spec_cxx_arg_line((i - 1) as nat, params@[i - 1]),
                        ));
                        crate::emit::lemma_arg_views_push(prefix, params@[i - 1]);
                    }
                }
                proof {
                    assert(params@.subrange(0, params@.len() as int) =~= params@);
                }
                let args_joined = join_strings(&args, ", ");
                let arg_lines_joined = join_strings(&arg_lines, "\n");
                let arg_lines_ind = indent_str(arg_lines_joined.as_str(), 4);
                let sanitized = sanitize_str(self.name.as_str());

                let mut metadata = "MethodMetadata{".to_owned();
                metadata.append(arity.as_str());
                metadata.append(", &");
                metadata.append(cxx_mod.as_str());
                metadata.append("::");
                metadata.append(camel.as_str());
                metadata.append("}");

                let mut body = "jsi::Value ".to_owned();
                body.append(cxx_mod.as_str());
                body.append("::");
                body.append(camel.as_str());
                body.append(
                    "(jsi::Runtime &rt,\n                      react::TurboModule &turboModule,\n                      const jsi::Value args[],\n                      size_t count) {\n  auto &thisModule = static_cast<",
                );
                body.append(cxx_mod.as_str());
                body.append(
                    " &>(turboModule);\n  auto module = thisModule.module_;\n\n  try {\n    if (",
                );
                body.append(arity.as_str());
                body.append(" != count) {\n      throw jsi::JSError(rt, \"Expected ");
                body.append(arity.as_str());
                body.append(" argument(s)\");\n    }\n\n");
                body.append(arg_lines_ind.as_str());
                body.append("\n    ");
                match **return_type_annotation {
                    TypeAnnotation::VoidTypeAnnotation => {
                        body.append("module->");
                        body.append(sanitized.as_str());
                        body.append("(");
                        body.append(args_joined.as_str());
                        body.append(");\n    return jsi::Value::undefined();");
                    },
                    _ => {
                        body.append("auto res = module->");
                        body.append(sanitized.as_str());
                        body.append("(");
                        body.append(args_joined.as_str());
                        body.append(");\n    return react::bridging::toJs(rt, res);");
                    },
                }
                body.append(
                    "\n  } catch (const jsi::JSError &err) {\n    throw err;\n  } catch (const std::exception &err) {\n    throw jsi::JSError(rt, craby::utils::errorMessage(err));\n  }\n}",
                );
                proof {
                    assert(body@ =~= spec_cxx_impl_func(*self, module_name@));
                }
                Ok(CxxMethod { name: self.name.clone(), metadata, impl_func: body })
            },
            _ => Err(
                CodegenError::unsupported(self.type_annotation.variant_name()).at_method(
                    self.name.as_str(),
                ),
            ),
        }
    }
}

/// The method-table line of one method.
pub open spec fn spec_cxx_map_line(f: FunctionSpec, module_name: Seq<char>) -> Seq<char> {
    "methodMap_[\""@ + f.name@ + "\"] = "@ + spec_cxx_metadata(f, module_name) + ";"@
}

pub open spec fn spec_cxx_map_lines(methods: Seq<FunctionSpec>, module_name: Seq<char>) -> Seq<
    Seq<char>,
> {
    methods.map_values(|f: FunctionSpec| spec_cxx_map_line(f, module_name))
}

pub open spec fn spec_cxx_method_defs(methods: Seq<FunctionSpec>) -> Seq<Seq<char>> {
    methods.map_values(|f: FunctionSpec| spec_cxx_method_def(f.name@))
}

pub open spec fn spec_cxx_impl_funcs(methods: Seq<FunctionSpec>, module_name: Seq<char>) -> Seq<
    Seq<char>,
> {
    methods.map_values(|f: FunctionSpec| spec_cxx_impl_func(f, module_name))
}

/// The method-table line of one signal subscription method.
pub open spec fn spec_signal_map_line(sig: Signal, module_name: Seq<char>) -> Seq<char> {
    "methodMap_[\""@ + sig.name@ + "\"] = MethodMetadata{1, &"@ + spec_cxx_module_name(
        module_name,
    ) + "::"@ + camel_of(sig.name@) + "};"@
}

pub open spec fn spec_signal_map_lines(signals: Seq<Signal>, module_name: Seq<char>) -> Seq<
    Seq<char>,
> {
    signals.map_values(|s: Signal| spec_signal_map_line(s, module_name))
}

/// The declaration of one signal subscription method.
pub open spec fn spec_signal_def(sig: Signal) -> Seq<char> {
    "static facebook::jsi::Value\n"@ + sig.name@
        + "(facebook::jsi::Runtime &rt,\n    facebook::react::TurboModule &turboModule,\n    const facebook::jsi::Value args[], size_t count);"@
}

pub open spec fn spec_signal_defs(signals: Seq<Signal>) -> Seq<Seq<char>> {
    signals.map_values(|s: Signal| spec_signal_def(s))
}

/// One signal subscription method: it stores the callback under a fresh
/// listener id (under the listeners mutex) and returns an idempotent
/// unsubscribe capability.
pub open spec fn spec_signal_impl(sig: Signal, module_name: Seq<char>) -> Seq<char> {
    "jsi::Value "@ + spec_cxx_module_name(module_name) + "::"@ + camel_of(sig.name@)
        + "(jsi::Runtime &rt,\n                      react::TurboModule &turboModule,\n                      const jsi::Value args[],\n                      size_t count) {\n  auto &thisModule = static_cast<"@
        + spec_cxx_module_name(module_name)
        + " &>(turboModule);\n  auto callInvoker = thisModule.callInvoker_;\n  auto module = thisModule.module_;\n\n  try {\n    if (1 != count) {\n      throw jsi::JSError(rt, \"Expected 1 argument\");\n    }\n\n    auto callback = args[0].asObject(rt).asFunction(rt);\n    auto callbackRef = std::make_shared<jsi::Function>(std::move(callback));\n    auto id = thisModule.nextListenerId_.fetch_add(1);\n    auto name = \""@
        + sig.name@
        + "\";\n\n    if (thisModule.listenersMap_.find(name) == thisModule.listenersMap_.end()) {\n      thisModule.listenersMap_[name] = std::unordered_map<size_t, std::shared_ptr<facebook::jsi::Function>>();\n    }\n\n    {\n      std::lock_guard<std::mutex> lock(thisModule.listenersMutex_);\n      thisModule.listenersMap_[name].emplace(id, callbackRef);\n    }\n\n    auto modulePtr = &thisModule;\n    auto cleanup = [modulePtr, name, id] {\n      std::lock_guard<std::mutex> lock(modulePtr->listenersMutex_);\n      auto eventMap = modulePtr->listenersMap_.find(name);\n      if (eventMap != modulePtr->listenersMap_.end()) {\n        auto it = eventMap->second.find(id);\n        if (it != eventMap->second.end()) {\n          eventMap->second.erase(it);\n        }\n      }\n      return jsi::Value::undefined();\n    };\n\n    return jsi::Function::createFromHostFunction(\n      rt,\n      jsi::PropNameID::forAscii(rt, \"cleanup\"),\n      0,\n      [cleanup](jsi::Runtime& rt, const jsi::Value&, const jsi::Value*, size_t) -> jsi::Value {\n        return cleanup();\n      }\n    );\n  } catch (const jsi::JSError &err) {\n    throw err;\n  } catch (const std::exception &err) {\n    throw jsi::JSError(rt, craby::utils::errorMessage(err));\n  }\n}"@
}

pub open spec fn spec_signal_impls(signals: Seq<Signal>, module_name: Seq<char>) -> Seq<
    Seq<char>,
> {
    signals.map_values(|s: Signal| spec_signal_impl(s, module_name))
}

/// The emission method: it snapshots the listeners under the lock and
/// invokes them outside it, swallowing per-listener delivery failures.
pub open spec fn spec_emit_impl(module_name: Seq<char>) -> Seq<char> {
    "void "@ + spec_cxx_module_name(module_name)
        + "::emit(std::string name) {\n  std::vector<std::shared_ptr<facebook::jsi::Function>> listeners;\n  {\n    std::lock_guard<std::mutex> lock(listenersMutex_);\n    auto it = listenersMap_.find(name);\n    if (it != listenersMap_.end()) {\n      for (auto &[_, listener] : it->second) {\n        listeners.push_back(listener);\n      }\n    }\n  }\n\n  for (auto& listener : listeners) {\n    try {\n      callInvoker_->invokeAsync([listener](jsi::Runtime &rt) {\n        listener->call(rt);\n      });\n    } catch (const std::exception& err) {\n      // Noop\n    }\n  }\n}"@
}

/// The registration block run at construction when the module declares
/// signals, keyed by the native object's own identity.
pub open spec fn spec_register_stmt(module_name: Seq<char>) -> Seq<char> {
    "uintptr_t id = reinterpret_cast<uintptr_t>(this);\nauto& manager = craby::signals::SignalManager::getInstance();\nmanager.registerDelegate(id,\n                         std::bind(&"@
        + spec_cxx_module_name(module_name)
        + "::emit,\n                         this,\n                         std::placeholders::_1));"@
}

pub open spec fn spec_unregister_stmt() -> Seq<char> {
    "// Unregister from signal manager\nuintptr_t id = reinterpret_cast<uintptr_t>(this);\nauto& manager = craby::signals::SignalManager::getInstance();\nmanager.unregisterDelegate(id);"@
}

/// All method-table lines of a schema: methods first, then signals.
pub open spec fn spec_all_map_lines(s: Schema) -> Seq<Seq<char>> {
    spec_cxx_map_lines(s.methods@, s.module_name@) + spec_signal_map_lines(
        s.signals@,
        s.module_name@,
    )
}

/// All declarations of a schema's class: the emission method first when
/// signals are declared, then the methods, then the signal subscriptions.
pub open spec fn spec_all_defs(s: Schema) -> Seq<Seq<char>> {
    (if s.signals@.len() > 0 {
        seq!["void emit(std::string name);"@]
    } else {
        Seq::<Seq<char>>::empty()
    }) + spec_cxx_method_defs(s.methods@) + spec_signal_defs(s.signals@)
}

/// All implementations, in the declaration order above.
pub open spec fn spec_all_impls(s: Schema) -> Seq<Seq<char>> {
    (if s.signals@.len() > 0 {
        seq![spec_emit_impl(s.module_name@)]
    } else {
        Seq::<Seq<char>>::empty()
    }) + spec_cxx_impl_funcs(s.methods@, s.module_name@) + spec_signal_impls(
        s.signals@,
        s.module_name@,
    )
}

pub open spec fn spec_mod_register(s: Schema) -> Seq<char> {
    if s.signals@.len() > 0 {
        spec_register_stmt(s.module_name@)
    } else {
        "// No signals"@
    }
}

pub open spec fn spec_mod_unregister(s: Schema) -> Seq<char> {
    if s.signals@.len() > 0 {
        spec_unregister_stmt()
    } else {
        "// No signals"@
    }
}

/// The implementation file of one module's C++ class.
pub open spec fn spec_cxx_cpp(s: Schema) -> Seq<char> {
    "#include \""@ + spec_cxx_module_name(s.module_name@)
        + ".hpp\"\n#include \"cxx.h\"\n#include \"bridging-generated.hpp\"\n#include <react/bridging/Bridging.h>\n\nusing namespace facebook;\n\nnamespace craby {\nnamespace "@
        + flat_of(s.module_name@) + " {\n\n"@ + spec_cxx_module_name(s.module_name@) + "::"@
        + spec_cxx_module_name(s.module_name@)
        + "(\n    std::shared_ptr<react::CallInvoker> jsInvoker)\n    : TurboModule("@
        + spec_cxx_module_name(s.module_name@) + "::kModuleName, jsInvoker) {\n"@ + spec_indent(
        spec_mod_register(s),
        spec_spaces(2),
    ) + "\n  callInvoker_ = std::move(jsInvoker);\n  module_ = std::shared_ptr<craby::bridging::"@
        + pascal_of(s.module_name@) + ">(\n    craby::bridging::create"@ + pascal_of(
        s.module_name@,
    ) + "(reinterpret_cast<uintptr_t>(this)).into_raw(),\n    [](craby::bridging::"@ + pascal_of(
        s.module_name@,
    ) + " *ptr) { rust::Box<craby::bridging::"@ + pascal_of(s.module_name@)
        + ">::from_raw(ptr); }\n  );\n  threadPool_ = std::make_shared<craby::utils::ThreadPool>(10);\n"@
        + spec_indent(spec_join(spec_all_map_lines(s), "\n"@), spec_spaces(2)) + "\n}\n\n"@
        + spec_cxx_module_name(s.module_name@) + "::~"@ + spec_cxx_module_name(s.module_name@)
        + "() {\n  invalidate();\n}\n\nvoid "@ + spec_cxx_module_name(s.module_name@)
        + "::invalidate() {\n  if (invalidated_.exchange(true)) {\n    return;\n  }\n\n  invalidated_.store(true);\n  listenersMap_.clear();\n\n"@
        + spec_indent(spec_mod_unregister(s), spec_spaces(2))
        + "\n\n  // Shutdown thread pool\n  threadPool_->shutdown();\n}\n\n"@ + spec_join(
        spec_all_impls(s),
        "\n\n"@,
    ) + "\n\n} // namespace "@ + flat_of(s.module_name@) + "\n} // namespace craby"@
}

/// The header file of one module's C++ class.
pub open spec fn spec_cxx_hpp(s: Schema) -> Seq<char> {
    "#pragma once\n\n#include \"CrabyUtils.hpp\"\n#include \"ffi.rs.h\"\n#include <ReactCommon/TurboModule.h>\n#include <jsi/jsi.h>\n#include <memory>\n\nnamespace craby {\nnamespace "@
        + flat_of(s.module_name@) + " {\n\nclass JSI_EXPORT "@ + spec_cxx_module_name(
        s.module_name@,
    ) + " : public facebook::react::TurboModule {\npublic:\n  static constexpr const char *kModuleName = \""@
        + s.module_name@ + "\";\n\n  "@ + spec_cxx_module_name(s.module_name@)
        + "(std::shared_ptr<facebook::react::CallInvoker> jsInvoker);\n  ~"@
        + spec_cxx_module_name(s.module_name@) + "();\n\n  void invalidate();\n"@ + spec_indent(
        spec_join(spec_all_defs(s), "\n\n"@),
        spec_spaces(2),
    ) + "\n\nprotected:\n  std::shared_ptr<facebook::react::CallInvoker> callInvoker_;\n  std::shared_ptr<craby::bridging::"@
        + pascal_of(s.module_name@)
        + "> module_;\n  std::atomic<bool> invalidated_{false};\n  std::atomic<size_t> nextListenerId_{0};\n  std::mutex listenersMutex_;\n  std::unordered_map<\n    std::string,\n    std::unordered_map<size_t, std::shared_ptr<facebook::jsi::Function>>>\n    listenersMap_;\n  std::shared_ptr<craby::utils::ThreadPool> threadPool_;\n};\n\n} // namespace "@
        + flat_of(s.module_name@) + "\n} // namespace craby"@
}

/// Whether every method of a schema resolves.
pub open spec fn spec_cxx_schema_ok(s: Schema) -> bool {
    forall|i: int| 0 <= i < s.methods@.len() ==> spec_method_ok(#[trigger] s.methods@[i])
}

/// The shape of an error reported for one context schema.
pub open spec fn spec_cxx_module_error(e: CodegenError, s: Schema) -> bool {
    &&& e.module@ == s.module_name@
    &&& exists|i: int|
        0 <= i < s.methods@.len() && !spec_method_ok(#[trigger] s.methods@[i])
            && spec_method_cause(e, s.methods@[i])
}

/// The shape of an error reported for a whole context.
pub open spec fn spec_cxx_ctx_error(e: CodegenError, ctx: CodegenContext) -> bool {
    exists|i: int|
        0 <= i < ctx.schemas@.len() && !spec_cxx_schema_ok(#[trigger] ctx.schemas@[i])
            && spec_cxx_module_error(e, ctx.schemas@[i])
}

pub open spec fn spec_ctx_ok(ctx: CodegenContext) -> bool {
    forall|i: int|
        0 <= i < ctx.schemas@.len() ==> spec_cxx_schema_ok(#[trigger] ctx.schemas@[i])
}

pub open spec fn spec_ctx_has_signals(ctx: CodegenContext) -> bool {
    exists|i: int| 0 <= i < ctx.schemas@.len() && (#[trigger] ctx.schemas@[i].signals@.len()) > 0
}

fn extend_strings(dst: &mut Vec<String>, src: &Vec<String>)
    ensures
        final(dst)@ == old(dst)@ + src@,
{
    let mut i: usize = 0;
    while i < src.len()
        invariant
            i <= src@.len(),
            dst@ == old(dst)@ + src@.subrange(0, i as int),
        decreases src@.len() - i,
    {
        dst.push(src[i].clone());
        i = i + 1;
        proof {
            assert(src@.subrange(0, i as int) =~= src@.subrange(0, i - 1 as int).push(
                src@[i - 1],
            ));
            assert(dst@ =~= old(dst)@ + src@.subrange(0, i as int));
        }
    }
    proof {
        assert(src@.subrange(0, src@.len() as int) =~= src@);
    }
}

impl CxxTemplate {
    /// Render one module's C++ class: the implementation file and the
    /// header file.
    #[verifier::loop_isolation(false)]
    pub fn cxx_mod(&self, schema: &Schema) -> (r: Result<(String, String), CodegenError>)
        ensures
            r is Ok <==> spec_cxx_schema_ok(*schema),
            r matches Ok(pair) ==> pair.0@ == spec_cxx_cpp(*schema) && pair.1@ == spec_cxx_hpp(
                *schema,
            ),
            r matches Err(e) ==> spec_cxx_module_error(e, *schema),
    {
        let methods = &schema.methods;
        let signals = &schema.signals;
        let cxx_mod = cxx_mod_cls_name(schema.module_name.as_str());
        let pascal = pascal_case(schema.module_name.as_str());
        let flat = flat_case(schema.module_name.as_str());

        let mut m_maps: Vec<String> = Vec::new();
        let mut m_defs: Vec<String> = Vec::new();
        let mut m_impls: Vec<String> = Vec::new();
        let mut i: usize = 0;
        while i < methods.len()
            invariant
                i <= methods@.len(),
                views_of(m_maps@) == spec_cxx_map_lines(
                    methods@.subrange(0, i as int),
                    schema.module_name@,
                ),
                views_of(m_defs@) == spec_cxx_method_defs(methods@.subrange(0, i as int)),
                views_of(m_impls@) == spec_cxx_impl_funcs(
                    methods@.subrange(0, i as int),
                    schema.module_name@,
                ),
                forall|k: int| 0 <= k < i ==> spec_method_ok(#[trigger] methods@[k]),
            decreases methods@.len() - i,
        {
            let m = match methods[i].as_cxx_method(&schema.module_name) {
                Ok(m) => m,
                Err(e) => {
                    proof {
                        assert(!spec_method_ok(methods@[i as int]));
                    }
                    return Err(e.at_module(schema.module_name.as_str()));
                },
            };
            let mut map_line = "methodMap_[\"".to_owned();
            map_line.append(m.name.as_str());
            map_line.append("\"] = ");
            map_line.append(m.metadata.as_str());
            map_line.append(";");

            let camel = camel_case(methods[i].name.as_str());
            let mut def = "static facebook::jsi::Value\n".to_owned();
            def.append(camel.as_str());
            def.append(
                "(facebook::jsi::Runtime &rt,\n    facebook::react::TurboModule &turboModule,\n    const facebook::jsi::Value args[], size_t count);",
            );

            proof {
                lemma_views_push(m_maps@, map_line);
                lemma_views_push(m_defs@, def);
                lemma_views_push(m_impls@, m.impl_func);
            }
            m_maps.push(map_line);
            m_defs.push(def);
            m_impls.push(m.impl_func);
            i = i + 1;
            proof {
                let prefix = methods@.subrange(0, i - 1 as int);
                assert(methods@.subrange(0, i as int) =~= prefix.push(methods@[i - 1]));
                assert(spec_cxx_map_lines(prefix.push(methods@[i - 1]), schema.module_name@)
                    =~= spec_cxx_map_lines(prefix, schema.module_name@).push(
                    spec_cxx_map_line(methods@[i - 1], schema.module_name@),
                ));
                assert(spec_cxx_method_defs(prefix.push(methods@[i - 1]))
                    =~= spec_cxx_method_defs(prefix).push(
                    spec_cxx_method_def(methods@[i - 1].name@),
                ));
                assert(spec_cxx_impl_funcs(prefix.push(methods@[i - 1]), schema.module_name@)
                    =~= spec_cxx_impl_funcs(prefix, schema.module_name@).push(
                    spec_cxx_impl_func(methods@[i - 1], schema.module_name@),
                ));
            }
        }
        proof {
            assert(methods@.subrange(0, methods@.len() as int) =~= methods@);
        }

        let mut s_maps: Vec<String> = Vec::new();
        let mut s_defs: Vec<String> = Vec::new();
        let mut s_impls: Vec<String> = Vec::new();
        let mut j: usize = 0;
        while j < signals.len()
            invariant
                j <= signals@.len(),
                cxx_mod@ == spec_cxx_module_name(schema.module_name@),
                views_of(s_maps@) == spec_signal_map_lines(
                    signals@.subrange(0, j as int),
                    schema.module_name@,
                ),
                views_of(s_defs@) == spec_signal_defs(signals@.subrange(0, j as int)),
                views_of(s_impls@) == spec_signal_impls(
                    signals@.subrange(0, j as int),
                    schema.module_name@,
                ),
            decreases signals@.len() - j,
        {
            let camel = camel_case(signals[j].name.as_str());

            let mut map_line = "methodMap_[\"".to_owned();
            map_line.append(signals[j].name.as_str());
            map_line.append("\"] = MethodMetadata{1, &");
            map_line.append(cxx_mod.as_str());
            map_line.append("::");
            map_line.append(camel.as_str());
            map_line.append("};");

            let mut def = "static facebook::jsi::Value\n".to_owned();
            def.append(signals[j].name.as_str());
            def.append(
                "(facebook::jsi::Runtime &rt,\n    facebook::react::TurboModule &turboModule,\n    const facebook::jsi::Value args[], size_t count);",
            );

            let mut simpl = "jsi::Value ".to_owned();
            simpl.append(cxx_mod.as_str());
            simpl.append("::");
            simpl.append(camel.as_str());
            simpl.append(
                "(jsi::Runtime &rt,\n                      react::TurboModule &turboModule,\n                      const jsi::Value args[],\n                      size_t count) {\n  auto &thisModule = static_cast<",
            );
            simpl.append(cxx_mod.as_str());
            simpl.append(
                " &>(turboModule);\n  auto callInvoker = thisModule.callInvoker_;\n  auto module = thisModule.module_;\n\n  try {\n    if (1 != count) {\n      throw jsi::JSError(rt, \"Expected 1 argument\");\n    }\n\n    auto callback = args[0].asObject(rt).asFunction(rt);\n    auto callbackRef = std::make_shared<jsi::Function>(std::move(callback));\n    auto id = thisModule.nextListenerId_.fetch_add(1);\n    auto name = \"",
            );
            simpl.append(signals[j].name.as_str());
            simpl.append(
                "\";\n\n    if (thisModule.listenersMap_.find(name) == thisModule.listenersMap_.end()) {\n      thisModule.listenersMap_[name] = std::unordered_map<size_t, std::shared_ptr<facebook::jsi::Function>>();\n    }\n\n    {\n      std::lock_guard<std::mutex> lock(thisModule.listenersMutex_);\n      thisModule.listenersMap_[name].emplace(id, callbackRef);\n    }\n\n    auto modulePtr = &thisModule;\n    auto cleanup = [modulePtr, name, id] {\n      std::lock_guard<std::mutex> lock(modulePtr->listenersMutex_);\n      auto eventMap = modulePtr->listenersMap_.find(name);\n      if (eventMap != modulePtr->listenersMap_.end()) {\n        auto it = eventMap->second.find(id);\n        if (it != eventMap->second.end()) {\n          eventMap->second.erase(it);\n        }\n      }\n      return jsi::Value::undefined();\n    };\n\n    return jsi::Function::createFromHostFunction(\n      rt,\n      jsi::PropNameID::forAscii(rt, \"cleanup\"),\n      0,\n      [cleanup](jsi::Runtime& rt, const jsi::Value&, const jsi::Value*, size_t) -> jsi::Value {\n        return cleanup();\n      }\n    );\n  } catch (const jsi::JSError &err) {\n    throw err;\n  } catch (const std::exception &err) {\n    throw jsi::JSError(rt, craby::utils::errorMessage(err));\n  }\n}",
            );
            proof {
                assert(simpl@ =~= spec_signal_impl(signals@[j as int], schema.module_name@));
                lemma_views_push(s_maps@, map_line);
                lemma_views_push(s_defs@, def);
                lemma_views_push(s_impls@, simpl);
            }
            s_maps.push(map_line);
            s_defs.push(def);
            s_impls.push(simpl);
            j = j + 1;
            proof {
                let prefix = signals@.subrange(0, j - 1 as int);
                assert(signals@.subrange(0, j as int) =~= prefix.push(signals@[j - 1]));
                assert(spec_signal_map_lines(prefix.push(signals@[j - 1]), schema.module_name@)
                    =~= spec_signal_map_lines(prefix, schema.module_name@).push(
                    spec_signal_map_line(signals@[j - 1], schema.module_name@),
                ));
                assert(spec_signal_defs(prefix.push(signals@[j - 1])) =~= spec_signal_defs(
                    prefix,
                ).push(spec_signal_def(signals@[j - 1])));
                assert(spec_signal_impls(prefix.push(signals@[j - 1]), schema.module_name@)
                    =~= spec_signal_impls(prefix, schema.module_name@).push(
                    spec_signal_impl(signals@[j - 1], schema.module_name@),
                ));
            }
        }
        proof {
            assert(signals@.subrange(0, signals@.len() as int) =~= signals@);
        }

        let has_signals = signals.len() > 0;

        let mut all_maps: Vec<String> = Vec::new();
        extend_strings(&mut all_maps, &m_maps);
        extend_strings(&mut all_maps, &s_maps);
        proof {
            assert(views_of(all_maps@) =~= spec_all_map_lines(*schema));
        }

        let mut all_defs: Vec<String> = Vec::new();
        if has_signals {
            all_defs.push("void emit(std::string name);".to_owned());
        }
        extend_strings(&mut all_defs, &m_defs);
        extend_strings(&mut all_defs, &s_defs);
        proof {
            assert(views_of(all_defs@) =~= spec_all_defs(*schema));
        }

        let mut all_impls: Vec<String> = Vec::new();
        if has_signals {
            let mut emit_impl = "void ".to_owned();
            emit_impl.append(cxx_mod.as_str());
            emit_impl.append(
                "::emit(std::string name) {\n  std::vector<std::shared_ptr<facebook::jsi::Function>> listeners;\n  {\n    std::lock_guard<std::mutex> lock(listenersMutex_);\n    auto it = listenersMap_.find(name);\n    if (it != listenersMap_.end()) {\n      for (auto &[_, listener] : it->second) {\n        listeners.push_back(listener);\n      }\n    }\n  }\n\n  for (auto& listener : listeners) {\n    try {\n      callInvoker_->invokeAsync([listener](jsi::Runtime &rt) {\n        listener->call(rt);\n      });\n    } catch (const std::exception& err) {\n      // Noop\n    }\n  }\n}",
            );
            proof {
                assert(emit_impl@ =~= spec_emit_impl(schema.module_name@));
            }
            all_impls.push(emit_impl);
        }
        extend_strings(&mut all_impls, &m_impls);
        extend_strings(&mut all_impls, &s_impls);
        proof {
            assert(views_of(all_impls@) =~= spec_all_impls(*schema));
        }

        let register_stmt = if has_signals {
            let mut reg = "uintptr_t id = reinterpret_cast<uintptr_t>(this);\nauto& manager = craby::signals::SignalManager::getInstance();\nmanager.registerDelegate(id,\n                         std::bind(&"
                .to_owned();
            reg.append(cxx_mod.as_str());
            reg.append("::emit,\n                         this,\n                         std::placeholders::_1));");
            reg
        } else {
            "// No signals".to_owned()
        };
        let unregister_stmt = if has_signals {
            "// Unregister from signal manager\nuintptr_t id = reinterpret_cast<uintptr_t>(this);\nauto& manager = craby::signals::SignalManager::getInstance();\nmanager.unregisterDelegate(id);".to_owned()
        } else {
            "// No signals".to_owned()
        };
        proof {
            assert(register_stmt@ == spec_mod_register(*schema));
            assert(unregister_stmt@ == spec_mod_unregister(*schema));
        }

        let maps_joined = join_strings(&all_maps, "\n");
        let maps_ind = indent_str(maps_joined.as_str(), 2);
        let defs_joined = join_strings(&all_defs, "\n\n");
        let defs_ind = indent_str(defs_joined.as_str(), 2);
        let impls_joined = join_strings(&all_impls, "\n\n");
        let register_ind = indent_str(register_stmt.as_str(), 2);
        let unregister_ind = indent_str(unregister_stmt.as_str(), 2);

        let mut cpp = "#include \"".to_owned();
        cpp.append(cxx_mod.as_str());
        cpp.append(
            ".hpp\"\n#include \"cxx.h\"\n#include \"bridging-generated.hpp\"\n#include <react/bridging/Bridging.h>\n\nusing namespace facebook;\n\nnamespace craby {\nnamespace ",
        );
        cpp.append(flat.as_str());
        cpp.append(" {\n\n");
        cpp.append(cxx_mod.as_str());
        cpp.append("::");
        cpp.append(cxx_mod.as_str());
        cpp.append("(\n    std::shared_ptr<react::CallInvoker> jsInvoker)\n    : TurboModule(");
        cpp.append(cxx_mod.as_str());
        cpp.append("::kModuleName, jsInvoker) {\n");
        cpp.append(register_ind.as_str());
        cpp.append(
            "\n  callInvoker_ = std::move(jsInvoker);\n  module_ = std::shared_ptr<craby::bridging::",
        );
        cpp.append(pascal.as_str());
        cpp.append(">(\n    craby::bridging::create");
        cpp.append(pascal.as_str());
        cpp.append("(reinterpret_cast<uintptr_t>(this)).into_raw(),\n    [](craby::bridging::");
        cpp.append(pascal.as_str());
        cpp.append(" *ptr) { rust::Box<craby::bridging::");
        cpp.append(pascal.as_str());
        cpp.append(
            ">::from_raw(ptr); }\n  );\n  threadPool_ = std::make_shared<craby::utils::ThreadPool>(10);\n",
        );
        cpp.append(maps_ind.as_str());
        cpp.append("\n}\n\n");
        cpp.append(cxx_mod.as_str());
        cpp.append("::~");
        cpp.append(cxx_mod.as_str());
        cpp.append("() {\n  invalidate();\n}\n\nvoid ");
        cpp.append(cxx_mod.as_str());
        cpp.append(
            "::invalidate() {\n  if (invalidated_.exchange(true)) {\n    return;\n  }\n\n  invalidated_.store(true);\n  listenersMap_.clear();\n\n",
        );
        cpp.append(unregister_ind.as_str());
        cpp.append("\n\n  // Shutdown thread pool\n  threadPool_->shutdown();\n}\n\n");
        cpp.append(impls_joined.as_str());
        cpp.append("\n\n} // namespace ");
        cpp.append(flat.as_str());
        cpp.append("\n} // namespace craby");
        proof {
            assert(cpp@ =~= spec_cxx_cpp(*schema));
        }

        let mut hpp = "#pragma once\n\n#include \"CrabyUtils.hpp\"\n#include \"ffi.rs.h\"\n#include <ReactCommon/TurboModule.h>\n#include <jsi/jsi.h>\n#include <memory>\n\nnamespace craby {\nnamespace "
            .to_owned();
        hpp.append(flat.as_str());
        hpp.append(" {\n\nclass JSI_EXPORT ");
        hpp.append(cxx_mod.as_str());
        hpp.append(
            " : public facebook::react::TurboModule {\npublic:\n  static constexpr const char *kModuleName = \"",
        );
        hpp.append(schema.module_name.as_str());
        hpp.append("\";\n\n  ");
        hpp.append(cxx_mod.as_str());
        hpp.append("(std::shared_ptr<facebook::react::CallInvoker> jsInvoker);\n  ~");
        hpp.append(cxx_mod.as_str());
        hpp.append("();\n\n  void invalidate();\n");
        hpp.append(defs_ind.as_str());
        hpp.append(
            "\n\nprotected:\n  std::shared_ptr<facebook::react::CallInvoker> callInvoker_;\n  std::shared_ptr<craby::bridging::",
        );
        hpp.append(pascal.as_str());
        hpp.append(
            "> module_;\n  std::atomic<bool> invalidated_{false};\n  std::atomic<size_t> nextListenerId_{0};\n  std::mutex listenersMutex_;\n  std::unordered_map<\n    std::string,\n    std::unordered_map<size_t, std::shared_ptr<facebook::jsi::Function>>>\n    listenersMap_;\n  std::shared_ptr<craby::utils::ThreadPool> threadPool_;\n};\n\n} // namespace ",
        );
        hpp.append(flat.as_str());
        hpp.append("\n} // namespace craby");
        proof {
            assert(hpp@ =~= spec_cxx_hpp(*schema));
        }

        Ok((cpp, hpp))
    }

    /// The shared bridging templates for strings and vectors.
    pub fn cxx_bridging(&self) -> (r: String)
        ensures
            r@ == spec_cxx_bridging_text(),
    {
        "#pragma once\n\n#include \"cxx.h\"\n#include \"ffi.rs.h\"\n#include <react/bridging/Bridging.h>\n\nusing namespace facebook;\n\nnamespace facebook {\nnamespace react {\n\ntemplate <>\nstruct Bridging<rust::Str> {\n  static rust::Str fromJs(jsi::Runtime& rt, const jsi::Value &value, std::shared_ptr<CallInvoker> callInvoker) {\n    auto str = value.asString(rt).utf8(rt);\n    return rust::Str(str.data(), str.size());\n  }\n\n  static jsi::Value toJs(jsi::Runtime& rt, const rust::Str& value) {\n    return react::bridging::toJs(rt, std::string(value.data(), value.size()));\n  }\n};\n\ntemplate <>\nstruct Bridging<rust::String> {\n  static rust::String fromJs(jsi::Runtime& rt, const jsi::Value &value, std::shared_ptr<CallInvoker> callInvoker) {\n    auto str = value.asString(rt).utf8(rt);\n    return rust::String(str.data(), str.size());\n  }\n\n  static jsi::Value toJs(jsi::Runtime& rt, const rust::String& value) {\n    return react::bridging::toJs(rt, std::string(value.data(), value.size()));\n  }\n};\n\ntemplate <typename T>\nstruct Bridging<rust::Vec<T>> {\n  static rust::Vec<T> fromJs(jsi::Runtime& rt, const jsi::Value &value, std::shared_ptr<CallInvoker> callInvoker) {\n    auto arr = value.asObject(rt).asArray(rt);\n    size_t len = arr.length(rt);\n    rust::Vec<T> vec;\n    vec.reserve(len);\n\n    for (size_t i = 0; i < len; i++) {\n      auto element = arr.getValueAtIndex(rt, i);\n      vec.push_back(react::bridging::fromJs<T>(rt, element, callInvoker));\n    }\n\n    return vec;\n  }\n\n  static jsi::Array toJs(jsi::Runtime& rt, const rust::Vec<T>& vec) {\n    auto arr = jsi::Array(rt, vec.size());\n\n    for (size_t i = 0; i < vec.size(); i++) {\n      auto jsElement = react::bridging::toJs(rt, vec[i]);\n      arr.setValueAtIndex(rt, i, jsElement);\n    }\n\n    return arr;\n  }\n};\n\n} // namespace react\n} // namespace facebook".to_owned()
    }

    /// The thread-pool utility header of the generated runtime: a fixed
    /// pool of workers over a mutex/condition-guarded queue; enqueue is
    /// dropped after shutdown; shutdown drains the queue and joins every
    /// worker.
    pub fn cxx_utils(&self) -> (r: String)
        ensures
            r@ == spec_cxx_utils_text(),
    {
        "#pragma once\n\n#include \"cxx.h\"\n#include \"ffi.rs.h\"\n#include <condition_variable>\n#include <functional>\n#include <mutex>\n#include <queue>\n#include <thread>\n#include <vector>\n\nnamespace craby {\nnamespace utils {\n\nclass ThreadPool {\nprivate:\n  std::vector<std::thread> workers;\n  std::queue<std::function<void()>> tasks;\n  std::mutex mutex;\n  std::condition_variable condition;\n  bool stop;\n\npublic:\n  ThreadPool(size_t num_threads = 10) : stop(false) {\n    for (size_t i = 0; i < num_threads; ++i) {\n      workers.emplace_back([this] {\n        while (true) {\n          std::function<void()> task;\n\n          {\n            std::unique_lock<std::mutex> lock(this->mutex);\n            this->condition.wait(\n                lock, [this] { return this->stop || !this->tasks.empty(); });\n\n            if (this->stop && this->tasks.empty()) {\n              return;\n            }\n\n            task = std::move(this->tasks.front());\n            this->tasks.pop();\n          }\n\n          task();\n        }\n      });\n    }\n  }\n\n  template <class F> void enqueue(F &&f) {\n    {\n      std::unique_lock<std::mutex> lock(mutex);\n      if (stop) {\n        return;\n      }\n      tasks.emplace(std::forward<F>(f));\n    }\n    condition.notify_one();\n  }\n\n  void shutdown() {\n    {\n      std::unique_lock<std::mutex> lock(mutex);\n      stop = true;\n      std::queue<std::function<void()>> empty;\n      std::swap(tasks, empty);\n    }\n\n    condition.notify_all();\n\n    for (std::thread &worker : workers) {\n      if (worker.joinable()) {\n        worker.join();\n      }\n    }\n  }\n\n  ~ThreadPool() {\n    {\n      std::unique_lock<std::mutex> lock(mutex);\n      stop = true;\n    }\n    condition.notify_all();\n    for (std::thread &worker : workers) {\n      worker.join();\n    }\n  }\n};\n\ninline std::string errorMessage(const std::exception &err) {\n  const auto* rs_err = dynamic_cast<const rust::Error*>(&err);\n  return std::string(rs_err ? rs_err->what() : err.what());\n}\n\n} // namespace utils\n} // namespace craby".to_owned()
    }

    /// The process-wide signal dispatch registry header: a mutex-guarded
    /// singleton keyed by native-object identity, with idempotent
    /// register and unregister.
    pub fn cxx_signals(&self) -> (r: String)
        ensures
            r@ == spec_cxx_signals_text(),
    {
        "#pragma once\n\n#include \"rust/cxx.h\"\n#include <functional>\n#include <memory>\n#include <mutex>\n#include <unordered_map>\n\nnamespace craby {\nnamespace signals {\n\nusing Delegate = std::function<void(const std::string& signalName)>;\n\nclass SignalManager {\npublic:\n  static SignalManager& getInstance() {\n    static SignalManager instance;\n    return instance;\n  }\n\n  void emit(uintptr_t id, rust::Str name) const {\n    std::lock_guard<std::mutex> lock(mutex_);\n    auto it = delegates_.find(id);\n    if (it != delegates_.end()) {\n      it->second(std::string(name));\n    }\n  }\n\n  void registerDelegate(uintptr_t id, Delegate delegate) const {\n    std::lock_guard<std::mutex> lock(mutex_);\n    delegates_.insert_or_assign(id, delegate);\n  }\n\n  void unregisterDelegate(uintptr_t id) const {\n    std::lock_guard<std::mutex> lock(mutex_);\n    delegates_.erase(id);\n  }\n\nprivate:\n  SignalManager() = default;\n  mutable std::unordered_map<uintptr_t, Delegate> delegates_;\n  mutable std::mutex mutex_;\n};\n\ninline const SignalManager& getSignalManager() {\n  return SignalManager::getInstance();\n}\n\n} // namespace signals\n} // namespace craby".to_owned()
    }
}

pub open spec fn spec_cxx_bridging_text() -> Seq<char> {
    "#pragma once\n\n#include \"cxx.h\"\n#include \"ffi.rs.h\"\n#include <react/bridging/Bridging.h>\n\nusing namespace facebook;\n\nnamespace facebook {\nnamespace react {\n\ntemplate <>\nstruct Bridging<rust::Str> {\n  static rust::Str fromJs(jsi::Runtime& rt, const jsi::Value &value, std::shared_ptr<CallInvoker> callInvoker) {\n    auto str = value.asString(rt).utf8(rt);\n    return rust::Str(str.data(), str.size());\n  }\n\n  static jsi::Value toJs(jsi::Runtime& rt, const rust::Str& value) {\n    return react::bridging::toJs(rt, std::string(value.data(), value.size()));\n  }\n};\n\ntemplate <>\nstruct Bridging<rust::String> {\n  static rust::String fromJs(jsi::Runtime& rt, const jsi::Value &value, std::shared_ptr<CallInvoker> callInvoker) {\n    auto str = value.asString(rt).utf8(rt);\n    return rust::String(str.data(), str.size());\n  }\n\n  static jsi::Value toJs(jsi::Runtime& rt, const rust::String& value) {\n    return react::bridging::toJs(rt, std::string(value.data(), value.size()));\n  }\n};\n\ntemplate <typename T>\nstruct Bridging<rust::Vec<T>> {\n  static rust::Vec<T> fromJs(jsi::Runtime& rt, const jsi::Value &value, std::shared_ptr<CallInvoker> callInvoker) {\n    auto arr = value.asObject(rt).asArray(rt);\n    size_t len = arr.length(rt);\n    rust::Vec<T> vec;\n    vec.reserve(len);\n\n    for (size_t i = 0; i < len; i++) {\n      auto element = arr.getValueAtIndex(rt, i);\n      vec.push_back(react::bridging::fromJs<T>(rt, element, callInvoker));\n    }\n\n    return vec;\n  }\n\n  static jsi::Array toJs(jsi::Runtime& rt, const rust::Vec<T>& vec) {\n    auto arr = jsi::Array(rt, vec.size());\n\n    for (size_t i = 0; i < vec.size(); i++) {\n      auto jsElement = react::bridging::toJs(rt, vec[i]);\n      arr.setValueAtIndex(rt, i, jsElement);\n    }\n\n    return arr;\n  }\n};\n\n} // namespace react\n} // namespace facebook"@
}

pub open spec fn spec_cxx_utils_text() -> Seq<char> {
    "#pragma once\n\n#include \"cxx.h\"\n#include \"ffi.rs.h\"\n#include <condition_variable>\n#include <functional>\n#include <mutex>\n#include <queue>\n#include <thread>\n#include <vector>\n\nnamespace craby {\nnamespace utils {\n\nclass ThreadPool {\nprivate:\n  std::vector<std::thread> workers;\n  std::queue<std::function<void()>> tasks;\n  std::mutex mutex;\n  std::condition_variable condition;\n  bool stop;\n\npublic:\n  ThreadPool(size_t num_threads = 10) : stop(false) {\n    for (size_t i = 0; i < num_threads; ++i) {\n      workers.emplace_back([this] {\n        while (true) {\n          std::function<void()> task;\n\n          {\n            std::unique_lock<std::mutex> lock(this->mutex);\n            this->condition.wait(\n                lock, [this] { return this->stop || !this->tasks.empty(); });\n\n            if (this->stop && this->tasks.empty()) {\n              return;\n            }\n\n            task = std::move(this->tasks.front());\n            this->tasks.pop();\n          }\n\n          task();\n        }\n      });\n    }\n  }\n\n  template <class F> void enqueue(F &&f) {\n    {\n      std::unique_lock<std::mutex> lock(mutex);\n      if (stop) {\n        return;\n      }\n      tasks.emplace(std::forward<F>(f));\n    }\n    condition.notify_one();\n  }\n\n  void shutdown() {\n    {\n      std::unique_lock<std::mutex> lock(mutex);\n      stop = true;\n      std::queue<std::function<void()>> empty;\n      std::swap(tasks, empty);\n    }\n\n    condition.notify_all();\n\n    for (std::thread &worker : workers) {\n      if (worker.joinable()) {\n        worker.join();\n      }\n    }\n  }\n\n  ~ThreadPool() {\n    {\n      std::unique_lock<std::mutex> lock(mutex);\n      stop = true;\n    }\n    condition.notify_all();\n    for (std::thread &worker : workers) {\n      worker.join();\n    }\n  }\n};\n\ninline std::string errorMessage(const std::exception &err) {\n  const auto* rs_err = dynamic_cast<const rust::Error*>(&err);\n  return std::string(rs_err ? rs_err->what() : err.what());\n}\n\n} // namespace utils\n} // namespace craby"@
}

pub open spec fn spec_cxx_signals_text() -> Seq<char> {
    "#pragma once\n\n#include \"rust/cxx.h\"\n#include <functional>\n#include <memory>\n#include <mutex>\n#include <unordered_map>\n\nnamespace craby {\nnamespace signals {\n\nusing Delegate = std::function<void(const std::string& signalName)>;\n\nclass SignalManager {\npublic:\n  static SignalManager& getInstance() {\n    static SignalManager instance;\n    return instance;\n  }\n\n  void emit(uintptr_t id, rust::Str name) const {\n    std::lock_guard<std::mutex> lock(mutex_);\n    auto it = delegates_.find(id);\n    if (it != delegates_.end()) {\n      it->second(std::string(name));\n    }\n  }\n\n  void registerDelegate(uintptr_t id, Delegate delegate) const {\n    std::lock_guard<std::mutex> lock(mutex_);\n    delegates_.insert_or_assign(id, delegate);\n  }\n\n  void unregisterDelegate(uintptr_t id) const {\n    std::lock_guard<std::mutex> lock(mutex_);\n    delegates_.erase(id);\n  }\n\nprivate:\n  SignalManager() = default;\n  mutable std::unordered_map<uintptr_t, Delegate> delegates_;\n  mutable std::mutex mutex_;\n};\n\ninline const SignalManager& getSignalManager() {\n  return SignalManager::getInstance();\n}\n\n} // namespace signals\n} // namespace craby"@
}

/// The implementation-file artifact of one schema.
pub open spec fn spec_cpp_artifact(root: Seq<char>, s: Schema) -> ArtifactView {
    ArtifactView {
        path: spec_path_join(
            spec_path_join(root, "cpp"@),
            spec_cxx_module_name(s.module_name@) + ".cpp"@,
        ),
        content: spec_cxx_cpp(s),
        overwrite: true,
    }
}

/// The header-file artifact of one schema.
pub open spec fn spec_hpp_artifact(root: Seq<char>, s: Schema) -> ArtifactView {
    ArtifactView {
        path: spec_path_join(
            spec_path_join(root, "cpp"@),
            spec_cxx_module_name(s.module_name@) + ".hpp"@,
        ),
        content: spec_cxx_hpp(s),
        overwrite: true,
    }
}

/// The two class-file artifacts of each schema, in schema order.
pub open spec fn spec_mod_artifacts(root: Seq<char>, schemas: Seq<Schema>) -> Seq<ArtifactView>
    decreases schemas.len(),
{
    if schemas.len() == 0 {
        Seq::empty()
    } else {
        seq![spec_cpp_artifact(root, schemas[0]), spec_hpp_artifact(root, schemas[0])]
            + spec_mod_artifacts(root, schemas.drop_first())
    }
}

pub proof fn lemma_mod_artifacts_push(root: Seq<char>, s: Seq<Schema>, x: Schema)
    ensures
        spec_mod_artifacts(root, s.push(x)) == spec_mod_artifacts(root, s).push(
            spec_cpp_artifact(root, x),
        ).push(spec_hpp_artifact(root, x)),
    decreases s.len(),
{
    if s.len() == 0 {
        assert(s.push(x)[0] == x);
        assert(s.push(x).drop_first() =~= Seq::<Schema>::empty());
        assert(spec_mod_artifacts(root, Seq::<Schema>::empty()) == Seq::<ArtifactView>::empty());
        assert(spec_mod_artifacts(root, s.push(x)) =~= spec_mod_artifacts(root, s).push(
            spec_cpp_artifact(root, x),
        ).push(spec_hpp_artifact(root, x)));
    } else {
        assert(s.push(x)[0] == s[0]);
        assert(s.push(x).drop_first() =~= s.drop_first().push(x));
        lemma_mod_artifacts_push(root, s.drop_first(), x);
        assert(spec_mod_artifacts(root, s.push(x)) =~= spec_mod_artifacts(root, s).push(
            spec_cpp_artifact(root, x),
        ).push(spec_hpp_artifact(root, x)));
    }
}

/// All C++ artifacts of one pass: the per-module class files, the
/// bridging templates, the utility header, and — when any module
/// declares signals — the signal manager header.
pub open spec fn spec_cxx_artifacts(ctx: CodegenContext) -> Seq<ArtifactView> {
    spec_mod_artifacts(ctx.root@, ctx.schemas@) + seq![
        ArtifactView {
            path: spec_path_join(spec_path_join(ctx.root@, "cpp"@), "bridging-generated.hpp"@),
            content: spec_cxx_bridging_text(),
            overwrite: true,
        },
        ArtifactView {
            path: spec_path_join(spec_path_join(ctx.root@, "cpp"@), "CrabyUtils.hpp"@),
            content: spec_cxx_utils_text(),
            overwrite: true,
        },
    ] + if spec_ctx_has_signals(ctx) {
        seq![
            ArtifactView {
                path: spec_path_join(
                    spec_path_join(
                        spec_path_join(spec_path_join(ctx.root@, "crates"@), "lib"@),
                        "include"@,
                    ),
                    "CrabySignals.h"@,
                ),
                content: spec_cxx_signals_text(),
                overwrite: true,
            },
        ]
    } else {
        Seq::<ArtifactView>::empty()
    }
}

impl CxxGenerator {
    pub fn new() -> (r: CxxGenerator) {
        CxxGenerator
    }

    /// Produce all C++ artifacts.
    #[verifier::loop_isolation(false)]
    #[verifier::rlimit(60)]
    pub fn generate_artifacts(&self, ctx: &CodegenContext) -> (r: Result<
        Vec<TemplateResult>,
        CodegenError,
    >)
        ensures
            r is Ok <==> spec_ctx_ok(*ctx),
            r matches Ok(v) ==> artifact_views(v@) == spec_cxx_artifacts(*ctx),
            r matches Err(e) ==> spec_cxx_ctx_error(e, *ctx),
    {
        let schemas = &ctx.schemas;
        let template = CxxTemplate;
        let cxx_base = cxx_dir(ctx.root.as_str());
        let mut results: Vec<TemplateResult> = Vec::new();
        let mut found_signals: bool = false;
        let mut i: usize = 0;
        while i < schemas.len()
            invariant
                i <= schemas@.len(),
                cxx_base@ == spec_path_join(ctx.root@, "cpp"@),
                artifact_views(results@) == spec_mod_artifacts(
                    ctx.root@,
                    schemas@.subrange(0, i as int),
                ),
                forall|k: int| 0 <= k < i ==> spec_cxx_schema_ok(#[trigger] schemas@[k]),
                found_signals == exists|k: int|
                    0 <= k < i && (#[trigger] schemas@[k].signals@.len()) > 0,
            decreases schemas@.len() - i,
        {
            let (cpp, hpp) = match template.cxx_mod(&schemas[i]) {
                Ok(pair) => pair,
                Err(e) => {
                    proof {
                        assert(!spec_cxx_schema_ok(schemas@[i as int]));
                    }
                    return Err(e);
                },
            };
            if schemas[i].signals.len() > 0 {
                found_signals = true;
            }
            let cxx_mod = cxx_mod_cls_name(schemas[i].module_name.as_str());
            let mut cpp_name = cxx_mod.clone();
            cpp_name.append(".cpp");
            let mut hpp_name = cxx_mod;
            hpp_name.append(".hpp");
            let cpp_res = TemplateResult {
                path: path_join(cxx_base.as_str(), cpp_name.as_str()),
                content: cpp,
                overwrite: true,
            };
            let hpp_res = TemplateResult {
                path: path_join(cxx_base.as_str(), hpp_name.as_str()),
                content: hpp,
                overwrite: true,
            };
            proof {
                assert(cpp_res@ == spec_cpp_artifact(ctx.root@, schemas@[i as int]));
                assert(hpp_res@ == spec_hpp_artifact(ctx.root@, schemas@[i as int]));
                crate::gen_types::lemma_artifact_views_push(results@, cpp_res);
                crate::gen_types::lemma_artifact_views_push(results@.push(cpp_res), hpp_res);
            }
            results.push(cpp_res);
            results.push(hpp_res);
            i = i + 1;
            proof {
                let prefix = schemas@.subrange(0, i - 1 as int);
                assert(schemas@.subrange(0, i as int) =~= prefix.push(schemas@[i - 1]));
                lemma_mod_artifacts_push(ctx.root@, prefix, schemas@[i - 1]);
            }
        }
        proof {
            assert(schemas@.subrange(0, schemas@.len() as int) =~= schemas@);
        }
        let bridging_res = TemplateResult {
            path: path_join(cxx_base.as_str(), "bridging-generated.hpp"),
            content: template.cxx_bridging(),
            overwrite: true,
        };
        let utils_res = TemplateResult {
            path: path_join(cxx_base.as_str(), "CrabyUtils.hpp"),
            content: template.cxx_utils(),
            overwrite: true,
        };
        proof {
            crate::gen_types::lemma_artifact_views_push(results@, bridging_res);
            crate::gen_types::lemma_artifact_views_push(results@.push(bridging_res), utils_res);
        }
        results.push(bridging_res);
        results.push(utils_res);
        if found_signals {
            let inc_dir = cxx_bridge_include_dir(ctx.root.as_str());
            let signals_res = TemplateResult {
                path: path_join(inc_dir.as_str(), "CrabySignals.h"),
                content: template.cxx_signals(),
                overwrite: true,
            };
            proof {
                crate::gen_types::lemma_artifact_views_push(results@, signals_res);
            }
            results.push(signals_res);
        }
        proof {
            assert(artifact_views(results@) =~= spec_cxx_artifacts(*ctx));
        }
        Ok(results)
    }
}

impl Template for CxxTemplate {
    type FileType = CxxFileType;

    fn render(&self, ctx: &CodegenContext, file_type: &Self::FileType) -> Result<
        Vec<TemplateResult>,
        CodegenError,
    > {
        let mut results: Vec<TemplateResult> = Vec::new();
        let cxx_base = cxx_dir(ctx.root.as_str());
        match file_type {
            CxxFileType::Mod => {
                let mut i: usize = 0;
                while i < ctx.schemas.len()
                    decreases ctx.schemas@.len() - i,
                {
                    let (cpp, hpp) = match self.cxx_mod(&ctx.schemas[i]) {
                        Ok(pair) => pair,
                        Err(e) => {
                            return Err(e);
                        },
                    };
                    let cxx_mod = cxx_mod_cls_name(ctx.schemas[i].module_name.as_str());
                    let mut cpp_name = cxx_mod.clone();
                    cpp_name.append(".cpp");
                    let mut hpp_name = cxx_mod;
                    hpp_name.append(".hpp");
                    results.push(
                        TemplateResult {
                            path: path_join(cxx_base.as_str(), cpp_name.as_str()),
                            content: cpp,
                            overwrite: true,
                        },
                    );
                    results.push(
                        TemplateResult {
                            path: path_join(cxx_base.as_str(), hpp_name.as_str()),
                            content: hpp,
                            overwrite: true,
                        },
                    );
                    i = i + 1;
                }
            },
            CxxFileType::BridgingHpp => {
                results.push(
                    TemplateResult {
                        path: path_join(cxx_base.as_str(), "bridging-generated.hpp"),
                        content: self.cxx_bridging(),
                        overwrite: true,
                    },
                );
            },
            CxxFileType::UtilsHpp => {
                results.push(
                    TemplateResult {
                        path: path_join(cxx_base.as_str(), "CrabyUtils.hpp"),
                        content: self.cxx_utils(),
                        overwrite: true,
                    },
                );
            },
            CxxFileType::SignalsH => {
                let mut has_signals: bool = false;
                let mut i: usize = 0;
                while i < ctx.schemas.len()
                    decreases ctx.schemas@.len() - i,
                {
                    if ctx.schemas[i].signals.len() > 0 {
                        has_signals = true;
                    }
                    i = i + 1;
                }
                if has_signals {
                    let inc_dir = cxx_bridge_include_dir(ctx.root.as_str());
                    results.push(
                        TemplateResult {
                            path: path_join(inc_dir.as_str(), "CrabySignals.h"),
                            content: self.cxx_signals(),
                            overwrite: true,
                        },
                    );
                }
            },
        }
        Ok(results)
    }
}

impl Generator<CxxTemplate> for CxxGenerator {
    /// Previously generated class files are named `Cxx...Module.cpp` or
    /// `Cxx...Module.hpp`.
    fn cleanup_matches(file_name: &str) -> (r: bool)
        ensures
            r == (crate::text::spec_has_prefix(file_name@, "Cxx"@) && (crate::paths::spec_has_suffix(
                file_name@,
                "Module.cpp"@,
            ) || crate::paths::spec_has_suffix(file_name@, "Module.hpp"@))),
    {
        let starts = crate::text::has_prefix(file_name, "Cxx");
        let cpp = crate::paths::has_suffix(file_name, "Module.cpp");
        let hpp = crate::paths::has_suffix(file_name, "Module.hpp");
        starts && (cpp || hpp)
    }

    fn generate(&self, ctx: &CodegenContext) -> Result<Vec<TemplateResult>, CodegenError> {
        self.generate_artifacts(ctx)
    }

    fn template_ref(&self) -> &CxxTemplate {
        &CxxTemplate
    }
}

impl GeneratorInvoker for CxxGenerator {
    fn invoke_generate(&self, ctx: &CodegenContext) -> Result<Vec<TemplateResult>, CodegenError> {
        self.generate(ctx)
    }
}

} // verus!
