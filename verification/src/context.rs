//! The generation context: the full set of module schemas a pass works
//! over, plus the naming newtypes that keep the C++ and Objective-C sides
//! of the bridge referring to one another consistently.

use vstd::prelude::*;
use vstd::string::StringExecFns;

use crate::schema::{FunctionSpec, TypeAnnotation};
use crate::text::{flat_case, flat_of, pascal_case, pascal_of};

verus! {

/// A named event-emission channel a module exposes to the host runtime.
pub struct Signal {
    pub name: String,
}

/// One module's full surface for the multi-target generators: methods,
/// signals, and the alias/enum annotations hoisted for type generation.
pub struct Schema {
    pub module_name: String,
    /// Object-type annotations hoisted from the alias map.
    pub aliases: Vec<TypeAnnotation>,
    /// Enum-type annotations hoisted from the enum map.
    pub enums: Vec<TypeAnnotation>,
    pub methods: Vec<FunctionSpec>,
    pub signals: Vec<Signal>,
}

/// Everything one generation pass needs: project identity and the ordered
/// schemas. Built once, read-only for every emitter.
pub struct CodegenContext {
    pub project_name: String,
    /// The project root the artifact paths are joined under.
    pub root: String,
    pub schemas: Vec<Schema>,
    pub android_package_name: String,
}

/// The C++ base namespace of a project: `craby::<flatname>`.
pub open spec fn spec_cxx_namespace(name: Seq<char>) -> Seq<char> {
    "craby::"@ + flat_of(name)
}

/// The C++ TurboModule class name of a module: `Cxx<Pascal>Module`.
pub open spec fn spec_cxx_module_name(name: Seq<char>) -> Seq<char> {
    "Cxx"@ + pascal_of(name) + "Module"@
}

/// The Objective-C module provider class name: `<Pascal>ModuleProvider`.
pub open spec fn spec_objc_provider_name(name: Seq<char>) -> Seq<char> {
    pascal_of(name) + "ModuleProvider"@
}

/// The C++ base namespace for the project.
pub struct CxxNamespace(pub String);

impl CxxNamespace {
    pub fn new(value: &str) -> (r: CxxNamespace)
        ensures
            r.0@ == spec_cxx_namespace(value@),
    {
        let mut out = "craby::".to_owned();
        let flat = flat_case(value);
        out.append(flat.as_str());
        CxxNamespace(out)
    }

    pub fn to_string(&self) -> (r: String)
        ensures
            r@ == self.0@,
    {
        self.0.clone()
    }
}

/// The C++ TurboModule class name (e.g. `CxxFastCalculatorModule`).
pub struct CxxModuleName(pub String);

impl CxxModuleName {
    pub fn new(value: &str) -> (r: CxxModuleName)
        ensures
            r.0@ == spec_cxx_module_name(value@),
    {
        CxxModuleName(cxx_mod_cls_name(value))
    }

    pub fn to_string(&self) -> (r: String)
        ensures
            r@ == self.0@,
    {
        self.0.clone()
    }
}

/// The Objective-C module provider name (e.g. `FastCalculatorModuleProvider`).
pub struct ObjCProviderName(pub String);

impl ObjCProviderName {
    pub fn new(value: &str) -> (r: ObjCProviderName)
        ensures
            r.0@ == spec_objc_provider_name(value@),
    {
        let mut out = pascal_case(value);
        out.append("ModuleProvider");
        ObjCProviderName(out)
    }

    pub fn to_string(&self) -> (r: String)
        ensures
            r@ == self.0@,
    {
        self.0.clone()
    }
}

/// The C++ TurboModule class name of a module, as one canonical function
/// shared by every emitter that must agree on it.
pub fn cxx_mod_cls_name(name: &str) -> (r: String)
    ensures
        r@ == spec_cxx_module_name(name@),
{
    let mut out = "Cxx".to_owned();
    let pascal = pascal_case(name);
    out.append(pascal.as_str());
    out.append("Module");
    out
}

} // verus!
