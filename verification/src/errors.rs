//! Generation-time errors. An unsupported type annotation is a hard stop
//! for the whole run: no partial or degraded output is ever produced.

use vstd::prelude::*;
use vstd::string::StringExecFns;

verus! {

/// A generation-time failure, identifying the offending construct and,
/// once the surrounding layers have filled them in, the parameter, method
/// and module it was found under. Empty fields are not yet known.
#[derive(Debug)]
pub struct CodegenError {
    /// The unsupported annotation's tag, e.g. `ObjectTypeAnnotation`.
    pub construct: String,
    /// Module the offending annotation belongs to, when known.
    pub module: String,
    /// Method the offending annotation belongs to, when known.
    pub method: String,
    /// Parameter the offending annotation belongs to, when known.
    pub param: String,
}

impl CodegenError {
    /// A fresh unsupported-type error naming only the construct.
    pub fn unsupported(construct: String) -> (r: CodegenError)
        ensures
            r.construct == construct,
            r.module@ == Seq::<char>::empty(),
            r.method@ == Seq::<char>::empty(),
            r.param@ == Seq::<char>::empty(),
    {
        CodegenError { construct, module: String::new(), method: String::new(), param: String::new() }
    }

    /// The same error, now locating the parameter it was found under.
    pub fn at_param(self, name: &str) -> (r: CodegenError)
        ensures
            r.construct == self.construct,
            r.module == self.module,
            r.method == self.method,
            r.param@ == name@,
    {
        CodegenError { param: name.to_owned(), ..self }
    }

    /// The same error, now locating the method it was found under.
    pub fn at_method(self, name: &str) -> (r: CodegenError)
        ensures
            r.construct == self.construct,
            r.module == self.module,
            r.method@ == name@,
            r.param == self.param,
    {
        CodegenError { method: name.to_owned(), ..self }
    }

    /// The same error, now locating the module it was found under.
    pub fn at_module(self, name: &str) -> (r: CodegenError)
        ensures
            r.construct == self.construct,
            r.module@ == name@,
            r.method == self.method,
            r.param == self.param,
    {
        CodegenError { module: name.to_owned(), ..self }
    }

    /// A human-readable description of the failure.
    pub fn message(&self) -> (r: String)
        ensures
            r@ == "unsupported type annotation: "@ + self.construct@ + " (module: "@
                + self.module@ + ", method: "@ + self.method@ + ", parameter: "@ + self.param@
                + ")"@,
    {
        let mut out = "unsupported type annotation: ".to_owned();
        out.append(self.construct.as_str());
        out.append(" (module: ");
        out.append(self.module.as_str());
        out.append(", method: ");
        out.append(self.method.as_str());
        out.append(", parameter: ");
        out.append(self.param.as_str());
        out.append(")");
        out
    }
}

} // verus!
