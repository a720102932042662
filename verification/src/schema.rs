//! The input schema model: one module's surface as a tree of type
//! annotations, methods and event-emitter names. The structure mirrors the
//! already-validated schema document the generator consumes; maps are kept
//! as ordered pairs so that a generation pass never depends on hash order.

use vstd::prelude::*;

verus! {

/// The closed set of source type annotations. Recursive variants hold a
/// strictly smaller annotation, so resolution always terminates.
pub enum TypeAnnotation {
    ReservedTypeAnnotation { name: String },
    StringTypeAnnotation,
    StringLiteralTypeAnnotation { value: String },
    StringLiteralUnionTypeAnnotation { values: Vec<String> },
    BooleanTypeAnnotation,
    NumberTypeAnnotation,
    FloatTypeAnnotation,
    DoubleTypeAnnotation,
    Int32TypeAnnotation,
    /// The literal's source text; the resolver collapses every numeric
    /// subtype to one target representation, so no numeric payload is kept.
    NumberLiteralTypeAnnotation { value: String },
    EnumDeclaration { member_type: String, members: Vec<EnumMember> },
    ArrayTypeAnnotation { element_type: Box<TypeAnnotation> },
    FunctionTypeAnnotation { return_type_annotation: Box<TypeAnnotation>, params: Vec<Parameter> },
    GenericObjectTypeAnnotation,
    ObjectTypeAnnotation { properties: Option<Vec<ObjectProperty>> },
    UnionTypeAnnotation { member_type: String, types: Vec<TypeAnnotation> },
    MixedTypeAnnotation,
    VoidTypeAnnotation,
    NullableTypeAnnotation { type_annotation: Box<TypeAnnotation> },
    TypeAliasTypeAnnotation { name: String },
}

/// One member of an enum declaration. The member's value is kept as its
/// source text.
pub struct EnumMember {
    pub name: String,
    pub value: String,
}

/// One property of an object annotation.
pub struct ObjectProperty {
    pub name: String,
    pub optional: bool,
    pub type_annotation: TypeAnnotation,
}

/// One method parameter: a name unique within its method, an optionality
/// flag, and the parameter's type annotation.
pub struct Parameter {
    pub name: String,
    pub optional: bool,
    pub type_annotation: TypeAnnotation,
}

/// One method: a name unique within its module, an optionality flag, and a
/// function-type annotation holding the return type and parameter list.
pub struct FunctionSpec {
    pub name: String,
    pub optional: bool,
    pub type_annotation: TypeAnnotation,
}

/// The body of a module schema: its event-emitter names and methods, in
/// declaration order.
pub struct Spec {
    pub event_emitters: Vec<String>,
    pub methods: Vec<FunctionSpec>,
}

/// One module's schema: name, kind tag, alias and enum maps (ordered
/// name/definition pairs), and the module body.
pub struct Schema {
    pub module_name: String,
    pub kind: String,
    pub alias_map: Vec<(String, String)>,
    pub enum_map: Vec<(String, String)>,
    pub module_spec: Spec,
}

/// The library section of a schema document.
pub struct Library {
    pub name: String,
    pub config: LibraryConfig,
}

pub struct LibraryConfig {
    pub name: Option<String>,
    pub kind: Option<String>,
    pub js_srcs_dir: Option<String>,
    pub android: Option<AndroidConfig>,
}

pub struct AndroidConfig {
    pub java_package_name: Option<String>,
}

/// All module schemas of one document, keyed by module name, in
/// declaration order.
pub struct SchemaMap {
    pub modules: Vec<(String, Schema)>,
}

/// A whole schema document.
pub struct SchemaInfo {
    pub library: Library,
    pub supported_apple_platforms: Vec<(String, String)>,
    pub schema: SchemaMap,
}

/// The innermost non-nullable annotation under `t`, and whether any
/// nullable wrapper was crossed on the way in.
pub open spec fn spec_unwrap_nullable(t: TypeAnnotation) -> (TypeAnnotation, bool)
    decreases t,
{
    match t {
        TypeAnnotation::NullableTypeAnnotation { type_annotation } => {
            (spec_unwrap_nullable(*type_annotation).0, true)
        },
        _ => (t, false),
    }
}

/// Unwrapping always lands on a non-nullable annotation: the recursion
/// cannot stop on a nullable wrapper.
pub proof fn lemma_unwrap_nullable_innermost(t: TypeAnnotation)
    ensures
        !(spec_unwrap_nullable(t).0 matches TypeAnnotation::NullableTypeAnnotation { .. }),
    decreases t,
{
    match t {
        TypeAnnotation::NullableTypeAnnotation { type_annotation } => {
            lemma_unwrap_nullable_innermost(*type_annotation);
        },
        _ => {},
    }
}

impl TypeAnnotation {
    /// Unwrap nullable wrappers down to the innermost non-nullable
    /// annotation, reporting whether the type was nullable at any depth.
    pub fn unwrap_nullable(&self) -> (r: (&TypeAnnotation, bool))
        ensures
            (*r.0, r.1) == spec_unwrap_nullable(*self),
        decreases *self,
    {
        match self {
            TypeAnnotation::NullableTypeAnnotation { type_annotation } => {
                let (inner, _) = type_annotation.unwrap_nullable();
                (inner, true)
            },
            _ => (self, false),
        }
    }
}

} // verus!
