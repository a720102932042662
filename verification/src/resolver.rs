//! The type-annotation resolver: the central policy mapping a source type
//! annotation to a host-language type, a platform FFI type, and the
//! marshalling metadata each emitter needs. Resolution is total over the
//! supported subset (boolean, the number family, the string family, void)
//! and fails fast on anything else.

use vstd::prelude::*;
use vstd::string::StringExecFns;

use crate::env::Platform;
use crate::errors::CodegenError;
use crate::schema::TypeAnnotation;

verus! {

/// A resolved host-language type. Every numeric subtype collapses to
/// `Number` and every string subtype to `String`: no precision distinction
/// is preserved in generated code.
pub enum Type {
    String,
    Number,
    Boolean,
    Void,
    Array(String),
    Nullable(String),
}

/// Marshalling policy for one resolved type on one platform: the import
/// the generated file needs, and the conversion functions to apply at the
/// platform boundary. Derived on demand; never cached across platforms.
pub struct InteropInfo {
    pub import_module: Option<String>,
    pub from_ffi_fn: Option<String>,
    pub to_ffi_fn: Option<String>,
}

pub open spec fn is_number_family(t: TypeAnnotation) -> bool {
    match t {
        TypeAnnotation::NumberTypeAnnotation => true,
        TypeAnnotation::FloatTypeAnnotation => true,
        TypeAnnotation::DoubleTypeAnnotation => true,
        TypeAnnotation::Int32TypeAnnotation => true,
        TypeAnnotation::NumberLiteralTypeAnnotation { .. } => true,
        _ => false,
    }
}

pub open spec fn is_string_family(t: TypeAnnotation) -> bool {
    match t {
        TypeAnnotation::StringTypeAnnotation => true,
        TypeAnnotation::StringLiteralTypeAnnotation { .. } => true,
        TypeAnnotation::StringLiteralUnionTypeAnnotation { .. } => true,
        _ => false,
    }
}

/// The supported subset of annotations: resolution succeeds exactly here.
pub open spec fn is_supported_base(t: TypeAnnotation) -> bool {
    t is BooleanTypeAnnotation || is_number_family(t) || is_string_family(t)
        || t is VoidTypeAnnotation
}

/// The host type each supported annotation resolves to.
pub open spec fn spec_rust_type(t: TypeAnnotation) -> Type {
    if t is BooleanTypeAnnotation {
        Type::Boolean
    } else if is_number_family(t) {
        Type::Number
    } else if is_string_family(t) {
        Type::String
    } else {
        Type::Void
    }
}

/// The host-language type expression for a resolved type.
pub open spec fn spec_type_text(ty: Type) -> Seq<char> {
    match ty {
        Type::String => "String"@,
        Type::Number => "f64"@,
        Type::Boolean => "bool"@,
        Type::Void => "()"@,
        Type::Array(t) => "Vec<"@ + t@ + ">"@,
        Type::Nullable(t) => "Option<"@ + t@ + ">"@,
    }
}

/// The platform FFI type expression for a supported annotation.
pub open spec fn spec_ffi_text(t: TypeAnnotation, platform: Platform) -> Seq<char> {
    match platform {
        Platform::Android => {
            if t is BooleanTypeAnnotation {
                "bool"@
            } else if is_number_family(t) {
                "jdouble"@
            } else if is_string_family(t) {
                "jstring"@
            } else {
                "()"@
            }
        },
        Platform::Ios => {
            if t is BooleanTypeAnnotation {
                "bool"@
            } else if is_number_family(t) {
                "c_double"@
            } else if is_string_family(t) {
                "*const c_char"@
            } else {
                "()"@
            }
        },
    }
}

/// The interop import a marshalled type needs on each platform.
pub open spec fn spec_interop_import(platform: Platform) -> Seq<char> {
    match platform {
        Platform::Android => "craby_core::android::interop::string::*"@,
        Platform::Ios => "craby_core::ios::interop::string::*"@,
    }
}

/// What a correct `InteropInfo` holds for a resolved type on a platform:
/// string types always carry the conversion pair and the platform import;
/// numeric, boolean and void types never require marshalling.
pub open spec fn interop_matches(ii: InteropInfo, ty: Type, platform: Platform) -> bool {
    match ty {
        Type::String => {
            &&& ii.import_module matches Some(m) && m@ == spec_interop_import(platform)
            &&& ii.from_ffi_fn matches Some(f) && f@ == "String::from_native"@
            &&& ii.to_ffi_fn matches Some(f) && f@ == "to_native"@
        },
        _ => ii.import_module is None && ii.from_ffi_fn is None && ii.to_ffi_fn is None,
    }
}

/// The tag naming each annotation variant, used to identify an offending
/// construct in error messages.
pub open spec fn spec_variant_name(t: TypeAnnotation) -> Seq<char> {
    match t {
        TypeAnnotation::ReservedTypeAnnotation { .. } => "ReservedTypeAnnotation"@,
        TypeAnnotation::StringTypeAnnotation => "StringTypeAnnotation"@,
        TypeAnnotation::StringLiteralTypeAnnotation { .. } => "StringLiteralTypeAnnotation"@,
        TypeAnnotation::StringLiteralUnionTypeAnnotation { .. } => "StringLiteralUnionTypeAnnotation"@,
        TypeAnnotation::BooleanTypeAnnotation => "BooleanTypeAnnotation"@,
        TypeAnnotation::NumberTypeAnnotation => "NumberTypeAnnotation"@,
        TypeAnnotation::FloatTypeAnnotation => "FloatTypeAnnotation"@,
        TypeAnnotation::DoubleTypeAnnotation => "DoubleTypeAnnotation"@,
        TypeAnnotation::Int32TypeAnnotation => "Int32TypeAnnotation"@,
        TypeAnnotation::NumberLiteralTypeAnnotation { .. } => "NumberLiteralTypeAnnotation"@,
        TypeAnnotation::EnumDeclaration { .. } => "EnumDeclaration"@,
        TypeAnnotation::ArrayTypeAnnotation { .. } => "ArrayTypeAnnotation"@,
        TypeAnnotation::FunctionTypeAnnotation { .. } => "FunctionTypeAnnotation"@,
        TypeAnnotation::GenericObjectTypeAnnotation => "GenericObjectTypeAnnotation"@,
        TypeAnnotation::ObjectTypeAnnotation { .. } => "ObjectTypeAnnotation"@,
        TypeAnnotation::UnionTypeAnnotation { .. } => "UnionTypeAnnotation"@,
        TypeAnnotation::MixedTypeAnnotation => "MixedTypeAnnotation"@,
        TypeAnnotation::VoidTypeAnnotation => "VoidTypeAnnotation"@,
        TypeAnnotation::NullableTypeAnnotation { .. } => "NullableTypeAnnotation"@,
        TypeAnnotation::TypeAliasTypeAnnotation { .. } => "TypeAliasTypeAnnotation"@,
    }
}

/// The error the resolver reports for an unsupported annotation: it names
/// the construct; the surrounding layers fill in parameter, method and
/// module.
pub open spec fn is_unsupported_error(e: CodegenError, t: TypeAnnotation) -> bool {
    &&& e.construct@ == spec_variant_name(t)
    &&& e.module@ == Seq::<char>::empty()
    &&& e.method@ == Seq::<char>::empty()
    &&& e.param@ == Seq::<char>::empty()
}

impl InteropInfo {
    /// No marshalling: no import, no conversions.
    pub fn none() -> (r: InteropInfo)
        ensures
            r.import_module is None,
            r.from_ffi_fn is None,
            r.to_ffi_fn is None,
    {
        InteropInfo { import_module: None, from_ffi_fn: None, to_ffi_fn: None }
    }

    /// The marshalling pair for string values on `platform`.
    pub fn string(platform: Platform) -> (r: InteropInfo)
        ensures
            interop_matches(r, Type::String, platform),
    {
        let prefix = match platform {
            Platform::Android => "craby_core::android::interop::string::*",
            Platform::Ios => "craby_core::ios::interop::string::*",
        };
        InteropInfo {
            import_module: Some(prefix.to_owned()),
            from_ffi_fn: Some("String::from_native".to_owned()),
            to_ffi_fn: Some("to_native".to_owned()),
        }
    }
}

impl Type {
    /// The marshalling policy of this type on `platform`.
    pub fn get_interop_info(&self, platform: Platform) -> (r: InteropInfo)
        ensures
            interop_matches(r, *self, platform),
    {
        match self {
            Type::String => InteropInfo::string(platform),
            _ => InteropInfo::none(),
        }
    }

    /// The host-language type expression.
    pub fn to_text(&self) -> (r: String)
        ensures
            r@ == spec_type_text(*self),
    {
        match self {
            Type::String => "String".to_owned(),
            Type::Number => "f64".to_owned(),
            Type::Boolean => "bool".to_owned(),
            Type::Void => "()".to_owned(),
            Type::Array(t) => {
                let mut out = "Vec<".to_owned();
                out.append(t.as_str());
                out.append(">");
                out
            },
            Type::Nullable(t) => {
                let mut out = "Option<".to_owned();
                out.append(t.as_str());
                out.append(">");
                out
            },
        }
    }
}

impl TypeAnnotation {
    /// The tag naming this annotation variant.
    pub fn variant_name(&self) -> (r: String)
        ensures
            r@ == spec_variant_name(*self),
    {
        match self {
            TypeAnnotation::ReservedTypeAnnotation { .. } => "ReservedTypeAnnotation".to_owned(),
            TypeAnnotation::StringTypeAnnotation => "StringTypeAnnotation".to_owned(),
            TypeAnnotation::StringLiteralTypeAnnotation { .. } => "StringLiteralTypeAnnotation".to_owned(),
            TypeAnnotation::StringLiteralUnionTypeAnnotation { .. } => "StringLiteralUnionTypeAnnotation".to_owned(),
            TypeAnnotation::BooleanTypeAnnotation => "BooleanTypeAnnotation".to_owned(),
            TypeAnnotation::NumberTypeAnnotation => "NumberTypeAnnotation".to_owned(),
            TypeAnnotation::FloatTypeAnnotation => "FloatTypeAnnotation".to_owned(),
            TypeAnnotation::DoubleTypeAnnotation => "DoubleTypeAnnotation".to_owned(),
            TypeAnnotation::Int32TypeAnnotation => "Int32TypeAnnotation".to_owned(),
            TypeAnnotation::NumberLiteralTypeAnnotation { .. } => "NumberLiteralTypeAnnotation".to_owned(),
            TypeAnnotation::EnumDeclaration { .. } => "EnumDeclaration".to_owned(),
            TypeAnnotation::ArrayTypeAnnotation { .. } => "ArrayTypeAnnotation".to_owned(),
            TypeAnnotation::FunctionTypeAnnotation { .. } => "FunctionTypeAnnotation".to_owned(),
            TypeAnnotation::GenericObjectTypeAnnotation => "GenericObjectTypeAnnotation".to_owned(),
            TypeAnnotation::ObjectTypeAnnotation { .. } => "ObjectTypeAnnotation".to_owned(),
            TypeAnnotation::UnionTypeAnnotation { .. } => "UnionTypeAnnotation".to_owned(),
            TypeAnnotation::MixedTypeAnnotation => "MixedTypeAnnotation".to_owned(),
            TypeAnnotation::VoidTypeAnnotation => "VoidTypeAnnotation".to_owned(),
            TypeAnnotation::NullableTypeAnnotation { .. } => "NullableTypeAnnotation".to_owned(),
            TypeAnnotation::TypeAliasTypeAnnotation { .. } => "TypeAliasTypeAnnotation".to_owned(),
        }
    }

    /// Resolve this annotation to a host type. Succeeds exactly on the
    /// supported subset; anything else is an unsupported-input error.
    pub fn get_rust_type(&self) -> (r: Result<Type, CodegenError>)
        ensures
            r is Ok <==> is_supported_base(*self),
            r matches Ok(ty) ==> ty == spec_rust_type(*self),
            r matches Err(e) ==> is_unsupported_error(e, *self),
    {
        match self {
            TypeAnnotation::BooleanTypeAnnotation => Ok(Type::Boolean),
            TypeAnnotation::NumberTypeAnnotation
            | TypeAnnotation::FloatTypeAnnotation
            | TypeAnnotation::DoubleTypeAnnotation
            | TypeAnnotation::Int32TypeAnnotation
            | TypeAnnotation::NumberLiteralTypeAnnotation { .. } => Ok(Type::Number),
            TypeAnnotation::StringTypeAnnotation
            | TypeAnnotation::StringLiteralTypeAnnotation { .. }
            | TypeAnnotation::StringLiteralUnionTypeAnnotation { .. } => Ok(Type::String),
            TypeAnnotation::VoidTypeAnnotation => Ok(Type::Void),
            _ => Err(CodegenError::unsupported(self.variant_name())),
        }
    }

    /// The host-language type expression for this annotation.
    pub fn to_rs_type(&self) -> (r: Result<String, CodegenError>)
        ensures
            r is Ok <==> is_supported_base(*self),
            r matches Ok(s) ==> s@ == spec_type_text(spec_rust_type(*self)),
            r matches Err(e) ==> is_unsupported_error(e, *self),
    {
        match self.get_rust_type() {
            Ok(ty) => Ok(ty.to_text()),
            Err(e) => Err(e),
        }
    }

    /// The marshalling policy of this annotation on `platform`.
    pub fn get_interop_info(&self, platform: Platform) -> (r: Result<
        InteropInfo,
        CodegenError,
    >)
        ensures
            r is Ok <==> is_supported_base(*self),
            r matches Ok(ii) ==> interop_matches(ii, spec_rust_type(*self), platform),
            r matches Err(e) ==> is_unsupported_error(e, *self),
    {
        match self.get_rust_type() {
            Ok(ty) => Ok(ty.get_interop_info(platform)),
            Err(e) => Err(e),
        }
    }

    /// The platform FFI type expression for this annotation.
    pub fn to_ffi_type(&self, platform: Platform) -> (r: Result<String, CodegenError>)
        ensures
            r is Ok <==> is_supported_base(*self),
            r matches Ok(s) ==> s@ == spec_ffi_text(*self, platform),
            r matches Err(e) ==> is_unsupported_error(e, *self),
    {
        match platform {
            Platform::Android => match self {
                TypeAnnotation::BooleanTypeAnnotation => Ok("bool".to_owned()),
                TypeAnnotation::NumberTypeAnnotation
                | TypeAnnotation::FloatTypeAnnotation
                | TypeAnnotation::DoubleTypeAnnotation
                | TypeAnnotation::Int32TypeAnnotation
                | TypeAnnotation::NumberLiteralTypeAnnotation { .. } => Ok("jdouble".to_owned()),
                TypeAnnotation::StringTypeAnnotation
                | TypeAnnotation::StringLiteralTypeAnnotation { .. }
                | TypeAnnotation::StringLiteralUnionTypeAnnotation { .. } => Ok(
                    "jstring".to_owned(),
                ),
                TypeAnnotation::VoidTypeAnnotation => Ok("()".to_owned()),
                _ => Err(CodegenError::unsupported(self.variant_name())),
            },
            Platform::Ios => match self {
                TypeAnnotation::BooleanTypeAnnotation => Ok("bool".to_owned()),
                TypeAnnotation::NumberTypeAnnotation
                | TypeAnnotation::FloatTypeAnnotation
                | TypeAnnotation::DoubleTypeAnnotation
                | TypeAnnotation::Int32TypeAnnotation
                | TypeAnnotation::NumberLiteralTypeAnnotation { .. } => Ok("c_double".to_owned()),
                TypeAnnotation::StringTypeAnnotation
                | TypeAnnotation::StringLiteralTypeAnnotation { .. }
                | TypeAnnotation::StringLiteralUnionTypeAnnotation { .. } => Ok(
                    "*const c_char".to_owned(),
                ),
                TypeAnnotation::VoidTypeAnnotation => Ok("()".to_owned()),
                _ => Err(CodegenError::unsupported(self.variant_name())),
            },
        }
    }
}

} // verus!
