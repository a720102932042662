//! The library's cross-cutting laws, stated over the spec functions the
//! public contracts use. Determinism of a whole pass is stated in
//! `orchestrator`; unsupported-input fast failure is the `Ok`-iff clause
//! of every resolver contract; worker-pool shutdown and idempotent
//! invalidation are the ensures of `runtime::WorkerPool` and
//! `runtime::NativeObject`.

use vstd::prelude::*;

use crate::context::{spec_cxx_module_name, Schema};
use crate::emit::spec_param_type_text;
use crate::hash::{spec_schema_hash, ser_schema_set};
use crate::resolver::{is_supported_base, spec_rust_type, spec_type_text, Type};
use crate::runtime::{spec_listeners_of, spec_without_id, Listener};
use crate::schema::{spec_unwrap_nullable, Parameter, TypeAnnotation};

verus! {

/// Hash stability: the content hash is a function of the schema list —
/// two runs over equal schema lists yield the same hash text, and the
/// hash depends on nothing but the canonical serialization.
pub proof fn lemma_hash_stable(
    a: Seq<Schema>,
    b: Seq<Schema>,
    h1: Seq<char>,
    h2: Seq<char>,
)
    requires
        ser_schema_set(a) == ser_schema_set(b),
        h1 == spec_schema_hash(a),
        h2 == spec_schema_hash(b),
    ensures
        h1 == h2,
{
}

/// Type-resolution totality over the supported subset: for every
/// combination of a supported base annotation with the nullable wrapper
/// and the optionality flag, the parameter's resolved type expression is
/// non-empty, and it is the base expression wrapped in at most one
/// nullable-wrapper level — wrapped exactly when the parameter is
/// optional or nullable at any depth.
pub proof fn lemma_resolution_totality(p: Parameter)
    requires
        is_supported_base(spec_unwrap_nullable(p.type_annotation).0),
    ensures
        spec_param_type_text(p).len() > 0,
        ({
            let base = spec_type_text(spec_rust_type(spec_unwrap_nullable(p.type_annotation).0));
            if p.optional || spec_unwrap_nullable(p.type_annotation).1 {
                spec_param_type_text(p) == "Option<"@ + base + ">"@
            } else {
                spec_param_type_text(p) == base
            }
        }),
{
    let inner = spec_unwrap_nullable(p.type_annotation).0;
    let ty = spec_rust_type(inner);
    reveal_strlit("String");
    reveal_strlit("f64");
    reveal_strlit("bool");
    reveal_strlit("()");
    reveal_strlit("Option<");
    reveal_strlit(">");
    assert(!(ty is Nullable));
    assert(spec_type_text(ty).len() > 0);
}

/// The innermost annotation under any tower of nullable wrappers is
/// itself non-nullable, so resolution can never wrap twice on account of
/// nesting.
pub proof fn lemma_no_double_nullable(t: TypeAnnotation)
    ensures
        !(spec_unwrap_nullable(t).0 matches TypeAnnotation::NullableTypeAnnotation { .. }),
{
    crate::schema::lemma_unwrap_nullable_innermost(t);
}

/// Cross-file naming consistency: the bridge class name inside the
/// generated C++ sources, the include line of the Android JNI entry, the
/// import line of the iOS module provider, and the CMake source listing
/// all derive from the one canonical class-name function, so they agree
/// byte for byte on the module's class name.
pub proof fn lemma_cross_file_naming(s: Schema)
    ensures
        crate::gen_android::spec_jni_include(s) == "#include <"@ + spec_cxx_module_name(
            s.module_name@,
        ) + ".hpp>"@,
        crate::gen_ios::spec_ios_include(s) == "#import \""@ + spec_cxx_module_name(
            s.module_name@,
        ) + ".hpp\""@,
        crate::gen_android::spec_cmake_cpp_line(s) == "../cpp/"@ + spec_cxx_module_name(
            s.module_name@,
        ) + ".cpp"@,
        forall|root: Seq<char>|
            (#[trigger] crate::gen_cxx::spec_cpp_artifact(root, s)).path
                == crate::constants::spec_path_join(
                crate::constants::spec_path_join(root, "cpp"@),
                spec_cxx_module_name(s.module_name@) + ".cpp"@,
            ),
{
}

/// Listener lifecycle, over a fresh registry: two subscriptions to the
/// same signal get the distinct ids 0 and 1; removing the first leaves
/// the second subscribed; removing the first again changes nothing; and
/// after both are removed, an emission snapshot delivers to no one.
pub proof fn lemma_listener_lifecycle(sig: String, cb1: u64, cb2: u64)
    ensures
        ({
            let l1 = Listener { signal: sig, id: 0, callback: cb1 };
            let l2 = Listener { signal: sig, id: 1, callback: cb2 };
            let entries = Seq::<Listener>::empty().push(l1).push(l2);
            &&& l1.id != l2.id
            &&& spec_listeners_of(entries, sig@) == seq![0u64, 1u64]
            &&& spec_listeners_of(spec_without_id(entries, 0), sig@) == seq![1u64]
            &&& spec_without_id(spec_without_id(entries, 0), 0) == spec_without_id(entries, 0)
            &&& spec_listeners_of(
                spec_without_id(spec_without_id(entries, 0), 1),
                sig@,
            ) == Seq::<u64>::empty()
        }),
{
    let l1 = Listener { signal: sig, id: 0, callback: cb1 };
    let l2 = Listener { signal: sig, id: 1, callback: cb2 };
    let entries = Seq::<Listener>::empty().push(l1).push(l2);
    crate::runtime::lemma_listeners_push(Seq::<Listener>::empty().push(l1), l2, sig@);
    crate::runtime::lemma_listeners_push(Seq::<Listener>::empty(), l1, sig@);
    assert(spec_listeners_of(Seq::<Listener>::empty(), sig@) == Seq::<u64>::empty());
    assert(spec_listeners_of(entries, sig@) =~= seq![0u64, 1u64]);

    crate::runtime::lemma_without_id_push(Seq::<Listener>::empty().push(l1), l2, 0);
    crate::runtime::lemma_without_id_push(Seq::<Listener>::empty(), l1, 0);
    assert(spec_without_id(Seq::<Listener>::empty(), 0) == Seq::<Listener>::empty());
    let after1 = spec_without_id(entries, 0);
    assert(after1 =~= Seq::<Listener>::empty().push(l2));
    crate::runtime::lemma_listeners_push(Seq::<Listener>::empty(), l2, sig@);
    assert(spec_listeners_of(after1, sig@) =~= seq![1u64]);

    crate::runtime::lemma_unsubscribe_idempotent(entries, 0);

    crate::runtime::lemma_without_id_push(Seq::<Listener>::empty(), l2, 1);
    assert(spec_without_id(after1, 1) =~= Seq::<Listener>::empty());
}

} // verus!
