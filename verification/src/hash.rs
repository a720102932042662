//! Content-identity hashing: a canonical, order-sensitive serialization of
//! the whole schema set, digested with a fast non-cryptographic hash. An
//! external caller compares the hash to decide whether regeneration is
//! needed at all.

use vstd::prelude::*;
use vstd::string::StringExecFns;

use crate::context::{Schema, Signal};
use crate::schema::{EnumMember, FunctionSpec, ObjectProperty, Parameter, TypeAnnotation};
use crate::text::{push_char, spec_hex_digits, u64_to_hex_fixed};

verus! {

/// One escaped character of a quoted string: quotes and backslashes get a
/// backslash in front.
pub open spec fn spec_escape_char(c: char) -> Seq<char> {
    if c == '"' || c == '\\' {
        seq!['\\', c]
    } else {
        seq![c]
    }
}

/// A string's characters, escaped for quoting.
pub open spec fn spec_escape(s: Seq<char>) -> Seq<char>
    decreases s.len(),
{
    if s.len() == 0 {
        Seq::empty()
    } else {
        spec_escape_char(s[0]) + spec_escape(s.drop_first())
    }
}

pub proof fn lemma_escape_push(s: Seq<char>, c: char)
    ensures
        spec_escape(s.push(c)) == spec_escape(s) + spec_escape_char(c),
    decreases s.len(),
{
    if s.len() == 0 {
        assert(s.push(c)[0] == c);
        assert(s.push(c).drop_first() =~= Seq::<char>::empty());
        assert(spec_escape(Seq::<char>::empty()) == Seq::<char>::empty());
        assert(spec_escape_char(c) + Seq::<char>::empty() =~= spec_escape_char(c));
        assert(spec_escape(s) + spec_escape_char(c) =~= spec_escape_char(c));
    } else {
        assert(s.push(c)[0] == s[0]);
        assert(s.push(c).drop_first() =~= s.drop_first().push(c));
        lemma_escape_push(s.drop_first(), c);
        assert(spec_escape_char(s[0]) + (spec_escape(s.drop_first()) + spec_escape_char(c)) =~= (
        spec_escape_char(s[0]) + spec_escape(s.drop_first())) + spec_escape_char(c));
    }
}

/// A quoted, escaped string.
pub open spec fn spec_quote(s: Seq<char>) -> Seq<char> {
    seq!['"'] + spec_escape(s) + seq!['"']
}

fn escape_into(out: &mut String, value: &str)
    ensures
        final(out)@ == old(out)@ + spec_escape(value@),
{
    let n: usize = vstd::string::StrSliceExecFns::unicode_len(value);
    let mut i: usize = 0;
    while i < n
        invariant
            i <= n,
            n == value@.len(),
            out@ == old(out)@ + spec_escape(value@.subrange(0, i as int)),
        decreases n - i,
    {
        let c = vstd::string::StrSliceExecFns::get_char(value, i);
        if c == '"' || c == '\\' {
            push_char(out, '\\');
            push_char(out, c);
        } else {
            push_char(out, c);
        }
        i = i + 1;
        proof {
            let prefix = value@.subrange(0, i - 1 as int);
            assert(value@.subrange(0, i as int) =~= prefix.push(value@[i - 1]));
            lemma_escape_push(prefix, value@[i - 1]);
            assert(out@ =~= old(out)@ + spec_escape(value@.subrange(0, i as int)));
        }
    }
    proof {
        assert(value@.subrange(0, n as int) =~= value@);
        assert(out@ + Seq::<char>::empty() =~= out@);
    }
}

fn quote_into(out: &mut String, value: &str)
    ensures
        final(out)@ == old(out)@ + spec_quote(value@),
{
    push_char(out, '"');
    escape_into(out, value);
    push_char(out, '"');
    proof {
        assert(old(out)@ + (seq!['"'] + spec_escape(value@) + seq!['"']) =~= ((old(out)@.push('"'))
            + spec_escape(value@)).push('"'));
    }
}

/// The canonical serialization of one type annotation.
pub open spec fn ser_ann(t: TypeAnnotation) -> Seq<char>
    decreases t,
{
    match t {
        TypeAnnotation::ReservedTypeAnnotation { name } => {
            "reserved("@ + spec_quote(name@) + ")"@
        },
        TypeAnnotation::StringTypeAnnotation => "string"@,
        TypeAnnotation::StringLiteralTypeAnnotation { value } => {
            "stringLiteral("@ + spec_quote(value@) + ")"@
        },
        TypeAnnotation::StringLiteralUnionTypeAnnotation { values } => {
            "stringLiteralUnion("@ + ser_values(values@) + ")"@
        },
        TypeAnnotation::BooleanTypeAnnotation => "boolean"@,
        TypeAnnotation::NumberTypeAnnotation => "number"@,
        TypeAnnotation::FloatTypeAnnotation => "float"@,
        TypeAnnotation::DoubleTypeAnnotation => "double"@,
        TypeAnnotation::Int32TypeAnnotation => "int32"@,
        TypeAnnotation::NumberLiteralTypeAnnotation { value } => {
            "numberLiteral("@ + spec_quote(value@) + ")"@
        },
        TypeAnnotation::EnumDeclaration { member_type, members } => {
            "enum("@ + spec_quote(member_type@) + ";"@ + ser_members(members@) + ")"@
        },
        TypeAnnotation::ArrayTypeAnnotation { element_type } => {
            "array("@ + ser_ann(*element_type) + ")"@
        },
        TypeAnnotation::FunctionTypeAnnotation { return_type_annotation, params } => {
            "function("@ + ser_ann(*return_type_annotation) + ";"@ + ser_params(params@) + ")"@
        },
        TypeAnnotation::GenericObjectTypeAnnotation => "genericObject"@,
        TypeAnnotation::ObjectTypeAnnotation { properties } => {
            match properties {
                Option::Some(props) => "object("@ + ser_props(props@) + ")"@,
                Option::None => "object()"@,
            }
        },
        TypeAnnotation::UnionTypeAnnotation { member_type, types } => {
            "union("@ + spec_quote(member_type@) + ";"@ + ser_ann_list(types@) + ")"@
        },
        TypeAnnotation::MixedTypeAnnotation => "mixed"@,
        TypeAnnotation::VoidTypeAnnotation => "void"@,
        TypeAnnotation::NullableTypeAnnotation { type_annotation } => {
            "nullable("@ + ser_ann(*type_annotation) + ")"@
        },
        TypeAnnotation::TypeAliasTypeAnnotation { name } => {
            "alias("@ + spec_quote(name@) + ")"@
        },
    }
}

/// A comma-separated list of serialized annotations.
pub open spec fn ser_ann_list(ts: Seq<TypeAnnotation>) -> Seq<char>
    decreases ts,
{
    if ts.len() == 0 {
        Seq::empty()
    } else if ts.len() == 1 {
        ser_ann(ts[0])
    } else {
        ser_ann(ts[0]) + ","@ + ser_ann_list(ts.drop_first())
    }
}

/// A comma-separated list of serialized parameters.
pub open spec fn ser_params(ps: Seq<Parameter>) -> Seq<char>
    decreases ps,
{
    if ps.len() == 0 {
        Seq::empty()
    } else if ps.len() == 1 {
        ser_param(ps[0])
    } else {
        ser_param(ps[0]) + ","@ + ser_params(ps.drop_first())
    }
}

/// One serialized parameter: its name, optionality mark, and type.
pub open spec fn ser_param(p: Parameter) -> Seq<char>
    decreases p,
{
    spec_quote(p.name@) + (if p.optional {
        "?"@
    } else {
        Seq::<char>::empty()
    }) + ":"@ + ser_ann(p.type_annotation)
}

/// A comma-separated list of serialized object properties.
pub open spec fn ser_props(ps: Seq<ObjectProperty>) -> Seq<char>
    decreases ps,
{
    if ps.len() == 0 {
        Seq::empty()
    } else if ps.len() == 1 {
        ser_prop(ps[0])
    } else {
        ser_prop(ps[0]) + ","@ + ser_props(ps.drop_first())
    }
}

/// One serialized object property.
pub open spec fn ser_prop(p: ObjectProperty) -> Seq<char>
    decreases p,
{
    spec_quote(p.name@) + (if p.optional {
        "?"@
    } else {
        Seq::<char>::empty()
    }) + ":"@ + ser_ann(p.type_annotation)
}

/// A comma-separated list of quoted strings.
pub open spec fn ser_values(vs: Seq<String>) -> Seq<char>
    decreases vs.len(),
{
    if vs.len() == 0 {
        Seq::empty()
    } else if vs.len() == 1 {
        spec_quote(vs[0]@)
    } else {
        spec_quote(vs[0]@) + ","@ + ser_values(vs.drop_first())
    }
}

/// One serialized enum member: name and value, both quoted.
pub open spec fn ser_member(m: EnumMember) -> Seq<char> {
    spec_quote(m.name@) + ":"@ + spec_quote(m.value@)
}

/// A comma-separated list of serialized enum members.
pub open spec fn ser_members(ms: Seq<EnumMember>) -> Seq<char>
    decreases ms.len(),
{
    if ms.len() == 0 {
        Seq::empty()
    } else if ms.len() == 1 {
        ser_member(ms[0])
    } else {
        ser_member(ms[0]) + ","@ + ser_members(ms.drop_first())
    }
}

/// One serialized method.
pub open spec fn ser_method(f: FunctionSpec) -> Seq<char> {
    spec_quote(f.name@) + (if f.optional {
        "?"@
    } else {
        Seq::<char>::empty()
    }) + ":"@ + ser_ann(f.type_annotation)
}

/// A comma-separated list of serialized methods.
pub open spec fn ser_methods(fs: Seq<FunctionSpec>) -> Seq<char>
    decreases fs.len(),
{
    if fs.len() == 0 {
        Seq::empty()
    } else if fs.len() == 1 {
        ser_method(fs[0])
    } else {
        ser_method(fs[0]) + ","@ + ser_methods(fs.drop_first())
    }
}

/// A comma-separated list of quoted signal names.
pub open spec fn ser_signals(ss: Seq<Signal>) -> Seq<char>
    decreases ss.len(),
{
    if ss.len() == 0 {
        Seq::empty()
    } else if ss.len() == 1 {
        spec_quote(ss[0].name@)
    } else {
        spec_quote(ss[0].name@) + ","@ + ser_signals(ss.drop_first())
    }
}

/// One serialized module schema: every field that matters to generation,
/// in declaration order.
pub open spec fn ser_schema(s: Schema) -> Seq<char> {
    "{module:"@ + spec_quote(s.module_name@) + ",aliases:["@ + ser_ann_list(s.aliases@)
        + "],enums:["@ + ser_ann_list(s.enums@) + "],methods:["@ + ser_methods(s.methods@)
        + "],signals:["@ + ser_signals(s.signals@) + "]}"@
}

/// The canonical serialization of a whole schema list.
pub open spec fn ser_schemas(ss: Seq<Schema>) -> Seq<char>
    decreases ss.len(),
{
    if ss.len() == 0 {
        Seq::empty()
    } else if ss.len() == 1 {
        ser_schema(ss[0])
    } else {
        ser_schema(ss[0]) + ","@ + ser_schemas(ss.drop_first())
    }
}

pub open spec fn ser_schema_set(ss: Seq<Schema>) -> Seq<char> {
    "["@ + ser_schemas(ss) + "]"@
}

/// What xxHash3's 64-bit digest returns for a string's bytes: the result
/// depends on the characters alone.
pub uninterp spec fn xxh3_of(s: Seq<char>) -> u64;

/// Relies on xxhash_rust's `Xxh3` streaming hasher (`write`, `finish`):
/// a 64-bit digest of the string's bytes.
#[verifier::external_body]
fn xxh3_64_of_str(s: &str) -> (r: u64)
    ensures
        r == xxh3_of(s@),
{
    let mut hasher = xxhash_rust::xxh3::Xxh3::new();
    core::hash::Hasher::write(&mut hasher, s.as_bytes());
    core::hash::Hasher::finish(&hasher)
}

/// The content hash of a schema set, as sixteen lowercase hex digits.
pub open spec fn spec_schema_hash(ss: Seq<Schema>) -> Seq<char> {
    spec_hex_digits(xxh3_of(ser_schema_set(ss)) as nat, 16)
}

fn ser_ann_into(out: &mut String, t: &TypeAnnotation)
    ensures
        final(out)@ == old(out)@ + ser_ann(*t),
    decreases *t,
{
    match t {
        TypeAnnotation::ReservedTypeAnnotation { name } => {
            out.append("reserved(");
            quote_into(out, name.as_str());
            out.append(")");
            proof {
                assert(out@ =~= old(out)@ + ser_ann(*t));
            }
        },
        TypeAnnotation::StringTypeAnnotation => {
            out.append("string");
            proof {
                assert(out@ =~= old(out)@ + ser_ann(*t));
            }
        },
        TypeAnnotation::StringLiteralTypeAnnotation { value } => {
            out.append("stringLiteral(");
            quote_into(out, value.as_str());
            out.append(")");
            proof {
                assert(out@ =~= old(out)@ + ser_ann(*t));
            }
        },
        TypeAnnotation::StringLiteralUnionTypeAnnotation { values } => {
            out.append("stringLiteralUnion(");
            ser_values_into(out, values, 0);
            proof {
                assert(values@.subrange(0, values@.len() as int) =~= values@);
            }
            out.append(")");
            proof {
                assert(out@ =~= old(out)@ + ser_ann(*t));
            }
        },
        TypeAnnotation::BooleanTypeAnnotation => {
            out.append("boolean");
            proof {
                assert(out@ =~= old(out)@ + ser_ann(*t));
            }
        },
        TypeAnnotation::NumberTypeAnnotation => {
            out.append("number");
            proof {
                assert(out@ =~= old(out)@ + ser_ann(*t));
            }
        },
        TypeAnnotation::FloatTypeAnnotation => {
            out.append("float");
            proof {
                assert(out@ =~= old(out)@ + ser_ann(*t));
            }
        },
        TypeAnnotation::DoubleTypeAnnotation => {
            out.append("double");
            proof {
                assert(out@ =~= old(out)@ + ser_ann(*t));
            }
        },
        TypeAnnotation::Int32TypeAnnotation => {
            out.append("int32");
            proof {
                assert(out@ =~= old(out)@ + ser_ann(*t));
            }
        },
        TypeAnnotation::NumberLiteralTypeAnnotation { value } => {
            out.append("numberLiteral(");
            quote_into(out, value.as_str());
            out.append(")");
            proof {
                assert(out@ =~= old(out)@ + ser_ann(*t));
            }
        },
        TypeAnnotation::EnumDeclaration { member_type, members } => {
            out.append("enum(");
            quote_into(out, member_type.as_str());
            out.append(";");
            ser_members_into(out, members, 0);
            proof {
                assert(members@.subrange(0, members@.len() as int) =~= members@);
            }
            out.append(")");
            proof {
                assert(out@ =~= old(out)@ + ser_ann(*t));
            }
        },
        TypeAnnotation::ArrayTypeAnnotation { element_type } => {
            out.append("array(");
            ser_ann_into(out, element_type);
            out.append(")");
            proof {
                assert(out@ =~= old(out)@ + ser_ann(*t));
            }
        },
        TypeAnnotation::FunctionTypeAnnotation { return_type_annotation, params } => {
            out.append("function(");
            ser_ann_into(out, return_type_annotation);
            out.append(";");
            ser_params_into(out, params, 0);
            proof {
                assert(params@.subrange(0, params@.len() as int) =~= params@);
            }
            out.append(")");
            proof {
                assert(out@ =~= old(out)@ + ser_ann(*t));
            }
        },
        TypeAnnotation::GenericObjectTypeAnnotation => {
            out.append("genericObject");
            proof {
                assert(out@ =~= old(out)@ + ser_ann(*t));
            }
        },
        TypeAnnotation::ObjectTypeAnnotation { properties } => {
            match properties {
                Option::Some(props) => {
                    out.append("object(");
                    ser_props_into(out, props, 0);
                    proof {
                        assert(props@.subrange(0, props@.len() as int) =~= props@);
                    }
                    out.append(")");
                },
                Option::None => {
                    out.append("object()");
                },
            }
            proof {
                assert(out@ =~= old(out)@ + ser_ann(*t));
            }
        },
        TypeAnnotation::UnionTypeAnnotation { member_type, types } => {
            out.append("union(");
            quote_into(out, member_type.as_str());
            out.append(";");
            ser_ann_list_into(out, types, 0);
            proof {
                assert(types@.subrange(0, types@.len() as int) =~= types@);
            }
            out.append(")");
            proof {
                assert(out@ =~= old(out)@ + ser_ann(*t));
            }
        },
        TypeAnnotation::MixedTypeAnnotation => {
            out.append("mixed");
            proof {
                assert(out@ =~= old(out)@ + ser_ann(*t));
            }
        },
        TypeAnnotation::VoidTypeAnnotation => {
            out.append("void");
            proof {
                assert(out@ =~= old(out)@ + ser_ann(*t));
            }
        },
        TypeAnnotation::NullableTypeAnnotation { type_annotation } => {
            out.append("nullable(");
            ser_ann_into(out, type_annotation);
            out.append(")");
            proof {
                assert(out@ =~= old(out)@ + ser_ann(*t));
            }
        },
        TypeAnnotation::TypeAliasTypeAnnotation { name } => {
            out.append("alias(");
            quote_into(out, name.as_str());
            out.append(")");
            proof {
                assert(out@ =~= old(out)@ + ser_ann(*t));
            }
        },
    }
}

fn ser_ann_list_into(out: &mut String, ts: &Vec<TypeAnnotation>, start: usize)
    requires
        start <= ts@.len(),
    ensures
        final(out)@ == old(out)@ + ser_ann_list(ts@.subrange(start as int, ts@.len() as int)),
    decreases ts@, ts@.len() - start,
{
    let sub = Ghost(ts@.subrange(start as int, ts@.len() as int));
    if start < ts.len() {
        ser_ann_into(out, &ts[start]);
        if start + 1 < ts.len() {
            out.append(",");
            ser_ann_list_into(out, ts, start + 1);
            proof {
                assert(sub@.drop_first() =~= ts@.subrange(start + 1, ts@.len() as int));
                assert(out@ =~= old(out)@ + ser_ann_list(sub@));
            }
        } else {
            proof {
                assert(sub@.len() == 1);
            }
        }
    } else {
        proof {
            assert(sub@.len() == 0);
            assert(out@ + Seq::<char>::empty() =~= out@);
        }
    }
}

fn ser_params_into(out: &mut String, ps: &Vec<Parameter>, start: usize)
    requires
        start <= ps@.len(),
    ensures
        final(out)@ == old(out)@ + ser_params(ps@.subrange(start as int, ps@.len() as int)),
    decreases ps@, ps@.len() - start,
{
    let sub = Ghost(ps@.subrange(start as int, ps@.len() as int));
    if start < ps.len() {
        quote_into(out, ps[start].name.as_str());
        if ps[start].optional {
            out.append("?");
        }
        out.append(":");
        ser_ann_into(out, &ps[start].type_annotation);
        proof {
            assert(out@ =~= old(out)@ + ser_param(ps@[start as int]));
        }
        if start + 1 < ps.len() {
            out.append(",");
            ser_params_into(out, ps, start + 1);
            proof {
                assert(sub@.drop_first() =~= ps@.subrange(start + 1, ps@.len() as int));
                assert(out@ =~= old(out)@ + ser_params(sub@));
            }
        } else {
            proof {
                assert(sub@.len() == 1);
            }
        }
    } else {
        proof {
            assert(sub@.len() == 0);
            assert(out@ + Seq::<char>::empty() =~= out@);
        }
    }
}

fn ser_props_into(out: &mut String, ps: &Vec<ObjectProperty>, start: usize)
    requires
        start <= ps@.len(),
    ensures
        final(out)@ == old(out)@ + ser_props(ps@.subrange(start as int, ps@.len() as int)),
    decreases ps@, ps@.len() - start,
{
    let sub = Ghost(ps@.subrange(start as int, ps@.len() as int));
    if start < ps.len() {
        quote_into(out, ps[start].name.as_str());
        if ps[start].optional {
            out.append("?");
        }
        out.append(":");
        ser_ann_into(out, &ps[start].type_annotation);
        proof {
            assert(out@ =~= old(out)@ + ser_prop(ps@[start as int]));
        }
        if start + 1 < ps.len() {
            out.append(",");
            ser_props_into(out, ps, start + 1);
            proof {
                assert(sub@.drop_first() =~= ps@.subrange(start + 1, ps@.len() as int));
                assert(out@ =~= old(out)@ + ser_props(sub@));
            }
        } else {
            proof {
                assert(sub@.len() == 1);
            }
        }
    } else {
        proof {
            assert(sub@.len() == 0);
            assert(out@ + Seq::<char>::empty() =~= out@);
        }
    }
}

fn ser_values_into(out: &mut String, vs: &Vec<String>, start: usize)
    requires
        start <= vs@.len(),
    ensures
        final(out)@ == old(out)@ + ser_values(vs@.subrange(start as int, vs@.len() as int)),
    decreases vs@.len() - start,
{
    let sub = Ghost(vs@.subrange(start as int, vs@.len() as int));
    if start < vs.len() {
        quote_into(out, vs[start].as_str());
        if start + 1 < vs.len() {
            out.append(",");
            ser_values_into(out, vs, start + 1);
            proof {
                assert(sub@.drop_first() =~= vs@.subrange(start + 1, vs@.len() as int));
                assert(out@ =~= old(out)@ + ser_values(sub@));
            }
        } else {
            proof {
                assert(sub@.len() == 1);
            }
        }
    } else {
        proof {
            assert(sub@.len() == 0);
            assert(out@ + Seq::<char>::empty() =~= out@);
        }
    }
}

fn ser_members_into(out: &mut String, ms: &Vec<EnumMember>, start: usize)
    requires
        start <= ms@.len(),
    ensures
        final(out)@ == old(out)@ + ser_members(ms@.subrange(start as int, ms@.len() as int)),
    decreases ms@.len() - start,
{
    let sub = Ghost(ms@.subrange(start as int, ms@.len() as int));
    if start < ms.len() {
        quote_into(out, ms[start].name.as_str());
        out.append(":");
        quote_into(out, ms[start].value.as_str());
        proof {
            assert(out@ =~= old(out)@ + ser_member(ms@[start as int]));
        }
        if start + 1 < ms.len() {
            out.append(",");
            ser_members_into(out, ms, start + 1);
            proof {
                assert(sub@.drop_first() =~= ms@.subrange(start + 1, ms@.len() as int));
                assert(out@ =~= old(out)@ + ser_members(sub@));
            }
        } else {
            proof {
                assert(sub@.len() == 1);
            }
        }
    } else {
        proof {
            assert(sub@.len() == 0);
            assert(out@ + Seq::<char>::empty() =~= out@);
        }
    }
}

fn ser_methods_into(out: &mut String, fs: &Vec<FunctionSpec>, start: usize)
    requires
        start <= fs@.len(),
    ensures
        final(out)@ == old(out)@ + ser_methods(fs@.subrange(start as int, fs@.len() as int)),
    decreases fs@.len() - start,
{
    let sub = Ghost(fs@.subrange(start as int, fs@.len() as int));
    if start < fs.len() {
        quote_into(out, fs[start].name.as_str());
        if fs[start].optional {
            out.append("?");
        }
        out.append(":");
        ser_ann_into(out, &fs[start].type_annotation);
        proof {
            assert(out@ =~= old(out)@ + ser_method(fs@[start as int]));
        }
        if start + 1 < fs.len() {
            out.append(",");
            ser_methods_into(out, fs, start + 1);
            proof {
                assert(sub@.drop_first() =~= fs@.subrange(start + 1, fs@.len() as int));
                assert(out@ =~= old(out)@ + ser_methods(sub@));
            }
        } else {
            proof {
                assert(sub@.len() == 1);
            }
        }
    } else {
        proof {
            assert(sub@.len() == 0);
            assert(out@ + Seq::<char>::empty() =~= out@);
        }
    }
}

fn ser_signals_into(out: &mut String, ss: &Vec<Signal>, start: usize)
    requires
        start <= ss@.len(),
    ensures
        final(out)@ == old(out)@ + ser_signals(ss@.subrange(start as int, ss@.len() as int)),
    decreases ss@.len() - start,
{
    let sub = Ghost(ss@.subrange(start as int, ss@.len() as int));
    if start < ss.len() {
        quote_into(out, ss[start].name.as_str());
        if start + 1 < ss.len() {
            out.append(",");
            ser_signals_into(out, ss, start + 1);
            proof {
                assert(sub@.drop_first() =~= ss@.subrange(start + 1, ss@.len() as int));
                assert(out@ =~= old(out)@ + ser_signals(sub@));
            }
        } else {
            proof {
                assert(sub@.len() == 1);
            }
        }
    } else {
        proof {
            assert(sub@.len() == 0);
            assert(out@ + Seq::<char>::empty() =~= out@);
        }
    }
}

#[verifier::rlimit(60)]
fn ser_schemas_into(out: &mut String, ss: &Vec<Schema>, start: usize)
    requires
        start <= ss@.len(),
    ensures
        final(out)@ == old(out)@ + ser_schemas(ss@.subrange(start as int, ss@.len() as int)),
    decreases ss@.len() - start,
{
    let sub = Ghost(ss@.subrange(start as int, ss@.len() as int));
    if start < ss.len() {
        out.append("{module:");
        quote_into(out, ss[start].module_name.as_str());
        out.append(",aliases:[");
        ser_ann_list_into(out, &ss[start].aliases, 0);
        proof {
            assert(ss@[start as int].aliases@.subrange(0, ss@[start as int].aliases@.len() as int)
                =~= ss@[start as int].aliases@);
        }
        out.append("],enums:[");
        ser_ann_list_into(out, &ss[start].enums, 0);
        proof {
            assert(ss@[start as int].enums@.subrange(0, ss@[start as int].enums@.len() as int)
                =~= ss@[start as int].enums@);
        }
        out.append("],methods:[");
        ser_methods_into(out, &ss[start].methods, 0);
        proof {
            assert(ss@[start as int].methods@.subrange(0, ss@[start as int].methods@.len() as int)
                =~= ss@[start as int].methods@);
        }
        out.append("],signals:[");
        ser_signals_into(out, &ss[start].signals, 0);
        proof {
            assert(ss@[start as int].signals@.subrange(0, ss@[start as int].signals@.len() as int)
                =~= ss@[start as int].signals@);
        }
        out.append("]}");
        proof {
            assert(out@ =~= old(out)@ + ser_schema(ss@[start as int]));
        }
        if start + 1 < ss.len() {
            out.append(",");
            ser_schemas_into(out, ss, start + 1);
            proof {
                assert(sub@.drop_first() =~= ss@.subrange(start + 1, ss@.len() as int));
                assert(out@ =~= old(out)@ + ser_schemas(sub@));
            }
        } else {
            proof {
                assert(sub@.len() == 1);
            }
        }
    } else {
        proof {
            assert(sub@.len() == 0);
            assert(out@ + Seq::<char>::empty() =~= out@);
        }
    }
}

impl Schema {
    /// Serialize a schema list canonically.
    pub fn serialize_all(schemas: &Vec<Schema>) -> (r: String)
        ensures
            r@ == ser_schema_set(schemas@),
    {
        let mut out = "[".to_owned();
        ser_schemas_into(&mut out, schemas, 0);
        proof {
            assert(schemas@.subrange(0, schemas@.len() as int) =~= schemas@);
        }
        out.append("]");
        out
    }

    /// The stable content hash of a schema list: sixteen lowercase hex
    /// digits of the xxHash3 digest of the canonical serialization.
    pub fn to_hash(schemas: &Vec<Schema>) -> (r: String)
        ensures
            r@ == spec_schema_hash(schemas@),
    {
        let serialized = Schema::serialize_all(schemas);
        let digest = xxh3_64_of_str(serialized.as_str());
        u64_to_hex_fixed(digest, 16)
    }
}

} // verus!
