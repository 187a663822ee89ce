use vstd::prelude::*;
use vstd::string::StringExecFns;

use crate::decl::{field_type_set, field_types, string_views, DeclBody, TypeDeclaration};

verus! {

/// The diagnostic returned for the one rejected shape: a human-readable
/// message, anchored to the declaration's name so the invoking build tool
/// can report it at the right source location.
#[derive(Debug)]
pub struct TransformError {
    /// The human-readable message.
    pub message: String,
    /// The name the diagnostic is anchored to: the declaration's own.
    pub anchor: String,
}

/// The path of the safety capability that every field type must satisfy,
/// and that the transformed type is itself registered under.
pub open spec fn safe_capability() -> Seq<char> {
    "::modkit::domain::DomainSafe"@
}

/// The path of the domain-model capability: the stronger tag a transformed
/// type is registered under, beyond mere safety.
pub open spec fn model_capability() -> Seq<char> {
    "::modkit::domain::DomainModel"@
}

/// The message of the one failure path.
pub open spec fn union_message() -> Seq<char> {
    "domain_model cannot be applied to unions"@
}

/// The text of one capability-marker registration: an empty `impl` of the
/// capability for the declared type, with the declaration's generics and
/// where-clause carried through verbatim.
pub open spec fn marker_impl_text(d: TypeDeclaration, capability: Seq<char>) -> Seq<char> {
    "impl "@ + d.impl_generics@ + " "@ + capability + " for "@ + d.name@ + d.ty_generics@ + " "@
        + d.where_clause@ + " {}\n"@
}

/// The text of one field's compile-time check: a call that only resolves
/// if the field's type satisfies the safety capability.
pub open spec fn assertion_line(t: Seq<char>) -> Seq<char> {
    "        __assert_field_is_domain_safe::<"@ + t + ">();\n"@
}

/// One check per field type, in order, duplicates kept: each occurrence is
/// validated independently.
pub open spec fn assertion_lines(ts: Seq<Seq<char>>) -> Seq<char>
    decreases ts.len(),
{
    if ts.len() == 0 {
        Seq::empty()
    } else {
        assertion_line(ts.first()) + assertion_lines(ts.drop_first())
    }
}

/// The opening of the validation block, up to where the per-field checks
/// stand.
pub open spec fn validation_header() -> Seq<char> {
    "const _: () = {\n    #[allow(dead_code)]\n    fn __assert_field_is_domain_safe<T: ::modkit::domain::DomainSafe>() {}\n\n    #[allow(dead_code)]\n    fn __validate_domain_model_fields() {\n"@
}

/// The closing of the validation block.
pub open spec fn validation_footer() -> Seq<char> {
    "    }\n};\n"@
}

/// The compile-time validation block: one check per entry of the field
/// type set, resolved entirely during compilation of the emitted code.
pub open spec fn validation_block_text(ts: Seq<Seq<char>>) -> Seq<char> {
    validation_header() + assertion_lines(ts) + validation_footer()
}

/// The emitted code for a declaration that is not a raw union: the
/// original declaration verbatim, the two marker registrations, and, only
/// when the declaration has at least one field, the validation block.
pub open spec fn emitted_code(d: TypeDeclaration) -> Seq<char> {
    let markers = d.source@ + "\n\n"@ + marker_impl_text(d, safe_capability()) + marker_impl_text(
        d,
        model_capability(),
    );
    if field_type_set(d).len() == 0 {
        markers
    } else {
        markers + "\n"@ + validation_block_text(field_type_set(d))
    }
}

/// What the transformation returns for a given declaration: the emitted
/// code for every shape but the raw union, and for a raw union the one
/// diagnostic, with its exact message, anchored to the declaration's name.
pub open spec fn transform_post(d: TypeDeclaration, r: Result<String, TransformError>) -> bool {
    match r {
        Ok(code) => !(d.body is RawUnion) && code@ == emitted_code(d),
        Err(e) => d.body is RawUnion && e.message@ == union_message() && e.anchor@ == d.name@,
    }
}

/// Appends one capability-marker registration for the declared type.
fn append_marker_impl(out: &mut String, d: &TypeDeclaration, capability: &str)
    ensures
        final(out)@ == old(out)@ + marker_impl_text(*d, capability@),
{
    out.append("impl ");
    out.append(d.impl_generics.as_str());
    out.append(" ");
    out.append(capability);
    out.append(" for ");
    out.append(d.name.as_str());
    out.append(d.ty_generics.as_str());
    out.append(" ");
    out.append(d.where_clause.as_str());
    out.append(" {}\n");
    proof {
        assert(out@ =~= old(out)@ + marker_impl_text(*d, capability@));
    }
}

/// Appending one more check extends the lines by exactly that check, at
/// the end.
proof fn lemma_assertion_lines_push(ts: Seq<Seq<char>>, t: Seq<char>)
    ensures
        assertion_lines(ts.push(t)) == assertion_lines(ts) + assertion_line(t),
    decreases ts.len(),
{
    reveal_with_fuel(assertion_lines, 3);
    if ts.len() == 0 {
        assert(ts.push(t).first() == t);
        assert(ts.push(t).drop_first() =~= Seq::<Seq<char>>::empty());
        assert(ts =~= Seq::<Seq<char>>::empty());
        assert(assertion_lines(ts.push(t)) =~= assertion_lines(ts) + assertion_line(t));
    } else {
        assert(ts.push(t).first() == ts.first());
        assert(ts.push(t).drop_first() =~= ts.drop_first().push(t));
        lemma_assertion_lines_push(ts.drop_first(), t);
        assert(assertion_lines(ts.push(t)) =~= assertion_lines(ts) + assertion_line(t));
    }
}

/// Builds the compile-time validation block for a non-empty field type
/// set: one independent check per entry, in order.
fn validation_block(types: &Vec<String>) -> (r: String)
    ensures
        r@ == validation_block_text(string_views(types@)),
{
    let ghost ts = string_views(types@);
    let mut out = String::new();
    out.append(
        "const _: () = {\n    #[allow(dead_code)]\n    fn __assert_field_is_domain_safe<T: ::modkit::domain::DomainSafe>() {}\n\n    #[allow(dead_code)]\n    fn __validate_domain_model_fields() {\n",
    );
    proof {
        assert(out@ =~= validation_header() + assertion_lines(ts.take(0)));
    }
    let mut i: usize = 0;
    while i < types.len()
        invariant
            i <= types.len(),
            ts == string_views(types@),
            out@ == validation_header() + assertion_lines(ts.take(i as int)),
        decreases types.len() - i,
    {
        let ghost out_before = out@;
        out.append("        __assert_field_is_domain_safe::<");
        let t = &types[i];
        out.append(t.as_str());
        out.append(">();\n");
        i = i + 1;
        proof {
            lemma_assertion_lines_push(ts.take(i - 1), ts[i - 1]);
            assert(ts.take(i as int) =~= ts.take(i - 1).push(ts[i - 1]));
            assert(out@ =~= out_before + assertion_line(ts[i - 1]));
            assert(out@ =~= validation_header() + assertion_lines(ts.take(i as int)));
        }
    }
    proof {
        assert(ts.take(i as int) =~= ts);
    }
    out.append("    }\n};\n");
    proof {
        assert(out@ =~= validation_block_text(ts));
    }
    out
}

/// Transforms one parsed type declaration: emits the declaration verbatim,
/// the two capability-marker registrations with the generics carried
/// through unchanged, and, when the declaration has at least one field,
/// the validation block that checks every field type against the safety
/// capability. A raw union is rejected with the one diagnostic, anchored
/// to the declaration's name; every other shape succeeds.
pub fn expand_domain_model(d: &TypeDeclaration) -> (r: Result<String, TransformError>)
    ensures
        r is Ok <==> !(d.body is RawUnion),
        r matches Ok(code) ==> code@ == emitted_code(*d),
        r matches Err(e) ==> e.message@ == union_message() && e.anchor@ == d.name@,
        transform_post(*d, r),
{
    match &d.body {
        DeclBody::RawUnion => Err(
            TransformError {
                message: "domain_model cannot be applied to unions".to_owned(),
                anchor: d.name.clone(),
            },
        ),
        _ => {
            let types = field_types(d);
            let mut out = d.source.clone();
            out.append("\n\n");
            append_marker_impl(&mut out, d, "::modkit::domain::DomainSafe");
            append_marker_impl(&mut out, d, "::modkit::domain::DomainModel");
            if types.len() > 0 {
                out.append("\n");
                let block = validation_block(&types);
                out.append(block.as_str());
            }
            proof {
                assert(out@ =~= emitted_code(*d));
            }
            Ok(out)
        },
    }
}

} // verus!
