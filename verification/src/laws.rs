use vstd::prelude::*;

use crate::decl::{
    field_type_set, shape_types, sum_types, DeclBody, SumVariant, TypeDeclaration,
};
use crate::emit::{
    assertion_line, assertion_lines, emitted_code, marker_impl_text, model_capability,
    safe_capability, transform_post, validation_block_text, validation_footer, validation_header,
    TransformError,
};

verus! {

/// Whether `needle` occurs in `hay` as a contiguous run of characters.
pub open spec fn contains_text(hay: Seq<char>, needle: Seq<char>) -> bool {
    exists|i: int|
        0 <= i && i + needle.len() <= hay.len() && #[trigger] hay.subrange(i, i + needle.len())
            == needle
}

/// The middle piece of a three-way concatenation occurs in the whole.
pub proof fn lemma_contains_middle(a: Seq<char>, n: Seq<char>, b: Seq<char>)
    ensures
        contains_text(a + n + b, n),
{
    let hay = a + n + b;
    let i = a.len() as int;
    assert(hay.subrange(i, i + n.len()) =~= n);
}

/// Occurrence is transitive: what occurs in a piece occurs in any text
/// the piece occurs in.
pub proof fn lemma_contains_trans(hay: Seq<char>, mid: Seq<char>, needle: Seq<char>)
    requires
        contains_text(hay, mid),
        contains_text(mid, needle),
    ensures
        contains_text(hay, needle),
{
    let i = choose|i: int|
        0 <= i && i + mid.len() <= hay.len() && #[trigger] hay.subrange(i, i + mid.len()) == mid;
    let j = choose|j: int|
        0 <= j && j + needle.len() <= mid.len() && #[trigger] mid.subrange(j, j + needle.len())
            == needle;
    assert(hay.subrange(i + j, i + j + needle.len()) =~= needle);
}

/// The checks of a non-empty field type set decompose around any one
/// entry: everything before it, its own line, everything after it — one
/// line per entry, in order.
pub proof fn lemma_assertion_lines_decompose(ts: Seq<Seq<char>>, i: int)
    requires
        0 <= i < ts.len(),
    ensures
        assertion_lines(ts) == assertion_lines(ts.take(i)) + assertion_line(ts[i])
            + assertion_lines(ts.skip(i + 1)),
    decreases i,
{
    reveal_with_fuel(assertion_lines, 3);
    if i == 0 {
        assert(ts.take(0) =~= Seq::<Seq<char>>::empty());
        assert(ts.drop_first() =~= ts.skip(1));
        assert(assertion_lines(ts) =~= assertion_lines(ts.take(0)) + assertion_line(ts[0])
            + assertion_lines(ts.skip(1)));
    } else {
        lemma_assertion_lines_decompose(ts.drop_first(), i - 1);
        assert(ts.drop_first().take(i - 1) =~= ts.take(i).drop_first());
        assert(ts.drop_first()[i - 1] == ts[i]);
        assert(ts.drop_first().skip(i) =~= ts.skip(i + 1));
        assert(ts.take(i).first() == ts.first());
        assert(assertion_lines(ts.take(i)) == assertion_line(ts.first()) + assertion_lines(
            ts.take(i).drop_first(),
        ));
        assert(assertion_lines(ts) =~= assertion_lines(ts.take(i)) + assertion_line(ts[i])
            + assertion_lines(ts.skip(i + 1)));
    }
}

/// Law: a declaration with at least one field emits both marker
/// registrations and the validation block, whose checks reference every
/// entry of the field type set exactly once, in order.
pub proof fn lemma_nonempty_fields_emit_validation(d: TypeDeclaration)
    requires
        !(d.body is RawUnion),
        field_type_set(d).len() > 0,
    ensures
        emitted_code(d) == d.source@ + "\n\n"@ + marker_impl_text(d, safe_capability())
            + marker_impl_text(d, model_capability()) + "\n"@ + validation_block_text(
            field_type_set(d),
        ),
        contains_text(emitted_code(d), marker_impl_text(d, safe_capability())),
        contains_text(emitted_code(d), marker_impl_text(d, model_capability())),
        forall|i: int|
            0 <= i < field_type_set(d).len() ==> contains_text(
                emitted_code(d),
                assertion_line(field_type_set(d)[i]),
            ),
{
    let ts = field_type_set(d);
    let safe = marker_impl_text(d, safe_capability());
    let model = marker_impl_text(d, model_capability());
    let head = d.source@ + "\n\n"@;
    let tail = "\n"@ + validation_block_text(ts);
    assert(emitted_code(d) =~= head + safe + (model + tail));
    lemma_contains_middle(head, safe, model + tail);
    assert(emitted_code(d) =~= (head + safe) + model + tail);
    lemma_contains_middle(head + safe, model, tail);
    assert forall|i: int| 0 <= i < ts.len() implies contains_text(
        emitted_code(d),
        assertion_line(ts[i]),
    ) by {
        lemma_assertion_lines_decompose(ts, i);
        let before = head + safe + model + "\n"@ + validation_header() + assertion_lines(
            ts.take(i),
        );
        let after = assertion_lines(ts.skip(i + 1)) + validation_footer();
        assert(emitted_code(d) =~= before + assertion_line(ts[i]) + after);
        lemma_contains_middle(before, assertion_line(ts[i]), after);
    }
}

/// Rows that are all empty flatten to nothing.
proof fn lemma_flatten_of_empties(rows: Seq<Seq<Seq<char>>>)
    requires
        forall|i: int| 0 <= i < rows.len() ==> rows[i].len() == 0,
    ensures
        rows.flatten().len() == 0,
    decreases rows.len(),
{
    if rows.len() == 0 {
    } else {
        assert(rows.first().len() == 0);
        lemma_flatten_of_empties(rows.drop_first());
    }
}

/// Law: a declaration without any field — a unit-shaped product, or a sum
/// all of whose variants are unit-shaped — emits both marker registrations
/// and no validation block at all.
pub proof fn lemma_no_fields_emit_no_validation(d: TypeDeclaration)
    requires
        (d.body matches DeclBody::Product(s) && s is Unit) || (d.body matches DeclBody::Sum(vs)
            && forall|i: int| 0 <= i < vs@.len() ==> vs@[i].fields is Unit),
    ensures
        field_type_set(d).len() == 0,
        emitted_code(d) == d.source@ + "\n\n"@ + marker_impl_text(d, safe_capability())
            + marker_impl_text(d, model_capability()),
{
    match d.body {
        DeclBody::Product(s) => {
        },
        DeclBody::Sum(vs) => {
            let rows = vs@.map_values(|v: SumVariant| shape_types(v.fields));
            assert(forall|i: int| 0 <= i < rows.len() ==> rows[i].len() == 0);
            lemma_flatten_of_empties(rows);
        },
        DeclBody::RawUnion => {
        },
    }
}

/// Law: the flattening of a sum body is variant-major and field-minor —
/// the first variant's field types first, in that variant's own field
/// order, then the flattening of the remaining variants.
pub proof fn lemma_sum_variant_major_field_minor(vs: Seq<SumVariant>)
    ensures
        vs.len() == 0 ==> sum_types(vs) == Seq::<Seq<char>>::empty(),
        vs.len() > 0 ==> sum_types(vs) == shape_types(vs[0].fields) + sum_types(vs.drop_first()),
{
    let rows = vs.map_values(|v: SumVariant| shape_types(v.fields));
    if vs.len() == 0 {
        assert(rows.len() == 0);
    } else {
        assert(rows.first() == shape_types(vs[0].fields));
        assert(rows.drop_first() =~= vs.drop_first().map_values(
            |v: SumVariant| shape_types(v.fields),
        ));
    }
}

/// The number of field types that the first `i` variants of a sum body
/// contribute to the flattening.
pub open spec fn types_before(vs: Seq<SumVariant>, i: int) -> nat
    decreases i,
{
    if i <= 0 || vs.len() == 0 {
        0
    } else {
        shape_types(vs[0].fields).len() + types_before(vs.drop_first(), i - 1)
    }
}

/// Law (index level): in the field type set of a sum body, field `j` of
/// variant `i` stands exactly after all earlier variants' fields, at
/// offset `types_before(vs, i) + j`.
pub proof fn lemma_sum_flattening_index(vs: Seq<SumVariant>, i: int, j: int)
    requires
        0 <= i < vs.len(),
        0 <= j < shape_types(vs[i].fields).len(),
    ensures
        types_before(vs, i) + j < sum_types(vs).len(),
        sum_types(vs)[types_before(vs, i) + j] == shape_types(vs[i].fields)[j],
    decreases i,
{
    lemma_sum_variant_major_field_minor(vs);
    if i == 0 {
    } else {
        lemma_sum_flattening_index(vs.drop_first(), i - 1, j);
        assert(vs.drop_first()[i - 1] == vs[i]);
        let row0 = shape_types(vs[0].fields);
        let rest = sum_types(vs.drop_first());
        let k = types_before(vs.drop_first(), i - 1) + j;
        assert(types_before(vs, i) == row0.len() + types_before(vs.drop_first(), i - 1));
        assert(sum_types(vs) == row0 + rest);
        assert((row0 + rest)[row0.len() + k] == rest[k]);
    }
}

/// Law: the field types of a tuple-shaped declaration are extracted by
/// position — entry `i` of the field type set is the declared type of the
/// tuple's field `i`, and there are exactly as many entries as fields.
pub proof fn lemma_tuple_positional(d: TypeDeclaration)
    requires
        d.body matches DeclBody::Product(s) && s is Tuple,
    ensures
        field_type_set(d).len() == d.body->Product_0->Tuple_0@.len(),
        forall|i: int|
            0 <= i < field_type_set(d).len() ==> field_type_set(d)[i]
                == d.body->Product_0->Tuple_0@[i]@,
{
}

/// Law: both emitted marker registrations reproduce the declaration's
/// generic parameters, generic arguments and where-clause verbatim, and
/// both registrations stand in the emitted code.
pub proof fn lemma_generics_propagated(d: TypeDeclaration)
    requires
        !(d.body is RawUnion),
    ensures
        contains_text(marker_impl_text(d, safe_capability()), d.impl_generics@),
        contains_text(marker_impl_text(d, safe_capability()), d.ty_generics@),
        contains_text(marker_impl_text(d, safe_capability()), d.where_clause@),
        contains_text(marker_impl_text(d, model_capability()), d.impl_generics@),
        contains_text(marker_impl_text(d, model_capability()), d.ty_generics@),
        contains_text(marker_impl_text(d, model_capability()), d.where_clause@),
        contains_text(emitted_code(d), marker_impl_text(d, safe_capability())),
        contains_text(emitted_code(d), marker_impl_text(d, model_capability())),
        contains_text(emitted_code(d), d.impl_generics@),
        contains_text(emitted_code(d), d.ty_generics@),
        contains_text(emitted_code(d), d.where_clause@),
{
    lemma_marker_pieces(d, safe_capability());
    lemma_marker_pieces(d, model_capability());
    let safe = marker_impl_text(d, safe_capability());
    let model = marker_impl_text(d, model_capability());
    let head = d.source@ + "\n\n"@;
    if field_type_set(d).len() == 0 {
        assert(emitted_code(d) =~= head + safe + model);
        lemma_contains_middle(head, safe, model);
        assert(emitted_code(d) =~= (head + safe) + model + Seq::<char>::empty());
        lemma_contains_middle(head + safe, model, Seq::<char>::empty());
    } else {
        let tail = "\n"@ + validation_block_text(field_type_set(d));
        assert(emitted_code(d) =~= head + safe + (model + tail));
        lemma_contains_middle(head, safe, model + tail);
        assert(emitted_code(d) =~= (head + safe) + model + tail);
        lemma_contains_middle(head + safe, model, tail);
    }
    lemma_contains_trans(emitted_code(d), safe, d.impl_generics@);
    lemma_contains_trans(emitted_code(d), safe, d.ty_generics@);
    lemma_contains_trans(emitted_code(d), safe, d.where_clause@);
}

/// One marker registration carries each of the three generics pieces.
proof fn lemma_marker_pieces(d: TypeDeclaration, capability: Seq<char>)
    ensures
        contains_text(marker_impl_text(d, capability), d.impl_generics@),
        contains_text(marker_impl_text(d, capability), d.ty_generics@),
        contains_text(marker_impl_text(d, capability), d.where_clause@),
{
    let text = marker_impl_text(d, capability);
    let after_ig = " "@ + capability + " for "@ + d.name@ + d.ty_generics@ + " "@ + d.where_clause@
        + " {}\n"@;
    assert(text =~= "impl "@ + d.impl_generics@ + after_ig);
    lemma_contains_middle("impl "@, d.impl_generics@, after_ig);
    let before_tg = "impl "@ + d.impl_generics@ + " "@ + capability + " for "@ + d.name@;
    let after_tg = " "@ + d.where_clause@ + " {}\n"@;
    assert(text =~= before_tg + d.ty_generics@ + after_tg);
    lemma_contains_middle(before_tg, d.ty_generics@, after_tg);
    let before_wc = before_tg + d.ty_generics@ + " "@;
    assert(text =~= before_wc + d.where_clause@ + " {}\n"@);
    lemma_contains_middle(before_wc, d.where_clause@, " {}\n"@);
}

/// A result of the transformation, reduced to its mathematical content:
/// the emitted text, or the diagnostic's message and anchor.
pub open spec fn transform_result_view(r: Result<String, TransformError>) -> Result<
    Seq<char>,
    (Seq<char>, Seq<char>),
> {
    match r {
        Ok(code) => Ok(code@),
        Err(e) => Err((e.message@, e.anchor@)),
    }
}

/// Law: the transformation is a pure function of the declaration alone —
/// any two results its contract admits for the same declaration are the
/// same, character for character, on success as on failure.
pub proof fn lemma_transform_deterministic(
    d: TypeDeclaration,
    r1: Result<String, TransformError>,
    r2: Result<String, TransformError>,
)
    requires
        transform_post(d, r1),
        transform_post(d, r2),
    ensures
        transform_result_view(r1) == transform_result_view(r2),
{
}

} // verus!
