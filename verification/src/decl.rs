use vstd::prelude::*;

verus! {

/// A named field of a record-shaped body: its identifier and the text of
/// its declared type.
pub struct NamedField {
    /// The field's identifier.
    pub name: String,
    /// The declared type, as source text.
    pub ty: String,
}

/// The fields of a declaration, or of one variant of a sum-shaped
/// declaration: named fields (a record), positional fields (a tuple), or
/// none at all (a unit).
pub enum FieldsShape {
    /// Named fields, in declaration order.
    Record(Vec<NamedField>),
    /// Positional fields, each given by the text of its declared type, in
    /// positional order.
    Tuple(Vec<String>),
    /// No fields.
    Unit,
}

/// One named alternative of a sum-shaped declaration, itself record-,
/// tuple- or unit-shaped.
pub struct SumVariant {
    /// The variant's identifier.
    pub name: String,
    /// The variant's own fields.
    pub fields: FieldsShape,
}

/// The body of a type declaration: a product of fields directly on the
/// type, a sum of named variants, or a raw union, which the transformer
/// rejects.
pub enum DeclBody {
    /// Fields directly on the type.
    Product(FieldsShape),
    /// Named variants, in declaration order.
    Sum(Vec<SumVariant>),
    /// A raw union: recognized only to be rejected.
    RawUnion,
}

/// A parsed type declaration, the transformer's input. The generics are
/// carried through unchanged as the three pieces of source text that an
/// `impl` block for the type needs.
pub struct TypeDeclaration {
    /// The type's name identifier.
    pub name: String,
    /// The generic parameters with their bounds, as they stand between
    /// `impl` and the trait name; empty when the type has none.
    pub impl_generics: String,
    /// The generic arguments as they follow the type's name; empty when
    /// the type has none.
    pub ty_generics: String,
    /// The where-clause; empty when the declaration has none.
    pub where_clause: String,
    /// The original declaration, verbatim.
    pub source: String,
    /// The declaration's body.
    pub body: DeclBody,
}

/// The views of a sequence of strings, element by element.
pub open spec fn string_views(ss: Seq<String>) -> Seq<Seq<char>> {
    ss.map_values(|t: String| t@)
}

/// The declared types of a sequence of named fields, in field order.
pub open spec fn named_field_types(fs: Seq<NamedField>) -> Seq<Seq<char>> {
    fs.map_values(|f: NamedField| f.ty@)
}

/// The type texts of one shape's fields, in declaration order: field
/// order for a record, positional order for a tuple, empty for a unit.
pub open spec fn shape_types(s: FieldsShape) -> Seq<Seq<char>> {
    match s {
        FieldsShape::Record(fs) => named_field_types(fs@),
        FieldsShape::Tuple(ts) => string_views(ts@),
        FieldsShape::Unit => Seq::empty(),
    }
}

/// The variant-major, field-minor flattening of a sum body's field types:
/// every variant's field types in variant order, each variant's in its own
/// field order.
pub open spec fn sum_types(vs: Seq<SumVariant>) -> Seq<Seq<char>> {
    vs.map_values(|v: SumVariant| shape_types(v.fields)).flatten()
}

/// The field type set of a declaration: the ordered sequence of every
/// field's declared type, duplicates kept. A raw union contributes
/// nothing, since the transformer rejects it before extraction.
pub open spec fn field_type_set(d: TypeDeclaration) -> Seq<Seq<char>> {
    match d.body {
        DeclBody::Product(s) => shape_types(s),
        DeclBody::Sum(vs) => sum_types(vs@),
        DeclBody::RawUnion => Seq::empty(),
    }
}

/// The type texts of one shape's fields, in declaration order.
fn shape_field_types(s: &FieldsShape) -> (r: Vec<String>)
    ensures
        string_views(r@) == shape_types(*s),
{
    broadcast use vstd::prelude::Seq::lemma_push_map_commute;

    match s {
        FieldsShape::Record(fs) => {
            let mut r: Vec<String> = Vec::new();
            let mut i: usize = 0;
            proof {
                assert(string_views(r@) =~= named_field_types(fs@.take(0)));
            }
            while i < fs.len()
                invariant
                    i <= fs.len(),
                    string_views(r@) == named_field_types(fs@.take(i as int)),
                decreases fs.len() - i,
            {
                let f = &fs[i];
                let ghost r_before = r@;
                r.push(f.ty.clone());
                i = i + 1;
                proof {
                    assert(string_views(r@) =~= string_views(r_before).push(fs@[i - 1].ty@));
                    assert(fs@.take(i as int) =~= fs@.take(i - 1).push(fs@[i - 1]));
                    assert(named_field_types(fs@.take(i - 1).push(fs@[i - 1]))
                        =~= named_field_types(fs@.take(i - 1)).push(fs@[i - 1].ty@));
                }
            }
            proof {
                assert(fs@.take(i as int) =~= fs@);
            }
            r
        },
        FieldsShape::Tuple(ts) => {
            let mut r: Vec<String> = Vec::new();
            let mut i: usize = 0;
            proof {
                assert(string_views(r@) =~= string_views(ts@.take(0)));
            }
            while i < ts.len()
                invariant
                    i <= ts.len(),
                    string_views(r@) == string_views(ts@.take(i as int)),
                decreases ts.len() - i,
            {
                let t = &ts[i];
                let ghost r_before = r@;
                r.push(t.clone());
                i = i + 1;
                proof {
                    assert(string_views(r@) =~= string_views(r_before).push(ts@[i - 1]@));
                    assert(ts@.take(i as int) =~= ts@.take(i - 1).push(ts@[i - 1]));
                    assert(string_views(ts@.take(i - 1).push(ts@[i - 1]))
                        =~= string_views(ts@.take(i - 1)).push(ts@[i - 1]@));
                }
            }
            proof {
                assert(ts@.take(i as int) =~= ts@);
            }
            r
        },
        FieldsShape::Unit => {
            let r: Vec<String> = Vec::new();
            proof {
                assert(string_views(r@) =~= Seq::<Seq<char>>::empty());
            }
            r
        },
    }
}

/// Builds the field type set of a declaration: the declared type of every
/// field, across all fields for a product shape and across all fields of
/// all variants for a sum shape, in declaration order, duplicates kept.
pub fn field_types(d: &TypeDeclaration) -> (r: Vec<String>)
    ensures
        string_views(r@) == field_type_set(*d),
{
    match &d.body {
        DeclBody::Product(s) => shape_field_types(s),
        DeclBody::Sum(vs) => {
            let mut r: Vec<String> = Vec::new();
            let mut i: usize = 0;
            proof {
                assert(string_views(r@) =~= sum_types(vs@.take(0)));
            }
            while i < vs.len()
                invariant
                    i <= vs.len(),
                    string_views(r@) == sum_types(vs@.take(i as int)),
                decreases vs.len() - i,
            {
                let v = &vs[i];
                let mut vt = shape_field_types(&v.fields);
                let ghost r_before = r@;
                let ghost vt_before = vt@;
                r.append(&mut vt);
                i = i + 1;
                proof {
                    lemma_sum_types_take_step(vs@, i as int);
                    assert(string_views(r@) =~= string_views(r_before) + string_views(vt_before));
                }
            }
            proof {
                assert(vs@.take(i as int) =~= vs@);
            }
            r
        },
        DeclBody::RawUnion => {
            let r: Vec<String> = Vec::new();
            proof {
                assert(string_views(r@) =~= Seq::<Seq<char>>::empty());
            }
            r
        },
    }
}

/// Taking one more variant extends the flattening by exactly that
/// variant's field types, at the end.
proof fn lemma_sum_types_take_step(vs: Seq<SumVariant>, i: int)
    requires
        0 < i <= vs.len(),
    ensures
        sum_types(vs.take(i)) == sum_types(vs.take(i - 1)) + shape_types(vs[i - 1].fields),
{
    let rows = |v: SumVariant| shape_types(v.fields);
    assert(vs.take(i).map_values(rows) =~= vs.take(i - 1).map_values(rows).push(
        shape_types(vs[i - 1].fields),
    ));
    vs.take(i - 1).map_values(rows).lemma_flatten_push(shape_types(vs[i - 1].fields));
}

} // verus!
