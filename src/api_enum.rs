use crate::attributes::{parse_variant_attribute, variant_attrs_of, AttrError, VariantAttr};
use crate::response::{response_error, response_matches, ResponseError, Variant, VariantResponse};
use vstd::prelude::*;

verus! {

/// The fields of a variant of an API response enum.
#[derive(Clone, Copy, Debug, PartialEq, Eq, Structural)]
pub enum FieldShape {
    /// No field list.
    Unit,
    /// A list of unnamed fields, of this length.
    Unnamed(usize),
    /// Named fields.
    Named,
}

/// A variant of an API response enum: its fields and its attributes.
#[derive(Clone, Debug, PartialEq, Eq)]
pub struct VariantInput {
    pub fields: FieldShape,
    pub attrs: Vec<VariantAttr>,
}

/// Why the responses of an enum cannot be derived.
#[derive(Clone, Copy, Debug, PartialEq, Eq, Structural)]
pub enum EnumError {
    /// A variant has named fields.
    NamedFields,
    /// The attributes of a variant are refused.
    Attr(AttrError),
    /// The response of a variant cannot be built.
    Response(ResponseError),
}

/// The variant that an input describes, or why it is refused.
pub open spec fn variant_of(v: VariantInput) -> Result<Variant, EnumError> {
    match v.fields {
        FieldShape::Named => Err(EnumError::NamedFields),
        _ => match variant_attrs_of(v.attrs@) {
            Err(e) => Err(EnumError::Attr(e)),
            Ok(a) => Ok(
                Variant {
                    field_count: match v.fields {
                        FieldShape::Unnamed(n) => Some(n),
                        _ => None,
                    },
                    status: a.0,
                    attribute: a.1,
                },
            ),
        },
    }
}

/// Whether `r` is what reading the variants `s` in order gives: every
/// variant, or the error of the first refused one.
pub open spec fn variants_outcome(s: Seq<VariantInput>, r: Result<Vec<Variant>, EnumError>) -> bool {
    &&& r is Ok ==> r->Ok_0@.len() == s.len() && forall|i: int|
        0 <= i < s.len() ==> variant_of(#[trigger] s[i]) == Ok::<Variant, EnumError>(r->Ok_0@[i])
    &&& r is Err ==> exists|i: int|
        0 <= i < s.len() && variant_of(#[trigger] s[i]) == Err::<Variant, EnumError>(r->Err_0)
            && forall|j: int| 0 <= j < i ==> variant_of(#[trigger] s[j]) is Ok
}

/// Reads one variant.
pub fn parse_variant(v: VariantInput) -> (r: Result<Variant, EnumError>)
    ensures
        r == variant_of(v),
{
    let field_count = match v.fields {
        FieldShape::Named => {
            return Err(EnumError::NamedFields);
        },
        FieldShape::Unit => None,
        FieldShape::Unnamed(n) => Some(n),
    };
    match parse_variant_attribute(v.attrs) {
        Err(e) => Err(EnumError::Attr(e)),
        Ok((status, attribute)) => Ok(Variant { field_count, status, attribute }),
    }
}

/// Reads the variants of an API response enum, in order; only unit variants
/// and variants with unnamed fields are taken.
pub fn parse_enum(variants: Vec<VariantInput>) -> (r: Result<Vec<Variant>, EnumError>)
    ensures
        variants_outcome(variants@, r),
{
    let ghost all = variants@;
    let mut rest = variants;
    let mut out: Vec<Variant> = Vec::new();
    let ghost mut i: int = 0;
    while rest.len() > 0
        invariant
            0 <= i <= all.len(),
            all == variants@,
            rest@ == all.subrange(i, all.len() as int),
            out@.len() == i,
            forall|j: int| 0 <= j < i ==> variant_of(#[trigger] all[j]) == Ok::<Variant, EnumError>(out@[j]),
        decreases rest@.len(),
    {
        let v = rest.remove(0);
        proof {
            assert(v == all[i]);
        }
        match parse_variant(v) {
            Err(e) => {
                return Err(e);
            },
            Ok(x) => {
                out.push(x);
            },
        }
        proof {
            i = i + 1;
            assert(rest@ =~= all.subrange(i, all.len() as int));
        }
    }
    Ok(out)
}

/// Whether `r` is what deriving the responses of the variants `s` gives:
/// the first refused variant's error; else the first variant's response
/// error; else the response of every variant, in order.
pub open spec fn responses_outcome(s: Seq<VariantInput>, r: Result<Vec<VariantResponse>, EnumError>) -> bool {
    let read = forall|i: int| 0 <= i < s.len() ==> (#[trigger] variant_of(s[i])) is Ok;
    &&& r is Ok ==> read && r->Ok_0@.len() == s.len() && forall|i: int|
        0 <= i < s.len() ==> response_error(variant_of(#[trigger] s[i])->Ok_0) is None
            && response_matches(variant_of(s[i])->Ok_0, r->Ok_0@[i])
    &&& r is Err ==> (exists|i: int|
        0 <= i < s.len() && variant_of(#[trigger] s[i]) == Err::<Variant, EnumError>(r->Err_0)
            && forall|j: int| 0 <= j < i ==> variant_of(#[trigger] s[j]) is Ok) || (read && exists|i: int|
        0 <= i < s.len() && r->Err_0 == EnumError::Response(response_error(variant_of(#[trigger] s[i])->Ok_0)->0)
            && response_error(variant_of(s[i])->Ok_0) is Some
            && forall|j: int| 0 <= j < i ==> response_error(variant_of(#[trigger] s[j])->Ok_0) is None)
}

/// Derives the response of every variant of an API response enum: all the
/// variants are read first, then each response is built.
pub fn impl_api_enum(variants: Vec<VariantInput>) -> (r: Result<Vec<VariantResponse>, EnumError>)
    ensures
        responses_outcome(variants@, r),
{
    let ghost all = variants@;
    let parsed = match parse_enum(variants) {
        Ok(p) => p,
        Err(e) => {
            return Err(e);
        },
    };
    let ghost vs = parsed@;
    let mut rest = parsed;
    let mut out: Vec<VariantResponse> = Vec::new();
    let ghost mut i: int = 0;
    while rest.len() > 0
        invariant
            0 <= i <= vs.len(),
            vs.len() == all.len(),
            all == variants@,
            forall|j: int| 0 <= j < all.len() ==> variant_of(#[trigger] all[j]) == Ok::<Variant, EnumError>(vs[j]),
            rest@ == vs.subrange(i, vs.len() as int),
            out@.len() == i,
            forall|j: int| 0 <= j < i ==> response_error(#[trigger] vs[j]) is None && response_matches(vs[j], out@[j]),
        decreases rest@.len(),
    {
        let v = rest.remove(0);
        proof {
            assert(v == vs[i]);
        }
        match v.to_response() {
            Err(e) => {
                proof {
                    assert(variant_of(all[i])->Ok_0 == vs[i]);
                    assert(forall|j: int| 0 <= j < all.len() ==> (#[trigger] variant_of(all[j])) is Ok);
                }
                return Err(EnumError::Response(e));
            },
            Ok(x) => {
                out.push(x);
            },
        }
        proof {
            i = i + 1;
            assert(rest@ =~= vs.subrange(i, vs.len() as int));
        }
    }
    proof {
        assert(forall|j: int| 0 <= j < all.len() ==> (#[trigger] variant_of(all[j])) is Ok);
    }
    Ok(out)
}

} // verus!
