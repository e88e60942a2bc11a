use crate::response::{CommonAttributes, SuccessFailure};
use vstd::prelude::*;

verus! {

/// An option inside a `success(..)` or `failure(..)` attribute.
#[derive(Clone, Debug, PartialEq, Eq)]
pub enum SubAttr {
    /// `message = "..."`.
    Message(String),
    /// `json`, or `json = true` / `json = false`.
    Json(bool),
    /// Anything else.
    Unknown,
}

/// An attribute on a variant of an API response enum.
#[derive(Clone, Debug, PartialEq, Eq)]
pub enum VariantAttr {
    /// `#[success]`, or `#[success(..)]` with its options.
    Success(Option<Vec<SubAttr>>),
    /// `#[failure]`, or `#[failure(..)]` with its options.
    Failure(Option<Vec<SubAttr>>),
    /// `#[status_code(n)]`.
    StatusCode(u16),
    /// An attribute of some other kind, which is passed over.
    Other,
}

/// Why the attributes of a variant are refused.
#[derive(Clone, Copy, Debug, PartialEq, Eq, Structural)]
pub enum AttrError {
    /// A second `success` or `failure` attribute.
    Duplicate,
    /// An option that is neither `message` nor `json`.
    UnknownSubAttribute,
    /// Neither a `success` nor a `failure` attribute.
    NotFound,
}

impl AttrError {
    /// The text of the error.
    pub fn message(&self) -> (r: &'static str)
        ensures
            *self == AttrError::Duplicate ==> r@ == "Only one success or failure attribute is allowed"@,
            *self == AttrError::UnknownSubAttribute ==> r@ == "Unknown sub-attribute"@,
            *self == AttrError::NotFound ==> r@ == "No success or failure attribute found"@,
    {
        match self {
            AttrError::Duplicate => "Only one success or failure attribute is allowed",
            AttrError::UnknownSubAttribute => "Unknown sub-attribute",
            AttrError::NotFound => "No success or failure attribute found",
        }
    }
}

/// The options that a list of sub-attributes sets over `a`, a later one
/// overriding an earlier; `None` where one is unknown.
pub open spec fn apply_subs(a: CommonAttributes, s: Seq<SubAttr>) -> Option<CommonAttributes>
    decreases s.len(),
{
    if s.len() == 0 {
        Some(a)
    } else {
        match apply_subs(a, s.drop_last()) {
            None => None,
            Some(b) => match s.last() {
                SubAttr::Message(m) => Some(CommonAttributes { message: Some(m), ..b }),
                SubAttr::Json(j) => Some(CommonAttributes { json: Some(j), ..b }),
                SubAttr::Unknown => None,
            },
        }
    }
}

/// No option set.
pub open spec fn no_options() -> CommonAttributes {
    CommonAttributes { message: None, json: None }
}

/// The options of a `success` or `failure` attribute.
pub open spec fn options_of(subs: Option<Vec<SubAttr>>) -> Option<CommonAttributes> {
    match subs {
        None => Some(no_options()),
        Some(v) => apply_subs(no_options(), v@),
    }
}

/// What the attributes read so far give: the status code, and the success
/// or failure attribute.
pub type AttrState = (Option<u16>, Option<SuccessFailure>);

/// The state after one more attribute.
pub open spec fn attr_step(st: AttrState, a: VariantAttr) -> Result<AttrState, AttrError> {
    match a {
        VariantAttr::Success(subs) => if st.1 is Some {
            Err(AttrError::Duplicate)
        } else {
            match options_of(subs) {
                None => Err(AttrError::UnknownSubAttribute),
                Some(c) => Ok((st.0, Some(SuccessFailure::Success(c)))),
            }
        },
        VariantAttr::Failure(subs) => if st.1 is Some {
            Err(AttrError::Duplicate)
        } else {
            match options_of(subs) {
                None => Err(AttrError::UnknownSubAttribute),
                Some(c) => Ok((st.0, Some(SuccessFailure::Failure(c)))),
            }
        },
        VariantAttr::StatusCode(c) => Ok((Some(c), st.1)),
        VariantAttr::Other => Ok(st),
    }
}

/// The state after reading the attributes `s` in order; the first error
/// stops the reading.
pub open spec fn read_attrs(s: Seq<VariantAttr>) -> Result<AttrState, AttrError>
    decreases s.len(),
{
    if s.len() == 0 {
        Ok((None, None))
    } else {
        match read_attrs(s.drop_last()) {
            Err(e) => Err(e),
            Ok(st) => attr_step(st, s.last()),
        }
    }
}

proof fn lemma_prefix<T>(s: Seq<T>, i: int)
    requires
        0 <= i < s.len(),
    ensures
        s.subrange(0, i + 1).drop_last() == s.subrange(0, i),
        s.subrange(0, i + 1).last() == s[i],
{
    assert(s.subrange(0, i + 1).drop_last() =~= s.subrange(0, i));
}

proof fn lemma_error_stays(s: Seq<VariantAttr>, i: int)
    requires
        0 <= i <= s.len(),
        read_attrs(s.subrange(0, i)) is Err,
    ensures
        read_attrs(s) == read_attrs(s.subrange(0, i)),
    decreases s.len() - i,
{
    if i < s.len() {
        lemma_prefix(s, i);
        lemma_error_stays(s, i + 1);
    } else {
        assert(s.subrange(0, i) =~= s);
    }
}

proof fn lemma_unknown_stays(a: CommonAttributes, s: Seq<SubAttr>, i: int)
    requires
        0 <= i <= s.len(),
        apply_subs(a, s.subrange(0, i)) is None,
    ensures
        apply_subs(a, s) is None,
    decreases s.len() - i,
{
    if i < s.len() {
        lemma_prefix(s, i);
        lemma_unknown_stays(a, s, i + 1);
    } else {
        assert(s.subrange(0, i) =~= s);
    }
}

/// The options that a list of sub-attributes sets.
fn read_options(subs: Vec<SubAttr>) -> (r: Option<CommonAttributes>)
    ensures
        r == apply_subs(no_options(), subs@),
{
    let ghost all = subs@;
    let mut rest = subs;
    let mut acc = CommonAttributes { message: None, json: None };
    let ghost mut i: int = 0;
    proof {
        assert(all.subrange(0, 0) =~= Seq::<SubAttr>::empty());
    }
    while rest.len() > 0
        invariant
            0 <= i <= all.len(),
            all == subs@,
            rest@ == all.subrange(i, all.len() as int),
            apply_subs(no_options(), all.subrange(0, i)) == Some(acc),
        decreases rest@.len(),
    {
        let a = rest.remove(0);
        proof {
            lemma_prefix(all, i);
            assert(a == all[i]);
        }
        match a {
            SubAttr::Message(m) => {
                acc = CommonAttributes { message: Some(m), json: acc.json };
            },
            SubAttr::Json(j) => {
                acc = CommonAttributes { message: acc.message, json: Some(j) };
            },
            SubAttr::Unknown => {
                proof {
                    assert(apply_subs(no_options(), all.subrange(0, i + 1)) is None);
                    lemma_unknown_stays(no_options(), all, i + 1);
                }
                return None;
            },
        }
        proof {
            i = i + 1;
            assert(rest@ =~= all.subrange(i, all.len() as int));
        }
    }
    proof {
        assert(all.subrange(0, i) =~= all);
    }
    Some(acc)
}

/// What the attributes `s` of a variant give: the status code and the
/// `success` or `failure` attribute, or why they are refused.
pub open spec fn variant_attrs_of(s: Seq<VariantAttr>) -> Result<(Option<u16>, SuccessFailure), AttrError> {
    match read_attrs(s) {
        Err(e) => Err(e),
        Ok(st) => match st.1 {
            None => Err(AttrError::NotFound),
            Some(sf) => Ok((st.0, sf)),
        },
    }
}

/// Reads the attributes of a variant: the status code (the last one set)
/// and its single `success` or `failure` attribute.
pub fn parse_variant_attribute(attrs: Vec<VariantAttr>) -> (r: Result<(Option<u16>, SuccessFailure), AttrError>)
    ensures
        read_attrs(attrs@) is Err ==> r is Err && r->Err_0 == read_attrs(attrs@)->Err_0,
        read_attrs(attrs@) is Ok && read_attrs(attrs@)->Ok_0.1 is None ==> r is Err && r->Err_0 == AttrError::NotFound,
        read_attrs(attrs@) is Ok && read_attrs(attrs@)->Ok_0.1 is Some ==> r is Ok
            && r->Ok_0 == (read_attrs(attrs@)->Ok_0.0, read_attrs(attrs@)->Ok_0.1->0),
        r == variant_attrs_of(attrs@),
{
    let ghost all = attrs@;
    let mut rest = attrs;
    let mut status: Option<u16> = None;
    let mut found: Option<SuccessFailure> = None;
    let ghost mut i: int = 0;
    proof {
        assert(all.subrange(0, 0) =~= Seq::<VariantAttr>::empty());
    }
    while rest.len() > 0
        invariant
            0 <= i <= all.len(),
            all == attrs@,
            rest@ == all.subrange(i, all.len() as int),
            read_attrs(all.subrange(0, i)) is Ok,
            read_attrs(all.subrange(0, i))->Ok_0 == (status, found),
        decreases rest@.len(),
    {
        let a = rest.remove(0);
        proof {
            lemma_prefix(all, i);
            assert(a == all[i]);
        }
        match a {
            VariantAttr::Success(subs) => {
                if found.is_some() {
                    proof {
                        lemma_error_stays(all, i + 1);
                    }
                    return Err(AttrError::Duplicate);
                }
                let options = match subs {
                    None => CommonAttributes { message: None, json: None },
                    Some(v) => match read_options(v) {
                        Some(c) => c,
                        None => {
                            proof {
                                lemma_error_stays(all, i + 1);
                            }
                            return Err(AttrError::UnknownSubAttribute);
                        },
                    },
                };
                found = Some(SuccessFailure::Success(options));
            },
            VariantAttr::Failure(subs) => {
                if found.is_some() {
                    proof {
                        lemma_error_stays(all, i + 1);
                    }
                    return Err(AttrError::Duplicate);
                }
                let options = match subs {
                    None => CommonAttributes { message: None, json: None },
                    Some(v) => match read_options(v) {
                        Some(c) => c,
                        None => {
                            proof {
                                lemma_error_stays(all, i + 1);
                            }
                            return Err(AttrError::UnknownSubAttribute);
                        },
                    },
                };
                found = Some(SuccessFailure::Failure(options));
            },
            VariantAttr::StatusCode(c) => {
                status = Some(c);
            },
            VariantAttr::Other => {},
        }
        proof {
            i = i + 1;
            assert(rest@ =~= all.subrange(i, all.len() as int));
        }
    }
    proof {
        assert(all.subrange(0, i) =~= all);
    }
    match found {
        Some(sf) => Ok((status, sf)),
        None => Err(AttrError::NotFound),
    }
}

} // verus!
