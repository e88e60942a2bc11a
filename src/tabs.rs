use crate::types::Formattable;
use vstd::prelude::*;

verus! {

/// A warning tab: a title of at most 80 characters and content of at most
/// 500, by convention.
#[derive(Clone, Debug, PartialEq, Eq)]
pub struct Warning {
    pub title: String,
    pub content: Formattable,
}

/// An information tab: a title of at most 80 characters and content of at
/// most 500, by convention.
#[derive(Clone, Debug, PartialEq, Eq)]
pub struct Info {
    pub title: String,
    pub content: Formattable,
}

} // verus!
