use vstd::prelude::*;

verus! {

/// Markdown-like text that the client formats; kept apart from plain
/// strings so that it is clear which fields are formatted.
#[derive(Clone, Debug, PartialEq, Eq, Hash)]
pub struct Formattable(pub String);

impl Formattable {
    /// Formattable text with the given content.
    pub fn new(content: &str) -> (r: Formattable)
        ensures
            r.0@ == content@,
    {
        Formattable(content.to_string())
    }

    /// Empty formattable text.
    pub fn new_empty() -> (r: Formattable)
        ensures
            r.0@ == Seq::<char>::empty(),
    {
        Formattable(String::new())
    }

    /// The text, as written.
    pub fn as_str(&self) -> (r: &str)
        ensures
            r@ == self.0@,
    {
        self.0.as_str()
    }
}

/// The address of a resource, in general an image; at most 400 characters
/// by convention.
#[derive(Clone, Debug, PartialEq, Eq, Hash)]
pub struct Url(pub String);

impl Url {
    /// The address `s`.
    pub fn from_str(s: &str) -> (r: Url)
        ensures
            r.0@ == s@,
    {
        Url(s.to_string())
    }
}

/// The two colours (`#rrggbb`) of a recipe's background gradient.
#[derive(Clone, Debug, PartialEq, Eq, Hash, Default)]
pub struct Gradient(pub String, pub String);

} // verus!
