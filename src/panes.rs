use crate::types::Formattable;
use vstd::prelude::*;

verus! {

/// A warning pane shown beside a sub-step of a method.
#[derive(Clone, Debug, PartialEq, Eq)]
pub struct Warning {
    /// The title of the warning.
    pub title: String,
    /// The content of the warning.
    pub content: Formattable,
}

impl Warning {
    /// A warning with the given title and content.
    pub fn new(title: String, content: &str) -> (r: Warning)
        ensures
            r.title == title,
            r.content.0@ == content@,
    {
        Warning { title, content: Formattable::new(content) }
    }

    /// A warning with empty title and content.
    pub fn new_empty() -> (r: Warning)
        ensures
            r.title@ == Seq::<char>::empty(),
            r.content.0@ == Seq::<char>::empty(),
    {
        Warning { title: String::new(), content: Formattable::new_empty() }
    }

    /// The warning with its title replaced.
    pub fn set_title(self, title: String) -> (r: Warning)
        ensures
            r.title == title,
            r.content == self.content,
    {
        Warning { title, content: self.content }
    }

    /// The warning with its content replaced.
    pub fn set_content(self, content: &str) -> (r: Warning)
        ensures
            r.title == self.title,
            r.content.0@ == content@,
    {
        Warning { title: self.title, content: Formattable::new(content) }
    }
}

/// An information pane shown beside a sub-step of a method.
#[derive(Clone, Debug, PartialEq, Eq)]
pub struct Info {
    /// The title of the info.
    pub title: String,
    /// The content of the info.
    pub content: Formattable,
}

impl Info {
    /// An info pane with the given title and content.
    pub fn new(title: String, content: Formattable) -> (r: Info)
        ensures
            r.title == title,
            r.content == content,
    {
        Info { title, content }
    }

    /// An info pane with empty title and content.
    pub fn new_empty() -> (r: Info)
        ensures
            r.title@ == Seq::<char>::empty(),
            r.content.0@ == Seq::<char>::empty(),
    {
        Info { title: String::new(), content: Formattable::new_empty() }
    }

    /// The info pane with its title replaced.
    pub fn set_title(self, title: String) -> (r: Info)
        ensures
            r.title == title,
            r.content == self.content,
    {
        Info { title, content: self.content }
    }

    /// The info pane with its content replaced.
    pub fn set_content(self, content: &str) -> (r: Info)
        ensures
            r.title == self.title,
            r.content.0@ == content@,
    {
        Info { title: self.title, content: Formattable::new(content) }
    }
}

} // verus!
