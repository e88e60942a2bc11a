use vstd::prelude::*;

verus! {

/// The database that holds the collections.
pub const DATABASE_NAME: &'static str = "recipe_db";

/// The collections of the database.
#[derive(Clone, Copy, Debug, PartialEq, Eq, Structural)]
pub enum Collections {
    Recipes,
}

impl Collections {
    /// The name of the collection.
    pub fn name(&self) -> (r: &'static str)
        ensures
            *self == Collections::Recipes ==> r@ == "recipes"@,
    {
        match self {
            Collections::Recipes => "recipes",
        }
    }
}

} // verus!
