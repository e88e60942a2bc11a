use crate::date::Date;
use crate::ids::Uuid;
use crate::method::Method;
use crate::nutrient::SerdeStringNutrient;
use crate::recipe::Recipe as StoredRecipe;
use crate::request::{unwrap_nutrients, wrap_all};
use crate::types::Url;
use vstd::prelude::*;

verus! {

/// A recipe as a client sees it in full.
#[derive(Clone, Debug, PartialEq, Eq)]
pub struct Recipe {
    pub uuid: Uuid,
    /// The date the recipe became public.
    pub date_added: Date,
    /// Whether the recipe is the current weekly recipe.
    pub is_weekly: bool,
    pub title: String,
    pub nutrients: Vec<SerdeStringNutrient>,
    pub time_to_cook: u16,
    pub servings: u16,
    pub image: Url,
    pub ingredients: Vec<String>,
    pub method: Method,
}

impl Recipe {
    /// The client's form of a stored recipe; its date is the date the recipe
    /// became public.
    pub fn from_recipe(recipe: StoredRecipe, is_weekly: bool) -> (r: Recipe)
        ensures
            r.uuid == recipe.uuid,
            r.date_added == recipe.becomes_public,
            r.is_weekly == is_weekly,
            r.title == recipe.title,
            unwrap_nutrients(r.nutrients@) == recipe.nutrients@,
            r.time_to_cook == recipe.time_to_cook,
            r.servings == recipe.servings,
            r.image == recipe.image,
            r.ingredients == recipe.ingredients,
            r.method == recipe.method,
    {
        let nutrients = wrap_all(&recipe.nutrients);
        Recipe {
            uuid: recipe.uuid,
            date_added: recipe.becomes_public,
            is_weekly,
            title: recipe.title,
            nutrients,
            time_to_cook: recipe.time_to_cook,
            servings: recipe.servings,
            image: recipe.image,
            ingredients: recipe.ingredients,
            method: recipe.method,
        }
    }
}

} // verus!
