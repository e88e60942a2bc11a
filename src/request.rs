use crate::date::Date;
use crate::ids::Uuid;
use crate::method::Method;
use crate::nutrient::{Nutrient, SerdeStringNutrient};
use crate::quiz::Quiz;
use crate::recipe::{build_outcome, Recipe, RecipeBuilder};
use crate::types::{Formattable, Gradient, Url};
use vstd::prelude::*;

verus! {

/// A recipe as a client sends it: every field may be left out.
#[derive(Clone, Debug, PartialEq, Eq)]
pub struct RequestRecipe {
    /// Where set, the stored recipe with this identifier is replaced.
    pub uuid: Option<Uuid>,
    /// Defaults to the time of the request.
    pub date_added: Option<Date>,
    /// Defaults to the time of the request.
    pub becomes_public: Option<Date>,
    pub authors: Option<Vec<Uuid>>,
    pub credits: Option<Formattable>,
    pub weekly_timestamp: Option<Date>,
    pub title: Option<String>,
    pub short: Option<String>,
    pub nutrients: Option<Vec<SerdeStringNutrient>>,
    pub time_to_cook: Option<u16>,
    pub servings: Option<u16>,
    pub image: Option<Url>,
    pub gradient: Option<Gradient>,
    pub ingredients: Option<Vec<String>>,
    pub method: Option<Method>,
    pub quiz: Option<Quiz>,
}

/// The nutrients that a sequence of named nutrients stands for.
pub open spec fn unwrap_nutrients(s: Seq<SerdeStringNutrient>) -> Seq<Nutrient> {
    s.map_values(|n: SerdeStringNutrient| n.0)
}

/// `b` is the builder that holds what the request `q` sets, and nothing else.
pub open spec fn builder_of_request(b: RecipeBuilder, q: RequestRecipe) -> bool {
    &&& b.uuid == q.uuid
    &&& b.date_added == q.date_added
    &&& b.becomes_public == q.becomes_public
    &&& b.authors@ == (match q.authors {
        Some(a) => a@,
        None => Seq::<Uuid>::empty(),
    })
    &&& b.credits == q.credits
    &&& b.weekly_timestamp == q.weekly_timestamp
    &&& b.short == q.short
    &&& b.title == q.title
    &&& b.nutrients@ == (match q.nutrients {
        Some(n) => unwrap_nutrients(n@),
        None => Seq::<Nutrient>::empty(),
    })
    &&& b.time_to_cook == q.time_to_cook
    &&& b.servings == q.servings
    &&& b.image == q.image
    &&& b.gradient == q.gradient
    &&& b.ingredients@ == (match q.ingredients {
        Some(i) => i@,
        None => Seq::<String>::empty(),
    })
    &&& b.method == q.method
    &&& b.quiz == q.quiz
}

fn unwrap_all(named: &Vec<SerdeStringNutrient>) -> (r: Vec<Nutrient>)
    ensures
        r@ == unwrap_nutrients(named@),
{
    let mut r: Vec<Nutrient> = Vec::new();
    let mut i: usize = 0;
    while i < named.len()
        invariant
            i <= named@.len(),
            r@ == unwrap_nutrients(named@.subrange(0, i as int)),
        decreases named@.len() - i,
    {
        r.push(named[i].into_nutrient());
        proof {
            assert(named@.subrange(0, i + 1) == named@.subrange(0, i as int).push(named@[i as int]));
        }
        i = i + 1;
    }
    proof {
        assert(named@.subrange(0, named@.len() as int) == named@);
    }
    r
}

impl RequestRecipe {
    /// Builds the recipe that the request describes, with the checks of
    /// `RecipeBuilder::build`.
    pub fn into_recipe(self) -> (r: Result<Recipe, String>)
        ensures
            exists|b: RecipeBuilder| builder_of_request(b, self) && build_outcome(b, r),
    {
        let authors = match self.authors {
            Some(a) => a,
            None => Vec::new(),
        };
        let nutrients = match &self.nutrients {
            Some(n) => unwrap_all(n),
            None => Vec::new(),
        };
        let ingredients = match self.ingredients {
            Some(i) => i,
            None => Vec::new(),
        };
        let builder = RecipeBuilder {
            uuid: self.uuid,
            date_added: self.date_added,
            becomes_public: self.becomes_public,
            authors,
            credits: self.credits,
            weekly_timestamp: self.weekly_timestamp,
            short: self.short,
            title: self.title,
            nutrients,
            time_to_cook: self.time_to_cook,
            servings: self.servings,
            image: self.image,
            gradient: self.gradient,
            ingredients,
            method: self.method,
            quiz: self.quiz,
        };
        let ghost b = builder;
        let r = builder.build();
        assert(builder_of_request(b, self) && build_outcome(b, r));
        r
    }
}

/// A recipe reduced to what lists and search results show.
#[derive(Clone, Debug, PartialEq, Eq)]
pub struct BasicRecipe {
    pub uuid: Uuid,
    /// The date the recipe became public.
    pub date_added: Date,
    /// Whether the recipe is the current weekly recipe.
    pub is_weekly: bool,
    pub short: String,
    pub title: String,
    pub nutrients: Vec<SerdeStringNutrient>,
    pub time_to_cook: u16,
    pub servings: u16,
    pub image: Url,
    pub gradient: Gradient,
}

pub(crate) fn wrap_all(nutrients: &Vec<Nutrient>) -> (r: Vec<SerdeStringNutrient>)
    ensures
        unwrap_nutrients(r@) == nutrients@,
{
    let mut r: Vec<SerdeStringNutrient> = Vec::new();
    let mut i: usize = 0;
    while i < nutrients.len()
        invariant
            i <= nutrients@.len(),
            unwrap_nutrients(r@) == nutrients@.subrange(0, i as int),
        decreases nutrients@.len() - i,
    {
        let ghost prev = r@;
        r.push(SerdeStringNutrient(nutrients[i]));
        proof {
            assert(r@ == prev.push(SerdeStringNutrient(nutrients@[i as int])));
            assert(unwrap_nutrients(r@) =~= unwrap_nutrients(prev).push(nutrients@[i as int]));
            assert(nutrients@.subrange(0, i + 1) =~= nutrients@.subrange(0, i as int).push(nutrients@[i as int]));
        }
        i = i + 1;
    }
    proof {
        assert(nutrients@.subrange(0, nutrients@.len() as int) == nutrients@);
    }
    r
}

impl BasicRecipe {
    /// The reduced form of `recipe`; its date is the date the recipe became
    /// public.
    pub fn from_recipe_with_weekly(recipe: &Recipe, is_weekly: bool) -> (r: BasicRecipe)
        ensures
            r.uuid == recipe.uuid,
            r.date_added == recipe.becomes_public,
            r.is_weekly == is_weekly,
            r.short@ == recipe.short@,
            r.title@ == recipe.title@,
            unwrap_nutrients(r.nutrients@) == recipe.nutrients@,
            r.time_to_cook == recipe.time_to_cook,
            r.servings == recipe.servings,
            r.image.0@ == recipe.image.0@,
            r.gradient.0@ == recipe.gradient.0@,
            r.gradient.1@ == recipe.gradient.1@,
    {
        BasicRecipe {
            uuid: recipe.uuid,
            date_added: recipe.becomes_public,
            is_weekly,
            short: recipe.short.clone(),
            title: recipe.title.clone(),
            nutrients: wrap_all(&recipe.nutrients),
            time_to_cook: recipe.time_to_cook,
            servings: recipe.servings,
            image: Url(recipe.image.0.clone()),
            gradient: Gradient(recipe.gradient.0.clone(), recipe.gradient.1.clone()),
        }
    }
}

} // verus!
