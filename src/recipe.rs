use crate::date::Date;
use crate::ids::{v4_shaped, Uuid};
use crate::method::Method;
use crate::nutrient::{Nutrient, SerdeStringNutrient};
use crate::quiz::Quiz;
use crate::types::{Formattable, Gradient, Url};
use vstd::prelude::*;

verus! {

/// The kebab-case form of a string (`Chicken Tikka` becomes `chicken-tikka`).
pub uninterp spec fn kebab_of(s: Seq<char>) -> Seq<char>;

/// Relies on heck's ToKebabCase for str: the kebab-case form, a function of
/// the characters alone.
#[verifier::external_body]
fn to_kebab(s: &str) -> (r: String)
    ensures
        r@ == kebab_of(s@),
{
    <str as heck::ToKebabCase>::to_kebab_case(s)
}

/// A recipe as it is stored.
#[derive(Clone, Debug, PartialEq, Eq)]
pub struct Recipe {
    pub uuid: Uuid,
    pub date_added: Date,
    pub becomes_public: Date,
    pub authors: Vec<Uuid>,
    pub credits: Option<Formattable>,
    pub weekly_timestamp: Option<Date>,
    /// The short name used in addresses, e.g. `chicken-tikka-masala`.
    pub short: String,
    pub title: String,
    pub nutrients: Vec<Nutrient>,
    /// Minutes.
    pub time_to_cook: u16,
    pub servings: u16,
    pub image: Url,
    pub gradient: Gradient,
    pub ingredients: Vec<String>,
    pub method: Method,
    pub quiz: Quiz,
}

impl Recipe {
    /// A builder with nothing set.
    pub fn builder() -> (r: RecipeBuilder)
        ensures
            r.is_empty(),
    {
        RecipeBuilder {
            uuid: None,
            date_added: None,
            becomes_public: None,
            authors: Vec::new(),
            credits: None,
            weekly_timestamp: None,
            short: None,
            title: None,
            nutrients: Vec::new(),
            time_to_cook: None,
            servings: None,
            image: None,
            gradient: None,
            ingredients: Vec::new(),
            method: None,
            quiz: None,
        }
    }

    /// The identifier of the recipe.
    pub fn uuid(&self) -> (r: &Uuid)
        ensures
            *r == self.uuid,
    {
        &self.uuid
    }

    /// Whether this recipe is the weekly one; `weekly` is the current weekly
    /// recipe, or `None` where it could not be had.
    pub fn is_weekly(&self, weekly: Option<&Recipe>) -> (r: bool)
        ensures
            r == (weekly matches Some(w) && w.uuid == self.uuid),
    {
        match weekly {
            Some(w) => w.uuid.0 == self.uuid.0,
            None => false,
        }
    }
}

/// Collects the fields of a recipe and checks them.
#[derive(Clone, Debug, PartialEq, Eq, Default)]
pub struct RecipeBuilder {
    pub uuid: Option<Uuid>,
    pub date_added: Option<Date>,
    pub becomes_public: Option<Date>,
    pub authors: Vec<Uuid>,
    pub credits: Option<Formattable>,
    pub weekly_timestamp: Option<Date>,
    pub short: Option<String>,
    pub title: Option<String>,
    pub nutrients: Vec<Nutrient>,
    pub time_to_cook: Option<u16>,
    pub servings: Option<u16>,
    pub image: Option<Url>,
    pub gradient: Option<Gradient>,
    pub ingredients: Vec<String>,
    pub method: Option<Method>,
    pub quiz: Option<Quiz>,
}

/// The short name a builder yields: the one set, else the kebab-case title.
pub open spec fn short_of(b: RecipeBuilder) -> Option<Seq<char>> {
    match b.short {
        Some(s) => Some(s@),
        None => match b.title {
            Some(t) => Some(kebab_of(t@)),
            None => None,
        },
    }
}

/// The message of the first check that a builder fails, if any.
pub open spec fn build_error(b: RecipeBuilder) -> Option<Seq<char>> {
    if b.nutrients@.len() == 0 || b.nutrients@.len() > 3 {
        Some("Recipe must have 1-3 nutrients"@)
    } else if b.ingredients@.len() == 0 {
        Some("Recipe must have at least one ingredient"@)
    } else if short_of(b) is None {
        Some("No short set for recipe."@)
    } else if b.title is None {
        Some("No title set for recipe."@)
    } else if b.time_to_cook is None {
        Some("No time to cook set for recipe."@)
    } else if b.servings is None {
        Some("No servings set for recipe."@)
    } else if b.image is None {
        Some("No image set for recipe."@)
    } else if b.gradient is None {
        Some("No gradient set for recipe."@)
    } else if b.method is None {
        Some("No method set for recipe."@)
    } else if b.quiz is None {
        Some("No quiz set for recipe."@)
    } else {
        None
    }
}

/// `r` is a recipe that a builder `b` that passes every check yields: what was
/// set is kept; a missing identifier is a fresh random one.
pub open spec fn built_from(r: Recipe, b: RecipeBuilder) -> bool {
    &&& (b.uuid matches Some(u) ==> r.uuid == u)
    &&& (b.uuid is None ==> v4_shaped(r.uuid.0))
    &&& (b.date_added matches Some(d) ==> r.date_added == d)
    &&& (b.becomes_public matches Some(d) ==> r.becomes_public == d)
    &&& r.authors@ == b.authors@
    &&& r.credits == b.credits
    &&& r.weekly_timestamp == b.weekly_timestamp
    &&& Some(r.short@) == short_of(b)
    &&& Some(r.title) == b.title
    &&& r.nutrients@ == b.nutrients@
    &&& Some(r.time_to_cook) == b.time_to_cook
    &&& Some(r.servings) == b.servings
    &&& Some(r.image) == b.image
    &&& Some(r.gradient) == b.gradient
    &&& r.ingredients@ == b.ingredients@
    &&& Some(r.method) == b.method
    &&& Some(r.quiz) == b.quiz
}

/// What building `b` gives: the first failed check's message, or a recipe
/// built from it.
pub open spec fn build_outcome(b: RecipeBuilder, r: Result<Recipe, String>) -> bool {
    &&& (build_error(b) matches Some(m) ==> r is Err && r->Err_0@ == m)
    &&& (build_error(b) is None ==> r is Ok && built_from(r->Ok_0, b))
}

impl RecipeBuilder {
    /// Nothing is set.
    pub open spec fn is_empty(&self) -> bool {
        &&& self.uuid is None
        &&& self.date_added is None
        &&& self.becomes_public is None
        &&& self.authors@.len() == 0
        &&& self.credits is None
        &&& self.weekly_timestamp is None
        &&& self.short is None
        &&& self.title is None
        &&& self.nutrients@.len() == 0
        &&& self.time_to_cook is None
        &&& self.servings is None
        &&& self.image is None
        &&& self.gradient is None
        &&& self.ingredients@.len() == 0
        &&& self.method is None
        &&& self.quiz is None
    }

    /// Checks the fields and builds the recipe. A recipe has one to three
    /// nutrients, at least one ingredient, and every other field but the
    /// identifier, the dates, the authors, the credits and the weekly
    /// timestamp set; missing dates are the current time.
    pub fn build(self) -> (r: Result<Recipe, String>)
        ensures
            build_outcome(self, r),
    {
        if self.nutrients.len() == 0 || self.nutrients.len() > 3 {
            return Err("Recipe must have 1-3 nutrients".to_string());
        }
        if self.ingredients.len() == 0 {
            return Err("Recipe must have at least one ingredient".to_string());
        }
        let short = match self.get_short() {
            Some(s) => s,
            None => {
                return Err("No short set for recipe.".to_string());
            },
        };
        let uuid = match self.uuid {
            Some(u) => u,
            None => Uuid::random(),
        };
        let date_added = match self.date_added {
            Some(d) => d,
            None => Date::now(),
        };
        let becomes_public = match self.becomes_public {
            Some(d) => d,
            None => Date::now(),
        };
        let title = match self.title {
            Some(t) => t,
            None => {
                return Err("No title set for recipe.".to_string());
            },
        };
        let time_to_cook = match self.time_to_cook {
            Some(t) => t,
            None => {
                return Err("No time to cook set for recipe.".to_string());
            },
        };
        let servings = match self.servings {
            Some(s) => s,
            None => {
                return Err("No servings set for recipe.".to_string());
            },
        };
        let image = match self.image {
            Some(i) => i,
            None => {
                return Err("No image set for recipe.".to_string());
            },
        };
        let gradient = match self.gradient {
            Some(g) => g,
            None => {
                return Err("No gradient set for recipe.".to_string());
            },
        };
        let method = match self.method {
            Some(m) => m,
            None => {
                return Err("No method set for recipe.".to_string());
            },
        };
        let quiz = match self.quiz {
            Some(q) => q,
            None => {
                return Err("No quiz set for recipe.".to_string());
            },
        };
        Ok(
            Recipe {
                uuid,
                date_added,
                becomes_public,
                authors: self.authors,
                credits: self.credits,
                weekly_timestamp: self.weekly_timestamp,
                short,
                title,
                nutrients: self.nutrients,
                time_to_cook,
                servings,
                image,
                gradient,
                ingredients: self.ingredients,
                method,
                quiz,
            },
        )
    }

    /// Sets: the identifier.
    pub fn uuid(self, uuid: Uuid) -> (r: RecipeBuilder)
        ensures
            r == (RecipeBuilder { uuid: Some(uuid), ..self }),
    {
        RecipeBuilder { uuid: Some(uuid), ..self }
    }

    /// Sets: the date the recipe was added.
    pub fn date_added(self, date_added: Date) -> (r: RecipeBuilder)
        ensures
            r == (RecipeBuilder { date_added: Some(date_added), ..self }),
    {
        RecipeBuilder { date_added: Some(date_added), ..self }
    }

    /// Sets: the date the recipe becomes public.
    pub fn becomes_public(self, becomes_public: Date) -> (r: RecipeBuilder)
        ensures
            r == (RecipeBuilder { becomes_public: Some(becomes_public), ..self }),
    {
        RecipeBuilder { becomes_public: Some(becomes_public), ..self }
    }

    /// Sets: the credits.
    pub fn credits(self, credits: Formattable) -> (r: RecipeBuilder)
        ensures
            r == (RecipeBuilder { credits: Some(credits), ..self }),
    {
        RecipeBuilder { credits: Some(credits), ..self }
    }

    /// Sets: the date the recipe went weekly.
    pub fn weekly_timestamp(self, weekly_timestamp: Date) -> (r: RecipeBuilder)
        ensures
            r == (RecipeBuilder { weekly_timestamp: Some(weekly_timestamp), ..self }),
    {
        RecipeBuilder { weekly_timestamp: Some(weekly_timestamp), ..self }
    }

    /// Sets: the title.
    pub fn title(self, title: String) -> (r: RecipeBuilder)
        ensures
            r == (RecipeBuilder { title: Some(title), ..self }),
    {
        RecipeBuilder { title: Some(title), ..self }
    }

    /// Sets: the short name.
    pub fn short(self, short: String) -> (r: RecipeBuilder)
        ensures
            r == (RecipeBuilder { short: Some(short), ..self }),
    {
        RecipeBuilder { short: Some(short), ..self }
    }

    /// Sets: the time to cook, in minutes.
    pub fn time_to_cook(self, time_to_cook: u16) -> (r: RecipeBuilder)
        ensures
            r == (RecipeBuilder { time_to_cook: Some(time_to_cook), ..self }),
    {
        RecipeBuilder { time_to_cook: Some(time_to_cook), ..self }
    }

    /// Sets: the number of servings.
    pub fn servings(self, servings: u16) -> (r: RecipeBuilder)
        ensures
            r == (RecipeBuilder { servings: Some(servings), ..self }),
    {
        RecipeBuilder { servings: Some(servings), ..self }
    }

    /// Sets: the image address.
    pub fn image(self, image: Url) -> (r: RecipeBuilder)
        ensures
            r == (RecipeBuilder { image: Some(image), ..self }),
    {
        RecipeBuilder { image: Some(image), ..self }
    }

    /// Sets: the gradient.
    pub fn gradient(self, gradient: Gradient) -> (r: RecipeBuilder)
        ensures
            r == (RecipeBuilder { gradient: Some(gradient), ..self }),
    {
        RecipeBuilder { gradient: Some(gradient), ..self }
    }

    /// Sets: the method.
    pub fn method(self, method: Method) -> (r: RecipeBuilder)
        ensures
            r == (RecipeBuilder { method: Some(method), ..self }),
    {
        RecipeBuilder { method: Some(method), ..self }
    }

    /// Sets: the quiz.
    pub fn quiz(self, quiz: Quiz) -> (r: RecipeBuilder)
        ensures
            r == (RecipeBuilder { quiz: Some(quiz), ..self }),
    {
        RecipeBuilder { quiz: Some(quiz), ..self }
    }

    /// Sets the authors, replacing any set before.
    pub fn set_authors(self, authors: Vec<Uuid>) -> (r: RecipeBuilder)
        ensures
            r == (RecipeBuilder { authors, ..self }),
    {
        RecipeBuilder { authors, ..self }
    }

    /// Sets the nutrients, replacing any set before.
    pub fn nutrients(self, nutrients: Vec<Nutrient>) -> (r: RecipeBuilder)
        ensures
            r == (RecipeBuilder { nutrients, ..self }),
    {
        RecipeBuilder { nutrients, ..self }
    }

    /// Sets the ingredients, replacing any set before.
    pub fn ingredients(self, ingredients: Vec<String>) -> (r: RecipeBuilder)
        ensures
            r == (RecipeBuilder { ingredients, ..self }),
    {
        RecipeBuilder { ingredients, ..self }
    }

    /// Appends an author.
    pub fn add_author(self, user_uuid: Uuid) -> (r: RecipeBuilder)
        ensures
            r.authors@ == self.authors@.push(user_uuid),
            r == (RecipeBuilder { authors: r.authors, ..self }),
    {
        let mut authors = self.authors;
        authors.push(user_uuid);
        RecipeBuilder { authors, ..self }
    }

    /// Appends a nutrient.
    pub fn add_nutrient(self, nutrient: Nutrient) -> (r: RecipeBuilder)
        ensures
            r.nutrients@ == self.nutrients@.push(nutrient),
            r == (RecipeBuilder { nutrients: r.nutrients, ..self }),
    {
        let mut nutrients = self.nutrients;
        nutrients.push(nutrient);
        RecipeBuilder { nutrients, ..self }
    }

    /// Appends an ingredient.
    pub fn add_ingredient(self, ingredient: String) -> (r: RecipeBuilder)
        ensures
            r.ingredients@ == self.ingredients@.push(ingredient),
            r == (RecipeBuilder { ingredients: r.ingredients, ..self }),
    {
        let mut ingredients = self.ingredients;
        ingredients.push(ingredient);
        RecipeBuilder { ingredients, ..self }
    }

    /// The short name: the one set, else the kebab-case form of the title.
    pub fn get_short(&self) -> (r: Option<String>)
        ensures
            r is Some <==> short_of(*self) is Some,
            r matches Some(s) ==> s@ == short_of(*self)->0,
    {
        match &self.short {
            Some(s) => Some(s.clone()),
            None => match &self.title {
                Some(t) => Some(to_kebab(t.as_str())),
                None => None,
            },
        }
    }
}

} // verus!
