use recipe_api::date::Date;
use recipe_api::full_recipe::Recipe as FullRecipe;
use recipe_api::ids::Uuid;
use recipe_api::method::{Method, Step};
use recipe_api::nutrient::{Nutrient, SerdeStringNutrient};
use recipe_api::quiz::Quiz;
use recipe_api::recipe::{Recipe, RecipeBuilder};
use recipe_api::request::{BasicRecipe, RequestRecipe};
use recipe_api::types::{Formattable, Gradient, Url};
use recipe_api::weekly::WeeklyRecipeGetter;

fn gradient() -> Gradient {
    Gradient("#112233".to_string(), "#aabbcc".to_string())
}

fn complete_builder() -> RecipeBuilder {
    Recipe::builder()
        .uuid(Uuid::from_u128(7))
        .date_added(Date::new(10))
        .becomes_public(Date::new(20))
        .title("Cheesy Vegetable Bake".to_string())
        .add_nutrient(Nutrient(8))
        .add_ingredient("cheese".to_string())
        .time_to_cook(45)
        .servings(4)
        .image(Url::from_str("https://img/bake.png"))
        .gradient(gradient())
        .method(Method::new().add_step(Step::new("Bake".to_string())))
        .quiz(Quiz::new(3))
}

#[test]
fn build_keeps_what_was_set() {
    let r = complete_builder().add_author(Uuid::from_u128(9)).credits(Formattable::new("Us")).build().unwrap();
    assert_eq!(r.uuid, Uuid::from_u128(7));
    assert_eq!(r.date_added, Date::new(10));
    assert_eq!(r.becomes_public, Date::new(20));
    assert_eq!(r.authors, vec![Uuid::from_u128(9)]);
    assert_eq!(r.credits, Some(Formattable::new("Us")));
    assert_eq!(r.title, "Cheesy Vegetable Bake");
    assert_eq!(r.short, "cheesy-vegetable-bake");
    assert_eq!(r.nutrients, vec![Nutrient(8)]);
    assert_eq!(r.time_to_cook, 45);
    assert_eq!(r.servings, 4);
    assert_eq!(r.image, Url::from_str("https://img/bake.png"));
    assert_eq!(r.gradient, gradient());
    assert_eq!(r.quiz, Quiz::new(3));
    assert_eq!(*r.uuid(), Uuid::from_u128(7));
}

#[test]
fn build_prefers_the_short_name_set() {
    let r = complete_builder().short("bake".to_string()).build().unwrap();
    assert_eq!(r.short, "bake");
    assert_eq!(complete_builder().get_short(), Some("cheesy-vegetable-bake".to_string()));
    assert_eq!(Recipe::builder().get_short(), None);
}

#[test]
fn build_fills_missing_identifier_and_dates() {
    let mut b = complete_builder();
    b.uuid = None;
    b.date_added = None;
    b.becomes_public = None;
    let r = b.build().unwrap();
    assert_eq!((r.uuid.as_u128() >> 76) & 0xf, 4);
    assert!(r.date_added.ms() > 1_600_000_000_000);
    assert!(r.becomes_public.ms() > 1_600_000_000_000);
}

#[test]
fn build_reports_the_first_missing_field() {
    let err = |b: RecipeBuilder| b.build().unwrap_err();
    assert_eq!(err(Recipe::builder()), "Recipe must have 1-3 nutrients");
    let four = vec![Nutrient(1), Nutrient(2), Nutrient(3), Nutrient(4)];
    assert_eq!(err(complete_builder().nutrients(four)), "Recipe must have 1-3 nutrients");
    assert_eq!(err(complete_builder().ingredients(vec![])), "Recipe must have at least one ingredient");
    let mut b = complete_builder();
    b.title = None;
    assert_eq!(err(b.clone()), "No short set for recipe.");
    assert_eq!(err(b.short("s".to_string())), "No title set for recipe.");
    let mut b = complete_builder();
    b.time_to_cook = None;
    b.servings = None;
    assert_eq!(err(b), "No time to cook set for recipe.");
    let mut b = complete_builder();
    b.servings = None;
    assert_eq!(err(b), "No servings set for recipe.");
    let mut b = complete_builder();
    b.image = None;
    assert_eq!(err(b), "No image set for recipe.");
    let mut b = complete_builder();
    b.gradient = None;
    assert_eq!(err(b), "No gradient set for recipe.");
    let mut b = complete_builder();
    b.method = None;
    assert_eq!(err(b), "No method set for recipe.");
    let mut b = complete_builder();
    b.quiz = None;
    assert_eq!(err(b), "No quiz set for recipe.");
}

#[test]
fn three_nutrients_are_accepted() {
    let r = complete_builder().add_nutrient(Nutrient(2)).add_nutrient(Nutrient(3)).build().unwrap();
    assert_eq!(r.nutrients, vec![Nutrient(8), Nutrient(2), Nutrient(3)]);
}

fn complete_request() -> RequestRecipe {
    RequestRecipe {
        uuid: Some(Uuid::from_u128(3)),
        date_added: Some(Date::new(1)),
        becomes_public: Some(Date::new(2)),
        authors: None,
        credits: None,
        weekly_timestamp: Some(Date::new(5)),
        title: Some("Pea Soup".to_string()),
        short: None,
        nutrients: Some(vec![SerdeStringNutrient(Nutrient(6)), SerdeStringNutrient(Nutrient(9))]),
        time_to_cook: Some(30),
        servings: Some(2),
        image: Some(Url::from_str("i")),
        gradient: Some(gradient()),
        ingredients: Some(vec!["peas".to_string(), "water".to_string()]),
        method: Some(Method::new()),
        quiz: Some(Quiz::new(1)),
    }
}

#[test]
fn request_becomes_recipe() {
    let r = complete_request().into_recipe().unwrap();
    assert_eq!(r.uuid, Uuid::from_u128(3));
    assert_eq!(r.short, "pea-soup");
    assert_eq!(r.nutrients, vec![Nutrient(6), Nutrient(9)]);
    assert_eq!(r.weekly_timestamp, Some(Date::new(5)));
    assert!(r.authors.is_empty());
    assert_eq!(r.ingredients, vec!["peas".to_string(), "water".to_string()]);
}

#[test]
fn request_without_nutrients_is_refused() {
    let mut q = complete_request();
    q.nutrients = None;
    assert_eq!(q.into_recipe().unwrap_err(), "Recipe must have 1-3 nutrients");
    let mut q = complete_request();
    q.quiz = None;
    assert_eq!(q.into_recipe().unwrap_err(), "No quiz set for recipe.");
}

#[test]
fn basic_recipe_uses_public_date() {
    let r = complete_builder().build().unwrap();
    let b = BasicRecipe::from_recipe_with_weekly(&r, true);
    assert_eq!(b.uuid, r.uuid);
    assert_eq!(b.date_added, Date::new(20));
    assert!(b.is_weekly);
    assert_eq!(b.short, "cheesy-vegetable-bake");
    assert_eq!(b.title, r.title);
    assert_eq!(b.nutrients, vec![SerdeStringNutrient(Nutrient(8))]);
    assert_eq!(b.image, r.image);
    assert_eq!(b.gradient, r.gradient);
    assert_eq!((b.time_to_cook, b.servings), (45, 4));
}

#[test]
fn weekly_is_decided_by_identifier() {
    let r = complete_builder().build().unwrap();
    let mut other = r.clone();
    other.uuid = Uuid::from_u128(8);
    assert!(r.is_weekly(Some(&r)));
    assert!(!r.is_weekly(Some(&other)));
    assert!(!r.is_weekly(None));
}

#[test]
fn weekly_cache_expires_after_an_hour() {
    let r = complete_builder().build().unwrap();
    let mut cache = WeeklyRecipeGetter::new();
    assert!(cache.get_recipe(Date::new(10_000_000)).is_none());
    assert_eq!(cache.update(Ok(Some(r.clone())), Date::new(10_000_000)), Ok(()));
    assert_eq!(cache.get_recipe(Date::new(10_000_000)), Some(&r));
    assert_eq!(cache.get_recipe(Date::new(13_600_000)), Some(&r));
    assert!(!cache.is_cache_expired(Date::new(13_600_000)));
    assert!(cache.is_cache_expired(Date::new(13_600_001)));
    assert_eq!(cache.get_recipe(Date::new(13_600_001)), None);
}

#[test]
fn weekly_cache_keeps_state_on_failed_fetch() {
    let mut cache = WeeklyRecipeGetter::new();
    assert_eq!(
        cache.update(Ok(None), Date::new(5)),
        Err("No weekly recipe found in database".to_string())
    );
    assert_eq!(
        cache.update(Err(()), Date::new(5)),
        Err("Error getting weekly recipe from database".to_string())
    );
    assert_eq!(cache, WeeklyRecipeGetter::new());
    assert_eq!(
        cache.get_after_update(Ok(()), Date::new(5)),
        Err("Weekly recipe was not found.".to_string())
    );
    assert_eq!(
        cache.get_after_update(Err("down".to_string()), Date::new(5)),
        Err("down".to_string())
    );
    let r = complete_builder().build().unwrap();
    let outcome = cache.update(Ok(Some(r.clone())), Date::new(7));
    assert_eq!(cache.get_after_update(outcome, Date::new(8)), Ok(&r));
}

#[test]
fn full_recipe_for_clients() {
    let r = complete_builder().add_ingredient("salt".to_string()).build().unwrap();
    let full = FullRecipe::from_recipe(r.clone(), false);
    assert_eq!(full.uuid, r.uuid);
    assert_eq!(full.date_added, Date::new(20));
    assert!(!full.is_weekly);
    assert_eq!(full.title, r.title);
    assert_eq!(full.nutrients, vec![SerdeStringNutrient(Nutrient(8))]);
    assert_eq!(full.ingredients, vec!["cheese".to_string(), "salt".to_string()]);
    assert_eq!(full.method, r.method);
    assert_eq!(full.image, r.image);
}
