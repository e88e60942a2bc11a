use recipe_api::date::Date;
use recipe_api::ids::Uuid;
use recipe_api::method::{Method, Step, SubStep};
use recipe_api::nutrient::{name_of, Nutrient, SerdeStringNutrient};
use recipe_api::panes::{Info, Warning};
use recipe_api::quiz::{Question, Quiz};
use recipe_api::types::{Formattable, Url};

#[test]
fn date_arithmetic_and_conversion() {
    let a = Date::new(1_000);
    let b = Date::new(250);
    assert_eq!(a.ms(), 1_000);
    assert_eq!(a.add(b), Date::new(1_250));
    assert_eq!(a.sub(b), Date::new(750));
    assert_eq!(Date::from_u128((1u128 << 64) + 5), Date::new(5));
    assert!(b < a);
    assert!(Date::now().ms() > 1_600_000_000_000);
}

#[test]
fn uuid_parses_and_prints_hyphenated() {
    let text = "550e8400-e29b-41d4-a716-446655440000";
    let id = Uuid::from_str(text).unwrap();
    assert_eq!(id.as_u128(), 0x550e8400_e29b_41d4_a716_446655440000);
    assert_eq!(id.to_string(), text);
    assert_eq!(Uuid::from_u128(1).to_string(), "00000000-0000-0000-0000-000000000001");
    let upper = Uuid::from_str("550E8400-E29B-41D4-A716-446655440000").unwrap();
    assert_eq!(upper, id);
    let simple = Uuid::from_str("550e8400e29b41d4a716446655440000").unwrap();
    assert_eq!(simple, id);
}

#[test]
fn uuid_rejects_malformed_text() {
    assert_eq!(Uuid::from_str("not-a-uuid"), Err("Invalid UUID"));
    assert_eq!(Uuid::from_str(""), Err("Invalid UUID"));
    assert_eq!(Uuid::from_str("550e8400-e29b-41d4-a716-44665544000g"), Err("Invalid UUID"));
}

#[test]
fn random_uuid_is_version_four() {
    let a = Uuid::random();
    let b = Uuid::random();
    assert_ne!(a, b);
    assert_eq!((a.as_u128() >> 76) & 0xf, 4);
    assert_eq!((a.as_u128() >> 62) & 0x3, 2);
    assert_eq!(Uuid::from_str(&a.to_string()), Ok(a));
}

#[test]
fn formattable_and_url_hold_their_text() {
    assert_eq!(Formattable::new("**bold**").as_str(), "**bold**");
    assert_eq!(Formattable::new_empty().as_str(), "");
    assert_eq!(Url::from_str("https://img/x.png").0, "https://img/x.png");
}

#[test]
fn panes_are_built_and_updated() {
    let w = Warning::new("Hot".to_string(), "Oil spits");
    assert_eq!(w.title, "Hot");
    assert_eq!(w.content, Formattable::new("Oil spits"));
    let w = w.set_title("Careful".to_string()).set_content("Knife");
    assert_eq!(w.title, "Careful");
    assert_eq!(w.content.as_str(), "Knife");
    let empty = Warning::new_empty();
    assert_eq!(empty.title, "");
    assert_eq!(empty.content.as_str(), "");

    let i = Info::new("Tip".to_string(), Formattable::new("Salt"));
    assert_eq!(i.content.as_str(), "Salt");
    let i = i.set_content("Pepper").set_title("Hint".to_string());
    assert_eq!(i.title, "Hint");
    assert_eq!(i.content.as_str(), "Pepper");
    assert_eq!(Info::new_empty().title, "");
}

#[test]
fn method_steps_keep_their_order() {
    let sub = SubStep {
        content: Formattable::new("Chop"),
        image: None,
        warnings: vec![Warning::new("Sharp".to_string(), "Knife")],
        infos: vec![],
    };
    let first = Step::new("Prepare".to_string()).add_substep(sub.clone());
    let second = Step::new_with_substeps("Cook".to_string(), vec![sub.clone(), sub]);
    let method = Method::new().add_step(first).add_step(second);
    assert_eq!(method.steps.len(), 2);
    assert_eq!(method.steps[0].title, "Prepare");
    assert_eq!(method.steps[0].substeps.len(), 1);
    assert_eq!(method.steps[1].title, "Cook");
    assert_eq!(method.steps[1].substeps.len(), 2);
    assert!(Method::new().steps.is_empty());
}

#[test]
fn quiz_collects_questions() {
    let q = Question {
        question: Formattable::new("Which?"),
        description: None,
        image: Some(Url::from_str("u")),
        correct_answers: vec![Formattable::new("a")],
        wrong_answers: vec![Formattable::new("b")],
        reward: 5,
    };
    let quiz = Quiz::new(20).add_question(q.clone()).add_question(q);
    assert_eq!(quiz.all_correct_reward, 20);
    assert_eq!(quiz.questions.len(), 2);
    assert!(Quiz::new(0).questions.is_empty());
}

#[test]
fn nutrients_by_name_ignore_case() {
    assert_eq!(Nutrient::from_str("calories"), Some(Nutrient(1)));
    assert_eq!(Nutrient::from_str("VITAMIN B12"), Some(Nutrient(16)));
    assert_eq!(Nutrient::from_str("Lutein & Zeazanthin"), Some(Nutrient(23)));
    assert_eq!(Nutrient::from_str("hydroxyproline"), Some(Nutrient(64)));
    assert_eq!(Nutrient::from_str("vitamin"), None);
    assert_eq!(Nutrient::from_str(""), None);
}

#[test]
fn nutrient_names() {
    assert_eq!(Nutrient(8).as_str(), "Protein");
    assert_eq!(Nutrient(44).to_string(), "Omega 3S");
    assert_eq!(Nutrient(0).to_string(), "Invalid Nutrient");
    assert_eq!(Nutrient(65).to_string(), "Invalid Nutrient");
    assert_eq!(name_of(24), Some("Calcium"));
    assert_eq!(name_of(1000), None);
}

#[test]
fn named_nutrients_wrap_identifiers() {
    let n = SerdeStringNutrient::from_string("Iron".to_string()).unwrap();
    assert_eq!(n.into_nutrient(), Nutrient(27));
    assert_eq!(SerdeStringNutrient::from_string("Kryptonite".to_string()), None);
}
