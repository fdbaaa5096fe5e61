use business::features::data_ingestion::domain::Recipe;
use business::features::data_ingestion::input::UseCaseError;
use business::features::data_ingestion::service::{IngestionRun, IngestionStep};
use business::features::data_ingestion::mealdb::{
    meal_ingredients, meal_tags, recipe_from_meal, recipes_from_meals, LocalError as MealdbError, MealdbAdapter,
    MealdbMeal,
};
use business::features::data_ingestion::output::{ExternalRepositoryError, LocalRepositoryError};
use business::features::data_ingestion::postgres::{
    child_rows, lookup_upserted, sync_rows, LocalError, RecipeUpsertReturnDbRow,
};
use business::ingredients::Ingredients;
use business::text::IntErrorKind;

fn s(x: &str) -> String {
    x.to_string()
}

fn meal() -> MealdbMeal {
    let mut ingredients = vec![None; 20];
    let mut measures = vec![None; 20];
    ingredients[0] = Some(s(" Flour "));
    measures[0] = Some(s(" 200g "));
    ingredients[1] = Some(s("Sugar"));
    measures[1] = None;
    ingredients[2] = Some(s("flour"));
    measures[2] = Some(s("1 cup"));
    ingredients[3] = Some(s("Flour"));
    measures[3] = Some(s("300g"));
    MealdbMeal {
        id: s("52772"),
        name: s("Teriyaki Chicken"),
        category: s(" Chicken "),
        tags: Some(s("Meat, Casserole,, ,Dinner ")),
        instructions: s("Cook"),
        image_url: Some(s("img")),
        video_url: None,
        ingredients,
        measures,
    }
}

#[test]
fn letters_are_a_to_z() {
    let mut letters = String::new();
    let mut step = IngestionRun::start();
    loop {
        match step {
            IngestionStep::SyncLetter { run, letter } => {
                letters.push(letter);
                step = run.after_letter(Ok(()));
            },
            IngestionStep::Finished(result) => {
                assert!(result.is_ok());
                break;
            },
        }
    }
    assert_eq!(letters, "abcdefghijklmnopqrstuvwxyz");
}

#[test]
fn sync_stops_at_the_first_failure() {
    let mut letters = String::new();
    let mut step = IngestionRun::start();
    let result = loop {
        match step {
            IngestionStep::SyncLetter { run, letter } => {
                letters.push(letter);
                let outcome = if letter == 'c' { Err(UseCaseError::Internal("down".to_string())) } else { Ok(()) };
                step = run.after_letter(outcome);
            },
            IngestionStep::Finished(result) => break result,
        }
    };
    assert_eq!(letters, "abc");
    match result {
        Err(UseCaseError::Internal(m)) => assert_eq!(m, "down"),
        Ok(()) => panic!("the sync should have failed"),
    }
}

#[test]
fn meal_tags_are_the_category_then_the_listed_tags() {
    assert_eq!(
        meal_tags(&s(" Chicken "), &Some(s("Meat, Casserole,, ,Dinner "))),
        vec![s("Chicken"), s("Meat"), s("Casserole"), s("Dinner")]
    );
    assert_eq!(meal_tags(&s("  "), &None), Vec::<String>::new());
    assert_eq!(meal_tags(&s(""), &Some(s("a"))), vec![s("a")]);
}

#[test]
fn meal_ingredients_pair_up_trimmed_a_later_one_winning() {
    let m = meal();
    let ing = meal_ingredients(&m.ingredients, &m.measures);
    assert_eq!(ing.len(), 2);
    assert_eq!(
        ing.pairs().clone(),
        vec![(s("Flour"), s("300g")), (s("flour"), s("1 cup"))]
    );
}

#[test]
fn a_meal_reads_as_a_recipe() {
    let r = recipe_from_meal(meal());
    assert_eq!(r.id, "52772");
    assert_eq!(r.name, "Teriyaki Chicken");
    assert_eq!(r.tags[0], "Chicken");
    assert_eq!(r.thumbnail_url, Some(s("img")));
    assert_eq!(r.video_url, None);
    assert_eq!(r.instructions, "Cook");
}

#[test]
fn an_answer_without_meals_gives_no_recipes() {
    assert!(recipes_from_meals(None).is_empty());
    assert_eq!(recipes_from_meals(Some(vec![meal(), meal()])).len(), 2);
}

#[test]
fn search_url_of_the_adapter() {
    let a = MealdbAdapter::new((), s("https://themealdb.com/api/json/v1"), s("1"));
    assert_eq!(a.search_url(), "https://themealdb.com/api/json/v1/1/search.php");
}

#[test]
fn mealdb_failures_are_internal_with_their_text() {
    let e = MealdbError::Logic(ExternalRepositoryError::Network(s("timeout"))).into_external();
    match e {
        ExternalRepositoryError::Internal(m) => assert_eq!(m, "Recipe external repository: timeout"),
        _ => panic!(),
    }
}

#[test]
fn error_messages() {
    assert_eq!(
        UseCaseError::from_local(&LocalRepositoryError::Internal(s("x"))).message(),
        "Data ingestion service: User repository: x."
    );
    assert_eq!(
        UseCaseError::from_external(&ExternalRepositoryError::Serialization(s("y"))).message(),
        "Data ingestion service: Recipe external repository: y."
    );
}

fn recipe(id: &str, tags: Vec<&str>, ings: Vec<(&str, &str)>) -> Recipe {
    let mut ingredients = Ingredients::new();
    for (n, m) in ings {
        ingredients.insert(s(n), s(m));
    }
    Recipe {
        id: s(id),
        name: format!("r{}", id),
        tags: tags.into_iter().map(s).collect(),
        ingredients,
        instructions: s("do"),
        thumbnail_url: None,
        video_url: Some(s("v")),
    }
}

#[test]
fn sync_rows_key_children_by_the_meal_id() {
    let rows = sync_rows(vec![recipe("7", vec!["a", "b"], vec![("egg", "1")]), recipe("9", vec!["c"], vec![])])
        .ok()
        .unwrap();
    assert_eq!(rows.external_ids, vec![7, 9]);
    assert_eq!(rows.names, vec![s("r7"), s("r9")]);
    assert_eq!(rows.descriptions, vec![None, None]);
    assert_eq!(rows.videos, vec![Some(s("v")), Some(s("v"))]);
    assert_eq!(rows.recipe_ids.len(), 2);
    assert_eq!(rows.raw_tags, vec![(7, s("a")), (7, s("b")), (9, s("c"))]);
    assert_eq!(rows.raw_ingredients, vec![(7, s("egg"), s("1"))]);
}

#[test]
fn a_bad_meal_id_fails_the_sync() {
    match sync_rows(vec![recipe("1", vec![], vec![]), recipe("x1", vec![], vec![]), recipe("", vec![], vec![])]) {
        Err(LocalError::Parsing(k)) => {
            assert_eq!(k, IntErrorKind::InvalidDigit);
            match LocalError::Parsing(k).into_repository_error() {
                LocalRepositoryError::Internal(m) => assert_eq!(m, "invalid digit found in string"),
            }
        },
        _ => panic!(),
    }
}

#[test]
fn children_go_under_the_upserted_ids() {
    let upserted = vec![
        RecipeUpsertReturnDbRow { id: 100, external_id: 7 },
        RecipeUpsertReturnDbRow { id: 200, external_id: 9 },
        RecipeUpsertReturnDbRow { id: 300, external_id: 7 },
    ];
    assert_eq!(lookup_upserted(&upserted, 7), Some(300));
    assert_eq!(lookup_upserted(&upserted, 8), None);
    let c = child_rows(
        vec![(7, s("a")), (8, s("lost")), (9, s("c"))],
        vec![(9, s("egg"), s("1")), (5, s("x"), s("y"))],
        &upserted,
    );
    assert_eq!(c.tag_recipe_ids, vec![300, 200]);
    assert_eq!(c.tag_names, vec![s("a"), s("c")]);
    assert_eq!(c.tag_ids.len(), 2);
    assert_eq!(c.ing_recipe_ids, vec![200]);
    assert_eq!(c.ing_names, vec![s("egg")]);
    assert_eq!(c.ing_measures, vec![s("1")]);
    assert_eq!(c.ing_ids.len(), 1);
}
