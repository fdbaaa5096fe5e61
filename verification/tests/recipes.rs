use business::features::recipe::domain::{CreateRecipeData, OriginParseError, Recipe, RecipeOrigin, RecipePreview};
use business::features::recipe::input::{CreateRecipeInput, UseCaseError};
use business::features::recipe::output::{CacheRepositoryError, LocalRepositoryError};
use business::features::recipe::postgres::{
    counted_previews_from_rows, created_recipe, ids_of_rows, ingredient_insert_columns, names_of_rows,
    plan_recipe_search, previews_from_rows, tag_insert_columns, LocalError, RecipeDbRow, RecipeIdDbRow,
    RecipePreviewCountDbRow, RecipePreviewDbRow, RecipeSearchQuery, TagDbRow,
};
use business::features::recipe::redis::{
    day_views_key, ids_cache_value, ids_from_cache, most_viewed_ids, view_increment, views_key,
    yesterday_views_key, DAY_MICROS, VIEWS_TTL_SECS,
};
use business::features::recipe::service::{
    after_database, after_recipe_cache, order_previews_by_ids, popular_source, position_of,
    prepare_new_recipe, recipe_cache_key, search_cache_key, slice_page, validate_new_recipe,
    viewed_recipe, PopularSource, RecipeFill, RecipeLookup, RecipeSearch, SearchStep,
    RECIPE_CACHE_TTL_SECS, SEARCH_CACHE_TTL_SECS,
};
use business::ingredients::Ingredients;

fn id_text(id: u128) -> String {
    uuid::Uuid::from_u128(id).to_string()
}

fn preview(id: u128) -> RecipePreview {
    RecipePreview {
        id,
        origin: RecipeOrigin::Local,
        name: format!("recipe {}", id),
        tags: vec![],
        thumbnail_url: None,
    }
}

fn input(name: &str, instructions: &str) -> CreateRecipeInput {
    let mut ingredients = Ingredients::new();
    ingredients.insert("egg".to_string(), "2".to_string());
    CreateRecipeInput {
        name: name.to_string(),
        description: Some("d".to_string()),
        tags: vec!["quick".to_string()],
        ingredients,
        instructions: instructions.to_string(),
        thumbnail_url: None,
        created_by: 9,
    }
}

fn recipe(id: u128) -> Recipe {
    Recipe {
        id,
        origin: RecipeOrigin::External,
        name: "n".to_string(),
        description: None,
        tags: vec![],
        ingredients: Ingredients::new(),
        instructions: "i".to_string(),
        thumbnail_url: None,
        video_url: None,
        created_by: None,
    }
}

// ─── Search sessions ───

#[test]
fn search_needs_a_query_or_tags() {
    match RecipeSearch::start(&None, &None, 10, 1, None) {
        Err(UseCaseError::MissingSearchParams) => {},
        _ => panic!("expected MissingSearchParams"),
    }
    // whatever the page and limit
    match RecipeSearch::start(&None, &None, usize::MAX, usize::MAX, Some(3)) {
        Err(UseCaseError::MissingSearchParams) => {},
        _ => panic!("expected MissingSearchParams"),
    }
    assert_eq!(
        UseCaseError::MissingSearchParams.message(),
        "At least one of 'query' or 'tags' must be provided."
    );
}

#[test]
fn new_search_finds_stores_and_pages() {
    let (mut s, step) = RecipeSearch::start(&Some("cake".to_string()), &None, 2, 2, None).unwrap();
    assert!(matches!(step, SearchStep::FindMatches));
    let step = s.on_matches(vec![1, 2, 3, 4, 5]);
    let session = match step {
        SearchStep::StoreMatches { key, ids, ttl_secs } => {
            assert!(key.starts_with("search:"));
            assert_eq!(ids, vec![1, 2, 3, 4, 5]);
            assert_eq!(ttl_secs, SEARCH_CACHE_TTL_SECS);
            assert_eq!(ttl_secs, 300);
            key
        },
        _ => panic!("expected StoreMatches"),
    };
    let step = s.on_stored();
    match step {
        SearchStep::LoadPreviews { ids } => assert_eq!(ids, vec![3, 4]),
        _ => panic!("expected LoadPreviews"),
    }
    let page = s.on_previews(vec![preview(3), preview(4)]);
    assert_eq!(page.total_items, 5);
    assert_eq!(page.items.len(), 2);
    assert_eq!(search_cache_key(page.search_id), session);
}

#[test]
fn search_without_matches_answers_an_empty_page() {
    let (mut s, _) = RecipeSearch::start(&None, &Some(vec!["x".to_string()]), 10, 1, None).unwrap();
    match s.on_matches(vec![]) {
        SearchStep::Done(p) => {
            assert_eq!(p.total_items, 0);
            assert!(p.items.is_empty());
        },
        _ => panic!("expected Done"),
    }
}

#[test]
fn known_session_reads_the_cache() {
    let id: u128 = 0xabc;
    let (mut s, step) = RecipeSearch::start(&Some("pie".to_string()), &None, 3, 0, Some(id)).unwrap();
    match step {
        SearchStep::ReadCache { key } => assert_eq!(key, format!("search:{}", uuid::Uuid::from_u128(id))),
        _ => panic!("expected ReadCache"),
    }
    // page 0 is page 1
    match s.on_cached(Some(vec![10, 11, 12, 13])) {
        SearchStep::LoadPreviews { ids } => assert_eq!(ids, vec![10, 11, 12]),
        _ => panic!("expected LoadPreviews"),
    }
    let page = s.on_previews(vec![]);
    assert_eq!(page.search_id, id);
    assert_eq!(page.total_items, 4);
}

#[test]
fn expired_session_finds_again_under_the_same_id() {
    let id: u128 = 77;
    let (mut s, _) = RecipeSearch::start(&Some("pie".to_string()), &None, 3, 1, Some(id)).unwrap();
    assert!(matches!(s.on_cached(None), SearchStep::FindMatches));
    match s.on_matches(vec![5]) {
        SearchStep::StoreMatches { key, .. } => assert_eq!(key, search_cache_key(id)),
        _ => panic!("expected StoreMatches"),
    }
}

#[test]
fn pages_follow_one_another() {
    let ids: Vec<u128> = (0..7).collect();
    let mut all = vec![];
    for page in 1..=3 {
        all.extend(slice_page(&ids, (page - 1) * 3, 3));
    }
    assert_eq!(all, ids);
    assert_eq!(slice_page(&ids, 20, 3), Vec::<u128>::new());
}

#[test]
fn previews_are_put_back_in_id_order() {
    let ids = vec![30, 10, 20];
    let ordered = order_previews_by_ids(vec![preview(10), preview(99), preview(20), preview(30)], &ids);
    let got: Vec<u128> = ordered.iter().map(|p| p.id).collect();
    assert_eq!(got, vec![99, 30, 10, 20]);
    assert_eq!(position_of(&ids, 20), Some(2));
    assert_eq!(position_of(&ids, 5), None);
}

#[test]
fn popular_recipes_come_from_views_or_at_random() {
    match popular_source(Some(vec![1, 2]), 5) {
        PopularSource::MostViewed { ids } => assert_eq!(ids, vec![1, 2]),
        _ => panic!(),
    }
    match popular_source(None, 5) {
        PopularSource::Random { limit } => assert_eq!(limit, 5),
        _ => panic!(),
    }
}

#[test]
fn recipe_lookup_goes_through_the_cache() {
    assert!(matches!(after_recipe_cache(Some(recipe(1))), RecipeLookup::Cached(r) if r.id == 1));
    assert!(matches!(after_recipe_cache(None), RecipeLookup::ReadDatabase));
    match after_database(4, Some(recipe(4))) {
        RecipeFill::CacheThenAnswer { key, ttl_secs, recipe } => {
            assert_eq!(key, recipe_cache_key(4));
            assert_eq!(key, format!("recipe:{}", uuid::Uuid::from_u128(4)));
            assert_eq!(ttl_secs, RECIPE_CACHE_TTL_SECS);
            assert_eq!(ttl_secs, 1800);
            assert_eq!(recipe.id, 4);
        },
        RecipeFill::NotFound => panic!(),
    }
    assert!(matches!(after_database(4, None), RecipeFill::NotFound));
    assert_eq!(viewed_recipe(&Some(recipe(8))), Some(8));
    assert_eq!(viewed_recipe(&None), None);
}

#[test]
fn new_recipes_need_a_name_and_instructions() {
    assert!(matches!(validate_new_recipe(&input("  ", "x")), Err(UseCaseError::EmptyName)));
    assert!(matches!(validate_new_recipe(&input("  ", " ")), Err(UseCaseError::EmptyName)));
    assert!(matches!(validate_new_recipe(&input("Tart", "\n")), Err(UseCaseError::EmptyInstructions)));
    assert!(validate_new_recipe(&input("Tart", "Bake")).is_ok());
    assert_eq!(UseCaseError::EmptyName.message(), "Recipe name cannot be empty.");
    assert_eq!(UseCaseError::EmptyInstructions.message(), "Recipe instructions cannot be empty.");
}

#[test]
fn a_prepared_recipe_keeps_its_input() {
    let d = prepare_new_recipe(input(" Tart ", "Bake")).ok().unwrap();
    assert_eq!(d.name, " Tart ");
    assert_eq!(d.instructions, "Bake");
    assert_eq!(d.created_by, 9);
    assert_eq!(d.tags, vec!["quick".to_string()]);
}

#[test]
fn use_case_errors_carry_repository_texts() {
    let e = UseCaseError::from_local(&LocalRepositoryError::Internal("down".to_string()));
    assert_eq!(e.message(), "Recipe service: Recipe local repository: down.");
    let e = UseCaseError::from_cache(&CacheRepositoryError::Internal("gone".to_string()));
    assert_eq!(e.message(), "Recipe service: Recipe cache repository: gone.");
}

// ─── Database ───

#[test]
fn search_query_by_its_parts() {
    match plan_recipe_search(&Some("egg".to_string()), &None) {
        RecipeSearchQuery::ByQuery { query, ilike } => {
            assert_eq!(query, "egg");
            assert!(ilike);
        },
        _ => panic!(),
    }
    match plan_recipe_search(&Some("eggs".to_string()), &None) {
        RecipeSearchQuery::ByQuery { ilike, .. } => assert!(!ilike),
        _ => panic!(),
    }
    match plan_recipe_search(&None, &Some(vec!["Vegan".to_string(), "QUICK".to_string()])) {
        RecipeSearchQuery::ByTags { tags } => assert_eq!(tags, vec!["vegan".to_string(), "quick".to_string()]),
        _ => panic!(),
    }
    match plan_recipe_search(&Some("é".to_string()), &Some(vec!["A".to_string()])) {
        RecipeSearchQuery::ByQueryAndTags { query, ilike, tags } => {
            assert_eq!(query, "é");
            assert!(ilike);
            assert_eq!(tags, vec!["a".to_string()]);
        },
        _ => panic!(),
    }
    assert!(matches!(plan_recipe_search(&None, &None), RecipeSearchQuery::Nothing));
}

#[test]
fn origins_read_from_their_text() {
    assert!(matches!(RecipeOrigin::parse(&"local".to_string()), Ok(RecipeOrigin::Local)));
    assert!(matches!(RecipeOrigin::parse(&"external".to_string()), Ok(RecipeOrigin::External)));
    assert!(matches!(RecipeOrigin::parse(&"Local".to_string()), Err(OriginParseError::VariantNotFound)));
    for o in [RecipeOrigin::Local, RecipeOrigin::External] {
        assert_eq!(RecipeOrigin::parse(&o.as_text()).ok(), Some(o));
    }
    assert_eq!(OriginParseError::VariantNotFound.message(), "Matching variant not found");
}

fn preview_row(id: u128, origin: &str) -> RecipePreviewDbRow {
    RecipePreviewDbRow {
        id,
        origin: origin.to_string(),
        recipe_name: "n".to_string(),
        tags: vec!["t".to_string()],
        thumbnail_url: Some("u".to_string()),
    }
}

#[test]
fn preview_rows_read_as_previews() {
    let ps = previews_from_rows(vec![preview_row(1, "local"), preview_row(2, "external")]).ok().unwrap();
    assert_eq!(ps.len(), 2);
    assert_eq!(ps[1].id, 2);
    assert_eq!(ps[1].origin, RecipeOrigin::External);
    assert_eq!(ps[0].tags, vec!["t".to_string()]);
}

#[test]
fn a_bad_origin_fails_the_rows() {
    match previews_from_rows(vec![preview_row(1, "local"), preview_row(2, "mars")]) {
        Err(e) => match e.into_repository_error() {
            LocalRepositoryError::Internal(m) => assert_eq!(m, "Matching variant not found"),
        },
        Ok(_) => panic!(),
    }
}

#[test]
fn counted_rows_carry_their_total() {
    let row = |id: u128| RecipePreviewCountDbRow {
        id,
        origin: "local".to_string(),
        recipe_name: "n".to_string(),
        tags: vec![],
        thumbnail_url: None,
        total_count: 41,
    };
    let (ps, total) = counted_previews_from_rows(vec![row(1), row(2)]).ok().unwrap();
    assert_eq!(ps.len(), 2);
    assert_eq!(total, 41);
    let (ps, total) = counted_previews_from_rows(vec![]).ok().unwrap();
    assert!(ps.is_empty());
    assert_eq!(total, 0);
}

#[test]
fn recipe_rows_read_as_recipes() {
    let row = RecipeDbRow {
        id: 3,
        origin: "external".to_string(),
        recipe_name: "Soup".to_string(),
        recipe_description: None,
        instructions: "Boil".to_string(),
        thumbnail_url: None,
        video_url: Some("v".to_string()),
        tags: vec!["a".to_string()],
        ingredients: Ingredients::new(),
        created_by: None,
    };
    let r = Recipe::from_row(row).ok().unwrap();
    assert_eq!(r.origin, RecipeOrigin::External);
    assert_eq!(r.name, "Soup");
    assert_eq!(r.video_url, Some("v".to_string()));
    let bad = RecipeDbRow {
        id: 3,
        origin: "".to_string(),
        recipe_name: "Soup".to_string(),
        recipe_description: None,
        instructions: "Boil".to_string(),
        thumbnail_url: None,
        video_url: None,
        tags: vec![],
        ingredients: Ingredients::new(),
        created_by: None,
    };
    assert!(matches!(Recipe::from_row(bad), Err(LocalError::Parsing(OriginParseError::VariantNotFound))));
}

#[test]
fn ids_and_names_of_rows() {
    assert_eq!(ids_of_rows(vec![RecipeIdDbRow { id: 4 }, RecipeIdDbRow { id: 2 }]), vec![4, 2]);
    assert_eq!(names_of_rows(vec![TagDbRow { name: "x".to_string() }]), vec!["x".to_string()]);
    assert!(matches!(
        LocalError::Database("boom".to_string()).into_repository_error(),
        LocalRepositoryError::Internal(m) if m == "boom"
    ));
}

fn data(tags: Vec<&str>, ingredients: Vec<(&str, &str)>) -> CreateRecipeData {
    let mut ing = Ingredients::new();
    for (n, m) in ingredients {
        ing.insert(n.to_string(), m.to_string());
    }
    CreateRecipeData {
        id: 50,
        name: "Tart".to_string(),
        description: None,
        tags: tags.into_iter().map(|t| t.to_string()).collect(),
        ingredients: ing,
        instructions: "Bake".to_string(),
        thumbnail_url: Some("t".to_string()),
        created_by: 8,
    }
}

#[test]
fn a_new_recipe_is_stored_with_its_tags_and_ingredients() {
    let d = data(vec!["a", "b"], vec![("egg", "2"), ("milk", "1 l")]);
    let t = tag_insert_columns(&d).unwrap();
    assert_eq!(t.names, vec!["a".to_string(), "b".to_string()]);
    assert_eq!(t.recipe_ids, vec![50, 50]);
    assert_eq!(t.ids.len(), 2);
    assert_ne!(t.ids[0], t.ids[1]);
    let i = ingredient_insert_columns(&d).unwrap();
    assert_eq!(i.names, vec!["egg".to_string(), "milk".to_string()]);
    assert_eq!(i.measures, vec!["2".to_string(), "1 l".to_string()]);
    assert_eq!(i.recipe_ids, vec![50, 50]);
    let r = created_recipe(d);
    assert_eq!(r.origin, RecipeOrigin::Local);
    assert_eq!(r.created_by, Some(8));
    assert_eq!(r.video_url, None);
    assert_eq!(r.ingredients.len(), 2);
}

#[test]
fn nothing_is_inserted_for_no_tags_or_ingredients() {
    let d = data(vec![], vec![]);
    assert!(tag_insert_columns(&d).is_none());
    assert!(ingredient_insert_columns(&d).is_none());
}

// ─── Cache ───

#[test]
fn cached_ids_are_a_json_list_that_reads_back() {
    let ids = vec![1u128, 0xffff];
    let v = ids_cache_value(&ids);
    assert_eq!(
        v,
        format!("[\"{}\",\"{}\"]", uuid::Uuid::from_u128(1), uuid::Uuid::from_u128(0xffff))
    );
    assert_eq!(ids_from_cache(Some(v)).unwrap(), Some(ids));
    assert_eq!(ids_cache_value(&vec![]), "[]");
    assert_eq!(ids_from_cache(None).unwrap(), None);
}

#[test]
fn a_cached_value_that_is_no_list_is_an_error() {
    match ids_from_cache(Some("{oops".to_string())) {
        Err(CacheRepositoryError::Internal(m)) => assert!(!m.is_empty()),
        _ => panic!(),
    }
}

#[test]
fn views_keys() {
    assert_eq!(views_key(5, 3, 2024), "recipe:views:05-03-2024");
    assert_eq!(views_key(25, 12, 1999), "recipe:views:25-12-1999");
    // 2024-03-05T12:00:00Z
    let now: i64 = 1_709_640_000_000_000;
    assert_eq!(day_views_key(now), Some("recipe:views:05-03-2024".to_string()));
    assert_eq!(yesterday_views_key(now), Some("recipe:views:04-03-2024".to_string()));
    assert_eq!(DAY_MICROS, 86_400_000_000);
}

#[test]
fn a_view_is_counted_under_the_id_in_todays_hash() {
    let now: i64 = 1_709_640_000_000_000;
    let v = view_increment(12, now).unwrap();
    assert_eq!(v.key, "recipe:views:05-03-2024");
    assert_eq!(v.field, id_text(12));
    assert_eq!(v.by, 1);
    assert_eq!(v.ttl_secs, VIEWS_TTL_SECS);
    assert_eq!(v.ttl_secs, 100000);
}

#[test]
fn a_day_with_one_viewed_recipe_reads_back_as_it() {
    let day: i64 = 1_709_640_000_000_000;
    let v = view_increment(33, day).unwrap();
    // the next day reads the hash the increments wrote
    assert_eq!(yesterday_views_key(day + DAY_MICROS), Some(v.key.clone()));
    assert_eq!(most_viewed_ids(vec![(v.field, "3".to_string())], 1), Some(vec![33]));
}

#[test]
fn most_viewed_first_ties_in_order_bad_pairs_skipped() {
    let pairs = vec![
        (id_text(1), "3".to_string()),
        (id_text(2), "10".to_string()),
        ("junk".to_string(), "50".to_string()),
        (id_text(3), "3".to_string()),
        (id_text(4), "x".to_string()),
        (id_text(5), "7".to_string()),
    ];
    assert_eq!(most_viewed_ids(pairs.clone(), 10), Some(vec![2, 5, 1, 3]));
    assert_eq!(most_viewed_ids(pairs, 2), Some(vec![2, 5]));
    assert_eq!(most_viewed_ids(vec![], 5), None);
    assert_eq!(most_viewed_ids(vec![("junk".to_string(), "1".to_string())], 5), Some(vec![]));
}
