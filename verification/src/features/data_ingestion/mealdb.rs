//! The meal database: where its search is, and its meals read as recipes.

use vstd::prelude::*;
use vstd::string::StrSliceExecFns;

use super::domain::Recipe;
use super::output::ExternalRepositoryError;
use crate::ingredients::Ingredients;
use crate::text::{split_commas, split_on, trim, trimmed};

verus! {

/// The client of the meal database; `C` is the HTTP client.
pub struct MealdbAdapter<C> {
    client: C,
    api_url: String,
    api_key: String,
}

impl<C> MealdbAdapter<C> {
    pub closed spec fn client_spec(&self) -> C {
        self.client
    }

    pub closed spec fn api_url_spec(&self) -> Seq<char> {
        self.api_url@
    }

    pub closed spec fn api_key_spec(&self) -> Seq<char> {
        self.api_key@
    }

    pub fn new(client: C, api_url: String, api_key: String) -> (r: Self)
        ensures
            r.client_spec() == client,
            r.api_url_spec() == api_url@,
            r.api_key_spec() == api_key@,
    {
        Self { client, api_url, api_key }
    }

    /// The HTTP client.
    pub fn client(&self) -> (r: &C)
        ensures
            *r == self.client_spec(),
    {
        &self.client
    }

    /// The search endpoint: the API's url, the key, `search.php`.
    pub fn search_url(&self) -> (r: String)
        ensures
            r@ == self.api_url_spec() + "/"@ + self.api_key_spec() + "/search.php"@,
    {
        let mut r = String::from_str(self.api_url.as_str());
        r.append("/");
        r.append(self.api_key.as_str());
        r.append("/search.php");
        r
    }
}

/// Why reading the meal database failed.
pub enum LocalError {
    Logic(ExternalRepositoryError),
}

impl LocalError {
    /// An internal error holding the displayed text of the failure.
    pub fn into_external(self) -> (r: ExternalRepositoryError)
        ensures
            self matches LocalError::Logic(e) ==> (r matches ExternalRepositoryError::Internal(m) && m@
                == e.message_spec()),
    {
        match self {
            LocalError::Logic(e) => ExternalRepositoryError::Internal(e.message()),
        }
    }
}

/// A meal as the meal database's search answers it; a blank image, video,
/// ingredient or measure reads as absent. Ingredients and measures pair up by
/// position.
pub struct MealdbMeal {
    pub id: String,
    pub name: String,
    pub category: String,
    pub tags: Option<String>,
    pub instructions: String,
    pub image_url: Option<String>,
    pub video_url: Option<String>,
    pub ingredients: Vec<Option<String>>,
    pub measures: Vec<Option<String>>,
}

/// The texts of an optional string.
pub open spec fn opt_text(o: Option<String>) -> Option<Seq<char>> {
    match o {
        Some(s) => Some(s@),
        None => None,
    }
}

/// The pieces trimmed, leaving out those that are then empty.
pub open spec fn nonempty_trimmed(pieces: Seq<Seq<char>>) -> Seq<Seq<char>>
    decreases pieces.len(),
{
    if pieces.len() == 0 {
        seq![]
    } else {
        let prev = nonempty_trimmed(pieces.drop_last());
        let t = trimmed(pieces.last());
        if t.len() > 0 {
            prev.push(t)
        } else {
            prev
        }
    }
}

/// The tags of a meal: its category, trimmed, unless blank, then its
/// comma-separated tags, each trimmed, leaving out blank ones.
pub open spec fn meal_tags_spec(category: Seq<char>, tags: Option<Seq<char>>) -> Seq<Seq<char>> {
    let first = if trimmed(category).len() > 0 {
        seq![trimmed(category)]
    } else {
        Seq::<Seq<char>>::empty()
    };
    match tags {
        Some(t) => first + nonempty_trimmed(split_on(t, ',')),
        None => first,
    }
}

/// The texts of a list of strings.
pub open spec fn texts(v: Seq<String>) -> Seq<Seq<char>> {
    v.map_values(|s: String| s@)
}

/// The tags of a meal.
pub fn meal_tags(category: &String, tags: &Option<String>) -> (r: Vec<String>)
    ensures
        texts(r@) == meal_tags_spec(category@, opt_text(*tags)),
{
    let mut out: Vec<String> = Vec::new();
    let c = trim(category.as_str());
    if c.as_str().unicode_len() > 0 {
        out.push(c);
    }
    let ghost first = texts(out@);
    assert(first == (if trimmed(category@).len() > 0 {
        seq![trimmed(category@)]
    } else {
        Seq::<Seq<char>>::empty()
    }));
    match tags {
        None => {},
        Some(t) => {
            let pieces = split_commas(t.as_str());
            let ghost ps = texts(pieces@);
            assert(ps == split_on(t@, ','));
            let mut i: usize = 0;
            while i < pieces.len()
                invariant
                    i <= pieces@.len(),
                    ps == texts(pieces@),
                    texts(out@) == first + nonempty_trimmed(ps.take(i as int)),
                decreases pieces@.len() - i,
            {
                let p = trim(pieces[i].as_str());
                assert(ps.take(i + 1).drop_last() =~= ps.take(i as int));
                assert(ps.take(i + 1).last() == pieces@[i as int]@);
                let ghost before = texts(out@);
                if p.as_str().unicode_len() > 0 {
                    out.push(p);
                    assert(texts(out@) =~= before.push(p@));
                }
                i = i + 1;
            }
            assert(ps.take(ps.len() as int) =~= ps);
        },
    }
    out
}

/// The ingredients of the first `n` positions: each position where both an
/// ingredient and a measure are given sets the trimmed ingredient's measure
/// to the trimmed measure, a later position overriding an earlier one.
pub open spec fn ingredient_map(ings: Seq<Option<String>>, measures: Seq<Option<String>>, n: nat) -> Map<
    Seq<char>,
    Seq<char>,
>
    decreases n,
{
    if n == 0 {
        Map::empty()
    } else {
        let m = ingredient_map(ings, measures, (n - 1) as nat);
        match ings[n - 1] {
            Some(i) => match measures[n - 1] {
                Some(me) => m.insert(trimmed(i@), trimmed(me@)),
                None => m,
            },
            None => m,
        }
    }
}

/// The number of positions where ingredients and measures pair up.
pub open spec fn paired(ings: Seq<Option<String>>, measures: Seq<Option<String>>) -> nat {
    if ings.len() < measures.len() {
        ings.len()
    } else {
        measures.len()
    }
}

/// The ingredients of a meal.
pub fn meal_ingredients(ings: &Vec<Option<String>>, measures: &Vec<Option<String>>) -> (r: Ingredients)
    ensures
        r@ == ingredient_map(ings@, measures@, paired(ings@, measures@)),
{
    let n = if ings.len() < measures.len() {
        ings.len()
    } else {
        measures.len()
    };
    let mut r = Ingredients::new();
    let mut i: usize = 0;
    while i < n
        invariant
            n == paired(ings@, measures@),
            i <= n,
            r@ == ingredient_map(ings@, measures@, i as nat),
        decreases n - i,
    {
        match &ings[i] {
            Some(ing) => match &measures[i] {
                Some(me) => {
                    r.insert(trim(ing.as_str()), trim(me.as_str()));
                },
                None => {},
            },
            None => {},
        }
        i = i + 1;
    }
    r
}

/// `r` is the recipe that `meal` reads as.
pub open spec fn read_as(meal: MealdbMeal, r: Recipe) -> bool {
    &&& r.id == meal.id
    &&& r.name == meal.name
    &&& texts(r.tags@) == meal_tags_spec(meal.category@, opt_text(meal.tags))
    &&& r.ingredients@ == ingredient_map(meal.ingredients@, meal.measures@, paired(meal.ingredients@, meal.measures@))
    &&& r.instructions == meal.instructions
    &&& r.thumbnail_url == meal.image_url
    &&& r.video_url == meal.video_url
}

/// The recipe a meal reads as.
pub fn recipe_from_meal(meal: MealdbMeal) -> (r: Recipe)
    ensures
        read_as(meal, r),
{
    let tags = meal_tags(&meal.category, &meal.tags);
    let ingredients = meal_ingredients(&meal.ingredients, &meal.measures);
    Recipe {
        id: meal.id,
        name: meal.name,
        tags,
        ingredients,
        instructions: meal.instructions,
        thumbnail_url: meal.image_url,
        video_url: meal.video_url,
    }
}

/// The recipes of a search answer, one per meal in order; an answer without
/// meals gives none.
pub fn recipes_from_meals(meals: Option<Vec<MealdbMeal>>) -> (r: Vec<Recipe>)
    ensures
        meals is None ==> r@.len() == 0,
        meals matches Some(ms) ==> (r@.len() == ms@.len() && forall|i: int|
            0 <= i < ms@.len() ==> #[trigger] read_as(ms@[i], r@[i])),
{
    let mut out: Vec<Recipe> = Vec::new();
    match meals {
        None => out,
        Some(ms) => {
            let ghost src = ms@;
            for meal in it: ms.into_iter()
                invariant
                    it.seq() == src,
                    out@.len() == it.index(),
                    forall|k: int| 0 <= k < it.index() ==> #[trigger] read_as(src[k], out@[k]),
            {
                out.push(recipe_from_meal(meal));
            }
            out
        },
    }
}

} // verus!
