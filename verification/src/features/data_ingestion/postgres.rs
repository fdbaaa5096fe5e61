//! The rows ingested recipes are stored in: the recipes are upserted by their
//! meal database id, then their tags and ingredients are inserted under the
//! internal ids that the upsert gives back.

use vstd::prelude::*;

use super::domain::Recipe;
use super::output::LocalRepositoryError;
use crate::ids::new_id;
use crate::ingredients::Ingredients;
use crate::text::{parse_i32, parse_i32_spec, IntErrorKind};

verus! {

/// The database adapter of ingested recipes; `P` is the connection pool.
pub struct PostgresAdapter<P> {
    pub pool: P,
}

impl<P> PostgresAdapter<P> {
    pub fn new(pool: P) -> (r: Self)
        ensures
            r.pool == pool,
    {
        Self { pool }
    }
}

/// Why storing ingested recipes failed.
pub enum LocalError {
    Logic(LocalRepositoryError),
    /// The database failed, with its message.
    Sqlx(String),
    /// A recipe's id is no `i32`.
    Parsing(IntErrorKind),
}

impl LocalError {
    /// The repository error: a logic error as it is, the others internal,
    /// with their message.
    pub fn into_repository_error(self) -> (r: LocalRepositoryError)
        ensures
            self matches LocalError::Logic(e) ==> r == e,
            self matches LocalError::Sqlx(m) ==> r == LocalRepositoryError::Internal(m),
            self matches LocalError::Parsing(k) ==> (r matches LocalRepositoryError::Internal(m) && m@
                == k.message_spec()),
    {
        match self {
            LocalError::Logic(e) => e,
            LocalError::Sqlx(m) => LocalRepositoryError::Internal(m),
            LocalError::Parsing(k) => LocalRepositoryError::Internal(k.message()),
        }
    }
}

/// A row the upsert of recipes gives back: the internal id of the recipe
/// stored under a meal database id.
pub struct RecipeUpsertReturnDbRow {
    pub id: u128,
    pub external_id: i32,
}

/// The columns of the upsert of recipes, and their tags and ingredients
/// keyed by the recipes' meal database ids.
pub struct RecipeSyncRows {
    pub recipe_ids: Vec<u128>,
    pub external_ids: Vec<i32>,
    pub names: Vec<String>,
    pub descriptions: Vec<Option<String>>,
    pub instructions: Vec<String>,
    pub thumbnails: Vec<Option<String>>,
    pub videos: Vec<Option<String>>,
    pub raw_tags: Vec<(i32, String)>,
    pub raw_ingredients: Vec<(i32, String, String)>,
}

/// The error of the first recipe whose id is no `i32`, if any.
pub open spec fn first_id_error(recipes: Seq<Recipe>) -> Option<IntErrorKind>
    decreases recipes.len(),
{
    if recipes.len() == 0 {
        None
    } else {
        match first_id_error(recipes.drop_last()) {
            Some(e) => Some(e),
            None => match parse_i32_spec(recipes.last().id@) {
                Err(e) => Some(e),
                Ok(_) => None,
            },
        }
    }
}

/// The meal database id of a recipe, as an `i32`.
pub open spec fn ext_id_of(r: Recipe) -> i32 {
    parse_i32_spec(r.id@)->Ok_0 as i32
}

/// Each recipe's tags, keyed by its id, recipe after recipe.
pub open spec fn keyed_tags(recipes: Seq<Recipe>) -> Seq<(i32, String)>
    decreases recipes.len(),
{
    if recipes.len() == 0 {
        seq![]
    } else {
        let r = recipes.last();
        keyed_tags(recipes.drop_last()) + r.tags@.map_values(|t: String| (ext_id_of(r), t))
    }
}

/// Each recipe's ingredients and measures, keyed by its id, recipe after
/// recipe.
pub open spec fn keyed_ingredients(recipes: Seq<Recipe>) -> Seq<(i32, String, String)>
    decreases recipes.len(),
{
    if recipes.len() == 0 {
        seq![]
    } else {
        let r = recipes.last();
        keyed_ingredients(recipes.drop_last()) + r.ingredients.entries().map_values(
            |e: (String, String)| (ext_id_of(r), e.0, e.1),
        )
    }
}

/// The upsert columns hold one entry per recipe, in order, with no
/// description, and the recipes' tags and ingredients keyed by their ids.
pub open spec fn sync_rows_of(recipes: Seq<Recipe>, rows: RecipeSyncRows) -> bool {
    &&& rows.recipe_ids@.len() == recipes.len()
    &&& rows.external_ids@.len() == recipes.len()
    &&& rows.names@.len() == recipes.len()
    &&& rows.descriptions@.len() == recipes.len()
    &&& rows.instructions@.len() == recipes.len()
    &&& rows.thumbnails@.len() == recipes.len()
    &&& rows.videos@.len() == recipes.len()
    &&& forall|i: int|
        0 <= i < recipes.len() ==> {
            &&& #[trigger] rows.external_ids@[i] == ext_id_of(recipes[i])
            &&& rows.names@[i] == recipes[i].name
            &&& rows.descriptions@[i] is None
            &&& rows.instructions@[i] == recipes[i].instructions
            &&& rows.thumbnails@[i] == recipes[i].thumbnail_url
            &&& rows.videos@[i] == recipes[i].video_url
        }
    &&& rows.raw_tags@ == keyed_tags(recipes)
    &&& rows.raw_ingredients@ == keyed_ingredients(recipes)
}

/// The upsert stores each recipe of the batch as it came: at every position,
/// its meal database id, name, instructions, picture and video.
pub proof fn lemma_rows_store_each_recipe(recipes: Seq<Recipe>, rows: RecipeSyncRows, i: int)
    requires
        sync_rows_of(recipes, rows),
        0 <= i < recipes.len(),
    ensures
        i < rows.thumbnails@.len() && rows.thumbnails@[i] == recipes[i].thumbnail_url,
        i < rows.names@.len() && rows.names@[i] == recipes[i].name,
        i < rows.instructions@.len() && rows.instructions@[i] == recipes[i].instructions,
        i < rows.videos@.len() && rows.videos@[i] == recipes[i].video_url,
        i < rows.external_ids@.len() && rows.external_ids@[i] == ext_id_of(recipes[i]),
{
    assert(rows.external_ids@[i] == ext_id_of(recipes[i]));
}

/// The rows of a batch of ingested recipes; it fails with the error of the
/// first recipe whose id is no `i32`.
pub fn sync_rows(recipes: Vec<Recipe>) -> (r: Result<RecipeSyncRows, LocalError>)
    ensures
        first_id_error(recipes@) matches Some(e) ==> (r matches Err(LocalError::Parsing(k)) && k == e),
        first_id_error(recipes@) is None ==> (r matches Ok(rows) && sync_rows_of(recipes@, rows)),
        r matches Ok(rows) ==> rows.thumbnails@.len() == recipes@.len() && rows.names@.len()
            == recipes@.len() && rows.instructions@.len() == recipes@.len() && rows.videos@.len()
            == recipes@.len() && rows.external_ids@.len() == recipes@.len(),
        r matches Ok(rows) ==> forall|i: int|
            0 <= i < recipes@.len() ==> #[trigger] rows.thumbnails@[i] == recipes@[i].thumbnail_url
                && rows.names@[i] == recipes@[i].name && rows.instructions@[i] == recipes@[i].instructions
                && rows.videos@[i] == recipes@[i].video_url && rows.external_ids@[i] == ext_id_of(recipes@[i]),
{
    let ghost src = recipes@;
    let mut rows = RecipeSyncRows {
        recipe_ids: Vec::new(),
        external_ids: Vec::new(),
        names: Vec::new(),
        descriptions: Vec::new(),
        instructions: Vec::new(),
        thumbnails: Vec::new(),
        videos: Vec::new(),
        raw_tags: Vec::new(),
        raw_ingredients: Vec::new(),
    };
    assert(src.take(0) =~= Seq::<Recipe>::empty());
    for recipe in it: recipes.into_iter()
        invariant
            it.seq() == src,
            first_id_error(src.take(it.index() as int)) is None,
            sync_rows_of(src.take(it.index() as int), rows),
    {
        let ghost k = it.index() as int;
        let ghost done = src.take(k);
        let ghost next = src.take(k + 1);
        assert(next.drop_last() =~= done);
        assert(next.last() == recipe);
        let ext = match parse_i32(recipe.id.as_str()) {
            Ok(v) => v,
            Err(e) => {
                proof {
                    lemma_first_error_prefix(src, k + 1);
                }
                return Err(LocalError::Parsing(e));
            },
        };
        assert(ext == ext_id_of(recipe));
        let ghost before = rows;
        rows.recipe_ids.push(new_id());
        rows.external_ids.push(ext);
        rows.names.push(recipe.name);
        rows.descriptions.push(None);
        rows.instructions.push(recipe.instructions);
        rows.thumbnails.push(recipe.thumbnail_url);
        rows.videos.push(recipe.video_url);
        push_keyed_tags(&mut rows.raw_tags, ext, &recipe.tags);
        push_keyed_ingredients(&mut rows.raw_ingredients, ext, &recipe.ingredients);
        let ghost tags = recipe.tags@;
        assert(keyed_tags(next) == keyed_tags(done) + tags.map_values(|t: String| (ext_id_of(recipe), t)));
        assert forall|i: int| 0 <= i < next.len() implies #[trigger] rows.external_ids@[i] == ext_id_of(
            next[i],
        ) && rows.names@[i] == next[i].name && rows.descriptions@[i] is None
            && rows.instructions@[i] == next[i].instructions && rows.thumbnails@[i]
            == next[i].thumbnail_url && rows.videos@[i] == next[i].video_url by {
            if i < k {
                assert(next[i] == done[i]);
                assert(before.external_ids@[i] == ext_id_of(done[i]));
            }
        }
    }
    assert(src.take(src.len() as int) =~= src);
    assert forall|i: int| 0 <= i < src.len() implies #[trigger] rows.thumbnails@[i] == src[i].thumbnail_url
        && rows.names@[i] == src[i].name && rows.instructions@[i] == src[i].instructions
        && rows.videos@[i] == src[i].video_url && rows.external_ids@[i] == ext_id_of(src[i]) by {
        lemma_rows_store_each_recipe(src, rows, i);
    }
    Ok(rows)
}

/// Appends each tag, keyed by `ext`.
fn push_keyed_tags(out: &mut Vec<(i32, String)>, ext: i32, tags: &Vec<String>)
    ensures
        final(out)@ == old(out)@ + tags@.map_values(|t: String| (ext, t)),
{
    let ghost start = out@;
    let mut j: usize = 0;
    while j < tags.len()
        invariant
            j <= tags@.len(),
            out@ == start + tags@.take(j as int).map_values(|t: String| (ext, t)),
        decreases tags@.len() - j,
    {
        out.push((ext, tags[j].clone()));
        assert(tags@.take(j + 1) =~= tags@.take(j as int).push(tags@[j as int]));
        assert(out@ =~= start + tags@.take(j + 1).map_values(|t: String| (ext, t)));
        j = j + 1;
    }
    assert(tags@.take(tags@.len() as int) =~= tags@);
}

/// Appends each ingredient and its measure, keyed by `ext`.
fn push_keyed_ingredients(out: &mut Vec<(i32, String, String)>, ext: i32, ingredients: &Ingredients)
    ensures
        final(out)@ == old(out)@ + ingredients.entries().map_values(|e: (String, String)| (ext, e.0, e.1)),
{
    let ghost start = out@;
    let pairs = ingredients.pairs();
    let mut j: usize = 0;
    while j < pairs.len()
        invariant
            j <= pairs@.len(),
            out@ == start + pairs@.take(j as int).map_values(|e: (String, String)| (ext, e.0, e.1)),
        decreases pairs@.len() - j,
    {
        out.push((ext, pairs[j].0.clone(), pairs[j].1.clone()));
        assert(pairs@.take(j + 1) =~= pairs@.take(j as int).push(pairs@[j as int]));
        assert(out@ =~= start + pairs@.take(j + 1).map_values(|e: (String, String)| (ext, e.0, e.1)));
        j = j + 1;
    }
    assert(pairs@.take(pairs@.len() as int) =~= pairs@);
}

/// A failure among the first `n` recipes is the first failure of all.
proof fn lemma_first_error_prefix(s: Seq<Recipe>, n: int)
    requires
        0 <= n <= s.len(),
        first_id_error(s.take(n)) is Some,
    ensures
        first_id_error(s) == first_id_error(s.take(n)),
    decreases s.len() - n,
{
    if n < s.len() {
        assert(s.take(n + 1).drop_last() =~= s.take(n));
        lemma_first_error_prefix(s, n + 1);
    } else {
        assert(s.take(n) =~= s);
    }
}

/// The internal id the upsert gave for a meal database id; a later row for
/// the same id wins.
pub open spec fn upserted_id(rows: Seq<RecipeUpsertReturnDbRow>, ext: i32) -> Option<u128>
    decreases rows.len(),
{
    if rows.len() == 0 {
        None
    } else if rows.last().external_id == ext {
        Some(rows.last().id)
    } else {
        upserted_id(rows.drop_last(), ext)
    }
}

/// The internal id the upsert gave for a meal database id.
pub fn lookup_upserted(rows: &Vec<RecipeUpsertReturnDbRow>, ext: i32) -> (r: Option<u128>)
    ensures
        r == upserted_id(rows@, ext),
{
    let mut i: usize = rows.len();
    assert(rows@.take(rows@.len() as int) =~= rows@);
    while i > 0
        invariant
            i <= rows@.len(),
            upserted_id(rows@, ext) == upserted_id(rows@.take(i as int), ext),
        decreases i,
    {
        let ghost t = rows@.take(i as int);
        assert(t.drop_last() =~= rows@.take(i - 1));
        assert(t.last() == rows@[i - 1]);
        if rows[i - 1].external_id == ext {
            return Some(rows[i - 1].id);
        }
        i = i - 1;
    }
    None
}

/// The tags whose recipe the upsert resolved, with that recipe's internal id.
pub open spec fn resolved_tags(raw: Seq<(i32, String)>, rows: Seq<RecipeUpsertReturnDbRow>) -> Seq<(u128, String)>
    decreases raw.len(),
{
    if raw.len() == 0 {
        seq![]
    } else {
        let prev = resolved_tags(raw.drop_last(), rows);
        match upserted_id(rows, raw.last().0) {
            Some(id) => prev.push((id, raw.last().1)),
            None => prev,
        }
    }
}

/// The ingredients whose recipe the upsert resolved, with that recipe's
/// internal id.
pub open spec fn resolved_ingredients(raw: Seq<(i32, String, String)>, rows: Seq<RecipeUpsertReturnDbRow>) -> Seq<
    (u128, String, String),
>
    decreases raw.len(),
{
    if raw.len() == 0 {
        seq![]
    } else {
        let prev = resolved_ingredients(raw.drop_last(), rows);
        match upserted_id(rows, raw.last().0) {
            Some(id) => prev.push((id, raw.last().1, raw.last().2)),
            None => prev,
        }
    }
}

/// The columns of the inserts of tags and ingredients: a fresh id per row,
/// the internal id of its recipe, and its values.
pub struct ChildRows {
    pub tag_ids: Vec<u128>,
    pub tag_recipe_ids: Vec<u128>,
    pub tag_names: Vec<String>,
    pub ing_ids: Vec<u128>,
    pub ing_recipe_ids: Vec<u128>,
    pub ing_names: Vec<String>,
    pub ing_measures: Vec<String>,
}

/// The tag and ingredient rows of ingested recipes, once the upsert gave
/// their internal ids; rows of recipes it did not give are left out.
pub fn child_rows(
    raw_tags: Vec<(i32, String)>,
    raw_ingredients: Vec<(i32, String, String)>,
    upserted: &Vec<RecipeUpsertReturnDbRow>,
) -> (c: ChildRows)
    ensures
        c.tag_ids@.len() == c.tag_recipe_ids@.len(),
        c.tag_recipe_ids@.len() == c.tag_names@.len(),
        c.ing_ids@.len() == c.ing_recipe_ids@.len(),
        c.ing_recipe_ids@.len() == c.ing_names@.len(),
        c.ing_names@.len() == c.ing_measures@.len(),
        resolved_tags(raw_tags@, upserted@).len() == c.tag_names@.len(),
        forall|i: int|
            0 <= i < c.tag_names@.len() ==> #[trigger] resolved_tags(raw_tags@, upserted@)[i] == (
                c.tag_recipe_ids@[i],
                c.tag_names@[i],
            ),
        resolved_ingredients(raw_ingredients@, upserted@).len() == c.ing_names@.len(),
        forall|i: int|
            0 <= i < c.ing_names@.len() ==> #[trigger] resolved_ingredients(raw_ingredients@, upserted@)[i]
                == (c.ing_recipe_ids@[i], c.ing_names@[i], c.ing_measures@[i]),
{
    let mut c = ChildRows {
        tag_ids: Vec::new(),
        tag_recipe_ids: Vec::new(),
        tag_names: Vec::new(),
        ing_ids: Vec::new(),
        ing_recipe_ids: Vec::new(),
        ing_names: Vec::new(),
        ing_measures: Vec::new(),
    };
    let ghost tags = raw_tags@;
    assert(tags.take(0) =~= Seq::<(i32, String)>::empty());
    for t in it: raw_tags.into_iter()
        invariant
            it.seq() == tags,
            c.tag_ids@.len() == c.tag_recipe_ids@.len(),
            c.tag_recipe_ids@.len() == c.tag_names@.len(),
            c.ing_ids@.len() == 0,
            c.ing_recipe_ids@.len() == 0,
            c.ing_names@.len() == 0,
            c.ing_measures@.len() == 0,
            resolved_tags(tags.take(it.index() as int), upserted@).len() == c.tag_names@.len(),
            forall|i: int|
                0 <= i < c.tag_names@.len() ==> #[trigger] resolved_tags(
                    tags.take(it.index() as int),
                    upserted@,
                )[i] == (c.tag_recipe_ids@[i], c.tag_names@[i]),
    {
        let ghost k = it.index() as int;
        assert(tags.take(k + 1).drop_last() =~= tags.take(k));
        assert(tags.take(k + 1).last() == t);
        let ghost prev = resolved_tags(tags.take(k), upserted@);
        match lookup_upserted(upserted, t.0) {
            Some(id) => {
                c.tag_ids.push(new_id());
                c.tag_recipe_ids.push(id);
                c.tag_names.push(t.1);
                assert forall|i: int| 0 <= i < c.tag_names@.len() implies #[trigger] resolved_tags(
                    tags.take(k + 1),
                    upserted@,
                )[i] == (c.tag_recipe_ids@[i], c.tag_names@[i]) by {
                    if i < prev.len() {
                        assert(resolved_tags(tags.take(k + 1), upserted@)[i] == prev[i]);
                    }
                }
            },
            None => {},
        }
    }
    assert(tags.take(tags.len() as int) =~= tags);
    let ghost ings = raw_ingredients@;
    assert(ings.take(0) =~= Seq::<(i32, String, String)>::empty());
    for e in it: raw_ingredients.into_iter()
        invariant
            it.seq() == ings,
            c.tag_ids@.len() == c.tag_recipe_ids@.len(),
            c.tag_recipe_ids@.len() == c.tag_names@.len(),
            resolved_tags(tags, upserted@).len() == c.tag_names@.len(),
            forall|i: int|
                0 <= i < c.tag_names@.len() ==> #[trigger] resolved_tags(tags, upserted@)[i] == (
                    c.tag_recipe_ids@[i],
                    c.tag_names@[i],
                ),
            c.ing_ids@.len() == c.ing_recipe_ids@.len(),
            c.ing_recipe_ids@.len() == c.ing_names@.len(),
            c.ing_names@.len() == c.ing_measures@.len(),
            resolved_ingredients(ings.take(it.index() as int), upserted@).len() == c.ing_names@.len(),
            forall|i: int|
                0 <= i < c.ing_names@.len() ==> #[trigger] resolved_ingredients(
                    ings.take(it.index() as int),
                    upserted@,
                )[i] == (c.ing_recipe_ids@[i], c.ing_names@[i], c.ing_measures@[i]),
    {
        let ghost k = it.index() as int;
        assert(ings.take(k + 1).drop_last() =~= ings.take(k));
        assert(ings.take(k + 1).last() == e);
        let ghost prev = resolved_ingredients(ings.take(k), upserted@);
        match lookup_upserted(upserted, e.0) {
            Some(id) => {
                c.ing_ids.push(new_id());
                c.ing_recipe_ids.push(id);
                c.ing_names.push(e.1);
                c.ing_measures.push(e.2);
                assert forall|i: int| 0 <= i < c.ing_names@.len() implies #[trigger] resolved_ingredients(
                    ings.take(k + 1),
                    upserted@,
                )[i] == (c.ing_recipe_ids@[i], c.ing_names@[i], c.ing_measures@[i]) by {
                    if i < prev.len() {
                        assert(resolved_ingredients(ings.take(k + 1), upserted@)[i] == prev[i]);
                    }
                }
            },
            None => {},
        }
    }
    assert(ings.take(ings.len() as int) =~= ings);
    c
}

} // verus!
