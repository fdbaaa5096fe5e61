//! The recipes database: which search query runs, rows read back as recipes
//! and previews, and the rows a new recipe is stored in.

use vstd::prelude::*;
use vstd::string::StrSliceExecFns;

use super::domain::{CreateRecipeData, OriginParseError, Recipe, RecipeOrigin, RecipePreview};
use super::output::LocalRepositoryError;
use crate::ids::new_id;
use crate::ingredients::{by_name, Ingredients};
use crate::text::{lowercased, to_lowercase};

verus! {

/// The database adapter of recipes; `P` is the connection pool.
pub struct PostgresAdapter<P> {
    pub pool: P,
}

impl<P> PostgresAdapter<P> {
    pub fn new(pool: P) -> (r: Self)
        ensures
            r.pool == pool,
    {
        Self { pool }
    }
}

/// Why a database read failed.
pub enum LocalError {
    /// A row held an origin that names no recipe origin.
    Parsing(OriginParseError),
    /// The database failed, with its message.
    Database(String),
}

impl LocalError {
    /// Both kinds of failure are internal errors, reported by their text.
    pub fn into_repository_error(self) -> (r: LocalRepositoryError)
        ensures
            self matches LocalError::Parsing(e) ==> (r matches LocalRepositoryError::Internal(m) && m@
                == e.message_spec()),
            self matches LocalError::Database(msg) ==> r == LocalRepositoryError::Internal(msg),
    {
        match self {
            LocalError::Parsing(e) => LocalRepositoryError::Internal(e.message()),
            LocalError::Database(msg) => LocalRepositoryError::Internal(msg),
        }
    }
}

/// A query of at most three characters is matched by `ILIKE` rather than by
/// full-text search.
pub open spec fn is_short_query(q: Seq<char>) -> bool {
    q.len() <= 3
}

/// The database search that finds the ids of the recipes matching a query
/// and tags, best match first.
pub enum RecipeSearchQuery {
    /// By the query alone (`ilike` for a short query).
    ByQuery { query: String, ilike: bool },
    /// By the tags alone, lowercased.
    ByTags { tags: Vec<String> },
    /// By the query and the lowercased tags.
    ByQueryAndTags { query: String, ilike: bool, tags: Vec<String> },
    /// Neither was given: no recipe matches.
    Nothing,
}

/// The tags, lowercased.
pub fn lowercase_tags(tags: &Vec<String>) -> (r: Vec<String>)
    ensures
        lowercased_tags(tags@, r@),
{
    let mut r: Vec<String> = Vec::new();
    let mut i: usize = 0;
    while i < tags.len()
        invariant
            i <= tags@.len(),
            r@.len() == i,
            forall|k: int| 0 <= k < i ==> #[trigger] r@[k]@ == lowercased(tags@[k]@),
        decreases tags@.len() - i,
    {
        r.push(to_lowercase(tags[i].as_str()));
        i = i + 1;
    }
    r
}

/// `tags` lowercased one by one into `lower`.
pub open spec fn lowercased_tags(tags: Seq<String>, lower: Seq<String>) -> bool {
    &&& lower.len() == tags.len()
    &&& forall|i: int| 0 <= i < tags.len() ==> #[trigger] lower[i]@ == lowercased(tags[i]@)
}

/// `r` is the search to run for `query` and `tags`.
pub open spec fn search_query_for(query: Option<String>, tags: Option<Vec<String>>, r: RecipeSearchQuery) -> bool {
    match (query, tags) {
        (Some(q), None) => r matches RecipeSearchQuery::ByQuery { query: rq, ilike } && rq == q && ilike
            == is_short_query(q@),
        (None, Some(t)) => r matches RecipeSearchQuery::ByTags { tags: rt } && lowercased_tags(t@, rt@),
        (Some(q), Some(t)) => r matches RecipeSearchQuery::ByQueryAndTags { query: rq, ilike, tags: rt }
            && rq == q && ilike == is_short_query(q@) && lowercased_tags(t@, rt@),
        (None, None) => r is Nothing,
    }
}

/// The search to run for a query and tags.
pub fn plan_recipe_search(query: &Option<String>, tags: &Option<Vec<String>>) -> (r: RecipeSearchQuery)
    ensures
        search_query_for(*query, *tags, r),
{
    match (query, tags) {
        (Some(q), None) => RecipeSearchQuery::ByQuery {
            query: q.clone(),
            ilike: q.as_str().unicode_len() <= 3,
        },
        (None, Some(t)) => RecipeSearchQuery::ByTags { tags: lowercase_tags(t) },
        (Some(q), Some(t)) => RecipeSearchQuery::ByQueryAndTags {
            query: q.clone(),
            ilike: q.as_str().unicode_len() <= 3,
            tags: lowercase_tags(t),
        },
        (None, None) => RecipeSearchQuery::Nothing,
    }
}

/// A row holding a recipe id.
pub struct RecipeIdDbRow {
    pub id: u128,
}

/// The ids of the rows, in order.
pub fn ids_of_rows(rows: Vec<RecipeIdDbRow>) -> (r: Vec<u128>)
    ensures
        r@.len() == rows@.len(),
        forall|i: int| 0 <= i < rows@.len() ==> #[trigger] r@[i] == rows@[i].id,
{
    let mut r: Vec<u128> = Vec::new();
    let mut i: usize = 0;
    while i < rows.len()
        invariant
            i <= rows@.len(),
            r@.len() == i,
            forall|k: int| 0 <= k < i ==> #[trigger] r@[k] == rows@[k].id,
        decreases rows@.len() - i,
    {
        r.push(rows[i].id);
        i = i + 1;
    }
    r
}

/// A row holding a tag name.
pub struct TagDbRow {
    pub name: String,
}

/// The names of the rows, in order.
pub fn names_of_rows(rows: Vec<TagDbRow>) -> (r: Vec<String>)
    ensures
        r@.len() == rows@.len(),
        forall|i: int| 0 <= i < rows@.len() ==> #[trigger] r@[i] == rows@[i].name,
{
    let mut r: Vec<String> = Vec::new();
    let ghost src = rows@;
    for row in it: rows.into_iter()
        invariant
            it.seq() == src,
            r@.len() == it.index(),
            forall|k: int| 0 <= k < it.index() ==> #[trigger] r@[k] == src[k].name,
    {
        r.push(row.name);
    }
    r
}

/// A recipe row.
pub struct RecipeDbRow {
    pub id: u128,
    pub origin: String,
    pub recipe_name: String,
    pub recipe_description: Option<String>,
    pub instructions: String,
    pub thumbnail_url: Option<String>,
    pub video_url: Option<String>,
    pub tags: Vec<String>,
    pub ingredients: Ingredients,
    pub created_by: Option<u128>,
}

impl Recipe {
    /// A recipe read from its row; it fails when the origin names no origin.
    pub fn from_row(row: RecipeDbRow) -> (r: Result<Recipe, LocalError>)
        ensures
            RecipeOrigin::parse_spec(row.origin@) is Err ==> (r matches Err(LocalError::Parsing(e))
                && e == OriginParseError::VariantNotFound),
            RecipeOrigin::parse_spec(row.origin@) matches Ok(o) ==> (r matches Ok(rec) && rec.origin == o
                && rec.id == row.id && rec.name == row.recipe_name && rec.description
                == row.recipe_description && rec.instructions == row.instructions && rec.thumbnail_url
                == row.thumbnail_url && rec.video_url == row.video_url && rec.tags == row.tags
                && rec.ingredients == row.ingredients && rec.created_by == row.created_by),
    {
        match RecipeOrigin::parse(&row.origin) {
            Err(e) => Err(LocalError::Parsing(e)),
            Ok(origin) => Ok(
                Recipe {
                    id: row.id,
                    origin,
                    name: row.recipe_name,
                    description: row.recipe_description,
                    tags: row.tags,
                    ingredients: row.ingredients,
                    instructions: row.instructions,
                    thumbnail_url: row.thumbnail_url,
                    video_url: row.video_url,
                    created_by: row.created_by,
                },
            ),
        }
    }
}

/// A row of a recipe preview.
pub struct RecipePreviewDbRow {
    pub id: u128,
    pub origin: String,
    pub recipe_name: String,
    pub tags: Vec<String>,
    pub thumbnail_url: Option<String>,
}

/// `p` is the preview that a row with these fields and origin `o` reads as.
pub open spec fn preview_of(p: RecipePreview, id: u128, o: RecipeOrigin, name: String, tags: Vec<String>, thumbnail_url: Option<String>) -> bool {
    &&& p.id == id
    &&& p.origin == o
    &&& p.name == name
    &&& p.tags == tags
    &&& p.thumbnail_url == thumbnail_url
}

impl RecipePreview {
    /// A preview read from its row; it fails when the origin names no origin.
    pub fn from_row(row: RecipePreviewDbRow) -> (r: Result<RecipePreview, LocalError>)
        ensures
            RecipeOrigin::parse_spec(row.origin@) is Err ==> (r matches Err(LocalError::Parsing(e))
                && e == OriginParseError::VariantNotFound),
            RecipeOrigin::parse_spec(row.origin@) matches Ok(o) ==> (r matches Ok(p) && preview_of(
                p,
                row.id,
                o,
                row.recipe_name,
                row.tags,
                row.thumbnail_url,
            )),
    {
        match RecipeOrigin::parse(&row.origin) {
            Err(e) => Err(LocalError::Parsing(e)),
            Ok(origin) => Ok(
                RecipePreview {
                    id: row.id,
                    origin,
                    name: row.recipe_name,
                    tags: row.tags,
                    thumbnail_url: row.thumbnail_url,
                },
            ),
        }
    }
}

/// Every origin text among `origins` names an origin.
pub open spec fn all_origins_parse(origins: Seq<Seq<char>>) -> bool {
    forall|i: int| 0 <= i < origins.len() ==> #[trigger] RecipeOrigin::parse_spec(origins[i]) is Ok
}

/// The origins of preview rows.
pub open spec fn preview_row_origins(rows: Seq<RecipePreviewDbRow>) -> Seq<Seq<char>> {
    rows.map_values(|r: RecipePreviewDbRow| r.origin@)
}

/// The previews of the rows, in order; it fails when a row's origin names
/// no origin.
pub fn previews_from_rows(rows: Vec<RecipePreviewDbRow>) -> (r: Result<Vec<RecipePreview>, LocalError>)
    ensures
        !all_origins_parse(preview_row_origins(rows@)) ==> (r matches Err(LocalError::Parsing(e)) && e
            == OriginParseError::VariantNotFound),
        all_origins_parse(preview_row_origins(rows@)) ==> (r matches Ok(ps) && ps@.len() == rows@.len()
            && forall|i: int|
            0 <= i < rows@.len() ==> #[trigger] preview_of(
                ps@[i],
                rows@[i].id,
                RecipeOrigin::parse_spec(rows@[i].origin@)->Ok_0,
                rows@[i].recipe_name,
                rows@[i].tags,
                rows@[i].thumbnail_url,
            )),
{
    let ghost src = rows@;
    let mut out: Vec<RecipePreview> = Vec::new();
    for row in it: rows.into_iter()
        invariant
            it.seq() == src,
            out@.len() == it.index(),
            all_origins_parse(preview_row_origins(src.take(it.index() as int))),
            forall|k: int|
                0 <= k < it.index() ==> #[trigger] preview_of(
                    out@[k],
                    src[k].id,
                    RecipeOrigin::parse_spec(src[k].origin@)->Ok_0,
                    src[k].recipe_name,
                    src[k].tags,
                    src[k].thumbnail_url,
                ),
    {
        let ghost k = it.index() as int;
        match RecipePreview::from_row(row) {
            Err(e) => {
                proof {
                    assert(preview_row_origins(src)[k] == src[k].origin@);
                }
                return Err(e);
            },
            Ok(p) => {
                out.push(p);
                proof {
                    let done = preview_row_origins(src.take(k + 1));
                    assert forall|i: int| 0 <= i < done.len() implies #[trigger] RecipeOrigin::parse_spec(
                        done[i],
                    ) is Ok by {
                        if i < k {
                            assert(done[i] == preview_row_origins(src.take(k))[i]);
                        }
                    }
                }
            },
        }
    }
    proof {
        assert(src.take(src.len() as int) =~= src);
    }
    Ok(out)
}

/// A row of a preview, with the number of all rows the query matched.
pub struct RecipePreviewCountDbRow {
    pub id: u128,
    pub origin: String,
    pub recipe_name: String,
    pub tags: Vec<String>,
    pub thumbnail_url: Option<String>,
    pub total_count: i64,
}

/// The origins of counted preview rows.
pub open spec fn count_row_origins(rows: Seq<RecipePreviewCountDbRow>) -> Seq<Seq<char>> {
    rows.map_values(|r: RecipePreviewCountDbRow| r.origin@)
}

/// The count that rows carry: that of the first row (`as usize`), or 0.
pub open spec fn total_of_rows(rows: Seq<RecipePreviewCountDbRow>) -> usize {
    if rows.len() == 0 {
        0
    } else {
        rows[0].total_count as usize
    }
}

/// A page of the recipes a user created, read from its rows: the previews
/// and the total count; it fails when a row's origin names no origin.
pub fn counted_previews_from_rows(rows: Vec<RecipePreviewCountDbRow>) -> (r: Result<
    (Vec<RecipePreview>, usize),
    LocalError,
>)
    ensures
        !all_origins_parse(count_row_origins(rows@)) ==> (r matches Err(LocalError::Parsing(e)) && e
            == OriginParseError::VariantNotFound),
        all_origins_parse(count_row_origins(rows@)) ==> (r matches Ok((ps, total)) && total
            == total_of_rows(rows@) && ps@.len() == rows@.len() && forall|i: int|
            0 <= i < rows@.len() ==> #[trigger] preview_of(
                ps@[i],
                rows@[i].id,
                RecipeOrigin::parse_spec(rows@[i].origin@)->Ok_0,
                rows@[i].recipe_name,
                rows@[i].tags,
                rows@[i].thumbnail_url,
            )),
{
    let total: usize = if rows.len() == 0 {
        0
    } else {
        #[verifier::truncate]
        (rows[0].total_count as usize)
    };
    let ghost src = rows@;
    let mut out: Vec<RecipePreview> = Vec::new();
    for row in it: rows.into_iter()
        invariant
            it.seq() == src,
            total == total_of_rows(src),
            out@.len() == it.index(),
            all_origins_parse(count_row_origins(src.take(it.index() as int))),
            forall|k: int|
                0 <= k < it.index() ==> #[trigger] preview_of(
                    out@[k],
                    src[k].id,
                    RecipeOrigin::parse_spec(src[k].origin@)->Ok_0,
                    src[k].recipe_name,
                    src[k].tags,
                    src[k].thumbnail_url,
                ),
    {
        let ghost k = it.index() as int;
        let preview_row = RecipePreviewDbRow {
            id: row.id,
            origin: row.origin,
            recipe_name: row.recipe_name,
            tags: row.tags,
            thumbnail_url: row.thumbnail_url,
        };
        match RecipePreview::from_row(preview_row) {
            Err(e) => {
                proof {
                    assert(count_row_origins(src)[k] == src[k].origin@);
                }
                return Err(e);
            },
            Ok(p) => {
                out.push(p);
                proof {
                    let done = count_row_origins(src.take(k + 1));
                    assert forall|i: int| 0 <= i < done.len() implies #[trigger] RecipeOrigin::parse_spec(
                        done[i],
                    ) is Ok by {
                        if i < k {
                            assert(done[i] == count_row_origins(src.take(k))[i]);
                        }
                    }
                }
            },
        }
    }
    proof {
        assert(src.take(src.len() as int) =~= src);
    }
    Ok((out, total))
}

/// The rows of a batch insert of a new recipe's tags: a fresh id, the
/// recipe's id and the name of each tag.
pub struct TagInsertColumns {
    pub ids: Vec<u128>,
    pub recipe_ids: Vec<u128>,
    pub names: Vec<String>,
}

/// The tag rows of a new recipe; `None` when it has no tags, and no insert
/// runs.
pub fn tag_insert_columns(data: &CreateRecipeData) -> (r: Option<TagInsertColumns>)
    ensures
        data.tags@.len() == 0 ==> r is None,
        data.tags@.len() > 0 ==> (r matches Some(c) && c.ids@.len() == data.tags@.len()
            && c.recipe_ids@.len() == data.tags@.len() && c.names@ == data.tags@ && forall|i: int|
            0 <= i < data.tags@.len() ==> #[trigger] c.recipe_ids@[i] == data.id),
{
    if data.tags.len() == 0 {
        return None;
    }
    let mut ids: Vec<u128> = Vec::new();
    let mut recipe_ids: Vec<u128> = Vec::new();
    let mut i: usize = 0;
    while i < data.tags.len()
        invariant
            i <= data.tags@.len(),
            ids@.len() == i,
            recipe_ids@.len() == i,
            forall|k: int| 0 <= k < i ==> #[trigger] recipe_ids@[k] == data.id,
        decreases data.tags@.len() - i,
    {
        ids.push(new_id());
        recipe_ids.push(data.id);
        i = i + 1;
    }
    Some(TagInsertColumns { ids, recipe_ids, names: data.tags.clone() })
}

/// The rows of a batch insert of a new recipe's ingredients: a fresh id, the
/// recipe's id, and each ingredient's name and measure.
pub struct IngredientInsertColumns {
    pub ids: Vec<u128>,
    pub recipe_ids: Vec<u128>,
    pub names: Vec<String>,
    pub measures: Vec<String>,
}

/// The ingredient rows of a new recipe, by ingredient name; `None` when it
/// has no ingredients, and no insert runs.
pub fn ingredient_insert_columns(data: &CreateRecipeData) -> (r: Option<IngredientInsertColumns>)
    ensures
        by_name(data.ingredients.entries()),
        data.ingredients.entries().len() == 0 ==> r is None,
        data.ingredients.entries().len() > 0 ==> (r matches Some(c) && c.ids@.len()
            == data.ingredients.entries().len() && c.recipe_ids@.len() == data.ingredients.entries().len()
            && c.names@.len() == data.ingredients.entries().len() && c.measures@.len()
            == data.ingredients.entries().len() && forall|i: int|
            0 <= i < data.ingredients.entries().len() ==> #[trigger] c.recipe_ids@[i] == data.id
                && c.names@[i] == data.ingredients.entries()[i].0 && c.measures@[i]
                == data.ingredients.entries()[i].1),
{
    let pairs = data.ingredients.pairs();
    if pairs.len() == 0 {
        return None;
    }
    let mut ids: Vec<u128> = Vec::new();
    let mut recipe_ids: Vec<u128> = Vec::new();
    let mut names: Vec<String> = Vec::new();
    let mut measures: Vec<String> = Vec::new();
    let mut i: usize = 0;
    while i < pairs.len()
        invariant
            pairs@ == data.ingredients.entries(),
            i <= pairs@.len(),
            ids@.len() == i,
            recipe_ids@.len() == i,
            names@.len() == i,
            measures@.len() == i,
            forall|k: int|
                0 <= k < i ==> #[trigger] recipe_ids@[k] == data.id && names@[k] == pairs@[k].0
                    && measures@[k] == pairs@[k].1,
        decreases pairs@.len() - i,
    {
        ids.push(new_id());
        recipe_ids.push(data.id);
        names.push(pairs[i].0.clone());
        measures.push(pairs[i].1.clone());
        i = i + 1;
    }
    Some(IngredientInsertColumns { ids, recipe_ids, names, measures })
}

/// The recipe a stored new recipe is: local, without a video, created by
/// its author.
pub fn created_recipe(data: CreateRecipeData) -> (r: Recipe)
    ensures
        r.id == data.id,
        r.origin == RecipeOrigin::Local,
        r.name == data.name,
        r.description == data.description,
        r.tags == data.tags,
        r.ingredients == data.ingredients,
        r.instructions == data.instructions,
        r.thumbnail_url == data.thumbnail_url,
        r.video_url is None,
        r.created_by == Some(data.created_by),
{
    Recipe {
        id: data.id,
        origin: RecipeOrigin::Local,
        name: data.name,
        description: data.description,
        tags: data.tags,
        ingredients: data.ingredients,
        instructions: data.instructions,
        thumbnail_url: data.thumbnail_url,
        video_url: None,
        created_by: Some(data.created_by),
    }
}

} // verus!
