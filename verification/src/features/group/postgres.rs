//! Groups read back from their rows.

use vstd::prelude::*;

use super::domain::{Group, RecipesGroup};
use super::output::LocalRepositoryError;
use crate::features::recipe::domain::{OriginParseError, RecipeOrigin, RecipePreview};
use crate::features::recipe::postgres::{
    all_origins_parse, count_row_origins, counted_previews_from_rows, preview_of, preview_row_origins,
    previews_from_rows, total_of_rows, LocalError as RecipeRowError, RecipePreviewCountDbRow,
    RecipePreviewDbRow,
};

verus! {

/// The database adapter of groups; `P` is the connection pool.
pub struct PostgresAdapter<P> {
    pub pool: P,
}

impl<P> PostgresAdapter<P> {
    pub fn new(pool: P) -> (r: Self)
        ensures
            r.pool == pool,
    {
        Self { pool }
    }
}

/// Why a database operation on groups failed.
pub enum LocalError {
    Logic(LocalRepositoryError),
    /// A recipe's origin names no origin.
    Parsing(OriginParseError),
    /// The database failed, with its message.
    Sqlx(String),
}

impl LocalError {
    /// The repository error: a logic error as it is, the others internal
    /// with their text.
    pub fn into_repository_error(self) -> (r: LocalRepositoryError)
        ensures
            self matches LocalError::Logic(e) ==> r == e,
            self matches LocalError::Parsing(e) ==> (r matches LocalRepositoryError::Internal(m) && m@
                == e.message_spec()),
            self matches LocalError::Sqlx(m) ==> r == LocalRepositoryError::Internal(m),
    {
        match self {
            LocalError::Logic(e) => e,
            LocalError::Parsing(e) => LocalRepositoryError::Internal(e.message()),
            LocalError::Sqlx(m) => LocalRepositoryError::Internal(m),
        }
    }
}

/// A group row.
pub struct GroupDbRow {
    pub id: u128,
    pub group_name: String,
    pub group_description: Option<String>,
    pub created_by: u128,
}

impl Group {
    /// A group read from its row.
    pub fn from_row(row: GroupDbRow) -> (g: Group)
        ensures
            g.id == row.id,
            g.name == row.group_name,
            g.description == row.group_description,
            g.created_by_id == row.created_by,
    {
        Group { id: row.id, name: row.group_name, description: row.group_description, created_by_id: row.created_by }
    }
}

/// A row of a group with its latest recipes, the number of its recipes and
/// the number of the user's groups.
pub struct RecipesGroupCountDbRow {
    pub group_id: u128,
    pub group_name: String,
    pub recipes: Vec<RecipePreviewDbRow>,
    pub total_groups_count: i64,
    pub total_recipes_count: i64,
}

/// Every recipe of a group row has an origin that names an origin.
pub open spec fn group_row_parses(row: RecipesGroupCountDbRow) -> bool {
    all_origins_parse(preview_row_origins(row.recipes@))
}

/// `g` is what `row` reads as.
pub open spec fn recipes_group_of(g: RecipesGroup, row: RecipesGroupCountDbRow) -> bool {
    &&& g.group_id == row.group_id
    &&& g.group_name == row.group_name
    &&& g.total_recipes == row.total_recipes_count as usize
    &&& g.recipes@.len() == row.recipes@.len()
    &&& forall|j: int|
        0 <= j < row.recipes@.len() ==> #[trigger] preview_of(
            g.recipes@[j],
            row.recipes@[j].id,
            RecipeOrigin::parse_spec(row.recipes@[j].origin@)->Ok_0,
            row.recipes@[j].recipe_name,
            row.recipes@[j].tags,
            row.recipes@[j].thumbnail_url,
        )
}

fn from_recipe_error(e: RecipeRowError) -> (r: LocalError)
    ensures
        e matches RecipeRowError::Parsing(p) ==> r matches LocalError::Parsing(q) && q == p,
        e matches RecipeRowError::Database(m) ==> r == LocalError::Sqlx(m),
{
    match e {
        RecipeRowError::Parsing(p) => LocalError::Parsing(p),
        RecipeRowError::Database(m) => LocalError::Sqlx(m),
    }
}

impl RecipesGroup {
    /// A group read from its row; it fails when a recipe's origin names no
    /// origin.
    pub fn from_row(row: RecipesGroupCountDbRow) -> (r: Result<RecipesGroup, LocalError>)
        ensures
            !group_row_parses(row) ==> (r matches Err(LocalError::Parsing(e)) && e
                == OriginParseError::VariantNotFound),
            group_row_parses(row) ==> (r matches Ok(g) && recipes_group_of(g, row)),
    {
        let total: usize = #[verifier::truncate] (row.total_recipes_count as usize);
        match previews_from_rows(row.recipes) {
            Err(e) => Err(from_recipe_error(e)),
            Ok(recipes) => Ok(
                RecipesGroup { group_id: row.group_id, group_name: row.group_name, recipes, total_recipes: total },
            ),
        }
    }
}

/// Every group row parses.
pub open spec fn all_group_rows_parse(rows: Seq<RecipesGroupCountDbRow>) -> bool {
    forall|i: int| 0 <= i < rows.len() ==> #[trigger] group_row_parses(rows[i])
}

/// The number of groups that rows carry: that of the first row (`as
/// usize`), or 0.
pub open spec fn total_groups_of(rows: Seq<RecipesGroupCountDbRow>) -> usize {
    if rows.len() == 0 {
        0
    } else {
        rows[0].total_groups_count as usize
    }
}

/// A page of a user's groups with their latest recipes, read from its rows,
/// with the number of the user's groups; it fails when a recipe's origin
/// names no origin.
pub fn recipe_groups_from_rows(rows: Vec<RecipesGroupCountDbRow>) -> (r: Result<(Vec<RecipesGroup>, usize), LocalError>)
    ensures
        !all_group_rows_parse(rows@) ==> (r matches Err(LocalError::Parsing(e)) && e
            == OriginParseError::VariantNotFound),
        all_group_rows_parse(rows@) ==> (r matches Ok((gs, total)) && total == total_groups_of(rows@)
            && gs@.len() == rows@.len() && forall|i: int|
            0 <= i < rows@.len() ==> #[trigger] recipes_group_of(gs@[i], rows@[i])),
{
    let total: usize = if rows.len() == 0 {
        0
    } else {
        #[verifier::truncate]
        (rows[0].total_groups_count as usize)
    };
    let ghost src = rows@;
    let mut out: Vec<RecipesGroup> = Vec::new();
    for row in it: rows.into_iter()
        invariant
            it.seq() == src,
            total == total_groups_of(src),
            out@.len() == it.index(),
            forall|k: int| 0 <= k < it.index() ==> #[trigger] group_row_parses(src[k]),
            forall|k: int| 0 <= k < it.index() ==> #[trigger] recipes_group_of(out@[k], src[k]),
    {
        let ghost k = it.index() as int;
        match RecipesGroup::from_row(row) {
            Err(e) => {
                return Err(e);
            },
            Ok(g) => {
                out.push(g);
            },
        }
    }
    Ok((out, total))
}

/// A page of a group's recipes, read from its rows, with the number of the
/// group's recipes; it fails when a recipe's origin names no origin.
pub fn group_recipes_from_rows(rows: Vec<RecipePreviewCountDbRow>) -> (r: Result<(Vec<RecipePreview>, usize), LocalError>)
    ensures
        !all_origins_parse(count_row_origins(rows@)) ==> (r matches Err(LocalError::Parsing(e)) && e
            == OriginParseError::VariantNotFound),
        all_origins_parse(count_row_origins(rows@)) ==> (r matches Ok((ps, total)) && total
            == total_of_rows(rows@) && ps@.len() == rows@.len() && forall|i: int|
            0 <= i < rows@.len() ==> #[trigger] preview_of(
                ps@[i],
                rows@[i].id,
                RecipeOrigin::parse_spec(rows@[i].origin@)->Ok_0,
                rows@[i].recipe_name,
                rows@[i].tags,
                rows@[i].thumbnail_url,
            )),
{
    match counted_previews_from_rows(rows) {
        Err(e) => Err(from_recipe_error(e)),
        Ok(page) => Ok(page),
    }
}

/// A row holding the id of a group created or deleted.
pub struct GroupOperationDbRow {
    pub id: u128,
}

} // verus!
