//! The decisions of the recipe use cases.

use vstd::prelude::*;

use super::domain::{CreateRecipeData, Recipe, RecipePreview};
use super::input::{CreateRecipeInput, SearchResultsPage, UseCaseError};
use crate::ids::{hyphenated, id_text, new_id};
use crate::ordering::{keys_below, order_by_key, ordered_by_key};
use crate::text::{prefixed, trim, trimmed};

verus! {

/// How long a search session's matches stay cached.
pub const SEARCH_CACHE_TTL_SECS: u64 = 300;

/// How long a recipe stays cached.
pub const RECIPE_CACHE_TTL_SECS: u64 = 1800;

/// The offset of page `page` of `limit` items; pages count from 1, and page 0
/// is page 1.
pub open spec fn page_offset(limit: nat, page: nat) -> nat {
    ((if page == 0 { 0 } else { page - 1 }) * limit) as nat
}

/// The items of `ids` from `offset`, at most `limit` of them.
pub open spec fn page_slice(ids: Seq<u128>, offset: nat, limit: nat) -> Seq<u128> {
    let len = ids.len();
    let lo = if offset < len { offset } else { len };
    let hi = if offset + limit < len { offset + limit } else { len };
    ids.subrange(lo as int, hi as int)
}

/// The cache key of a search session's matches.
pub open spec fn search_key(session: u128) -> Seq<char> {
    "search:"@ + hyphenated(session)
}

pub fn search_cache_key(session: u128) -> (r: String)
    ensures
        r@ == search_key(session),
{
    let text = id_text(session);
    prefixed("search:", text.as_str())
}

/// The cache key of a recipe.
pub open spec fn recipe_key(id: u128) -> Seq<char> {
    "recipe:"@ + hyphenated(id)
}

pub fn recipe_cache_key(id: u128) -> (r: String)
    ensures
        r@ == recipe_key(id),
{
    let text = id_text(id);
    prefixed("recipe:", text.as_str())
}

/// The page of `ids` from `offset`, at most `limit` ids.
pub fn slice_page(ids: &Vec<u128>, offset: usize, limit: usize) -> (r: Vec<u128>)
    ensures
        r@ == page_slice(ids@, offset as nat, limit as nat),
{
    let len = ids.len();
    let lo = if offset < len { offset } else { len };
    let hi = if limit < len - lo { lo + limit } else { len };
    let mut r: Vec<u128> = Vec::new();
    let mut i = lo;
    while i < hi
        invariant
            lo <= i <= hi <= ids@.len(),
            r@ == ids@.subrange(lo as int, i as int),
        decreases hi - i,
    {
        r.push(ids[i]);
        assert(ids@.subrange(lo as int, i + 1) =~= ids@.subrange(lo as int, i as int).push(ids@[i as int]));
        i = i + 1;
    }
    r
}

/// What a search does next.
pub enum SearchStep {
    /// Read the matches cached at `key`, and answer with `on_cached`.
    ReadCache { key: String },
    /// Find the ids of the recipes matching the query and tags, best match
    /// first, and answer with `on_matches`.
    FindMatches,
    /// Cache `ids` at `key` for `ttl_secs` seconds, then call `on_stored`.
    StoreMatches { key: String, ids: Vec<u128>, ttl_secs: u64 },
    /// Read the previews of `ids`, in that order, and answer with `on_previews`.
    LoadPreviews { ids: Vec<u128> },
    /// The page of results.
    Done(SearchResultsPage),
}

/// Where a search stands.
#[derive(Debug, Clone, Copy, PartialEq, Eq, Structural)]
pub enum SearchPhase {
    ReadingCache,
    Finding,
    Storing,
    Loading,
    Done,
}

/// A search for recipes by query and tags, in pages over a cached session.
///
/// A new search finds all matches, caches them under a fresh session id when
/// there are any, and answers with a page of them. A search with a session id
/// reads that session's matches from the cache, finding and caching them again
/// when they expired. A search without matches answers with an empty page and
/// a fresh session id.
pub struct RecipeSearch {
    limit: usize,
    offset: usize,
    session: u128,
    key: String,
    matches: Vec<u128>,
    phase: SearchPhase,
}

impl RecipeSearch {
    pub closed spec fn phase(&self) -> SearchPhase {
        self.phase
    }

    /// The session id of the search.
    pub closed spec fn session(&self) -> u128 {
        self.session
    }

    /// The matches found or read, best first.
    pub closed spec fn matches(&self) -> Seq<u128> {
        self.matches@
    }

    pub closed spec fn offset(&self) -> nat {
        self.offset as nat
    }

    pub closed spec fn limit(&self) -> nat {
        self.limit as nat
    }

    pub closed spec fn wf(&self) -> bool {
        self.key@ == search_key(self.session)
    }

    /// A search as `start` leaves it: with no matches yet, reading the
    /// cache of session `search_id` when one is given, else finding matches
    /// under a fresh session.
    pub open spec fn started(&self, limit: nat, page: nat, search_id: Option<u128>, step: SearchStep) -> bool {
        &&& self.wf()
        &&& self.offset() == page_offset(limit, page)
        &&& self.limit() == limit
        &&& self.matches() == Seq::<u128>::empty()
        &&& (search_id matches Some(id) ==> self.session() == id)
        &&& (search_id is Some ==> self.phase() == SearchPhase::ReadingCache)
        &&& (search_id is Some ==> (step matches SearchStep::ReadCache { key } && key@ == search_key(self.session())))
        &&& (search_id is None ==> self.phase() == SearchPhase::Finding)
        &&& (search_id is None ==> step is FindMatches)
    }

    /// The step that answers with the page of `matches` from `offset`, or
    /// with an empty page when there are no matches.
    pub open spec fn page_step(matches: Seq<u128>, offset: nat, limit: nat, step: SearchStep) -> bool {
        &&& (matches.len() == 0 ==> (step matches SearchStep::Done(p) && p.items@.len() == 0 && p.total_items == 0))
        &&& (matches.len() > 0 ==> (step matches SearchStep::LoadPreviews { ids } && ids@ == page_slice(matches, offset, limit)))
    }

    /// Starts a search for page `page` of `limit` results. At least one of
    /// `query` and `tags` must be given.
    pub fn start(
        query: &Option<String>,
        tags: &Option<Vec<String>>,
        limit: usize,
        page: usize,
        search_id: Option<u128>,
    ) -> (r: Result<(RecipeSearch, SearchStep), UseCaseError>)
        requires
            !(query is None && tags is None) ==> page_offset(limit as nat, page as nat) <= usize::MAX,
        ensures
            (query is None && tags is None) ==> r matches Err(UseCaseError::MissingSearchParams),
            !(query is None && tags is None) ==> (r matches Ok((s, step)) && s.started(
                limit as nat,
                page as nat,
                search_id,
                step,
            )),
    {
        if query.is_none() && tags.is_none() {
            return Err(UseCaseError::MissingSearchParams);
        }
        let safe_page = if page == 0 { 1 } else { page };
        let offset = (safe_page - 1) * limit;
        match search_id {
            None => {
                let session = new_id();
                let key = search_cache_key(session);
                let s = RecipeSearch {
                    limit,
                    offset,
                    session,
                    key,
                    matches: Vec::new(),
                    phase: SearchPhase::Finding,
                };
                Ok((s, SearchStep::FindMatches))
            },
            Some(id) => {
                let key = search_cache_key(id);
                let step_key = search_cache_key(id);
                let s = RecipeSearch {
                    limit,
                    offset,
                    session: id,
                    key,
                    matches: Vec::new(),
                    phase: SearchPhase::ReadingCache,
                };
                Ok((s, SearchStep::ReadCache { key: step_key }))
            },
        }
    }

    /// The page of the matches, or an empty page under a fresh session id
    /// when there are none.
    fn to_page(&mut self) -> (step: SearchStep)
        requires
            old(self).wf(),
        ensures
            final(self).wf(),
            final(self).matches() == old(self).matches(),
            final(self).session() == old(self).session(),
            final(self).offset() == old(self).offset(),
            final(self).limit() == old(self).limit(),
            old(self).matches().len() == 0 ==> final(self).phase() == SearchPhase::Done,
            old(self).matches().len() > 0 ==> final(self).phase() == SearchPhase::Loading,
            Self::page_step(old(self).matches(), old(self).offset(), old(self).limit(), step),
    {
        if self.matches.len() == 0 {
            self.phase = SearchPhase::Done;
            SearchStep::Done(SearchResultsPage { items: Vec::new(), total_items: 0, search_id: new_id() })
        } else {
            self.phase = SearchPhase::Loading;
            SearchStep::LoadPreviews { ids: slice_page(&self.matches, self.offset, self.limit) }
        }
    }

    /// Takes the matches read from the cache (`None` when they expired).
    pub fn on_cached(&mut self, cached: Option<Vec<u128>>) -> (step: SearchStep)
        requires
            old(self).wf(),
            old(self).phase() == SearchPhase::ReadingCache,
        ensures
            final(self).wf(),
            final(self).session() == old(self).session(),
            final(self).offset() == old(self).offset(),
            final(self).limit() == old(self).limit(),
            cached is None ==> final(self).phase() == SearchPhase::Finding && step is FindMatches,
            cached matches Some(ids) ==> final(self).matches() == ids@,
            cached matches Some(ids) ==> (ids@.len() == 0 ==> final(self).phase() == SearchPhase::Done),
            cached matches Some(ids) ==> (ids@.len() > 0 ==> final(self).phase() == SearchPhase::Loading),
            cached matches Some(ids) ==> Self::page_step(ids@, old(self).offset(), old(self).limit(), step),
    {
        match cached {
            Some(ids) => {
                self.matches = ids;
                self.to_page()
            },
            None => {
                self.phase = SearchPhase::Finding;
                SearchStep::FindMatches
            },
        }
    }

    /// Takes the matches found, best first.
    pub fn on_matches(&mut self, ids: Vec<u128>) -> (step: SearchStep)
        requires
            old(self).wf(),
            old(self).phase() == SearchPhase::Finding,
        ensures
            final(self).wf(),
            final(self).session() == old(self).session(),
            final(self).offset() == old(self).offset(),
            final(self).limit() == old(self).limit(),
            final(self).matches() == ids@,
            ids@.len() == 0 ==> final(self).phase() == SearchPhase::Done,
            ids@.len() == 0 ==> Self::page_step(ids@, old(self).offset(), old(self).limit(), step),
            ids@.len() > 0 ==> final(self).phase() == SearchPhase::Storing,
            ids@.len() > 0 ==> (step matches SearchStep::StoreMatches { key, ids: stored, ttl_secs }
                && key@ == search_key(old(self).session()) && stored@ == ids@
                && ttl_secs == SEARCH_CACHE_TTL_SECS),
    {
        self.matches = ids;
        if self.matches.len() == 0 {
            self.to_page()
        } else {
            self.phase = SearchPhase::Storing;
            let key = search_cache_key(self.session);
            SearchStep::StoreMatches { key, ids: self.matches.clone(), ttl_secs: SEARCH_CACHE_TTL_SECS }
        }
    }

    /// The matches are cached.
    pub fn on_stored(&mut self) -> (step: SearchStep)
        requires
            old(self).wf(),
            old(self).phase() == SearchPhase::Storing,
            old(self).matches().len() > 0,
        ensures
            final(self).wf(),
            final(self).session() == old(self).session(),
            final(self).matches() == old(self).matches(),
            final(self).phase() == SearchPhase::Loading,
            Self::page_step(old(self).matches(), old(self).offset(), old(self).limit(), step),
    {
        self.to_page()
    }

    /// Takes the previews of the page: the page, the number of matches and
    /// the session id.
    pub fn on_previews(self, items: Vec<RecipePreview>) -> (page: SearchResultsPage)
        requires
            self.phase() == SearchPhase::Loading,
        ensures
            page.items == items,
            page.total_items == self.matches().len(),
            page.search_id == self.session(),
    {
        SearchResultsPage { items, total_items: self.matches.len(), search_id: self.session }
    }
}

/// The pages `1 ..= n` of `limit` items of `ids`, one after the other.
pub open spec fn first_pages(ids: Seq<u128>, limit: nat, n: nat) -> Seq<u128>
    decreases n,
{
    if n == 0 {
        seq![]
    } else {
        first_pages(ids, limit, (n - 1) as nat) + page_slice(ids, page_offset(limit, n), limit)
    }
}

/// The pages of a search session follow one another without gap or overlap:
/// pages `1 ..= n` together are the first `n * limit` matches (or all of them).
pub proof fn lemma_pages_cover_matches(ids: Seq<u128>, limit: nat, n: nat)
    ensures
        first_pages(ids, limit, n) == ids.take(if n * limit < ids.len() { (n * limit) as int } else { ids.len() as int }),
    decreases n,
{
    if n == 0 {
        assert(ids.take(0) =~= Seq::<u128>::empty());
    } else {
        lemma_pages_cover_matches(ids, limit, (n - 1) as nat);
        let prev = ((n - 1) * limit) as nat;
        assert(page_offset(limit, n) == prev);
        assert(prev + limit == n * limit) by (nonlinear_arith)
            requires
                prev == (n - 1) * limit,
                n >= 1,
        ;
        let len = ids.len();
        let a = if prev < len { prev as int } else { len as int };
        let b = if n * limit < len { (n * limit) as int } else { len as int };
        assert(ids.take(a) + ids.subrange(a, b) =~= ids.take(b)) by {
            assert(prev <= n * limit) by (nonlinear_arith)
                requires
                    prev == (n - 1) * limit,
                    n >= 1,
            ;
        }
    }
}

/// The first position of `id` in `ids`, if any.
pub open spec fn first_position(ids: Seq<u128>, id: u128) -> Option<usize>
    decreases ids.len(),
{
    if ids.len() == 0 {
        None
    } else {
        match first_position(ids.drop_last(), id) {
            Some(p) => Some(p),
            None => if ids.last() == id {
                Some((ids.len() - 1) as usize)
            } else {
                None
            },
        }
    }
}

proof fn lemma_first_position_below(ids: Seq<u128>, id: u128)
    ensures
        first_position(ids, id) matches Some(p) ==> p < ids.len(),
    decreases ids.len(),
{
    if ids.len() > 0 {
        lemma_first_position_below(ids.drop_last(), id);
    }
}

pub fn position_of(ids: &Vec<u128>, id: u128) -> (r: Option<usize>)
    ensures
        r == first_position(ids@, id),
{
    let mut i: usize = 0;
    assert(ids@.take(0) =~= Seq::<u128>::empty());
    while i < ids.len()
        invariant
            i <= ids@.len(),
            first_position(ids@.take(i as int), id) is None,
        decreases ids@.len() - i,
    {
        assert(ids@.take(i + 1).drop_last() =~= ids@.take(i as int));
        if ids[i] == id {
            proof {
                lemma_first_position_prefix(ids@, (i + 1) as int, id);
            }
            return Some(i);
        }
        i = i + 1;
    }
    assert(ids@.take(ids@.len() as int) =~= ids@);
    None
}

/// The first position within a prefix is the first position in the whole.
proof fn lemma_first_position_prefix(ids: Seq<u128>, n: int, id: u128)
    requires
        0 <= n <= ids.len(),
        first_position(ids.take(n), id) is Some,
    ensures
        first_position(ids, id) == first_position(ids.take(n), id),
    decreases ids.len() - n,
{
    if n < ids.len() {
        assert(ids.take(n + 1).drop_last() =~= ids.take(n));
        lemma_first_position_prefix(ids, n + 1, id);
    } else {
        assert(ids.take(n) =~= ids);
    }
}

/// Each preview keyed by the first position of its id among `ids`.
pub open spec fn keyed_by_position(previews: Seq<RecipePreview>, ids: Seq<u128>) -> Seq<(Option<usize>, RecipePreview)> {
    previews.map_values(|p: RecipePreview| (first_position(ids, p.id), p))
}

/// The previews in the order of `ids`: those whose id is not among `ids`
/// first, then by the first position of their id, equal ids keeping their
/// order (a stable sort by position).
pub open spec fn in_id_order(previews: Seq<RecipePreview>, ids: Seq<u128>) -> Seq<RecipePreview> {
    ordered_by_key(keyed_by_position(previews, ids), ids.len()).map_values(
        |x: (Option<usize>, RecipePreview)| x.1,
    )
}

/// Sorts previews back into the order of the ids they were asked for.
pub fn order_previews_by_ids(previews: Vec<RecipePreview>, ids: &Vec<u128>) -> (r: Vec<RecipePreview>)
    ensures
        r@ == in_id_order(previews@, ids@),
{
    let ghost src = previews@;
    let mut keyed: Vec<(Option<usize>, RecipePreview)> = Vec::new();
    for p in it: previews.into_iter()
        invariant
            it.seq() == src,
            keyed@ == keyed_by_position(src.take(it.index() as int), ids@),
            keys_below(keyed@, ids@.len()),
    {
        let pos = position_of(ids, p.id);
        proof {
            lemma_first_position_below(ids@, p.id);
        }
        let ghost before = keyed@;
        keyed.push((pos, p));
        assert(src.take(it.index() + 1) =~= src.take(it.index() as int).push(p));
        assert(keyed@ =~= keyed_by_position(src.take(it.index() + 1), ids@));
    }
    assert(src.take(src.len() as int) =~= src);
    let ordered = order_by_key(keyed, ids.len());
    let ghost o = ordered@;
    let mut r: Vec<RecipePreview> = Vec::new();
    for x in it: ordered.into_iter()
        invariant
            it.seq() == o,
            r@ == o.take(it.index() as int).map_values(|x: (Option<usize>, RecipePreview)| x.1),
    {
        r.push(x.1);
        assert(o.take(it.index() + 1) =~= o.take(it.index() as int).push(x));
        assert(r@ =~= o.take(it.index() + 1).map_values(|x: (Option<usize>, RecipePreview)| x.1));
    }
    assert(o.take(o.len() as int) =~= o);
    r
}

/// Where the popular recipes come from.
pub enum PopularSource {
    /// Yesterday's most viewed ids: read their previews, then put them in
    /// the order of `ids` with `order_previews_by_ids`.
    MostViewed { ids: Vec<u128> },
    /// No views were counted: read `limit` random previews.
    Random { limit: usize },
}

/// The source of the popular recipes, from yesterday's most viewed ids.
pub fn popular_source(most_viewed: Option<Vec<u128>>, limit: usize) -> (r: PopularSource)
    ensures
        most_viewed matches Some(ids) ==> r == (PopularSource::MostViewed { ids }),
        most_viewed is None ==> r == (PopularSource::Random { limit }),
{
    match most_viewed {
        Some(ids) => PopularSource::MostViewed { ids },
        None => PopularSource::Random { limit },
    }
}

/// What a lookup of a recipe does after reading the cache.
pub enum RecipeLookup {
    /// The cache held the recipe.
    Cached(Recipe),
    /// Read the recipe from the database, and answer with `after_database`.
    ReadDatabase,
}

pub fn after_recipe_cache(cached: Option<Recipe>) -> (r: RecipeLookup)
    ensures
        cached matches Some(rec) ==> r == RecipeLookup::Cached(rec),
        cached is None ==> r is ReadDatabase,
{
    match cached {
        Some(rec) => RecipeLookup::Cached(rec),
        None => RecipeLookup::ReadDatabase,
    }
}

/// What a lookup does after reading the database: a recipe found is cached
/// under the id asked for, for `RECIPE_CACHE_TTL_SECS`.
pub enum RecipeFill {
    CacheThenAnswer { key: String, ttl_secs: u64, recipe: Recipe },
    NotFound,
}

pub fn after_database(id: u128, found: Option<Recipe>) -> (r: RecipeFill)
    ensures
        found matches Some(rec) ==> r matches RecipeFill::CacheThenAnswer { key, ttl_secs, recipe }
            && key@ == recipe_key(id) && ttl_secs == RECIPE_CACHE_TTL_SECS && recipe == rec,
        found is None ==> r is NotFound,
{
    match found {
        Some(rec) => RecipeFill::CacheThenAnswer { key: recipe_cache_key(id), ttl_secs: RECIPE_CACHE_TTL_SECS, recipe: rec },
        None => RecipeFill::NotFound,
    }
}

/// The recipe whose view is counted after a lookup: the one found, if any.
pub fn viewed_recipe(found: &Option<Recipe>) -> (r: Option<u128>)
    ensures
        found matches Some(rec) ==> r == Some(rec.id),
        found is None ==> r is None,
{
    match found {
        Some(rec) => Some(rec.id),
        None => None,
    }
}

/// Checks a new recipe: its name, then its instructions, must not be blank.
pub fn validate_new_recipe(input: &CreateRecipeInput) -> (r: Result<(), UseCaseError>)
    ensures
        trimmed(input.name@).len() == 0 ==> r matches Err(UseCaseError::EmptyName),
        trimmed(input.name@).len() > 0 && trimmed(input.instructions@).len() == 0 ==> r matches Err(
            UseCaseError::EmptyInstructions,
        ),
        trimmed(input.name@).len() > 0 && trimmed(input.instructions@).len() > 0 ==> r is Ok,
{
    if trim(input.name.as_str()).as_str().is_empty() {
        return Err(UseCaseError::EmptyName);
    }
    if trim(input.instructions.as_str()).as_str().is_empty() {
        return Err(UseCaseError::EmptyInstructions);
    }
    Ok(())
}

/// `d` stores what `input` gives.
pub open spec fn stored_as(input: CreateRecipeInput, d: CreateRecipeData) -> bool {
    &&& d.name == input.name
    &&& d.description == input.description
    &&& d.tags == input.tags
    &&& d.ingredients == input.ingredients
    &&& d.instructions == input.instructions
    &&& d.thumbnail_url == input.thumbnail_url
    &&& d.created_by == input.created_by
}

/// A recipe stored as an input gives keeps every field of the input: its
/// name, description, tags, ingredients with their measures, instructions,
/// picture and author.
pub proof fn lemma_stored_keeps_input(input: CreateRecipeInput, d: CreateRecipeData)
    requires
        stored_as(input, d),
    ensures
        d.name@ == input.name@,
        d.description == input.description,
        d.tags@ == input.tags@,
        d.ingredients@ == input.ingredients@,
        d.ingredients.entries() == input.ingredients.entries(),
        d.instructions@ == input.instructions@,
        d.thumbnail_url == input.thumbnail_url,
        d.created_by == input.created_by,
{
}

/// A checked new recipe as it is stored, under id `id`.
pub fn create_recipe_data(input: CreateRecipeInput, id: u128) -> (d: CreateRecipeData)
    ensures
        d.id == id,
        stored_as(input, d),
        d.name@ == input.name@,
        d.description == input.description,
        d.tags@ == input.tags@,
        d.ingredients@ == input.ingredients@,
        d.ingredients.entries() == input.ingredients.entries(),
        d.instructions@ == input.instructions@,
        d.thumbnail_url == input.thumbnail_url,
        d.created_by == input.created_by,
{
    CreateRecipeData {
        id,
        name: input.name,
        description: input.description,
        tags: input.tags,
        ingredients: input.ingredients,
        instructions: input.instructions,
        thumbnail_url: input.thumbnail_url,
        created_by: input.created_by,
    }
}

/// A new recipe, checked, with a fresh id.
pub fn prepare_new_recipe(input: CreateRecipeInput) -> (r: Result<CreateRecipeData, UseCaseError>)
    ensures
        trimmed(input.name@).len() == 0 ==> r matches Err(UseCaseError::EmptyName),
        trimmed(input.name@).len() > 0 && trimmed(input.instructions@).len() == 0 ==> r matches Err(
            UseCaseError::EmptyInstructions,
        ),
        trimmed(input.name@).len() > 0 && trimmed(input.instructions@).len() > 0 ==> (r matches Ok(d)
            && stored_as(input, d)),
        r matches Ok(d) ==> d.name@ == input.name@ && d.description == input.description && d.tags@
            == input.tags@ && d.ingredients@ == input.ingredients@ && d.ingredients.entries()
            == input.ingredients.entries() && d.instructions@ == input.instructions@ && d.thumbnail_url
            == input.thumbnail_url && d.created_by == input.created_by,
{
    match validate_new_recipe(&input) {
        Err(e) => Err(e),
        Ok(()) => Ok(create_recipe_data(input, new_id())),
    }
}

} // verus!
