//! The sync of a game from the videogame API into the database, as the
//! sequence of statements of one transaction.
//!
//! The genres are upserted, then the distinct companies; the companies' and
//! the platforms' internal ids are looked up by external id; the game is
//! upserted with its platforms; its genre and company links are replaced; the
//! transaction is committed. Statements with nothing to write are skipped.

use vstd::prelude::*;

use super::domain::Game;
use super::postgres::{
    company_ext_ids, company_link_columns, company_links, ext_or_zero, genre_columns, known_ext_ids,
    platform_ext_ids, unique_companies, unique_company_columns, CompanyColumns, CompanyLinkColumns,
    ExternalIdMappingDbRow, GenreColumns,
};
use super::domain::{GameCompany, Platform};

verus! {

/// Where a sync stands: the statement whose answer it waits for.
#[derive(Debug, Clone, Copy, PartialEq, Eq, Structural)]
pub enum SyncPhase {
    UpsertingGenres,
    UpsertingCompanies,
    LookingUpCompanies,
    LookingUpPlatforms,
    UpsertingGame,
    ClearingGenres,
    LinkingGenres,
    ClearingCompanies,
    LinkingCompanies,
    Committing,
    Finished,
}

/// The next statement of a sync.
pub enum GameSyncStep {
    /// Upsert the genres; answered with their internal ids.
    UpsertGenres(GenreColumns),
    /// Upsert the distinct companies.
    UpsertCompanies(CompanyColumns),
    /// Look up companies by external id; answered with id mapping rows.
    LookupCompanies { external_ids: Vec<i32> },
    /// Look up platforms by external id; answered with their internal ids.
    LookupPlatforms { external_ids: Vec<i32> },
    /// Upsert the game (with its name, date, cover and summary) linked to the
    /// platforms; answered with the game's internal id.
    UpsertGame { id: u128, external_id: Option<i64>, platform_ids: Vec<u128> },
    /// Remove the game's genre links.
    ClearGenres { game_id: u128 },
    /// Link the game to genres.
    LinkGenres { game_id: u128, genre_ids: Vec<u128> },
    /// Remove the game's company links.
    ClearCompanies { game_id: u128 },
    /// Link the game to companies with roles.
    LinkCompanies { game_id: u128, links: CompanyLinkColumns },
    /// Commit the transaction.
    Commit,
    /// The sync is done; the game's internal id.
    Finished { game_id: u128 },
}

/// The answer to a statement.
pub enum GameSyncReply {
    /// A statement without rows was executed.
    Executed,
    GenreIds(Vec<u128>),
    CompanyIds(Vec<ExternalIdMappingDbRow>),
    PlatformIds(Vec<u128>),
    GameId(u128),
}

/// The game's external id as the database stores it (`as i64`).
pub open spec fn game_ext_id(game: Game) -> Option<i64> {
    match game.external_id {
        Some(e) => Some(e as i64),
        None => None,
    }
}

/// The first statement of a sync from the companies on.
pub open spec fn phase_from_companies(game: Game) -> SyncPhase {
    if unique_companies(game.companies@).len() > 0 {
        SyncPhase::UpsertingCompanies
    } else {
        phase_from_company_lookup(game)
    }
}

pub open spec fn phase_from_company_lookup(game: Game) -> SyncPhase {
    if known_ext_ids(company_ext_ids(game.companies@)).len() > 0 {
        SyncPhase::LookingUpCompanies
    } else {
        phase_from_platform_lookup(game)
    }
}

pub open spec fn phase_from_platform_lookup(game: Game) -> SyncPhase {
    if known_ext_ids(platform_ext_ids(game.platforms@)).len() > 0 {
        SyncPhase::LookingUpPlatforms
    } else {
        SyncPhase::UpsertingGame
    }
}

/// The first statement of a sync.
pub open spec fn first_phase(game: Game) -> SyncPhase {
    if game.genres@.len() > 0 {
        SyncPhase::UpsertingGenres
    } else {
        phase_from_companies(game)
    }
}

/// `step` is the statement of `phase` for `game`, the genre ids and company
/// mapping rows answered so far, and the game's internal id.
pub open spec fn step_of(
    step: GameSyncStep,
    phase: SyncPhase,
    game: Game,
    genre_ids: Seq<u128>,
    rows: Seq<ExternalIdMappingDbRow>,
    game_id: u128,
) -> bool {
    match phase {
        SyncPhase::UpsertingGenres => step matches GameSyncStep::UpsertGenres(c) && {
            &&& c.ids@ == game.genres@.map_values(|g: super::domain::Genre| g.id)
            &&& c.external_ids@ == game.genres@.map_values(
                |g: super::domain::Genre| ext_or_zero(g.external_id),
            )
            &&& c.names@ == game.genres@.map_values(|g: super::domain::Genre| g.name)
        },
        SyncPhase::UpsertingCompanies => step matches GameSyncStep::UpsertCompanies(c) && c.rows()
            == unique_companies(game.companies@) && c.ids@.len() == c.external_ids@.len()
            == c.names@.len(),
        SyncPhase::LookingUpCompanies => step matches GameSyncStep::LookupCompanies { external_ids }
            && external_ids@ == known_ext_ids(company_ext_ids(game.companies@)),
        SyncPhase::LookingUpPlatforms => step matches GameSyncStep::LookupPlatforms { external_ids }
            && external_ids@ == known_ext_ids(platform_ext_ids(game.platforms@)),
        SyncPhase::UpsertingGame => step matches GameSyncStep::UpsertGame { id, external_id, platform_ids }
            && id == game.id && external_id == game_ext_id(game),
        SyncPhase::ClearingGenres => step == GameSyncStep::ClearGenres { game_id },
        SyncPhase::LinkingGenres => step matches GameSyncStep::LinkGenres { game_id: g, genre_ids: ids }
            && g == game_id && ids@ == genre_ids,
        SyncPhase::ClearingCompanies => step == GameSyncStep::ClearCompanies { game_id },
        SyncPhase::LinkingCompanies => step matches GameSyncStep::LinkCompanies { game_id: g, links }
            && g == game_id && links.links() == company_links(game.companies@, rows)
            && links.company_ids@.len() == links.roles@.len(),
        SyncPhase::Committing => step == GameSyncStep::Commit,
        SyncPhase::Finished => step == GameSyncStep::Finished { game_id },
    }
}

/// The answer that a phase waits for.
pub open spec fn reply_fits(phase: SyncPhase, reply: GameSyncReply) -> bool {
    match phase {
        SyncPhase::UpsertingGenres => reply is GenreIds,
        SyncPhase::LookingUpCompanies => reply is CompanyIds,
        SyncPhase::LookingUpPlatforms => reply is PlatformIds,
        SyncPhase::UpsertingGame => reply is GameId,
        SyncPhase::Finished => false,
        _ => reply is Executed,
    }
}

/// A sync in progress.
pub struct GameSync {
    phase: SyncPhase,
    genre_ids: Vec<u128>,
    company_rows: Vec<ExternalIdMappingDbRow>,
    game_id: u128,
}

impl GameSync {
    pub closed spec fn phase(&self) -> SyncPhase {
        self.phase
    }

    /// The genre ids that the genre upsert answered (none when skipped).
    pub closed spec fn genre_ids(&self) -> Seq<u128> {
        self.genre_ids@
    }

    /// The mapping rows that the company lookup answered (none when skipped).
    pub closed spec fn company_rows(&self) -> Seq<ExternalIdMappingDbRow> {
        self.company_rows@
    }

    /// The game's internal id, once the game upsert answered.
    pub closed spec fn game_id(&self) -> u128 {
        self.game_id
    }

    /// Starts the sync of `game`, in a transaction already begun.
    pub fn start(game: &Game) -> (r: (GameSync, GameSyncStep))
        ensures
            r.0.phase() == first_phase(*game),
            r.0.genre_ids() == Seq::<u128>::empty(),
            r.0.company_rows() == Seq::<ExternalIdMappingDbRow>::empty(),
            step_of(r.1, r.0.phase(), *game, r.0.genre_ids(), r.0.company_rows(), r.0.game_id()),
            r.0.phase() == SyncPhase::UpsertingGame ==> (r.1 matches GameSyncStep::UpsertGame {
                platform_ids,
                ..
            } && platform_ids@.len() == 0),
    {
        let mut sync = GameSync {
            phase: SyncPhase::UpsertingGenres,
            genre_ids: Vec::new(),
            company_rows: Vec::new(),
            game_id: 0,
        };
        if game.genres.len() > 0 {
            let c = genre_columns(&game.genres);
            assert(c.ids@ =~= game.genres@.map_values(|g: super::domain::Genre| g.id));
            assert(c.external_ids@ =~= game.genres@.map_values(
                |g: super::domain::Genre| ext_or_zero(g.external_id),
            ));
            assert(c.names@ =~= game.genres@.map_values(|g: super::domain::Genre| g.name));
            (sync, GameSyncStep::UpsertGenres(c))
        } else {
            let step = sync.from_companies(game);
            (sync, step)
        }
    }

    fn from_companies(&mut self, game: &Game) -> (step: GameSyncStep)
        ensures
            final(self).phase() == phase_from_companies(*game),
            final(self).genre_ids() == old(self).genre_ids(),
            final(self).company_rows() == old(self).company_rows(),
            final(self).game_id() == old(self).game_id(),
            step_of(
                step,
                final(self).phase(),
                *game,
                final(self).genre_ids(),
                final(self).company_rows(),
                final(self).game_id(),
            ),
            final(self).phase() == SyncPhase::UpsertingGame ==> (step matches GameSyncStep::UpsertGame {
                platform_ids,
                ..
            } && platform_ids@.len() == 0),
    {
        let c = unique_company_columns(&game.companies);
        if c.ids.len() > 0 {
            self.phase = SyncPhase::UpsertingCompanies;
            GameSyncStep::UpsertCompanies(c)
        } else {
            self.from_company_lookup(game)
        }
    }

    fn from_company_lookup(&mut self, game: &Game) -> (step: GameSyncStep)
        ensures
            final(self).phase() == phase_from_company_lookup(*game),
            final(self).genre_ids() == old(self).genre_ids(),
            final(self).company_rows() == old(self).company_rows(),
            final(self).game_id() == old(self).game_id(),
            step_of(
                step,
                final(self).phase(),
                *game,
                final(self).genre_ids(),
                final(self).company_rows(),
                final(self).game_id(),
            ),
            final(self).phase() == SyncPhase::UpsertingGame ==> (step matches GameSyncStep::UpsertGame {
                platform_ids,
                ..
            } && platform_ids@.len() == 0),
    {
        let ext_ids = company_external_ids(&game.companies);
        let external_ids = known_ids_of(&ext_ids);
        if external_ids.len() > 0 {
            self.phase = SyncPhase::LookingUpCompanies;
            GameSyncStep::LookupCompanies { external_ids }
        } else {
            self.from_platform_lookup(game)
        }
    }

    fn from_platform_lookup(&mut self, game: &Game) -> (step: GameSyncStep)
        ensures
            final(self).phase() == phase_from_platform_lookup(*game),
            final(self).genre_ids() == old(self).genre_ids(),
            final(self).company_rows() == old(self).company_rows(),
            final(self).game_id() == old(self).game_id(),
            step_of(
                step,
                final(self).phase(),
                *game,
                final(self).genre_ids(),
                final(self).company_rows(),
                final(self).game_id(),
            ),
            final(self).phase() == SyncPhase::UpsertingGame ==> (step matches GameSyncStep::UpsertGame {
                platform_ids,
                ..
            } && platform_ids@.len() == 0),
    {
        let ext_ids = platform_external_ids(&game.platforms);
        let external_ids = known_ids_of(&ext_ids);
        if external_ids.len() > 0 {
            self.phase = SyncPhase::LookingUpPlatforms;
            GameSyncStep::LookupPlatforms { external_ids }
        } else {
            self.phase = SyncPhase::UpsertingGame;
            GameSyncStep::UpsertGame { id: game.id, external_id: game_external_id(game), platform_ids: Vec::new() }
        }
    }

    /// Takes the answer to the last statement and gives the next one.
    pub fn advance(&mut self, game: &Game, reply: GameSyncReply) -> (step: GameSyncStep)
        requires
            reply_fits(old(self).phase(), reply),
        ensures
            step_of(
                step,
                final(self).phase(),
                *game,
                final(self).genre_ids(),
                final(self).company_rows(),
                final(self).game_id(),
            ),
            old(self).phase() == SyncPhase::UpsertingGenres ==> (reply matches GameSyncReply::GenreIds(ids)
                && final(self).genre_ids() == ids@ && final(self).phase() == phase_from_companies(*game)),
            old(self).phase() == SyncPhase::UpsertingCompanies ==> final(self).phase()
                == phase_from_company_lookup(*game),
            old(self).phase() == SyncPhase::LookingUpCompanies ==> (reply matches GameSyncReply::CompanyIds(
                rows,
            ) && final(self).company_rows() == rows@ && final(self).phase() == phase_from_platform_lookup(
                *game,
            )),
            old(self).phase() == SyncPhase::LookingUpPlatforms ==> (reply matches GameSyncReply::PlatformIds(
                ids,
            ) && final(self).phase() == SyncPhase::UpsertingGame && (step matches GameSyncStep::UpsertGame {
                platform_ids,
                ..
            } && platform_ids@ == ids@)),
            old(self).phase() == SyncPhase::UpsertingGame ==> (reply matches GameSyncReply::GameId(id)
                && final(self).game_id() == id && final(self).phase() == SyncPhase::ClearingGenres),
            old(self).phase() == SyncPhase::ClearingGenres ==> final(self).phase() == (if old(
                self,
            ).genre_ids().len() > 0 {
                SyncPhase::LinkingGenres
            } else {
                SyncPhase::ClearingCompanies
            }),
            old(self).phase() == SyncPhase::LinkingGenres ==> final(self).phase()
                == SyncPhase::ClearingCompanies,
            old(self).phase() == SyncPhase::ClearingCompanies ==> final(self).phase() == (if company_links(
                game.companies@,
                old(self).company_rows(),
            ).len() > 0 {
                SyncPhase::LinkingCompanies
            } else {
                SyncPhase::Committing
            }),
            old(self).phase() == SyncPhase::LinkingCompanies ==> final(self).phase() == SyncPhase::Committing,
            old(self).phase() == SyncPhase::Committing ==> final(self).phase() == SyncPhase::Finished,
            old(self).phase() != SyncPhase::UpsertingGenres ==> final(self).genre_ids() == old(self).genre_ids(),
            old(self).phase() != SyncPhase::LookingUpCompanies ==> final(self).company_rows() == old(
                self,
            ).company_rows(),
            old(self).phase() != SyncPhase::UpsertingGame ==> final(self).game_id() == old(self).game_id(),
            final(self).phase() == SyncPhase::UpsertingGame && old(self).phase()
                != SyncPhase::LookingUpPlatforms ==> (step matches GameSyncStep::UpsertGame {
                platform_ids,
                ..
            } && platform_ids@.len() == 0),
    {
        match self.phase {
            SyncPhase::UpsertingGenres => {
                match reply {
                    GameSyncReply::GenreIds(ids) => {
                        self.genre_ids = ids;
                    },
                    _ => {},
                }
                self.from_companies(game)
            },
            SyncPhase::UpsertingCompanies => self.from_company_lookup(game),
            SyncPhase::LookingUpCompanies => {
                match reply {
                    GameSyncReply::CompanyIds(rows) => {
                        self.company_rows = rows;
                    },
                    _ => {},
                }
                self.from_platform_lookup(game)
            },
            SyncPhase::LookingUpPlatforms => {
                let platform_ids = match reply {
                    GameSyncReply::PlatformIds(ids) => ids,
                    _ => Vec::new(),
                };
                self.phase = SyncPhase::UpsertingGame;
                GameSyncStep::UpsertGame { id: game.id, external_id: game_external_id(game), platform_ids }
            },
            SyncPhase::UpsertingGame => {
                match reply {
                    GameSyncReply::GameId(id) => {
                        self.game_id = id;
                    },
                    _ => {},
                }
                self.phase = SyncPhase::ClearingGenres;
                GameSyncStep::ClearGenres { game_id: self.game_id }
            },
            SyncPhase::ClearingGenres => {
                if self.genre_ids.len() > 0 {
                    self.phase = SyncPhase::LinkingGenres;
                    GameSyncStep::LinkGenres { game_id: self.game_id, genre_ids: self.genre_ids.clone() }
                } else {
                    self.phase = SyncPhase::ClearingCompanies;
                    GameSyncStep::ClearCompanies { game_id: self.game_id }
                }
            },
            SyncPhase::LinkingGenres => {
                self.phase = SyncPhase::ClearingCompanies;
                GameSyncStep::ClearCompanies { game_id: self.game_id }
            },
            SyncPhase::ClearingCompanies => {
                let links = company_link_columns(&game.companies, &self.company_rows);
                if links.company_ids.len() > 0 {
                    self.phase = SyncPhase::LinkingCompanies;
                    GameSyncStep::LinkCompanies { game_id: self.game_id, links }
                } else {
                    self.phase = SyncPhase::Committing;
                    GameSyncStep::Commit
                }
            },
            SyncPhase::LinkingCompanies => {
                self.phase = SyncPhase::Committing;
                GameSyncStep::Commit
            },
            SyncPhase::Committing => {
                self.phase = SyncPhase::Finished;
                GameSyncStep::Finished { game_id: self.game_id }
            },
            SyncPhase::Finished => GameSyncStep::Finished { game_id: self.game_id },
        }
    }
}

fn game_external_id(game: &Game) -> (r: Option<i64>)
    ensures
        r == game_ext_id(*game),
{
    match game.external_id {
        Some(e) => Some(#[verifier::truncate] (e as i64)),
        None => None,
    }
}

fn company_external_ids(companies: &Vec<GameCompany>) -> (r: Vec<Option<u64>>)
    ensures
        r@ == company_ext_ids(companies@),
{
    let mut r: Vec<Option<u64>> = Vec::new();
    let mut i: usize = 0;
    while i < companies.len()
        invariant
            i <= companies@.len(),
            r@ == company_ext_ids(companies@.take(i as int)),
        decreases companies@.len() - i,
    {
        r.push(companies[i].company.external_id);
        assert(company_ext_ids(companies@.take(i + 1)) =~= company_ext_ids(companies@.take(i as int)).push(
            companies@[i as int].company.external_id,
        ));
        i = i + 1;
    }
    assert(companies@.take(companies@.len() as int) =~= companies@);
    r
}

fn platform_external_ids(platforms: &Vec<Platform>) -> (r: Vec<Option<u64>>)
    ensures
        r@ == platform_ext_ids(platforms@),
{
    let mut r: Vec<Option<u64>> = Vec::new();
    let mut i: usize = 0;
    while i < platforms.len()
        invariant
            i <= platforms@.len(),
            r@ == platform_ext_ids(platforms@.take(i as int)),
        decreases platforms@.len() - i,
    {
        r.push(platforms[i].external_id);
        assert(platform_ext_ids(platforms@.take(i + 1)) =~= platform_ext_ids(platforms@.take(i as int)).push(
            platforms@[i as int].external_id,
        ));
        i = i + 1;
    }
    assert(platforms@.take(platforms@.len() as int) =~= platforms@);
    r
}

fn known_ids_of(ext_ids: &Vec<Option<u64>>) -> (r: Vec<i32>)
    ensures
        r@ == known_ext_ids(ext_ids@),
{
    super::postgres::known_ids(ext_ids)
}

} // verus!
