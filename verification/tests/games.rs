use business::features::game::domain::{Company, CompanyRole, Game, GameCompany, Genre, Platform, PopularGameItem};
use business::features::game::igdb::{
    game_details_body, game_from_igdb, games_count_url, games_url, normalize_cover_url, popular_games_body,
    popular_games_count_body, popular_games_from_igdb, IgdbCompanyResponse, IgdbCountResponse, IgdbCoverResponse,
    IgdbGameResponse, IgdbGenreResponse, IgdbInvolvedCompanyResponse, IgdbPopularGameResponse,
};
use business::features::game::input::UseCaseError;
use business::features::game::output::{ExternalRepositoryError, InternalRepositoryError};
use business::features::game::postgres::{lookup_company, ExternalIdMappingDbRow, GenreDbRow, PopularGameItemDbRow};
use business::features::game::service::{after_external_popular, after_internal_popular, PopularGamesStep};
use business::features::game::sync::{GameSync, GameSyncReply, GameSyncStep};
use business::features::platform::igdb::{platforms_body, platforms_from_igdb, platforms_url, IgdbPlatformResponse};
use business::features::platform::postgres::{platform_columns, PlatformDbRow};

fn s(x: &str) -> String {
    x.to_string()
}

fn item(id: u64) -> PopularGameItem {
    PopularGameItem { id: None, external_id: id, name: s("g"), cover_url: None }
}

#[test]
fn popular_games_from_the_api() {
    match after_external_popular(Ok((vec![item(1), item(2)], 40)), 2, 0) {
        Ok(PopularGamesStep::Done(r)) => {
            assert_eq!(r.games.len(), 2);
            assert_eq!(r.total_count, 40);
            assert!(!r.from_internal);
        },
        _ => panic!(),
    }
}

#[test]
fn popular_games_fall_back_to_the_database_when_the_api_is_unreachable() {
    match after_external_popular(Err(ExternalRepositoryError::VideogameApi(s("timeout"))), 5, 10) {
        Ok(PopularGamesStep::ReadInternal { limit, offset }) => assert_eq!((limit, offset), (5, 10)),
        _ => panic!(),
    }
    let r = after_internal_popular(Ok((vec![item(3)], 1))).unwrap();
    assert!(r.from_internal);
    assert_eq!(r.total_count, 1);
    assert!(matches!(
        after_internal_popular(Err(InternalRepositoryError::Internal(s("db")))),
        Err(UseCaseError::Internal(m)) if m == "db"
    ));
    assert!(matches!(
        after_external_popular(Err(ExternalRepositoryError::Internal(s("bug"))), 5, 10),
        Err(UseCaseError::Internal(m)) if m == "bug"
    ));
}

#[test]
fn game_error_messages() {
    assert_eq!(
        UseCaseError::from_external(ExternalRepositoryError::VideogameApi(s("x"))).message(),
        "External error in Videogame API (Game Service): x"
    );
    assert_eq!(UseCaseError::from_internal(InternalRepositoryError::Internal(s("y"))).message(), "Game service: y.");
}

#[test]
fn igdb_queries() {
    assert_eq!(games_url(), "https://api.igdb.com/v4/games");
    assert_eq!(games_count_url(), "https://api.igdb.com/v4/games/count");
    assert_eq!(popular_games_body(20, 40), "fields name, cover.url; sort popularity desc; limit 20; offset 40;");
    assert_eq!(popular_games_count_body(), "sort popularity desc;");
    assert!(game_details_body(1942).ends_with("where id = 1942;"));
    assert_eq!(platforms_url(), "https://api.igdb.com/v4/platforms");
    assert!(!platforms_body().is_empty());
}

#[test]
fn covers_get_a_scheme() {
    assert_eq!(normalize_cover_url(s("//images.igdb.com/a.jpg")), "https://images.igdb.com/a.jpg");
    assert_eq!(normalize_cover_url(s("https://x/a.jpg")), "https://x/a.jpg");
}

#[test]
fn popular_games_of_the_api_answer() {
    let items = vec![
        IgdbPopularGameResponse { id: 1, name: s("A"), cover: Some(IgdbCoverResponse { id: 9, url: s("//c/1.jpg") }) },
        IgdbPopularGameResponse { id: 2, name: s("B"), cover: None },
    ];
    let (games, total) = popular_games_from_igdb(items, IgdbCountResponse { count: 77 });
    assert_eq!(total, 77);
    assert_eq!(games[0].cover_url, Some(s("https://c/1.jpg")));
    assert_eq!(games[0].id, None);
    assert_eq!(games[1].external_id, 2);
    assert_eq!(games[1].cover_url, None);
}

fn igdb_game() -> IgdbGameResponse {
    IgdbGameResponse {
        id: 1942,
        name: s("Witcher"),
        platforms: Some(vec![6, 48]),
        first_release_date: Some(1_431_993_600),
        cover: Some(IgdbCoverResponse { id: 1, url: s("//c.jpg") }),
        genres: Some(vec![IgdbGenreResponse { id: 12, name: s("RPG") }]),
        involved_companies: Some(vec![IgdbInvolvedCompanyResponse {
            id: 3,
            company: IgdbCompanyResponse { id: 908, name: s("CD Projekt") },
            publisher: true,
            developer: true,
        }]),
        rating_bits: Some(93.5f64.to_bits()),
        aggregated_rating_bits: None,
        total_rating_count: Some(100),
        summary: None,
    }
}

#[test]
fn a_game_of_the_api() {
    let g = game_from_igdb(igdb_game());
    assert_eq!(g.external_id, Some(1942));
    assert_eq!(g.first_release_date, Some(1_431_993_600_000_000));
    assert_eq!(g.cover_url, Some(s("https://c.jpg")));
    assert_eq!(g.platforms.len(), 2);
    assert_eq!(g.platforms[1].external_id, Some(48));
    assert_eq!(g.genres[0].name, "RPG");
    assert_eq!(f64::from_bits(g.rating_bits.unwrap()), 93.5);
    let roles: Vec<CompanyRole> = g.companies.iter().map(|c| c.role).collect();
    assert_eq!(roles.len(), 2);
    assert!(roles.contains(&CompanyRole::Developer) && roles.contains(&CompanyRole::Publisher));
}

#[test]
fn release_dates_within_chrono_range() {
    let date = |secs: i64| {
        let mut g = igdb_game();
        g.first_release_date = Some(secs);
        game_from_igdb(g).first_release_date
    };
    assert_eq!(date(0), Some(0));
    assert_eq!(date(8_210_266_876_799), Some(8_210_266_876_799_000_000));
    assert_eq!(date(8_210_266_876_800), None);
    assert_eq!(date(-8_334_601_228_800), Some(-8_334_601_228_800_000_000));
    assert_eq!(date(-8_334_601_228_801), None);
    assert_eq!(date(i64::MAX), None);
    assert_eq!(date(i64::MIN), None);
}

#[test]
fn platforms_of_the_api() {
    let p = platforms_from_igdb(vec![IgdbPlatformResponse { id: 6, name: s("PC"), generation: Some(8) }]);
    assert_eq!(p[0].external_id, Some(6));
    assert_eq!(p[0].name, "PC");
    assert_eq!(p[0].generation, Some(8));
    let c = platform_columns(&p);
    assert_eq!(c.external_ids, vec![Some(6)]);
    assert_eq!(c.generations, vec![Some(8)]);
    let back = business::features::platform::domain::Platform::from_row(PlatformDbRow {
        id: 1,
        external_id: Some(6),
        platform_name: s("PC"),
        generation: Some(8),
    });
    assert_eq!(back.external_id, Some(6));
}

#[test]
fn rows_of_games() {
    let g = Genre::from_row(GenreDbRow { id: 1, external_id: Some(12), genre_name: s("RPG") });
    assert_eq!(g.external_id, Some(12));
    let p = PopularGameItem::from_row(PopularGameItemDbRow {
        id: 5,
        external_id: None,
        game_name: s("X"),
        cover_url: None,
    });
    assert_eq!(p.id, Some(5));
    assert_eq!(p.external_id, 0);
    let rows = vec![
        ExternalIdMappingDbRow { id: 1, external_id: 908 },
        ExternalIdMappingDbRow { id: 2, external_id: 908 },
    ];
    assert_eq!(lookup_company(&rows, 908), Some(2));
    assert_eq!(lookup_company(&rows, 1), None);
}

fn game() -> Game {
    Game {
        id: 77,
        external_id: Some(1942),
        name: s("Witcher"),
        first_release_date: None,
        cover_url: None,
        rating_bits: None,
        aggregated_rating_bits: None,
        total_rating_count: None,
        summary: None,
        platforms: vec![Platform { id: 0, external_id: Some(6), name: s(""), generation: None }],
        genres: vec![Genre { id: 5, external_id: Some(12), name: s("RPG") }],
        companies: vec![GameCompany {
            company: Company { id: 9, external_id: Some(908), name: s("CDP") },
            role: CompanyRole::Developer,
        }],
    }
}

#[test]
fn a_game_syncs_statement_by_statement() {
    let g = game();
    let (mut sync, step) = GameSync::start(&g);
    match step {
        GameSyncStep::UpsertGenres(c) => assert_eq!(c.external_ids, vec![12]),
        _ => panic!("genres first"),
    }
    match sync.advance(&g, GameSyncReply::GenreIds(vec![500])) {
        GameSyncStep::UpsertCompanies(c) => assert_eq!(c.external_ids, vec![908]),
        _ => panic!("companies next"),
    }
    match sync.advance(&g, GameSyncReply::Executed) {
        GameSyncStep::LookupCompanies { external_ids } => assert_eq!(external_ids, vec![908]),
        _ => panic!("company lookup next"),
    }
    match sync.advance(&g, GameSyncReply::CompanyIds(vec![ExternalIdMappingDbRow { id: 600, external_id: 908 }])) {
        GameSyncStep::LookupPlatforms { external_ids } => assert_eq!(external_ids, vec![6]),
        _ => panic!("platform lookup next"),
    }
    match sync.advance(&g, GameSyncReply::PlatformIds(vec![700])) {
        GameSyncStep::UpsertGame { id, external_id, platform_ids } => {
            assert_eq!((id, external_id, platform_ids), (77, Some(1942), vec![700]));
        },
        _ => panic!("game upsert next"),
    }
    match sync.advance(&g, GameSyncReply::GameId(800)) {
        GameSyncStep::ClearGenres { game_id } => assert_eq!(game_id, 800),
        _ => panic!("clear genres next"),
    }
    match sync.advance(&g, GameSyncReply::Executed) {
        GameSyncStep::LinkGenres { game_id, genre_ids } => assert_eq!((game_id, genre_ids), (800, vec![500])),
        _ => panic!("link genres next"),
    }
    assert!(matches!(sync.advance(&g, GameSyncReply::Executed), GameSyncStep::ClearCompanies { game_id: 800 }));
    match sync.advance(&g, GameSyncReply::Executed) {
        GameSyncStep::LinkCompanies { game_id, links } => {
            assert_eq!(game_id, 800);
            assert_eq!(links.company_ids, vec![600]);
            assert_eq!(links.roles, vec![s("developer")]);
        },
        _ => panic!("link companies next"),
    }
    assert!(matches!(sync.advance(&g, GameSyncReply::Executed), GameSyncStep::Commit));
    assert!(matches!(sync.advance(&g, GameSyncReply::Executed), GameSyncStep::Finished { game_id: 800 }));
}
