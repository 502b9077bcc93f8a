use toornament::{
    decimal, join, match_filter, tournament_participants, tournament_videos, CreateDateSortFilter,
    Date, DateSortFilter, DisciplineId, Endpoint, GameNumber, MatchFilter, MatchId,
    ParticipantId, PermissionId, TournamentId, TournamentParticipantsFilter,
    TournamentVideosFilter, VideoCategory,
};

fn tid(s: &str) -> TournamentId {
    TournamentId(s.to_owned())
}

fn mid(s: &str) -> MatchId {
    MatchId(s.to_owned())
}

#[test]
fn test_match_filter_to_get_string() {
    let f = MatchFilter::default().featured(true).has_result(true).page(2i64);
    assert_eq!(
        match_filter(f),
        "featured=1&has_result=1&sort=date_asc&with_games=0&page=2"
    );
}

#[test]
fn match_filter_default_query() {
    assert_eq!(match_filter(MatchFilter::default()), "sort=date_asc&with_games=0&page=1");
}

#[test]
fn match_filter_every_parameter() {
    let f = MatchFilter::default()
        .featured(false)
        .has_result(false)
        .sort(DateSortFilter::DateDescending)
        .participant_id(ParticipantId("p1".to_owned()))
        .tournament_ids(vec![tid("a"), tid("b"), tid("c")])
        .with_games(true)
        .before_date(Date::from_ymd_opt(2017, 3, 9).unwrap())
        .after_date(Date::from_ymd_opt(5, 12, 31).unwrap())
        .page(-3);
    assert_eq!(
        match_filter(f),
        "featured=0&has_result=0&sort=date_desc&participant_id=p1&tournament_ids=a,b,c\
         &with_games=1&before_date=2017-03-09&after_date=0005-12-31&page=-3"
    );
}

#[test]
fn match_filter_without_sort_or_page() {
    let mut f = MatchFilter::default();
    f.sort = None;
    f.page = None;
    assert_eq!(match_filter(f), "with_games=0");
}

#[test]
fn participants_filter_query() {
    assert_eq!(
        tournament_participants(TournamentParticipantsFilter::default()),
        "with_lineup=0&with_custom_fields=0&sort=date_asc&page=1"
    );
    let f = TournamentParticipantsFilter::default()
        .with_lineup(true)
        .with_custom_fields(true)
        .sort(DateSortFilter::DateDescending)
        .page(12);
    assert_eq!(
        tournament_participants(f),
        "with_lineup=1&with_custom_fields=1&sort=date_desc&page=12"
    );
}

#[test]
fn videos_filter_query() {
    assert_eq!(tournament_videos(TournamentVideosFilter::default()), "sort=created_asc");
    let f = TournamentVideosFilter::default()
        .category(VideoCategory::Replay)
        .sort(CreateDateSortFilter::CreatedDescending)
        .page(4);
    assert_eq!(tournament_videos(f), "category=replay&sort=created_desc&page=4");
    let h = TournamentVideosFilter::default().category(VideoCategory::Highlight);
    assert_eq!(tournament_videos(h), "category=hightlight&sort=created_asc");
}

#[test]
fn endpoint_addresses_without_parameters() {
    assert_eq!(Endpoint::OauthToken.url(), "https://api.toornament.com/oauth/v2/token");
    assert_eq!(Endpoint::AllDisciplines.url(), "https://api.toornament.com/v1/disciplines");
    assert_eq!(Endpoint::MyTournaments.url(), "https://api.toornament.com/v1/me/tournaments");
    assert_eq!(Endpoint::TournamentCreate.url(), "https://api.toornament.com/v1/tournaments");
}

#[test]
fn endpoint_addresses_with_identities() {
    assert_eq!(
        Endpoint::DisciplineById(DisciplineId("wwe2k17".to_owned())).url(),
        "https://api.toornament.com/v1/disciplines/wwe2k17"
    );
    assert_eq!(
        Endpoint::AllTournaments { with_streams: true }.url(),
        "https://api.toornament.com/v1/tournaments?with_streams=1"
    );
    assert_eq!(
        Endpoint::TournamentByIdGet { tournament_id: tid("1"), with_streams: false }.url(),
        "https://api.toornament.com/v1/tournaments/1?with_streams=0"
    );
    assert_eq!(
        Endpoint::TournamentByIdUpdate(tid("1")).url(),
        "https://api.toornament.com/v1/tournaments/1"
    );
    assert_eq!(
        Endpoint::MatchesByTournament { tournament_id: tid("1"), with_games: true }.url(),
        "https://api.toornament.com/v1/tournaments/1/matches?with_games=1"
    );
    assert_eq!(
        Endpoint::MatchByIdGet { tournament_id: tid("1"), match_id: mid("2"), with_games: false }
            .url(),
        "https://api.toornament.com/v1/tournaments/1/matches/2?with_games=0"
    );
    assert_eq!(
        Endpoint::MatchByIdUpdate { tournament_id: tid("1"), match_id: mid("2") }.url(),
        "https://api.toornament.com/v1/tournaments/1/matches/2"
    );
    assert_eq!(
        Endpoint::MatchResult(tid("1"), mid("2")).url(),
        "https://api.toornament.com/v1/tournaments/1/matches/2/result"
    );
    assert_eq!(
        Endpoint::ParticipantById(tid("1"), ParticipantId("3".to_owned())).url(),
        "https://api.toornament.com/v1/tournaments/1/participants/3"
    );
    assert_eq!(
        Endpoint::PermissionById(tid("1"), PermissionId("4".to_owned())).url(),
        "https://api.toornament.com/v1/tournaments/1/permissions/4"
    );
    assert_eq!(
        Endpoint::Permissions(tid("1")).url(),
        "https://api.toornament.com/v1/tournaments/1/permissions"
    );
    assert_eq!(Endpoint::Stages(tid("1")).url(), "https://api.toornament.com/v1/tournaments/1/stages");
    assert_eq!(
        Endpoint::ParticipantCreate(tid("1")).url(),
        "https://api.toornament.com/v1/tournaments/1/participants"
    );
    assert_eq!(
        Endpoint::ParticipantsUpdate(tid("1")).url(),
        "https://api.toornament.com/v1/tournaments/1/participants"
    );
}

#[test]
fn endpoint_addresses_of_games() {
    assert_eq!(
        Endpoint::MatchGames { tournament_id: tid("1"), match_id: mid("2"), with_stats: true }
            .url(),
        "https://api.toornament.com/v1/tournaments/1/matches/2/games?with_stats=1"
    );
    assert_eq!(
        Endpoint::MatchGameByNumberGet {
            tournament_id: tid("1"),
            match_id: mid("2"),
            game_number: GameNumber(3),
            with_stats: false,
        }
        .url(),
        "https://api.toornament.com/v1/tournaments/1/matches/2/games/3?with_stats=0"
    );
    assert_eq!(
        Endpoint::MatchGameByNumberUpdate {
            tournament_id: tid("1"),
            match_id: mid("2"),
            game_number: GameNumber(10),
        }
        .url(),
        "https://api.toornament.com/v1/tournaments/1/matches/2/games/10"
    );
    assert_eq!(
        Endpoint::MatchGameResultGet {
            tournament_id: tid("1"),
            match_id: mid("2"),
            game_number: GameNumber(7),
        }
        .url(),
        "https://api.toornament.com/v1/tournaments/1/matches/2/games/7/result"
    );
    assert_eq!(
        Endpoint::MatchGameResultUpdate {
            tournament_id: tid("1"),
            match_id: mid("2"),
            game_number: GameNumber(7),
            update_match: true,
        }
        .url(),
        "https://api.toornament.com/v1/tournaments/1/matches/2/games/7/result?update_match=1"
    );
}

#[test]
fn endpoint_addresses_with_filters() {
    assert_eq!(
        Endpoint::MatchesByDiscipline {
            discipline_id: DisciplineId("d".to_owned()),
            filter: MatchFilter::default().featured(true),
        }
        .url(),
        "https://api.toornament.com/v1/disciplines/d/matches?featured=1&sort=date_asc&with_games=0&page=1"
    );
    assert_eq!(
        Endpoint::Participants {
            tournament_id: tid("1"),
            filter: TournamentParticipantsFilter::default(),
        }
        .url(),
        "https://api.toornament.com/v1/tournaments/1/participants?with_lineup=0&with_custom_fields=0&sort=date_asc&page=1"
    );
    assert_eq!(
        Endpoint::Videos { tournament_id: tid("1"), filter: TournamentVideosFilter::default() }
            .url(),
        "https://api.toornament.com/v1/tournaments/1/videos?sort=created_asc"
    );
}

#[test]
fn decimal_text_of_edge_values() {
    assert_eq!(decimal(0), "0");
    assert_eq!(decimal(9), "9");
    assert_eq!(decimal(10), "10");
    assert_eq!(decimal(-7), "-7");
    assert_eq!(decimal(i64::MAX), "9223372036854775807");
    assert_eq!(decimal(i64::MIN), "-9223372036854775808");
}

#[test]
fn join_with_separator() {
    assert_eq!(join(&vec![], "&"), "");
    assert_eq!(join(&vec!["a".to_owned()], "&"), "a");
    assert_eq!(join(&vec!["a".to_owned(), "".to_owned(), "c".to_owned()], ", "), "a, , c");
}

#[test]
fn dates_follow_the_calendar() {
    assert!(Date::from_ymd_opt(2016, 2, 29).is_some());
    assert!(Date::from_ymd_opt(2000, 2, 29).is_some());
    assert!(Date::from_ymd_opt(1900, 2, 29).is_none());
    assert!(Date::from_ymd_opt(2017, 2, 29).is_none());
    assert!(Date::from_ymd_opt(2017, 4, 31).is_none());
    assert!(Date::from_ymd_opt(2017, 13, 1).is_none());
    assert!(Date::from_ymd_opt(2017, 1, 0).is_none());
    assert!(Date::from_ymd_opt(262144, 1, 1).is_none());
    assert!(Date::from_ymd_opt(-262144, 1, 1).is_some());
    let d = Date::from_ymd_opt(-4, 2, 29).unwrap();
    assert_eq!((d.year(), d.month(), d.day()), (-4, 2, 29));
}

#[test]
fn dates_in_query_strings() {
    let text = |y: i32, m: u32, d: u32| {
        let f = MatchFilter::default().before_date(Date::from_ymd_opt(y, m, d).unwrap());
        match_filter(f)
    };
    assert_eq!(text(2015, 9, 6), "sort=date_asc&with_games=0&before_date=2015-09-06&page=1");
    assert_eq!(text(0, 1, 1), "sort=date_asc&with_games=0&before_date=0000-01-01&page=1");
    assert_eq!(text(-1, 1, 1), "sort=date_asc&with_games=0&before_date=-0001-01-01&page=1");
    assert_eq!(text(12345, 10, 10), "sort=date_asc&with_games=0&before_date=+12345-10-10&page=1");
}
