use std::collections::BTreeSet;
use toornament::{
    CreateDateSortFilter, DateSortFilter, Discipline, DisciplineId, IterError, MatchFilter,
    MatchId, ParticipantType, Permission, PermissionAttribute, PermissionAttributes, Tournament,
    TournamentId, TournamentParticipantsFilter, TournamentStatus, TournamentVideosFilter,
    VideoCategory,
};

#[test]
fn discipline_new_sets_names_only() {
    let d = Discipline::new(
        DisciplineId("counterstrike_go".to_owned()),
        "Counter-Strike: GO",
        "CS:GO",
        "Counter-Strike: Global Offensive",
        "Valve Software",
    );
    assert_eq!(d.id, DisciplineId("counterstrike_go".to_owned()));
    assert_eq!(d.name, "Counter-Strike: GO");
    assert_eq!(d.short_name, "CS:GO");
    assert_eq!(d.full_name, "Counter-Strike: Global Offensive");
    assert_eq!(d.copyrights, "Valve Software");
    assert!(d.team_size.is_none());
    assert!(d.additional_fields.is_none());
}

#[test]
fn permission_create_has_no_id() {
    let mut set = BTreeSet::new();
    set.insert(PermissionAttribute::Edit);
    set.insert(PermissionAttribute::Report);
    let p = Permission::create("player@oxent.net", PermissionAttributes(set.clone()));
    assert!(p.id.is_none());
    assert_eq!(p.email, "player@oxent.net");
    assert_eq!(p.attributes, PermissionAttributes(set));
}

#[test]
fn sort_texts() {
    assert_eq!(DateSortFilter::DateAscending.to_string(), "date_asc");
    assert_eq!(DateSortFilter::DateDescending.to_string(), "date_desc");
    assert_eq!(CreateDateSortFilter::CreatedAscending.to_string(), "created_asc");
    assert_eq!(CreateDateSortFilter::CreatedDescending.to_string(), "created_desc");
    assert_eq!(VideoCategory::Bonus.to_string(), "bonus");
}

#[test]
fn filter_defaults() {
    let m = MatchFilter::default();
    assert!(m.featured.is_none() && m.has_result.is_none());
    assert_eq!(m.sort, Some(DateSortFilter::DateAscending));
    assert!(!m.with_games);
    assert_eq!(m.page, Some(1));
    let p = TournamentParticipantsFilter::default();
    assert!(!p.with_lineup && !p.with_custom_fields);
    assert_eq!(p.page, 1);
    let v = TournamentVideosFilter::default();
    assert!(v.category.is_none() && v.page.is_none());
    assert_eq!(v.sort, CreateDateSortFilter::CreatedAscending);
}

#[test]
fn tournament_new_sets_required_fields_only() {
    let t = Tournament::new(
        Some(TournamentId("5608fd12140ba061298b4569".to_owned())),
        DisciplineId("my_discipline".to_owned()),
        "My Weekly Tournament",
        TournamentStatus::Running,
        false,
        true,
        16,
    );
    assert_eq!(t.id, Some(TournamentId("5608fd12140ba061298b4569".to_owned())));
    assert_eq!(t.discipline, DisciplineId("my_discipline".to_owned()));
    assert_eq!(t.name, "My Weekly Tournament");
    assert_eq!(t.status, TournamentStatus::Running);
    assert!(!t.online && t.public);
    assert_eq!(t.size, 16);
    assert!(t.full_name.is_none() && t.date_start.is_none() && t.streams.is_none());
    assert!(t.participant_type.is_none() && t.match_format.is_none());
}

#[test]
fn tournament_create_defaults() {
    let t = Tournament::create(DisciplineId("d".to_owned()), "Cup", 8, ParticipantType::Single);
    assert!(t.id.is_none());
    assert_eq!(t.status, TournamentStatus::Setup);
    assert!(t.online && !t.public);
    assert_eq!(t.size, 8);
    assert_eq!(t.participant_type, Some(ParticipantType::Single));
    assert!(t.team_size_min.is_none() && t.check_in.is_none());
}

#[test]
fn iter_error_messages() {
    let t = TournamentId("1".to_owned());
    assert_eq!(
        IterError::NoSuchTournament(t.clone()).to_string(),
        "A tournament with id (1) does not exist"
    );
    assert_eq!(
        IterError::NoSuchMatch(t, MatchId("2".to_owned())).to_string(),
        "A match does not exist (tournament id = 1, match id = 2)"
    );
    assert_eq!(IterError::NoPermissionId.to_string(), "A permission does not have an id set.");
    assert_eq!(
        IterError::NoSuchDiscipline(DisciplineId("x".to_owned())).to_string(),
        "A permission with id (x) does not exist."
    );
    let blank = Tournament::create(DisciplineId("d".to_owned()), "Cup", 8, ParticipantType::Team);
    assert_eq!(
        IterError::NoTournamentId(Box::new(blank)).to_string(),
        "A tournament does not have an id set."
    );
}

#[test]
fn builders_set_one_field() {
    let t = Tournament::create(DisciplineId("d".to_owned()), "Cup", 8, ParticipantType::Team)
        .website(Some("https://toornament.com".to_owned()))
        .name("Big Cup")
        .size(32)
        .team_size_min(Some(2));
    assert_eq!(t.website, Some("https://toornament.com".to_owned()));
    assert_eq!(t.name, "Big Cup");
    assert_eq!(t.size, 32);
    assert_eq!(t.team_size_min, Some(2));
    assert_eq!(t.participant_type, Some(ParticipantType::Team));
    let d = Discipline::new(DisciplineId("a".to_owned()), "n", "s", "f", "c")
        .short_name("S2")
        .team_size(Some(toornament::TeamSize { min: 4, max: 8 }));
    assert_eq!(d.short_name, "S2");
    assert_eq!(d.name, "n");
    assert_eq!(d.team_size, Some(toornament::TeamSize { min: 4, max: 8 }));
}
