use crate::common::{date_text, Date};
use crate::disciplines::DisciplineId;
use crate::filters::{
    create_date_sort_text, date_sort_text, MatchFilter, TournamentParticipantsFilter,
    TournamentVideosFilter,
};
use crate::games::GameNumber;
use crate::matches::MatchId;
use crate::participants::ParticipantId;
use crate::permissions::PermissionId;
use crate::text::{bit_text, decimal_text, join, join_texts, push_bit, push_decimal, texts};
use crate::tournaments::TournamentId;
use crate::videos::video_category_text;
use vstd::prelude::*;

verus! {

/// The address every endpoint is under.
pub const API_BASE: &'static str = "https://api.toornament.com";

/// An API route with the parameters it needs.
#[derive(Clone, Debug)]
pub enum Endpoint {
    /// The OAuth2 token endpoint.
    OauthToken,
    /// All disciplines.
    AllDisciplines,
    /// One discipline.
    DisciplineById(DisciplineId),
    /// All public tournaments.
    AllTournaments { with_streams: bool },
    /// The tournaments of the authenticated user.
    MyTournaments,
    /// One tournament, to read.
    TournamentByIdGet { tournament_id: TournamentId, with_streams: bool },
    /// One tournament, to update or delete.
    TournamentByIdUpdate(TournamentId),
    /// Tournament creation.
    TournamentCreate,
    /// The matches of a tournament.
    MatchesByTournament { tournament_id: TournamentId, with_games: bool },
    /// The matches of a discipline, filtered.
    MatchesByDiscipline { discipline_id: DisciplineId, filter: MatchFilter },
    /// One match, to read.
    MatchByIdGet { tournament_id: TournamentId, match_id: MatchId, with_games: bool },
    /// One match, to update.
    MatchByIdUpdate { tournament_id: TournamentId, match_id: MatchId },
    /// The result of a match.
    MatchResult(TournamentId, MatchId),
    /// The games of a match.
    MatchGames { tournament_id: TournamentId, match_id: MatchId, with_stats: bool },
    /// One game of a match, to read.
    MatchGameByNumberGet {
        tournament_id: TournamentId,
        match_id: MatchId,
        game_number: GameNumber,
        with_stats: bool,
    },
    /// One game of a match, to update.
    MatchGameByNumberUpdate { tournament_id: TournamentId, match_id: MatchId, game_number: GameNumber },
    /// The result of a game, to read.
    MatchGameResultGet { tournament_id: TournamentId, match_id: MatchId, game_number: GameNumber },
    /// The result of a game, to update.
    MatchGameResultUpdate {
        tournament_id: TournamentId,
        match_id: MatchId,
        game_number: GameNumber,
        update_match: bool,
    },
    /// The participants of a tournament, filtered.
    Participants { tournament_id: TournamentId, filter: TournamentParticipantsFilter },
    /// Participant creation.
    ParticipantCreate(TournamentId),
    /// All participants of a tournament, to update.
    ParticipantsUpdate(TournamentId),
    /// One participant.
    ParticipantById(TournamentId, ParticipantId),
    /// The permissions of a tournament.
    Permissions(TournamentId),
    /// One permission.
    PermissionById(TournamentId, PermissionId),
    /// The stages of a tournament.
    Stages(TournamentId),
    /// The videos of a tournament, filtered.
    Videos { tournament_id: TournamentId, filter: TournamentVideosFilter },
}

/// A one-element sequence holding `part` when `present`, else an empty one.
pub open spec fn opt_part(present: bool, part: Seq<char>) -> Seq<Seq<char>> {
    if present {
        seq![part]
    } else {
        Seq::empty()
    }
}

/// The texts of tournament identities.
pub open spec fn tournament_id_texts(ids: Seq<TournamentId>) -> Seq<Seq<char>> {
    ids.map_values(|i: TournamentId| i.0@)
}

/// The ISO 8601 text of `d`.
pub open spec fn date_of(d: Date) -> Seq<char> {
    date_text(d.spec_year(), d.spec_month(), d.spec_day())
}

/// The query parameters of a match filter, in order.
pub open spec fn match_filter_parts(f: MatchFilter) -> Seq<Seq<char>> {
    opt_part(f.featured is Some, "featured="@ + bit_text(f.featured->0)) + opt_part(
        f.has_result is Some,
        "has_result="@ + bit_text(f.has_result->0),
    ) + opt_part(f.sort is Some, "sort="@ + date_sort_text(f.sort->0)) + opt_part(
        f.participant_id is Some,
        "participant_id="@ + (f.participant_id->0).0@,
    ) + opt_part(
        f.tournament_ids is Some,
        "tournament_ids="@ + join_texts(tournament_id_texts((f.tournament_ids->0)@), ","@),
    ) + seq!["with_games="@ + bit_text(f.with_games)] + opt_part(
        f.before_date is Some,
        "before_date="@ + date_of(f.before_date->0),
    ) + opt_part(f.after_date is Some, "after_date="@ + date_of(f.after_date->0)) + opt_part(
        f.page is Some,
        "page="@ + decimal_text((f.page->0) as int),
    )
}

/// The query string of a match filter: its parameters joined by `&`.
pub open spec fn match_filter_text(f: MatchFilter) -> Seq<char> {
    join_texts(match_filter_parts(f), "&"@)
}

/// The query string of a participants filter.
pub open spec fn tournament_participants_text(f: TournamentParticipantsFilter) -> Seq<char> {
    "with_lineup="@ + bit_text(f.with_lineup) + "&with_custom_fields="@ + bit_text(
        f.with_custom_fields,
    ) + "&sort="@ + date_sort_text(f.sort) + "&page="@ + decimal_text(f.page as int)
}

/// The query parameters of a videos filter, in order.
pub open spec fn tournament_videos_parts(f: TournamentVideosFilter) -> Seq<Seq<char>> {
    opt_part(f.category is Some, "category="@ + video_category_text(f.category->0)) + seq![
        "sort="@ + create_date_sort_text(f.sort),
    ] + opt_part(f.page is Some, "page="@ + decimal_text((f.page->0) as int))
}

/// The query string of a videos filter: its parameters joined by `&`.
pub open spec fn tournament_videos_text(f: TournamentVideosFilter) -> Seq<char> {
    join_texts(tournament_videos_parts(f), "&"@)
}

/// A text `key` followed by `1` or `0`.
fn flag_part(key: &str, b: bool) -> (r: String)
    ensures
        r@ == key@ + bit_text(b),
{
    let mut s = String::from_str(key);
    push_bit(&mut s, b);
    s
}

/// A text `key` followed by another text.
fn text_part(key: &str, value: &str) -> (r: String)
    ensures
        r@ == key@ + value@,
{
    String::from_str(key).concat(value)
}

/// A text `key` followed by the decimal text of `n`.
fn number_part(key: &str, n: i64) -> (r: String)
    ensures
        r@ == key@ + decimal_text(n as int),
{
    let mut s = String::from_str(key);
    push_decimal(&mut s, n);
    s
}

/// A text `key` followed by the ISO 8601 text of `d`.
fn date_part(key: &str, d: &Date) -> (r: String)
    ensures
        r@ == key@ + date_of(*d),
{
    let mut s = String::from_str(key);
    d.push_text(&mut s);
    s
}

/// The identities' texts joined by `,`.
fn joined_ids(ids: &Vec<TournamentId>) -> (r: String)
    ensures
        r@ == join_texts(tournament_id_texts(ids@), ","@),
{
    let mut names: Vec<String> = Vec::new();
    let mut i: usize = 0;
    while i < ids.len()
        invariant
            i <= ids@.len(),
            texts(names@) == tournament_id_texts(ids@.take(i as int)),
        decreases ids@.len() - i,
    {
        let name = ids[i].0.clone();
        let ghost before = names@;
        proof {
            assert(ids@.take(i as int + 1) =~= ids@.take(i as int).push(ids@[i as int]));
            assert(tournament_id_texts(ids@.take(i as int + 1)) =~= tournament_id_texts(
                ids@.take(i as int),
            ).push(name@));
        }
        names.push(name);
        assert(texts(names@) =~= texts(before).push(name@));
        i = i + 1;
    }
    assert(ids@.take(ids@.len() as int) =~= ids@);
    join(&names, ",")
}

/// The one-element sequence of the text of `p` if it is there, else an empty one.
pub open spec fn opt_text(p: Option<String>) -> Seq<Seq<char>> {
    opt_part(p is Some, (p->0)@)
}

/// Appends `part` to `out` if it is there.
fn push_opt(out: &mut Vec<String>, part: Option<String>)
    ensures
        texts(final(out)@) == texts(old(out)@) + opt_text(part),
{
    if let Some(p) = part {
        out.push(p);
    }
    assert(texts(final(out)@) =~= texts(old(out)@) + opt_text(part));
}

/// Appends `part` to `out`.
fn push_text(out: &mut Vec<String>, part: String)
    ensures
        texts(final(out)@) == texts(old(out)@) + seq![part@],
{
    out.push(part);
    assert(texts(final(out)@) =~= texts(old(out)@) + seq![part@]);
}

/// The query string of a match filter: each parameter that is set, in a fixed order,
/// joined by `&`; `with_games` is always there.
pub fn match_filter(f: MatchFilter) -> (r: String)
    ensures
        r@ == match_filter_text(f),
{
    query_of_match_filter(&f)
}

fn query_of_match_filter(f: &MatchFilter) -> (r: String)
    ensures
        r@ == match_filter_text(*f),
{
    let mut out: Vec<String> = Vec::new();
    let featured = match f.featured {
        Some(b) => Some(flag_part("featured=", b)),
        None => None,
    };
    push_opt(&mut out, featured);
    assert(texts(out@) =~= opt_part(f.featured is Some, "featured="@ + bit_text(f.featured->0)));
    let has_result = match f.has_result {
        Some(b) => Some(flag_part("has_result=", b)),
        None => None,
    };
    assert(opt_text(has_result) == opt_part(
        f.has_result is Some,
        "has_result="@ + bit_text(f.has_result->0),
    ));
    push_opt(&mut out, has_result);
    let sort = match f.sort {
        Some(s) => Some(text_part("sort=", s.to_string().as_str())),
        None => None,
    };
    assert(opt_text(sort) == opt_part(f.sort is Some, "sort="@ + date_sort_text(f.sort->0)));
    push_opt(&mut out, sort);
    let participant = match &f.participant_id {
        Some(i) => Some(text_part("participant_id=", i.0.as_str())),
        None => None,
    };
    assert(opt_text(participant) == opt_part(
        f.participant_id is Some,
        "participant_id="@ + (f.participant_id->0).0@,
    ));
    push_opt(&mut out, participant);
    let tournaments = match &f.tournament_ids {
        Some(ids) => Some(text_part("tournament_ids=", joined_ids(ids).as_str())),
        None => None,
    };
    assert(opt_text(tournaments) == opt_part(
        f.tournament_ids is Some,
        "tournament_ids="@ + join_texts(tournament_id_texts((f.tournament_ids->0)@), ","@),
    ));
    push_opt(&mut out, tournaments);
    push_text(&mut out, flag_part("with_games=", f.with_games));
    let before = match &f.before_date {
        Some(d) => Some(date_part("before_date=", d)),
        None => None,
    };
    assert(opt_text(before) == opt_part(
        f.before_date is Some,
        "before_date="@ + date_of(f.before_date->0),
    ));
    push_opt(&mut out, before);
    let after = match &f.after_date {
        Some(d) => Some(date_part("after_date=", d)),
        None => None,
    };
    assert(opt_text(after) == opt_part(
        f.after_date is Some,
        "after_date="@ + date_of(f.after_date->0),
    ));
    push_opt(&mut out, after);
    let page = match f.page {
        Some(p) => Some(number_part("page=", p)),
        None => None,
    };
    assert(opt_text(page) == opt_part(f.page is Some, "page="@ + decimal_text((f.page->0) as int)));
    push_opt(&mut out, page);
    join(&out, "&")
}

/// The query string of a participants filter:
/// `with_lineup=..&with_custom_fields=..&sort=..&page=..`.
pub fn tournament_participants(f: TournamentParticipantsFilter) -> (r: String)
    ensures
        r@ == tournament_participants_text(f),
{
    let mut s = String::from_str("with_lineup=");
    push_bit(&mut s, f.with_lineup);
    s.append("&with_custom_fields=");
    push_bit(&mut s, f.with_custom_fields);
    s.append("&sort=");
    s.append(f.sort.to_string().as_str());
    s.append("&page=");
    push_decimal(&mut s, f.page);
    s
}

/// The query string of a videos filter: the category if set, the sort order, and the
/// page if set, joined by `&`.
pub fn tournament_videos(f: TournamentVideosFilter) -> (r: String)
    ensures
        r@ == tournament_videos_text(f),
{
    let mut out: Vec<String> = Vec::new();
    if let Some(c) = f.category {
        out.push(text_part("category=", c.to_string().as_str()));
    }
    assert(texts(out@) =~= opt_part(
        f.category is Some,
        "category="@ + video_category_text(f.category->0),
    ));
    out.push(text_part("sort=", f.sort.to_string().as_str()));
    if let Some(p) = f.page {
        out.push(number_part("page=", p));
    }
    assert(texts(out@) =~= tournament_videos_parts(f));
    join(&out, "&")
}

/// The path and query of an endpoint, below `API_BASE`.
pub open spec fn endpoint_path(e: Endpoint) -> Seq<char> {
    match e {
        Endpoint::OauthToken => "/oauth/v2/token"@,
        Endpoint::AllDisciplines => "/v1/disciplines"@,
        Endpoint::DisciplineById(id) => "/v1/disciplines/"@ + id.0@,
        Endpoint::AllTournaments { with_streams } => "/v1/tournaments?with_streams="@ + bit_text(
            with_streams,
        ),
        Endpoint::MyTournaments => "/v1/me/tournaments"@,
        Endpoint::TournamentByIdGet { tournament_id, with_streams } => "/v1/tournaments/"@
            + tournament_id.0@ + "?with_streams="@ + bit_text(with_streams),
        Endpoint::TournamentByIdUpdate(tournament_id) => "/v1/tournaments/"@ + tournament_id.0@,
        Endpoint::TournamentCreate => "/v1/tournaments"@,
        Endpoint::MatchesByTournament { tournament_id, with_games } => "/v1/tournaments/"@
            + tournament_id.0@ + "/matches?with_games="@ + bit_text(with_games),
        Endpoint::MatchesByDiscipline { discipline_id, filter } => "/v1/disciplines/"@
            + discipline_id.0@ + "/matches?"@ + match_filter_text(filter),
        Endpoint::MatchByIdGet { tournament_id, match_id, with_games } => "/v1/tournaments/"@
            + tournament_id.0@ + "/matches/"@ + match_id.0@ + "?with_games="@ + bit_text(
            with_games,
        ),
        Endpoint::MatchByIdUpdate { tournament_id, match_id } => "/v1/tournaments/"@
            + tournament_id.0@ + "/matches/"@ + match_id.0@,
        Endpoint::MatchResult(tournament_id, match_id) => "/v1/tournaments/"@ + tournament_id.0@
            + "/matches/"@ + match_id.0@ + "/result"@,
        Endpoint::MatchGames { tournament_id, match_id, with_stats } => "/v1/tournaments/"@
            + tournament_id.0@ + "/matches/"@ + match_id.0@ + "/games?with_stats="@ + bit_text(
            with_stats,
        ),
        Endpoint::MatchGameByNumberGet { tournament_id, match_id, game_number, with_stats } =>
            "/v1/tournaments/"@ + tournament_id.0@ + "/matches/"@ + match_id.0@ + "/games/"@
            + decimal_text(game_number.0 as int) + "?with_stats="@ + bit_text(with_stats),
        Endpoint::MatchGameByNumberUpdate { tournament_id, match_id, game_number } =>
            "/v1/tournaments/"@ + tournament_id.0@ + "/matches/"@ + match_id.0@ + "/games/"@
            + decimal_text(game_number.0 as int),
        Endpoint::MatchGameResultGet { tournament_id, match_id, game_number } =>
            "/v1/tournaments/"@ + tournament_id.0@ + "/matches/"@ + match_id.0@ + "/games/"@
            + decimal_text(game_number.0 as int) + "/result"@,
        Endpoint::MatchGameResultUpdate { tournament_id, match_id, game_number, update_match } =>
            "/v1/tournaments/"@ + tournament_id.0@ + "/matches/"@ + match_id.0@ + "/games/"@
            + decimal_text(game_number.0 as int) + "/result?update_match="@ + bit_text(
            update_match,
        ),
        Endpoint::Participants { tournament_id, filter } => "/v1/tournaments/"@
            + tournament_id.0@ + "/participants?"@ + tournament_participants_text(filter),
        Endpoint::ParticipantCreate(tournament_id) => "/v1/tournaments/"@ + tournament_id.0@
            + "/participants"@,
        Endpoint::ParticipantsUpdate(tournament_id) => "/v1/tournaments/"@ + tournament_id.0@
            + "/participants"@,
        Endpoint::ParticipantById(tournament_id, participant_id) => "/v1/tournaments/"@
            + tournament_id.0@ + "/participants/"@ + participant_id.0@,
        Endpoint::Permissions(tournament_id) => "/v1/tournaments/"@ + tournament_id.0@
            + "/permissions"@,
        Endpoint::PermissionById(tournament_id, permission_id) => "/v1/tournaments/"@
            + tournament_id.0@ + "/permissions/"@ + permission_id.0@,
        Endpoint::Stages(tournament_id) => "/v1/tournaments/"@ + tournament_id.0@ + "/stages"@,
        Endpoint::Videos { tournament_id, filter } => "/v1/tournaments/"@ + tournament_id.0@
            + "/videos?"@ + tournament_videos_text(filter),
    }
}

/// The full address of an endpoint.
pub open spec fn endpoint_url(e: Endpoint) -> Seq<char> {
    API_BASE@ + endpoint_path(e)
}

/// Appends `/v1/tournaments/<id>`.
fn push_tournament(s: &mut String, id: &TournamentId)
    ensures
        final(s)@ == old(s)@ + "/v1/tournaments/"@ + id.0@,
{
    s.append("/v1/tournaments/");
    s.append(id.0.as_str());
}

/// Appends `/v1/tournaments/<id>/matches/<match id>`.
fn push_match(s: &mut String, id: &TournamentId, match_id: &MatchId)
    ensures
        final(s)@ == old(s)@ + "/v1/tournaments/"@ + id.0@ + "/matches/"@ + match_id.0@,
{
    push_tournament(s, id);
    s.append("/matches/");
    s.append(match_id.0.as_str());
}

/// Appends `/v1/tournaments/<id>/matches/<match id>/games/<number>`.
fn push_game(s: &mut String, id: &TournamentId, match_id: &MatchId, game_number: GameNumber)
    ensures
        final(s)@ == old(s)@ + "/v1/tournaments/"@ + id.0@ + "/matches/"@ + match_id.0@
            + "/games/"@ + decimal_text(game_number.0 as int),
{
    push_match(s, id, match_id);
    s.append("/games/");
    push_decimal(s, game_number.0);
}

impl Endpoint {
    /// The endpoint's full address: `API_BASE` followed by its path and query.
    #[verifier::rlimit(50)]
    pub fn url(&self) -> (r: String)
        ensures
            r@ == endpoint_url(*self),
    {
        let mut s = String::from_str(API_BASE);
        let ghost base = s@;
        match self {
            Endpoint::OauthToken => s.append("/oauth/v2/token"),
            Endpoint::AllDisciplines => s.append("/v1/disciplines"),
            Endpoint::DisciplineById(id) => {
                s.append("/v1/disciplines/");
                s.append(id.0.as_str());
            },
            Endpoint::AllTournaments { with_streams } => {
                s.append("/v1/tournaments?with_streams=");
                push_bit(&mut s, *with_streams);
            },
            Endpoint::MyTournaments => s.append("/v1/me/tournaments"),
            Endpoint::TournamentByIdGet { tournament_id, with_streams } => {
                push_tournament(&mut s, tournament_id);
                s.append("?with_streams=");
                push_bit(&mut s, *with_streams);
            },
            Endpoint::TournamentByIdUpdate(tournament_id) => push_tournament(&mut s, tournament_id),
            Endpoint::TournamentCreate => s.append("/v1/tournaments"),
            Endpoint::MatchesByTournament { tournament_id, with_games } => {
                push_tournament(&mut s, tournament_id);
                s.append("/matches?with_games=");
                push_bit(&mut s, *with_games);
            },
            Endpoint::MatchesByDiscipline { discipline_id, filter } => {
                s.append("/v1/disciplines/");
                s.append(discipline_id.0.as_str());
                s.append("/matches?");
                s.append(query_of_match_filter(filter).as_str());
            },
            Endpoint::MatchByIdGet { tournament_id, match_id, with_games } => {
                push_match(&mut s, tournament_id, match_id);
                s.append("?with_games=");
                push_bit(&mut s, *with_games);
            },
            Endpoint::MatchByIdUpdate { tournament_id, match_id } => {
                push_match(&mut s, tournament_id, match_id);
            },
            Endpoint::MatchResult(tournament_id, match_id) => {
                push_match(&mut s, tournament_id, match_id);
                s.append("/result");
            },
            Endpoint::MatchGames { tournament_id, match_id, with_stats } => {
                push_match(&mut s, tournament_id, match_id);
                s.append("/games?with_stats=");
                push_bit(&mut s, *with_stats);
            },
            Endpoint::MatchGameByNumberGet { tournament_id, match_id, game_number, with_stats } => {
                push_game(&mut s, tournament_id, match_id, *game_number);
                s.append("?with_stats=");
                push_bit(&mut s, *with_stats);
            },
            Endpoint::MatchGameByNumberUpdate { tournament_id, match_id, game_number } => {
                push_game(&mut s, tournament_id, match_id, *game_number);
            },
            Endpoint::MatchGameResultGet { tournament_id, match_id, game_number } => {
                push_game(&mut s, tournament_id, match_id, *game_number);
                s.append("/result");
            },
            Endpoint::MatchGameResultUpdate {
                tournament_id,
                match_id,
                game_number,
                update_match,
            } => {
                push_game(&mut s, tournament_id, match_id, *game_number);
                s.append("/result?update_match=");
                push_bit(&mut s, *update_match);
            },
            Endpoint::Participants { tournament_id, filter } => {
                push_tournament(&mut s, tournament_id);
                s.append("/participants?");
                s.append(tournament_participants(*filter).as_str());
            },
            Endpoint::ParticipantCreate(tournament_id) => {
                push_tournament(&mut s, tournament_id);
                s.append("/participants");
            },
            Endpoint::ParticipantsUpdate(tournament_id) => {
                push_tournament(&mut s, tournament_id);
                s.append("/participants");
            },
            Endpoint::ParticipantById(tournament_id, participant_id) => {
                push_tournament(&mut s, tournament_id);
                s.append("/participants/");
                s.append(participant_id.0.as_str());
            },
            Endpoint::Permissions(tournament_id) => {
                push_tournament(&mut s, tournament_id);
                s.append("/permissions");
            },
            Endpoint::PermissionById(tournament_id, permission_id) => {
                push_tournament(&mut s, tournament_id);
                s.append("/permissions/");
                s.append(permission_id.0.as_str());
            },
            Endpoint::Stages(tournament_id) => {
                push_tournament(&mut s, tournament_id);
                s.append("/stages");
            },
            Endpoint::Videos { tournament_id, filter } => {
                push_tournament(&mut s, tournament_id);
                s.append("/videos?");
                s.append(tournament_videos(*filter).as_str());
            },
        }
        assert(s@ =~= endpoint_url(*self));
        s
    }
}

} // verus!
