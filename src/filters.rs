use crate::common::Date;
use crate::participants::ParticipantId;
use crate::tournaments::TournamentId;
use crate::videos::VideoCategory;
use vstd::prelude::*;

verus! {

/// Date sorting filter.
#[derive(Clone, Copy, Debug, PartialEq, Eq, Structural)]
pub enum DateSortFilter {
    /// Sort by date ascending
    DateAscending,
    /// Sort by date descending
    DateDescending,
}

/// The text of a date sorting filter in a query string.
pub open spec fn date_sort_text(s: DateSortFilter) -> Seq<char> {
    match s {
        DateSortFilter::DateAscending => "date_asc"@,
        DateSortFilter::DateDescending => "date_desc"@,
    }
}

impl DateSortFilter {
    /// The filter's text in a query string.
    pub fn to_string(&self) -> (r: String)
        ensures
            r@ == date_sort_text(*self),
    {
        match self {
            DateSortFilter::DateAscending => String::from_str("date_asc"),
            DateSortFilter::DateDescending => String::from_str("date_desc"),
        }
    }
}

/// Creation date sorting filter.
#[derive(Clone, Copy, Debug, PartialEq, Eq, Structural)]
pub enum CreateDateSortFilter {
    /// Sort by creation date ascending
    CreatedAscending,
    /// Sort by creation date descending
    CreatedDescending,
}

/// The text of a creation date sorting filter in a query string.
pub open spec fn create_date_sort_text(s: CreateDateSortFilter) -> Seq<char> {
    match s {
        CreateDateSortFilter::CreatedAscending => "created_asc"@,
        CreateDateSortFilter::CreatedDescending => "created_desc"@,
    }
}

impl CreateDateSortFilter {
    /// The filter's text in a query string.
    pub fn to_string(&self) -> (r: String)
        ensures
            r@ == create_date_sort_text(*self),
    {
        match self {
            CreateDateSortFilter::CreatedAscending => String::from_str("created_asc"),
            CreateDateSortFilter::CreatedDescending => String::from_str("created_desc"),
        }
    }
}

/// A filter for match endpoints.
#[derive(Clone, Debug)]
pub struct MatchFilter {
    /// `true`: only matches of featured tournaments; `false`: only of tournaments not featured.
    pub featured: Option<bool>,
    /// `true`: only matches with a result; `false`: only matches without one.
    pub has_result: Option<bool>,
    /// The order of the collection.
    pub sort: Option<DateSortFilter>,
    /// Only matches that involve this participant.
    pub participant_id: Option<ParticipantId>,
    /// Only matches of these tournaments.
    pub tournament_ids: Option<Vec<TournamentId>>,
    /// Whether to include a summary of each game of the match.
    pub with_games: bool,
    /// Only matches scheduled before this date.
    pub before_date: Option<Date>,
    /// Only matches scheduled after this date.
    pub after_date: Option<Date>,
    /// The page of the list.
    pub page: Option<i64>,
}

impl Default for MatchFilter {
    /// Sorted by ascending date, first page, without games; nothing else set.
    fn default() -> (r: MatchFilter)
        ensures
            r.featured is None,
            r.has_result is None,
            r.sort == Some(DateSortFilter::DateAscending),
            r.participant_id is None,
            r.tournament_ids is None,
            !r.with_games,
            r.before_date is None,
            r.after_date is None,
            r.page == Some(1i64),
    {
        MatchFilter {
            featured: None,
            has_result: None,
            sort: Some(DateSortFilter::DateAscending),
            participant_id: None,
            tournament_ids: None,
            with_games: false,
            before_date: None,
            after_date: None,
            page: Some(1i64),
        }
    }
}

impl MatchFilter {
    /// Sets `featured`.
    pub fn featured(self, featured: bool) -> (r: MatchFilter)
        ensures
            r == (MatchFilter { featured: Some(featured), ..self }),
    {
        MatchFilter { featured: Some(featured), ..self }
    }

    /// Sets `has_result`.
    pub fn has_result(self, has_result: bool) -> (r: MatchFilter)
        ensures
            r == (MatchFilter { has_result: Some(has_result), ..self }),
    {
        MatchFilter { has_result: Some(has_result), ..self }
    }

    /// Sets `sort`.
    pub fn sort(self, sort: DateSortFilter) -> (r: MatchFilter)
        ensures
            r == (MatchFilter { sort: Some(sort), ..self }),
    {
        MatchFilter { sort: Some(sort), ..self }
    }

    /// Sets `participant_id`.
    pub fn participant_id(self, participant_id: ParticipantId) -> (r: MatchFilter)
        ensures
            r == (MatchFilter { participant_id: Some(participant_id), ..self }),
    {
        MatchFilter { participant_id: Some(participant_id), ..self }
    }

    /// Sets `tournament_ids`.
    pub fn tournament_ids(self, tournament_ids: Vec<TournamentId>) -> (r: MatchFilter)
        ensures
            r == (MatchFilter { tournament_ids: Some(tournament_ids), ..self }),
    {
        MatchFilter { tournament_ids: Some(tournament_ids), ..self }
    }

    /// Sets `with_games`.
    pub fn with_games(self, with_games: bool) -> (r: MatchFilter)
        ensures
            r == (MatchFilter { with_games, ..self }),
    {
        MatchFilter { with_games, ..self }
    }

    /// Sets `before_date`.
    pub fn before_date(self, before_date: Date) -> (r: MatchFilter)
        ensures
            r == (MatchFilter { before_date: Some(before_date), ..self }),
    {
        MatchFilter { before_date: Some(before_date), ..self }
    }

    /// Sets `after_date`.
    pub fn after_date(self, after_date: Date) -> (r: MatchFilter)
        ensures
            r == (MatchFilter { after_date: Some(after_date), ..self }),
    {
        MatchFilter { after_date: Some(after_date), ..self }
    }

    /// Sets `page`.
    pub fn page(self, page: i64) -> (r: MatchFilter)
        ensures
            r == (MatchFilter { page: Some(page), ..self }),
    {
        MatchFilter { page: Some(page), ..self }
    }
}

/// A filter for tournament participants.
#[derive(Clone, Copy, Debug)]
pub struct TournamentParticipantsFilter {
    /// Whether to include the lineup of a team.
    pub with_lineup: bool,
    /// Whether to include the custom fields of each participant.
    pub with_custom_fields: bool,
    /// The order of the collection.
    pub sort: DateSortFilter,
    /// The page of the list.
    pub page: i64,
}

impl Default for TournamentParticipantsFilter {
    /// Sorted by ascending date, first page, without lineups or custom fields.
    fn default() -> (r: TournamentParticipantsFilter)
        ensures
            !r.with_lineup,
            !r.with_custom_fields,
            r.sort == DateSortFilter::DateAscending,
            r.page == 1,
    {
        TournamentParticipantsFilter {
            with_lineup: false,
            sort: DateSortFilter::DateAscending,
            with_custom_fields: false,
            page: 1i64,
        }
    }
}

impl TournamentParticipantsFilter {
    /// Sets `with_lineup`.
    pub fn with_lineup(self, with_lineup: bool) -> (r: TournamentParticipantsFilter)
        ensures
            r == (TournamentParticipantsFilter { with_lineup, ..self }),
    {
        TournamentParticipantsFilter { with_lineup, ..self }
    }

    /// Sets `sort`.
    pub fn sort(self, sort: DateSortFilter) -> (r: TournamentParticipantsFilter)
        ensures
            r == (TournamentParticipantsFilter { sort, ..self }),
    {
        TournamentParticipantsFilter { sort, ..self }
    }

    /// Sets `with_custom_fields`.
    pub fn with_custom_fields(self, with_custom_fields: bool) -> (r: TournamentParticipantsFilter)
        ensures
            r == (TournamentParticipantsFilter { with_custom_fields, ..self }),
    {
        TournamentParticipantsFilter { with_custom_fields, ..self }
    }

    /// Sets `page`.
    pub fn page(self, page: i64) -> (r: TournamentParticipantsFilter)
        ensures
            r == (TournamentParticipantsFilter { page, ..self }),
    {
        TournamentParticipantsFilter { page, ..self }
    }
}

/// A filter for tournament videos.
#[derive(Clone, Copy, Debug)]
pub struct TournamentVideosFilter {
    /// The category of the videos.
    pub category: Option<VideoCategory>,
    /// The order of the collection.
    pub sort: CreateDateSortFilter,
    /// The page of the list.
    pub page: Option<i64>,
}

impl Default for TournamentVideosFilter {
    /// Sorted by ascending creation date; no category or page.
    fn default() -> (r: TournamentVideosFilter)
        ensures
            r.category is None,
            r.sort == CreateDateSortFilter::CreatedAscending,
            r.page is None,
    {
        TournamentVideosFilter {
            category: None,
            sort: CreateDateSortFilter::CreatedAscending,
            page: None,
        }
    }
}

impl TournamentVideosFilter {
    /// Sets `category`.
    pub fn category(self, category: VideoCategory) -> (r: TournamentVideosFilter)
        ensures
            r == (TournamentVideosFilter { category: Some(category), ..self }),
    {
        TournamentVideosFilter { category: Some(category), ..self }
    }

    /// Sets `sort`.
    pub fn sort(self, sort: CreateDateSortFilter) -> (r: TournamentVideosFilter)
        ensures
            r == (TournamentVideosFilter { sort, ..self }),
    {
        TournamentVideosFilter { sort, ..self }
    }

    /// Sets `page`.
    pub fn page(self, page: i64) -> (r: TournamentVideosFilter)
        ensures
            r == (TournamentVideosFilter { page: Some(page), ..self }),
    {
        TournamentVideosFilter { page: Some(page), ..self }
    }
}

} // verus!
