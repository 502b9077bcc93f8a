use crate::common::Date;
use crate::disciplines::DisciplineId;
use crate::matches::{MatchFormat, MatchType};
use crate::participants::ParticipantType;
use crate::streams::Streams;
use vstd::prelude::*;

verus! {

/// A tournament identity.
#[derive(Clone, Debug, Default, PartialEq, Eq, PartialOrd, Ord, Hash)]
pub struct TournamentId(pub String);

/// A tournament status.
#[derive(Clone, Copy, Debug, PartialEq, Eq, PartialOrd, Ord, Hash, Structural)]
pub enum TournamentStatus {
    /// The tournament has not started yet.
    Setup,
    /// The tournament has at least one match result.
    Running,
    /// The tournament is pending.
    Pending,
    /// All matches have a result.
    Completed,
}

/// A tournament.
#[derive(Clone, Debug, PartialEq, Eq, PartialOrd, Ord, Hash)]
pub struct Tournament {
    /// The tournament's identifier, once the service has assigned one.
    pub id: Option<TournamentId>,
    /// The discipline played.
    pub discipline: DisciplineId,
    /// The tournament's name (at most 30 characters).
    pub name: String,
    /// The tournament's complete name (at most 80 characters).
    pub full_name: Option<String>,
    /// The tournament's status.
    pub status: TournamentStatus,
    /// The first day.
    pub date_start: Option<Date>,
    /// The last day.
    pub date_end: Option<Date>,
    /// The time zone, from the IANA database.
    pub time_zone: Option<String>,
    /// Whether it is played on the internet.
    pub online: bool,
    /// Whether it is public.
    pub public: bool,
    /// Its location.
    pub location: Option<String>,
    /// Its country, as an ISO 3166-1 alpha-2 code.
    pub country: Option<String>,
    /// The expected number of participants.
    pub size: i64,
    /// The type of its participants.
    pub participant_type: Option<ParticipantType>,
    /// The type of its matches.
    pub match_type: Option<MatchType>,
    /// Its organizer.
    pub organization: Option<String>,
    /// Its website.
    pub website: Option<String>,
    /// Its description.
    pub description: Option<String>,
    /// Its rules.
    pub rules: Option<String>,
    /// Its prizes.
    pub prize: Option<String>,
    /// The smallest team size, for teams.
    pub team_size_min: Option<i64>,
    /// The largest team size, for teams.
    pub team_size_max: Option<i64>,
    /// Its streams.
    pub streams: Option<Streams>,
    /// Whether participants check in.
    pub check_in: Option<bool>,
    /// Whether participants show a nationality.
    pub participant_nationality: Option<bool>,
    /// The format of its matches.
    pub match_format: Option<MatchFormat>,
}

/// A tournament with the given required fields and nothing optional set.
pub open spec fn plain_tournament(
    id: Option<TournamentId>,
    discipline: DisciplineId,
    name: String,
    status: TournamentStatus,
    online: bool,
    public: bool,
    size: i64,
) -> Tournament {
    Tournament {
        id,
        discipline,
        name,
        full_name: None,
        status,
        date_start: None,
        date_end: None,
        time_zone: None,
        online,
        public,
        location: None,
        country: None,
        size,
        participant_type: None,
        match_type: None,
        organization: None,
        website: None,
        description: None,
        rules: None,
        prize: None,
        team_size_min: None,
        team_size_max: None,
        streams: None,
        check_in: None,
        participant_nationality: None,
        match_format: None,
    }
}

impl Tournament {
    /// A tournament with the given required fields and nothing optional set.
    pub fn new<S: Into<String>>(
        id: Option<TournamentId>,
        discipline: DisciplineId,
        name: S,
        status: TournamentStatus,
        online: bool,
        public: bool,
        size: i64,
    ) -> (r: Tournament)
        ensures
            call_ensures(S::into, (name,), r.name),
            r == plain_tournament(id, discipline, r.name, status, online, public, size),
    {
        Tournament {
            id,
            discipline,
            name: name.into(),
            full_name: None,
            status,
            date_start: None,
            date_end: None,
            time_zone: None,
            online,
            public,
            location: None,
            country: None,
            size,
            participant_type: None,
            match_type: None,
            organization: None,
            website: None,
            description: None,
            rules: None,
            prize: None,
            team_size_min: None,
            team_size_max: None,
            streams: None,
            check_in: None,
            participant_nationality: None,
            match_format: None,
        }
    }

    /// A tournament to create: no identifier, in setup, online and private, with the
    /// given participant type and nothing else optional set.
    pub fn create<S: Into<String>>(
        discipline: DisciplineId,
        name: S,
        size: i64,
        participant_type: ParticipantType,
    ) -> (r: Tournament)
        ensures
            call_ensures(S::into, (name,), r.name),
            r == (Tournament {
                participant_type: Some(participant_type),
                ..plain_tournament(None, discipline, r.name, TournamentStatus::Setup, true, false, size)
            }),
    {
        Tournament {
            id: None,
            discipline,
            name: name.into(),
            full_name: None,
            status: TournamentStatus::Setup,
            date_start: None,
            date_end: None,
            time_zone: None,
            online: true,
            public: false,
            location: None,
            country: None,
            size,
            participant_type: Some(participant_type),
            match_type: None,
            organization: None,
            website: None,
            description: None,
            rules: None,
            prize: None,
            team_size_min: None,
            team_size_max: None,
            streams: None,
            check_in: None,
            participant_nationality: None,
            match_format: None,
        }
    }
    /// Sets `id`.
    pub fn id(self, id: Option<TournamentId>) -> (r: Tournament)
        ensures
            r == (Tournament { id, ..self }),
    {
        Tournament { id, ..self }
    }

    /// Sets `discipline`.
    pub fn discipline(self, discipline: DisciplineId) -> (r: Tournament)
        ensures
            r == (Tournament { discipline, ..self }),
    {
        Tournament { discipline, ..self }
    }

    /// Sets `name`.
    pub fn name<S: Into<String>>(self, name: S) -> (r: Tournament)
        ensures
            call_ensures(S::into, (name,), r.name),
            r == (Tournament { name: r.name, ..self }),
    {
        Tournament { name: name.into(), ..self }
    }

    /// Sets `full_name`.
    pub fn full_name(self, full_name: Option<String>) -> (r: Tournament)
        ensures
            r == (Tournament { full_name, ..self }),
    {
        Tournament { full_name, ..self }
    }

    /// Sets `status`.
    pub fn status(self, status: TournamentStatus) -> (r: Tournament)
        ensures
            r == (Tournament { status, ..self }),
    {
        Tournament { status, ..self }
    }

    /// Sets `date_start`.
    pub fn date_start(self, date_start: Option<Date>) -> (r: Tournament)
        ensures
            r == (Tournament { date_start, ..self }),
    {
        Tournament { date_start, ..self }
    }

    /// Sets `date_end`.
    pub fn date_end(self, date_end: Option<Date>) -> (r: Tournament)
        ensures
            r == (Tournament { date_end, ..self }),
    {
        Tournament { date_end, ..self }
    }

    /// Sets `time_zone`.
    pub fn time_zone(self, time_zone: Option<String>) -> (r: Tournament)
        ensures
            r == (Tournament { time_zone, ..self }),
    {
        Tournament { time_zone, ..self }
    }

    /// Sets `online`.
    pub fn online(self, online: bool) -> (r: Tournament)
        ensures
            r == (Tournament { online, ..self }),
    {
        Tournament { online, ..self }
    }

    /// Sets `public`.
    pub fn public(self, public: bool) -> (r: Tournament)
        ensures
            r == (Tournament { public, ..self }),
    {
        Tournament { public, ..self }
    }

    /// Sets `location`.
    pub fn location(self, location: Option<String>) -> (r: Tournament)
        ensures
            r == (Tournament { location, ..self }),
    {
        Tournament { location, ..self }
    }

    /// Sets `country`.
    pub fn country(self, country: Option<String>) -> (r: Tournament)
        ensures
            r == (Tournament { country, ..self }),
    {
        Tournament { country, ..self }
    }

    /// Sets `size`.
    pub fn size(self, size: i64) -> (r: Tournament)
        ensures
            r == (Tournament { size, ..self }),
    {
        Tournament { size, ..self }
    }

    /// Sets `participant_type`.
    pub fn participant_type(self, participant_type: Option<ParticipantType>) -> (r: Tournament)
        ensures
            r == (Tournament { participant_type, ..self }),
    {
        Tournament { participant_type, ..self }
    }

    /// Sets `match_type`.
    pub fn match_type(self, match_type: Option<MatchType>) -> (r: Tournament)
        ensures
            r == (Tournament { match_type, ..self }),
    {
        Tournament { match_type, ..self }
    }

    /// Sets `organization`.
    pub fn organization(self, organization: Option<String>) -> (r: Tournament)
        ensures
            r == (Tournament { organization, ..self }),
    {
        Tournament { organization, ..self }
    }

    /// Sets `website`.
    pub fn website(self, website: Option<String>) -> (r: Tournament)
        ensures
            r == (Tournament { website, ..self }),
    {
        Tournament { website, ..self }
    }

    /// Sets `description`.
    pub fn description(self, description: Option<String>) -> (r: Tournament)
        ensures
            r == (Tournament { description, ..self }),
    {
        Tournament { description, ..self }
    }

    /// Sets `rules`.
    pub fn rules(self, rules: Option<String>) -> (r: Tournament)
        ensures
            r == (Tournament { rules, ..self }),
    {
        Tournament { rules, ..self }
    }

    /// Sets `prize`.
    pub fn prize(self, prize: Option<String>) -> (r: Tournament)
        ensures
            r == (Tournament { prize, ..self }),
    {
        Tournament { prize, ..self }
    }

    /// Sets `team_size_min`.
    pub fn team_size_min(self, team_size_min: Option<i64>) -> (r: Tournament)
        ensures
            r == (Tournament { team_size_min, ..self }),
    {
        Tournament { team_size_min, ..self }
    }

    /// Sets `team_size_max`.
    pub fn team_size_max(self, team_size_max: Option<i64>) -> (r: Tournament)
        ensures
            r == (Tournament { team_size_max, ..self }),
    {
        Tournament { team_size_max, ..self }
    }

    /// Sets `streams`.
    pub fn streams(self, streams: Option<Streams>) -> (r: Tournament)
        ensures
            r == (Tournament { streams, ..self }),
    {
        Tournament { streams, ..self }
    }

    /// Sets `check_in`.
    pub fn check_in(self, check_in: Option<bool>) -> (r: Tournament)
        ensures
            r == (Tournament { check_in, ..self }),
    {
        Tournament { check_in, ..self }
    }

    /// Sets `participant_nationality`.
    pub fn participant_nationality(self, participant_nationality: Option<bool>) -> (r: Tournament)
        ensures
            r == (Tournament { participant_nationality, ..self }),
    {
        Tournament { participant_nationality, ..self }
    }

    /// Sets `match_format`.
    pub fn match_format(self, match_format: Option<MatchFormat>) -> (r: Tournament)
        ensures
            r == (Tournament { match_format, ..self }),
    {
        Tournament { match_format, ..self }
    }
}

/// A list of tournaments.
#[derive(Clone, Debug, Default, PartialEq, Eq, PartialOrd, Ord, Hash)]
pub struct Tournaments(pub Vec<Tournament>);

} // verus!
