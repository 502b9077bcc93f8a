//! Client library for the Toornament tournament-management web API: the
//! access-token lifecycle, the authenticated-request pipeline with its
//! response classification, and the construction of endpoint addresses.

mod common;
mod disciplines;
mod endpoints;
mod error;
mod filters;
mod games;
mod matches;
mod participants;
mod permissions;
mod pipeline;
mod stages;
mod streams;
mod text;
mod token;
mod tournaments;
mod videos;

pub use common::{
    date_text, days_in_month, four_digits, is_leap_year, is_valid_date, two_digits, year_text,
    Date, MatchResultSimple, TeamSize, MAX_YEAR, MIN_YEAR,
};
pub use disciplines::{AdditionalFields, Discipline, DisciplineId, Disciplines};
pub use endpoints::{
    date_of, endpoint_path, endpoint_url, match_filter, match_filter_parts, match_filter_text,
    opt_part, opt_text, tournament_id_texts, tournament_participants,
    tournament_participants_text, tournament_videos, tournament_videos_parts,
    tournament_videos_text, Endpoint, API_BASE,
};
pub use error::{
    classification, classify_response, is_success_status, iter_error_text, Error, IterError,
    ToornamentError, ToornamentErrorScope, ToornamentErrorType, ToornamentErrors,
    ToornamentServiceError, TOO_MANY_REQUESTS,
};
pub use filters::{
    create_date_sort_text, date_sort_text, CreateDateSortFilter, DateSortFilter, MatchFilter,
    TournamentParticipantsFilter, TournamentVideosFilter,
};
pub use games::GameNumber;
pub use matches::{MatchFormat, MatchId, MatchStatus, MatchType};
pub use participants::{
    CustomField, CustomFieldType, CustomFields, ParticipantId, ParticipantLogo, ParticipantType,
};
pub use permissions::{
    Permission, PermissionAttribute, PermissionAttributes, PermissionId, Permissions,
};
pub use pipeline::{
    after_attempt, attempts_made, lemma_single_retry, prepare_request, sends_again, step_after,
    Method, PreparedRequest, ReceivedResponse, Step, Transmission, MAX_ATTEMPTS,
};
pub use stages::{Stage, StageNumber, StageType, Stages};
pub use streams::{Stream, StreamId, Streams};
pub use text::{
    bit_text, decimal, decimal_digits, decimal_text, digit_char, join, join_texts, texts,
};
pub use token::{
    accept_token, accept_token_now, after_refresh, check_at, expiry_after, is_expired,
    lemma_failed_refresh_keeps_token, lemma_refresh_atomic, lemma_token_freshness,
    token_from_grant, token_of_grant, token_response, AccessToken, Credentials, OauthAccessToken,
    TokenCheck, TokenStore, REFRESH_FAILED, TOKEN_UNAVAILABLE,
};
pub use tournaments::{
    plain_tournament, Tournament, TournamentId, TournamentStatus, Tournaments,
};
pub use videos::{video_category_text, Video, VideoCategory, Videos};
