//! The records that the API returns, as the library hands them out.
use crate::dto::MatchReferenceDTO;
use crate::dto::PlayerDTO;
use vstd::prelude::*;

pub use crate::dto::MatchReferenceDTO as MatchReference;
pub use crate::dto::ParticipantStatsDTO as ParticipantStats;
pub use crate::dto::PlayerDTO as Player;
pub use crate::dto::SummonerDTO as Summoner;

verus! {

/// The status part of an error body that the API returns.
#[derive(Clone, Debug)]
pub struct Status {
    pub message: String,
    pub status_code: u16,
}

/// An error body that the API returns.
#[derive(Clone, Debug)]
pub struct Error {
    pub status: Status,
}

/// The result of a game for a team.
#[derive(Clone, Copy, Debug, PartialEq, Eq, Structural)]
pub enum GameResult {
    Won,
    Lost,
}

/// A participant's highest tier in the season.
#[derive(Clone, Copy, Debug, PartialEq, Eq, Structural)]
pub enum HighestAchievedSeasonTier {
    Challenger,
    Master,
    Diamond,
    Platinum,
    Gold,
    Silver,
    Bronze,
    Unranked,
}

/// The lane a participant played.
#[derive(Clone, Copy, Debug, PartialEq, Eq, Structural)]
pub enum Lane {
    Mid,
    Middle,
    Top,
    Jungle,
    Bot,
    Bottom,
}

/// A summoner's standing in a ranked queue.
#[derive(Clone, Debug)]
pub struct LeagueEntry {
    pub league_id: String,
    pub summoner_id: String,
    pub summoner_name: String,
    pub queue_type: String,
    pub tier: String,
    pub rank: String,
    pub league_points: i32,
    pub wins: i32,
    pub losses: i32,
    pub hot_streak: bool,
    pub veteran: bool,
    pub fresh_blood: bool,
    pub inactive: bool,
    pub mini_series: Option<MiniSeries>,
}

/// One entry of a league list.
#[derive(Clone, Debug)]
pub struct LeagueItem {
    pub fresh_blood: bool,
    pub wins: i32,
    pub summoner_name: String,
    pub mini_series: Option<MiniSeries>,
    pub inactive: bool,
    pub veteran: bool,
    pub hot_streak: bool,
    pub rank: String,
    pub league_points: i32,
    pub losses: i32,
    pub summoner_id: String,
}

/// A league and its entries.
#[derive(Clone, Debug)]
pub struct LeagueList {
    pub league_id: String,
    pub entries: Vec<LeagueItem>,
    pub tier: String,
    pub name: String,
    pub queue: String,
}

/// A mastery a participant used.
#[derive(Clone, Debug)]
pub struct Mastery {
    pub rank: i32,
    pub mastery_id: i32,
}

/// A page of match references.
#[derive(Clone, Debug)]
pub struct MatchList {
    pub start_index: i32,
    pub total_games: i32,
    pub end_index: i32,
    pub matches: Vec<MatchReferenceDTO>,
}

/// A promotion series in progress.
#[derive(Clone, Debug)]
pub struct MiniSeries {
    pub losses: i32,
    pub progress: String,
    pub target: i32,
    pub wins: i32,
}

/// A participant and the player behind it.
#[derive(Clone, Debug)]
pub struct ParticipantIdentity {
    pub participant_id: i32,
    pub player: Option<PlayerDTO>,
}

/// The role a participant played.
#[derive(Clone, Copy, Debug, PartialEq, Eq, Structural)]
pub enum Role {
    Duo,
    /// The API writes this role as `NONE`.
    Unassigned,
    Solo,
    DuoCarry,
    DuoSupport,
}

/// A rune a participant used.
#[derive(Clone, Debug)]
pub struct Rune {
    pub rune_id: i32,
    pub rank: i32,
}

/// The side of the map a team plays on.
#[derive(Clone, Copy, Debug, PartialEq, Eq, Structural)]
pub enum Team {
    Blue,
    Red,
}

/// A champion ban of a team.
#[derive(Clone, Debug)]
pub struct TeamBands {
    pub champion_id: i32,
    pub pick_turn: i32,
}

/// The statistics of one team in a match.
#[derive(Clone, Debug)]
pub struct TeamStats {
    pub tower_kills: i32,
    pub rift_herald_kills: i32,
    pub first_blood: bool,
    pub inhibitor_kills: i32,
    pub bans: Option<Vec<TeamBands>>,
    pub first_baron: bool,
    pub first_dragon: bool,
    pub dominion_victory_score: i32,
    pub dragon_kills: i32,
    pub baron_kills: i32,
    pub first_inhibitor: bool,
    pub first_tower: bool,
    pub vilemaw_kills: i32,
    pub first_rift_herald: bool,
    pub team_id: Team,
    pub win: GameResult,
}

/// The number by which the API writes a team.
pub open spec fn team_code(t: Team) -> u8 {
    match t {
        Team::Blue => 100,
        Team::Red => 200,
    }
}

impl Team {
    /// The number by which the API writes the team: 100 for blue, 200 for red.
    pub fn code(&self) -> (c: u8)
        ensures
            c == team_code(*self),
    {
        match self {
            Team::Blue => 100,
            Team::Red => 200,
        }
    }

    /// The team that the API writes as `code`, if any.
    pub fn from_code(code: u8) -> (t: Option<Team>)
        ensures
            t is Some ==> team_code(t->Some_0) == code,
            t is None ==> code != 100 && code != 200,
    {
        if code == 100 {
            Some(Team::Blue)
        } else if code == 200 {
            Some(Team::Red)
        } else {
            None
        }
    }
}

} // verus!
