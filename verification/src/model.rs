//! What is stored about tournaments, leaderboards, snakes and users, as far
//! as the rules read it.

use crate::ids::Id;
use crate::time::Timestamp;
use vstd::prelude::*;

verus! {

/// Lifecycle of a tournament.
#[derive(Clone, Copy, Debug, PartialEq, Eq, Structural)]
pub enum TournamentStatus {
    Created,
    Registration,
    InProgress,
    Completed,
    Canceled,
}

/// Who may add snakes to a tournament.
#[derive(Clone, Copy, Debug, PartialEq, Eq, Structural)]
pub enum RegistrationStatus {
    Open,
    OwnerOnly,
    Closed,
}

/// Who may see a tournament.
#[derive(Clone, Copy, Debug, PartialEq, Eq, Structural)]
pub enum TournamentVisibility {
    Public,
    ParticipantsOnly,
}

/// How many games decide a match.
#[derive(Clone, Copy, Debug, PartialEq, Eq, Structural)]
pub enum MatchStyle {
    SingleGame,
    BestOf3,
    FirstTo3,
}

/// Lifecycle of a match.
#[derive(Clone, Copy, Debug, PartialEq, Eq, Structural)]
pub enum MatchStatus {
    Scheduled,
    InProgress,
    Completed,
    Canceled,
}

/// The rules a game is played by. Anything without a name of its own is kept
/// as it was written.
#[derive(Clone, Debug)]
pub enum GameType {
    Standard,
    Royale,
    Constrictor,
    SnailMode,
    Solo,
    Custom(String),
}

/// The size of the board. Anything but the three usual sizes is kept as it
/// was written.
#[derive(Clone, Debug)]
pub enum GameBoardSize {
    Small,
    Medium,
    Large,
    Custom(String),
}

/// What a leaderboard is ordered by.
#[derive(Clone, Copy, Debug, PartialEq, Eq, Structural)]
pub enum LeaderboardSort {
    Rating,
    FoodEaten,
}

impl GameType {
    /// The written form of a game type.
    pub open spec fn text(self) -> Seq<char> {
        match self {
            GameType::Standard => "Standard"@,
            GameType::Royale => "Royale"@,
            GameType::Constrictor => "Constrictor"@,
            GameType::SnailMode => "Snail Mode"@,
            GameType::Solo => "Solo"@,
            GameType::Custom(s) => s@,
        }
    }

    /// Whether two game types are the same.
    pub open spec fn same(self, other: GameType) -> bool {
        match (self, other) {
            (GameType::Standard, GameType::Standard) => true,
            (GameType::Royale, GameType::Royale) => true,
            (GameType::Constrictor, GameType::Constrictor) => true,
            (GameType::SnailMode, GameType::SnailMode) => true,
            (GameType::Solo, GameType::Solo) => true,
            (GameType::Custom(a), GameType::Custom(b)) => a@ == b@,
            _ => false,
        }
    }

    /// The written form of a game type.
    pub fn as_str(&self) -> (r: &str)
        ensures
            r@ == self.text(),
    {
        match self {
            GameType::Standard => "Standard",
            GameType::Royale => "Royale",
            GameType::Constrictor => "Constrictor",
            GameType::SnailMode => "Snail Mode",
            GameType::Solo => "Solo",
            GameType::Custom(s) => s.as_str(),
        }
    }
}

impl PartialEq for GameType {
    fn eq(&self, other: &Self) -> (r: bool) {
        match (self, other) {
            (GameType::Standard, GameType::Standard) => true,
            (GameType::Royale, GameType::Royale) => true,
            (GameType::Constrictor, GameType::Constrictor) => true,
            (GameType::SnailMode, GameType::SnailMode) => true,
            (GameType::Solo, GameType::Solo) => true,
            (GameType::Custom(a), GameType::Custom(b)) => *a == *b,
            _ => false,
        }
    }
}

impl vstd::std_specs::cmp::PartialEqSpecImpl for GameType {
    open spec fn obeys_eq_spec() -> bool {
        true
    }

    open spec fn eq_spec(&self, other: &Self) -> bool {
        self.same(*other)
    }
}

impl GameBoardSize {
    /// The written form of a board size.
    pub open spec fn text(self) -> Seq<char> {
        match self {
            GameBoardSize::Small => "7x7"@,
            GameBoardSize::Medium => "11x11"@,
            GameBoardSize::Large => "19x19"@,
            GameBoardSize::Custom(s) => s@,
        }
    }

    /// Whether two board sizes are the same.
    pub open spec fn same(self, other: GameBoardSize) -> bool {
        match (self, other) {
            (GameBoardSize::Small, GameBoardSize::Small) => true,
            (GameBoardSize::Medium, GameBoardSize::Medium) => true,
            (GameBoardSize::Large, GameBoardSize::Large) => true,
            (GameBoardSize::Custom(a), GameBoardSize::Custom(b)) => a@ == b@,
            _ => false,
        }
    }

    /// The written form of a board size.
    pub fn as_str(&self) -> (r: &str)
        ensures
            r@ == self.text(),
    {
        match self {
            GameBoardSize::Small => "7x7",
            GameBoardSize::Medium => "11x11",
            GameBoardSize::Large => "19x19",
            GameBoardSize::Custom(s) => s.as_str(),
        }
    }
}

impl PartialEq for GameBoardSize {
    fn eq(&self, other: &Self) -> (r: bool) {
        match (self, other) {
            (GameBoardSize::Small, GameBoardSize::Small) => true,
            (GameBoardSize::Medium, GameBoardSize::Medium) => true,
            (GameBoardSize::Large, GameBoardSize::Large) => true,
            (GameBoardSize::Custom(a), GameBoardSize::Custom(b)) => *a == *b,
            _ => false,
        }
    }
}

impl vstd::std_specs::cmp::PartialEqSpecImpl for GameBoardSize {
    open spec fn obeys_eq_spec() -> bool {
        true
    }

    open spec fn eq_spec(&self, other: &Self) -> bool {
        self.same(*other)
    }
}

impl TournamentStatus {
    /// The stored form of a status.
    pub open spec fn text(self) -> Seq<char> {
        match self {
            TournamentStatus::Created => "created"@,
            TournamentStatus::Registration => "registration"@,
            TournamentStatus::InProgress => "in_progress"@,
            TournamentStatus::Completed => "completed"@,
            TournamentStatus::Canceled => "canceled"@,
        }
    }

    /// The stored form of a status.
    pub fn as_str(&self) -> (r: &'static str)
        ensures
            r@ == self.text(),
    {
        match self {
            TournamentStatus::Created => "created",
            TournamentStatus::Registration => "registration",
            TournamentStatus::InProgress => "in_progress",
            TournamentStatus::Completed => "completed",
            TournamentStatus::Canceled => "canceled",
        }
    }
}

impl RegistrationStatus {
    /// The stored form of a registration policy.
    pub open spec fn text(self) -> Seq<char> {
        match self {
            RegistrationStatus::Open => "open"@,
            RegistrationStatus::OwnerOnly => "owner_only"@,
            RegistrationStatus::Closed => "closed"@,
        }
    }

    /// The stored form of a registration policy.
    pub fn as_str(&self) -> (r: &'static str)
        ensures
            r@ == self.text(),
    {
        match self {
            RegistrationStatus::Open => "open",
            RegistrationStatus::OwnerOnly => "owner_only",
            RegistrationStatus::Closed => "closed",
        }
    }
}

impl TournamentVisibility {
    /// The stored form of a visibility.
    pub open spec fn text(self) -> Seq<char> {
        match self {
            TournamentVisibility::Public => "public"@,
            TournamentVisibility::ParticipantsOnly => "participants_only"@,
        }
    }

    /// The stored form of a visibility.
    pub fn as_str(&self) -> (r: &'static str)
        ensures
            r@ == self.text(),
    {
        match self {
            TournamentVisibility::Public => "public",
            TournamentVisibility::ParticipantsOnly => "participants_only",
        }
    }
}

impl LeaderboardSort {
    /// The form that links carry.
    pub open spec fn text(self) -> Seq<char> {
        match self {
            LeaderboardSort::Rating => "rating"@,
            LeaderboardSort::FoodEaten => "food_eaten"@,
        }
    }

    /// The form that links carry.
    pub fn as_str(&self) -> (r: &'static str)
        ensures
            r@ == self.text(),
    {
        match self {
            LeaderboardSort::Rating => "rating",
            LeaderboardSort::FoodEaten => "food_eaten",
        }
    }
}

/// A tournament.
#[derive(Clone, Debug)]
pub struct Tournament {
    pub tournament_id: Id,
    pub name: String,
    pub description: Option<String>,
    /// The owner.
    pub user_id: Id,
    pub game_type: GameType,
    pub board_size: GameBoardSize,
    pub registration_status: RegistrationStatus,
    pub visibility: TournamentVisibility,
    pub status: TournamentStatus,
    pub match_style: MatchStyle,
    pub max_snakes_per_user: i32,
    pub required_participants: i32,
    pub current_round: i32,
    pub created_at: Timestamp,
    pub updated_at: Timestamp,
}

/// One match of a bracket, with its place on the drawn grid.
#[derive(Clone, Copy, Debug)]
pub struct TournamentMatch {
    pub match_id: Id,
    pub tournament_id: Id,
    pub round: i32,
    pub position: i32,
    pub status: MatchStatus,
    pub next_match_id: Option<Id>,
    pub winner_id: Option<Id>,
    pub visual_column: i32,
    pub visual_row: i32,
    pub created_at: Timestamp,
    pub updated_at: Timestamp,
}

/// One side of a match. A side without a snake is still to be decided.
#[derive(Clone, Debug)]
pub struct BracketParticipant {
    pub match_id: Id,
    pub battlesnake_id: Option<Id>,
    pub snake_name: Option<String>,
    pub snake_color: Option<String>,
}

/// One game of a match.
#[derive(Clone, Copy, Debug)]
pub struct MatchGame {
    pub match_id: Id,
    pub game_id: Id,
    pub game_number: i32,
    pub winner_id: Option<Id>,
}

/// A snake's place in a tournament.
#[derive(Clone, Copy, Debug)]
pub struct TournamentRegistration {
    pub registration_id: Id,
    pub tournament_id: Id,
    pub battlesnake_id: Id,
    /// The snake's owner.
    pub user_id: Id,
    pub seed: i32,
    pub registered_at: Timestamp,
}

/// A registration together with the names that a page shows.
#[derive(Clone, Debug)]
pub struct RegistrationDetails {
    pub registration_id: Id,
    pub battlesnake_id: Id,
    pub user_id: Id,
    pub seed: i32,
    pub snake_name: String,
    pub snake_color: String,
    pub owner_login: String,
}

/// A tournament as a list shows it.
#[derive(Clone, Debug)]
pub struct TournamentListing {
    pub tournament_id: Id,
    pub name: String,
    pub owner_login: String,
    pub status: TournamentStatus,
    pub registration_count: i64,
    pub game_type: GameType,
    pub created_at: Timestamp,
}

/// A leaderboard.
#[derive(Clone, Debug)]
pub struct Leaderboard {
    pub leaderboard_id: Id,
    pub name: String,
    pub disabled_at: Option<Timestamp>,
}

/// A snake's standing on a leaderboard, without its scores.
#[derive(Clone, Debug)]
pub struct RankedEntry {
    pub leaderboard_entry_id: Id,
    pub battlesnake_id: Id,
    pub user_id: Id,
    pub games_played: i32,
    pub first_place_finishes: i32,
    pub non_first_finishes: i32,
    pub snake_name: String,
    pub snake_color: String,
    pub owner_login: String,
}

/// A snake's membership of a leaderboard.
#[derive(Clone, Debug)]
pub struct LeaderboardEntry {
    pub leaderboard_entry_id: Id,
    pub leaderboard_id: Id,
    pub battlesnake_id: Id,
    pub games_played: i32,
    pub first_place_finishes: i32,
    pub disabled_at: Option<Timestamp>,
    pub disabled_reason: Option<String>,
}

/// What goes on on a leaderboard.
#[derive(Clone, Copy, Debug)]
pub struct LeaderboardStatus {
    pub total_games: i64,
    pub games_in_progress: i64,
    pub last_game_created_at: Option<Timestamp>,
}

/// What a snake got out of a recent game, without its scores.
#[derive(Clone, Debug)]
pub struct ActivityEvent {
    pub leaderboard_entry_id: Id,
    pub snake_name: String,
    pub placement: i32,
    pub created_at: Timestamp,
}

/// A snake that ate a lot.
#[derive(Clone, Debug)]
pub struct TopEater {
    pub leaderboard_entry_id: Id,
    pub snake_name: String,
    pub owner_login: String,
    pub food_score: i64,
}

/// A game in the history of a snake, without its scores.
#[derive(Clone, Copy, Debug)]
pub struct PlayedGame {
    pub game_id: Id,
    pub game_created_at: Timestamp,
    pub placement: i32,
    pub food_eaten: i32,
}

/// Whom a snake met in a game. Snakes that left the leaderboard have no entry.
#[derive(Clone, Debug)]
pub struct GameOpponent {
    pub game_id: Id,
    pub leaderboard_entry_id: Option<Id>,
    pub snake_name: String,
}

/// A snake.
#[derive(Clone, Debug)]
pub struct Battlesnake {
    pub battlesnake_id: Id,
    /// The owner.
    pub user_id: Id,
    pub name: String,
    pub color: String,
}

/// A user.
#[derive(Clone, Debug)]
pub struct User {
    pub user_id: Id,
    pub github_login: String,
    pub github_avatar_url: Option<String>,
    pub display_name: Option<String>,
    pub site_theme: String,
    pub theater_theme: String,
}

} // verus!
