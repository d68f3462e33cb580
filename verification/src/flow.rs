//! How a request about a tournament proceeds: what is known so far decides
//! what is asked, written or answered next.
//!
//! A handler in `registration`, `lifecycle` or `settings` looks at the
//! `Progress` of one request and names the next `Step`. Whoever serves the
//! request performs the step, notes what came of it in the progress, and asks
//! again, until a step answers it. A step that names no tournament, and every
//! change but the creation of one, is about the one that the request has read.

use crate::ids::{id_text, Id};
use crate::model::{
    Battlesnake, GameBoardSize, GameType, Leaderboard, MatchStyle, RankedEntry,
    RegistrationStatus, Tournament, TournamentRegistration, TournamentStatus,
    TournamentVisibility,
};
use crate::text::opt_text;
use vstd::prelude::*;
use vstd::string::StringExecFns;

verus! {

/// How a flash message is shown.
#[derive(Clone, Copy, Debug, PartialEq, Eq, Structural)]
pub enum FlashKind {
    Error,
    Success,
    Info,
}

/// The answer to a request.
#[derive(Debug)]
pub enum Reply {
    /// There is no such thing, as far as the requester is told.
    NotFound { message: String },
    /// The requester may not do this.
    Forbidden { message: String },
    /// A message on the page that the requester is sent to.
    Flash { kind: FlashKind, message: String, to: String },
}

/// The answer to a request, with its texts as characters.
pub enum ReplyView {
    NotFound { message: Seq<char> },
    Forbidden { message: Seq<char> },
    Flash { kind: FlashKind, message: Seq<char>, to: Seq<char> },
}

impl View for Reply {
    type V = ReplyView;

    open spec fn view(&self) -> ReplyView {
        match *self {
            Reply::NotFound { message } => ReplyView::NotFound { message: message@ },
            Reply::Forbidden { message } => ReplyView::Forbidden { message: message@ },
            Reply::Flash { kind, message, to } => ReplyView::Flash {
                kind,
                message: message@,
                to: to@,
            },
        }
    }
}

/// The settings that a tournament is created or updated with.
#[derive(Debug)]
pub struct Settings {
    pub name: String,
    pub description: Option<String>,
    pub game_type: GameType,
    pub board_size: GameBoardSize,
    pub match_style: MatchStyle,
    pub registration_status: RegistrationStatus,
    pub visibility: TournamentVisibility,
    pub max_snakes_per_user: i32,
    pub required_participants: i32,
}

/// Settings, with their texts as characters.
pub struct SettingsView {
    pub name: Seq<char>,
    pub description: Option<Seq<char>>,
    pub game_type: GameType,
    pub board_size: GameBoardSize,
    pub match_style: MatchStyle,
    pub registration_status: RegistrationStatus,
    pub visibility: TournamentVisibility,
    pub max_snakes_per_user: i32,
    pub required_participants: i32,
}

impl View for Settings {
    type V = SettingsView;

    open spec fn view(&self) -> SettingsView {
        SettingsView {
            name: self.name@,
            description: opt_text(self.description),
            game_type: self.game_type,
            board_size: self.board_size,
            match_style: self.match_style,
            registration_status: self.registration_status,
            visibility: self.visibility,
            max_snakes_per_user: self.max_snakes_per_user,
            required_participants: self.required_participants,
        }
    }
}

/// A change to what is stored.
#[derive(Debug)]
pub enum Write {
    /// Store a new tournament that the user owns.
    CreateTournament { user_id: Id, settings: Settings },
    /// Replace the tournament's settings.
    UpdateSettings(Settings),
    /// Register a snake behind all others.
    Register { battlesnake_id: Id, user_id: Id },
    /// Register a snake with the given seed.
    RegisterSeeded { battlesnake_id: Id, user_id: Id, seed: i32 },
    /// Remove a registration and close the gap in the seeds.
    Unregister { registration_id: Id },
    /// Move a registration to another seed.
    MoveSeed { registration_id: Id, new_seed: i32 },
    /// Change the tournament's status, provided that it is still the expected
    /// one.
    SetStatus { next: TournamentStatus, expected: TournamentStatus },
    /// Set the tournament's current round.
    SetRound { round: i32 },
    /// Generate and store the bracket of these registrations.
    PersistBracket { registrations: Vec<TournamentRegistration> },
    /// Remove every match of the tournament.
    DeleteMatches,
    /// Have a round played in the background.
    EnqueueRound { round: i32, reason: String },
}

/// A change to what is stored, with its texts as characters.
pub enum WriteView {
    CreateTournament { user_id: Id, settings: SettingsView },
    UpdateSettings(SettingsView),
    Register { battlesnake_id: Id, user_id: Id },
    RegisterSeeded { battlesnake_id: Id, user_id: Id, seed: i32 },
    Unregister { registration_id: Id },
    MoveSeed { registration_id: Id, new_seed: i32 },
    SetStatus { next: TournamentStatus, expected: TournamentStatus },
    SetRound { round: i32 },
    PersistBracket { registrations: Seq<TournamentRegistration> },
    DeleteMatches,
    EnqueueRound { round: i32, reason: Seq<char> },
}

impl View for Write {
    type V = WriteView;

    open spec fn view(&self) -> WriteView {
        match *self {
            Write::CreateTournament { user_id, settings } => WriteView::CreateTournament {
                user_id,
                settings: settings@,
            },
            Write::UpdateSettings(settings) => WriteView::UpdateSettings(settings@),
            Write::Register { battlesnake_id, user_id } => WriteView::Register {
                battlesnake_id,
                user_id,
            },
            Write::RegisterSeeded { battlesnake_id, user_id, seed } => WriteView::RegisterSeeded {
                battlesnake_id,
                user_id,
                seed,
            },
            Write::Unregister { registration_id } => WriteView::Unregister { registration_id },
            Write::MoveSeed { registration_id, new_seed } => WriteView::MoveSeed {
                registration_id,
                new_seed,
            },
            Write::SetStatus { next, expected } => WriteView::SetStatus { next, expected },
            Write::SetRound { round } => WriteView::SetRound { round },
            Write::PersistBracket { registrations } => WriteView::PersistBracket {
                registrations: registrations@,
            },
            Write::DeleteMatches => WriteView::DeleteMatches,
            Write::EnqueueRound { round, reason } => WriteView::EnqueueRound {
                round,
                reason: reason@,
            },
        }
    }
}

/// What a request does next.
#[derive(Debug)]
pub enum Step {
    /// Open the request's transaction and read the tournament under its lock.
    LockTournament { tournament_id: Id },
    /// Read the tournament.
    LoadTournament { tournament_id: Id },
    /// Count the requester's registrations, to see whether the tournament is
    /// hidden from them.
    CountRequesterRegistrations { user_id: Id },
    /// Count all registrations.
    CountRegistrations,
    /// Read a snake.
    LoadSnake { battlesnake_id: Id },
    /// See whether a snake is registered.
    CheckRegistered { battlesnake_id: Id },
    /// Count the registrations of the snake's owner.
    CountUserRegistrations { user_id: Id },
    /// Read a registration.
    LoadRegistration { registration_id: Id },
    /// Read all registrations.
    LoadRegistrations,
    /// Read a leaderboard.
    LoadLeaderboard { leaderboard_id: Id },
    /// Read the ranking of a leaderboard by rating.
    LoadRanking { leaderboard_id: Id },
    /// Find the first free seed.
    NextSeed,
    /// Count the games that a user created in the last minutes.
    CountRecentGames { user_id: Id, window_minutes: i64 },
    /// Ask the lifecycle whether it allows a change of status.
    CheckTransition { from: TournamentStatus, to: TournamentStatus },
    /// Make these changes, in this order.
    Apply(Vec<Write>),
    /// Commit the request's transaction.
    Commit,
    /// Show the requested page.
    Render,
    /// Answer the request. What is not committed is rolled back.
    Reply(Reply),
}

/// What a request does next, with its texts as characters.
pub enum StepView {
    LockTournament { tournament_id: Id },
    LoadTournament { tournament_id: Id },
    CountRequesterRegistrations { user_id: Id },
    CountRegistrations,
    LoadSnake { battlesnake_id: Id },
    CheckRegistered { battlesnake_id: Id },
    CountUserRegistrations { user_id: Id },
    LoadRegistration { registration_id: Id },
    LoadRegistrations,
    LoadLeaderboard { leaderboard_id: Id },
    LoadRanking { leaderboard_id: Id },
    NextSeed,
    CountRecentGames { user_id: Id, window_minutes: i64 },
    CheckTransition { from: TournamentStatus, to: TournamentStatus },
    Apply(Seq<WriteView>),
    Commit,
    Render,
    Reply(ReplyView),
}

/// The changes of a list, each with its texts as characters.
pub open spec fn writes_view(writes: Seq<Write>) -> Seq<WriteView> {
    Seq::new(writes.len(), |i: int| writes[i]@)
}

impl View for Step {
    type V = StepView;

    open spec fn view(&self) -> StepView {
        match *self {
            Step::LockTournament { tournament_id } => StepView::LockTournament { tournament_id },
            Step::LoadTournament { tournament_id } => StepView::LoadTournament { tournament_id },
            Step::CountRequesterRegistrations { user_id } => StepView::CountRequesterRegistrations {
                user_id,
            },
            Step::CountRegistrations => StepView::CountRegistrations,
            Step::LoadSnake { battlesnake_id } => StepView::LoadSnake { battlesnake_id },
            Step::CheckRegistered { battlesnake_id } => StepView::CheckRegistered {
                battlesnake_id,
            },
            Step::CountUserRegistrations { user_id } => StepView::CountUserRegistrations {
                user_id,
            },
            Step::LoadRegistration { registration_id } => StepView::LoadRegistration {
                registration_id,
            },
            Step::LoadRegistrations => StepView::LoadRegistrations,
            Step::LoadLeaderboard { leaderboard_id } => StepView::LoadLeaderboard {
                leaderboard_id,
            },
            Step::LoadRanking { leaderboard_id } => StepView::LoadRanking { leaderboard_id },
            Step::NextSeed => StepView::NextSeed,
            Step::CountRecentGames { user_id, window_minutes } => StepView::CountRecentGames {
                user_id,
                window_minutes,
            },
            Step::CheckTransition { from, to } => StepView::CheckTransition { from, to },
            Step::Apply(writes) => StepView::Apply(writes_view(writes@)),
            Step::Commit => StepView::Commit,
            Step::Render => StepView::Render,
            Step::Reply(reply) => StepView::Reply(reply@),
        }
    }
}

/// What a request has found out and done so far. A fact that has not been
/// asked for is `None`.
#[derive(Debug)]
pub struct Progress {
    pub tournament: Option<Option<Tournament>>,
    pub requester_registrations: Option<i64>,
    pub registration_count: Option<i64>,
    pub snake: Option<Option<Battlesnake>>,
    pub already_registered: Option<bool>,
    pub user_registrations: Option<i64>,
    pub registration: Option<Option<TournamentRegistration>>,
    pub registrations: Option<Vec<TournamentRegistration>>,
    pub leaderboard: Option<Option<Leaderboard>>,
    pub ranking: Option<Vec<RankedEntry>>,
    pub next_seed: Option<i32>,
    pub recent_games: Option<i64>,
    pub transition_allowed: Option<bool>,
    /// The seed that a registration was given.
    pub assigned_seed: Option<i32>,
    /// Whether there was a registration to move.
    pub seed_moved: Option<bool>,
    /// Whether the bracket was stored, rather than found to exist already.
    pub bracket_stored: Option<bool>,
    /// The tournament that was created.
    pub created: Option<Id>,
    /// Whether the other changes of the request were made.
    pub applied: bool,
    pub committed: bool,
}

impl Progress {
    /// A request of which nothing is known yet.
    pub open spec fn fresh() -> Progress {
        Progress {
            tournament: None,
            requester_registrations: None,
            registration_count: None,
            snake: None,
            already_registered: None,
            user_registrations: None,
            registration: None,
            registrations: None,
            leaderboard: None,
            ranking: None,
            next_seed: None,
            recent_games: None,
            transition_allowed: None,
            assigned_seed: None,
            seed_moved: None,
            bracket_stored: None,
            created: None,
            applied: false,
            committed: false,
        }
    }

    /// A request of which nothing is known yet.
    pub fn start() -> (r: Progress)
        ensures
            r == Progress::fresh(),
    {
        Progress {
            tournament: None,
            requester_registrations: None,
            registration_count: None,
            snake: None,
            already_registered: None,
            user_registrations: None,
            registration: None,
            registrations: None,
            leaderboard: None,
            ranking: None,
            next_seed: None,
            recent_games: None,
            transition_allowed: None,
            assigned_seed: None,
            seed_moved: None,
            bracket_stored: None,
            created: None,
            applied: false,
            committed: false,
        }
    }
}

/// The page of a tournament.
pub open spec fn detail_path(tournament_id: Id) -> Seq<char> {
    "/tournaments/"@ + tournament_id.text()
}

/// The page of a tournament.
pub fn detail_url(tournament_id: Id) -> (r: String)
    ensures
        r@ == detail_path(tournament_id),
{
    "/tournaments/".to_owned().concat(id_text(tournament_id).as_str())
}

/// The settings page of a tournament.
pub open spec fn edit_path(tournament_id: Id) -> Seq<char> {
    detail_path(tournament_id) + "/edit"@
}

/// The settings page of a tournament.
pub fn edit_url(tournament_id: Id) -> (r: String)
    ensures
        r@ == edit_path(tournament_id),
{
    detail_url(tournament_id).concat("/edit")
}

/// The step that answers with a flash message.
pub open spec fn flash(kind: FlashKind, message: Seq<char>, to: Seq<char>) -> StepView {
    StepView::Reply(ReplyView::Flash { kind, message, to })
}

/// The step that answers with a flash message.
pub fn flash_step(kind: FlashKind, message: String, to: String) -> (r: Step)
    ensures
        r@ == flash(kind, message@, to@),
{
    Step::Reply(Reply::Flash { kind, message, to })
}

/// The step that makes one change.
pub open spec fn apply_one(write: WriteView) -> StepView {
    StepView::Apply(seq![write])
}

/// The step that makes one change.
pub fn apply_one_step(write: Write) -> (r: Step)
    ensures
        r@ == apply_one(write@),
{
    let ghost w = write@;
    let mut writes: Vec<Write> = Vec::new();
    writes.push(write);
    assert(writes_view(writes@) =~= seq![w]);
    Step::Apply(writes)
}

/// The answer about a tournament that does not exist, or is not to be seen.
pub open spec fn not_found() -> StepView {
    StepView::Reply(ReplyView::NotFound { message: "Tournament not found"@ })
}

/// The answer about a tournament that does not exist, or is not to be seen.
pub fn not_found_step() -> (r: Step)
    ensures
        r@ == not_found(),
{
    Step::Reply(Reply::NotFound { message: "Tournament not found".to_owned() })
}

/// Whether a tournament is hidden from a user: it is for participants only,
/// and they neither own it nor have a snake in it.
pub open spec fn hidden_from(tournament: Tournament, user_id: Id, registrations: int) -> bool {
    tournament.visibility is ParticipantsOnly && tournament.user_id != user_id && registrations == 0
}

/// Whether it takes the requester's registrations to tell whether a
/// tournament is hidden from them.
pub open spec fn hiding_depends(tournament: Tournament, user_id: Id) -> bool {
    tournament.visibility is ParticipantsOnly && tournament.user_id != user_id
}

/// Whether this tournament must be concealed from the requester, who has so
/// many registrations in it. `None` when that count is needed and not known.
pub fn is_hidden_from(tournament: &Tournament, user_id: Id, registrations: Option<i64>) -> (r:
    Option<bool>)
    ensures
        !hiding_depends(*tournament, user_id) ==> r == Some(false),
        hiding_depends(*tournament, user_id) ==> r == (match registrations {
            Some(n) => Some(hidden_from(*tournament, user_id, n as int)),
            None => None,
        }),
{
    if tournament.visibility != TournamentVisibility::ParticipantsOnly || tournament.user_id
        == user_id {
        return Some(false);
    }
    match registrations {
        Some(n) => Some(n == 0),
        None => None,
    }
}

/// What comes before anything else in a request that every viewer of a
/// tournament may make: the tournament is read, and has to be there and not
/// hidden. `None` once that is settled.
pub open spec fn viewer_gate(load: StepView, user_id: Id, p: Progress) -> Option<StepView> {
    match p.tournament {
        None => Some(load),
        Some(None) => Some(not_found()),
        Some(Some(t)) => if !hiding_depends(t, user_id) {
            None
        } else {
            match p.requester_registrations {
                None => Some(StepView::CountRequesterRegistrations { user_id }),
                Some(n) => if n == 0 {
                    Some(not_found())
                } else {
                    None
                },
            }
        },
    }
}

/// What comes before anything else in a request that every viewer of a
/// tournament may make.
pub fn check_viewer(load: Step, user_id: Id, p: &Progress) -> (r: Option<Step>)
    ensures
        match r {
            Some(step) => viewer_gate(load@, user_id, *p) == Some(step@),
            None => viewer_gate(load@, user_id, *p) is None,
        },
{
    match &p.tournament {
        None => Some(load),
        Some(None) => Some(not_found_step()),
        Some(Some(t)) => match is_hidden_from(t, user_id, p.requester_registrations) {
            None => Some(Step::CountRequesterRegistrations { user_id }),
            Some(true) => Some(not_found_step()),
            Some(false) => None,
        },
    }
}

/// What comes before anything else in a request that only the owner of a
/// tournament may make: as for every viewer, and then others are refused with
/// the given message. `None` once the requester is known to be the owner.
pub open spec fn owner_gate(
    load: StepView,
    user_id: Id,
    refusal: Seq<char>,
    p: Progress,
) -> Option<StepView> {
    match viewer_gate(load, user_id, p) {
        Some(step) => Some(step),
        None => if p.tournament->0->0.user_id == user_id {
            None
        } else {
            Some(StepView::Reply(ReplyView::Forbidden { message: refusal }))
        },
    }
}

/// What comes before anything else in a request that only the owner of a
/// tournament may make.
pub fn check_owner(load: Step, user_id: Id, refusal: &str, p: &Progress) -> (r: Option<Step>)
    ensures
        match r {
            Some(step) => owner_gate(load@, user_id, refusal@, *p) == Some(step@),
            None => owner_gate(load@, user_id, refusal@, *p) is None,
        },
{
    match check_viewer(load, user_id, p) {
        Some(step) => Some(step),
        None => match &p.tournament {
            Some(Some(t)) => if t.user_id == user_id {
                None
            } else {
                Some(Step::Reply(Reply::Forbidden { message: refusal.to_owned() }))
            },
            _ => None,
        },
    }
}

// Laws.

/// A tournament is hidden exactly from those who neither own it nor take part
/// in it, and only while it is for participants alone.
pub proof fn only_outsiders_are_kept_out(t: Tournament, user_id: Id, registrations: int)
    ensures
        t.visibility is Public ==> !hidden_from(t, user_id, registrations),
        !hidden_from(t, t.user_id, registrations),
        registrations != 0 ==> !hidden_from(t, user_id, registrations),
        t.visibility is ParticipantsOnly && user_id != t.user_id ==> hidden_from(t, user_id, 0),
{
}

/// A requester is let through once the tournament is there and not hidden:
/// what is public or one's own is never hidden, anything else is only after
/// the requester's own registrations were counted and found to be none.
pub proof fn the_gate_opens_for_those_who_may_know(
    load: StepView,
    user_id: Id,
    refusal: Seq<char>,
    p: Progress,
)
    ensures
        p.tournament is None ==> viewer_gate(load, user_id, p) == Some(load),
        p.tournament == Some(None::<Tournament>) ==> viewer_gate(load, user_id, p) == Some(
            StepView::Reply(ReplyView::NotFound { message: "Tournament not found"@ }),
        ),
        p.tournament matches Some(Some(t)) ==> {
            let gate = viewer_gate(load, user_id, p);
            &&& t.visibility is Public || t.user_id == user_id ==> gate is None
            &&& t.visibility is ParticipantsOnly && t.user_id != user_id ==> {
                &&& p.requester_registrations is None ==> gate == Some(
                    StepView::CountRequesterRegistrations { user_id },
                )
                &&& p.requester_registrations == Some(0i64) ==> gate == Some(
                    StepView::Reply(ReplyView::NotFound { message: "Tournament not found"@ }),
                )
                &&& p.requester_registrations is Some && p.requester_registrations->0 != 0 ==> gate
                    is None
            }
            &&& t.user_id == user_id ==> owner_gate(load, user_id, refusal, p) is None
            &&& t.user_id != user_id && gate is None ==> owner_gate(load, user_id, refusal, p)
                == Some(StepView::Reply(ReplyView::Forbidden { message: refusal }))
            &&& gate is Some ==> owner_gate(load, user_id, refusal, p) == gate
        },
{
}

/// The pages of a tournament are found under its identifier.
pub proof fn tournaments_have_addresses(tournament_id: Id)
    ensures
        detail_path(tournament_id) == "/tournaments/"@ + tournament_id.text(),
        edit_path(tournament_id) == "/tournaments/"@ + tournament_id.text() + "/edit"@,
{
}

} // verus!
