//! Requests that move a tournament through its life: opening, canceling,
//! starting, playing rounds and resetting. Each function names the next step
//! of its request, from what the request has found out so far.

use crate::flow::{
    apply_one, apply_one_step, check_owner, detail_path, detail_url, flash, flash_step,
    not_found_step, owner_gate, writes_view, FlashKind, Progress, Step, StepView, Write, WriteView,
};
use crate::forms::StatusForm;
use crate::ids::{id_text, Id};
use crate::model::{Tournament, TournamentRegistration, TournamentStatus};
use crate::rules::{start_refusal, validate_start};
use crate::text::{count_text, decimal, decimal_text, same_text};
use vstd::prelude::*;
use vstd::string::StringExecFns;

verus! {

// Changing the status.

/// The status that an action asks for.
pub open spec fn action_target(action: Seq<char>) -> Option<TournamentStatus> {
    if action == "open_registration"@ {
        Some(TournamentStatus::Registration)
    } else if action == "cancel"@ {
        Some(TournamentStatus::Canceled)
    } else {
        None
    }
}

/// The status that an action asks for.
pub fn parse_action(action: &str) -> (r: Option<TournamentStatus>)
    ensures
        r == action_target(action@),
{
    if same_text(action, "open_registration") {
        Some(TournamentStatus::Registration)
    } else if same_text(action, "cancel") {
        Some(TournamentStatus::Canceled)
    } else {
        None
    }
}

/// What is said after a change of status.
pub open spec fn status_message(next: TournamentStatus) -> Seq<char> {
    match next {
        TournamentStatus::Registration => "Registration is now open!"@,
        TournamentStatus::Canceled => "Tournament canceled"@,
        _ => "Tournament moved to "@ + next.text(),
    }
}

/// The next step of opening registration or canceling.
pub open spec fn update_status_next(
    tournament_id: Id,
    user_id: Id,
    form: StatusForm,
    p: Progress,
) -> StepView {
    let page = detail_path(tournament_id);
    match owner_gate(
        StepView::LockTournament { tournament_id },
        user_id,
        "Only the tournament owner can change its status"@,
        p,
    ) {
        Some(step) => step,
        None => {
            let from = p.tournament->0->0.status;
            match action_target(form.action@) {
                None => flash(FlashKind::Error, "Unknown action: "@ + form.action@, page),
                Some(to) => match p.transition_allowed {
                    None => StepView::CheckTransition { from, to },
                    Some(false) => flash(
                        FlashKind::Error,
                        "Cannot move tournament from "@ + from.text() + " to "@ + to.text(),
                        page,
                    ),
                    Some(true) => if !p.applied {
                        apply_one(WriteView::SetStatus { next: to, expected: from })
                    } else if !p.committed {
                        StepView::Commit
                    } else {
                        flash(FlashKind::Success, status_message(to), page)
                    },
                },
            }
        },
    }
}

/// Lifecycle transitions, by the owner only. Starting is not one of them: it
/// needs a bracket, and has a request of its own.
pub fn update_status(tournament_id: Id, user_id: Id, form: &StatusForm, p: &Progress) -> (r: Step)
    ensures
        r@ == update_status_next(tournament_id, user_id, *form, *p),
{
    if let Some(step) = check_owner(
        Step::LockTournament { tournament_id },
        user_id,
        "Only the tournament owner can change its status",
        p,
    ) {
        return step;
    }
    let page: String = detail_url(tournament_id);
    match &p.tournament {
        Some(Some(t)) => {
            let to: TournamentStatus = match parse_action(form.action.as_str()) {
                None => {
                    return flash_step(
                        FlashKind::Error,
                        "Unknown action: ".to_owned().concat(form.action.as_str()),
                        page,
                    );
                },
                Some(to) => to,
            };
            let allowed: bool = match p.transition_allowed {
                None => {
                    return Step::CheckTransition { from: t.status, to };
                },
                Some(allowed) => allowed,
            };
            if !allowed {
                return flash_step(
                    FlashKind::Error,
                    "Cannot move tournament from ".to_owned().concat(t.status.as_str()).concat(
                        " to ",
                    ).concat(to.as_str()),
                    page,
                );
            }
            if !p.applied {
                return apply_one_step(Write::SetStatus { next: to, expected: t.status });
            }
            if !p.committed {
                return Step::Commit;
            }
            let message: String = match to {
                TournamentStatus::Registration => "Registration is now open!".to_owned(),
                TournamentStatus::Canceled => "Tournament canceled".to_owned(),
                _ => "Tournament moved to ".to_owned().concat(to.as_str()),
            };
            flash_step(FlashKind::Success, message, page)
        },
        _ => not_found_step(),
    }
}

// Starting.

/// How far the start of a tournament has come.
#[derive(Debug)]
pub enum StartOutcome {
    Ask(Step),
    Refused(String),
    Started { snakes: usize },
}

/// How far the start of a tournament has come, with its texts as characters.
pub enum StartOutcomeView {
    Ask(StepView),
    Refused(Seq<char>),
    Started { snakes: nat },
}

impl View for StartOutcome {
    type V = StartOutcomeView;

    open spec fn view(&self) -> StartOutcomeView {
        match *self {
            StartOutcome::Ask(step) => StartOutcomeView::Ask(step@),
            StartOutcome::Refused(message) => StartOutcomeView::Refused(message@),
            StartOutcome::Started { snakes } => StartOutcomeView::Started { snakes: snakes as nat },
        }
    }
}

/// What a started tournament changes to, after its bracket is stored.
pub open spec fn start_writes(t: Tournament) -> Seq<WriteView> {
    seq![
        WriteView::SetStatus { next: TournamentStatus::InProgress, expected: t.status },
        WriteView::SetRound { round: 1 },
    ]
}

/// The start of a tournament: its registrations are read and judged, the
/// bracket of these very registrations is stored, and the tournament moves to its first round.
pub open spec fn starting(t: Tournament, p: Progress) -> StartOutcomeView {
    match p.registrations {
        None => StartOutcomeView::Ask(StepView::LoadRegistrations),
        Some(registrations) => match start_refusal(t, registrations@.len() as int) {
            Some(message) => StartOutcomeView::Refused(message),
            None => match p.bracket_stored {
                None => StartOutcomeView::Ask(
                    apply_one(WriteView::PersistBracket { registrations: registrations@ }),
                ),
                Some(false) => StartOutcomeView::Refused("Tournament already started"@),
                Some(true) => if !p.applied {
                    StartOutcomeView::Ask(StepView::Apply(start_writes(t)))
                } else {
                    StartOutcomeView::Started { snakes: registrations@.len() }
                },
            },
        },
    }
}

fn copy_registrations(registrations: &[TournamentRegistration]) -> (r: Vec<
    TournamentRegistration,
>)
    ensures
        r@ == registrations@,
{
    let mut copies: Vec<TournamentRegistration> = Vec::new();
    let mut i: usize = 0;
    while i < registrations.len()
        invariant
            i <= registrations.len(),
            copies@ == registrations@.take(i as int),
        decreases registrations.len() - i,
    {
        copies.push(registrations[i]);
        assert(registrations@.take(i + 1) =~= registrations@.take(i as int).push(
            registrations@[i as int],
        ));
        i = i + 1;
    }
    assert(registrations@.take(i as int) =~= registrations@);
    copies
}

/// The start flow against the locked tournament. A bracket that exists
/// already is a refusal like any other.
pub fn start_tournament_in_tx(t: &Tournament, p: &Progress) -> (r: StartOutcome)
    ensures
        r@ == starting(*t, *p),
{
    match &p.registrations {
        None => StartOutcome::Ask(Step::LoadRegistrations),
        Some(registrations) => {
            let snakes: usize = registrations.len();
            let count: i64 = if snakes as u64 > 9223372036854775807 {
                9223372036854775807
            } else {
                snakes as i64
            };
            match validate_start(t, count) {
                Err(message) => {
                    return StartOutcome::Refused(message);
                },
                Ok(_) => {},
            }
            match p.bracket_stored {
                None => StartOutcome::Ask(
                    apply_one_step(
                        Write::PersistBracket {
                            registrations: copy_registrations(registrations.as_slice()),
                        },
                    ),
                ),
                Some(stored) => if !stored {
                    StartOutcome::Refused("Tournament already started".to_owned())
                } else if !p.applied {
                    let mut writes: Vec<Write> = Vec::new();
                    writes.push(
                        Write::SetStatus { next: TournamentStatus::InProgress, expected: t.status },
                    );
                    writes.push(Write::SetRound { round: 1 });
                    assert(writes_view(writes@) =~= start_writes(*t));
                    StartOutcome::Ask(Step::Apply(writes))
                } else {
                    StartOutcome::Started { snakes }
                },
            }
        },
    }
}

/// The next step of starting a tournament.
pub open spec fn start_next(tournament_id: Id, user_id: Id, p: Progress) -> StepView {
    let page = detail_path(tournament_id);
    match owner_gate(
        StepView::LockTournament { tournament_id },
        user_id,
        "Only the tournament owner can start it"@,
        p,
    ) {
        Some(step) => step,
        None => match starting(p.tournament->0->0, p) {
            StartOutcomeView::Ask(step) => step,
            StartOutcomeView::Refused(message) => flash(FlashKind::Error, message, page),
            StartOutcomeView::Started { snakes } => if !p.committed {
                StepView::Commit
            } else {
                flash(
                    FlashKind::Success,
                    "Tournament started with "@ + decimal(snakes as int)
                        + " snakes! Use \"Run Round\" to play each round."@,
                    page,
                )
            },
        },
    }
}

/// Generate the bracket and begin the first round, by the owner only.
pub fn start_tournament(tournament_id: Id, user_id: Id, p: &Progress) -> (r: Step)
    ensures
        r@ == start_next(tournament_id, user_id, *p),
{
    if let Some(step) = check_owner(
        Step::LockTournament { tournament_id },
        user_id,
        "Only the tournament owner can start it",
        p,
    ) {
        return step;
    }
    let page: String = detail_url(tournament_id);
    match &p.tournament {
        Some(Some(t)) => match start_tournament_in_tx(t, p) {
            StartOutcome::Ask(step) => step,
            StartOutcome::Refused(message) => flash_step(FlashKind::Error, message, page),
            StartOutcome::Started { snakes } => if !p.committed {
                Step::Commit
            } else {
                flash_step(
                    FlashKind::Success,
                    "Tournament started with ".to_owned().concat(
                        count_text(snakes).as_str(),
                    ).concat(" snakes! Use \"Run Round\" to play each round."),
                    page,
                )
            },
        },
        _ => not_found_step(),
    }
}

// Playing a round.

/// How many games a user may create, and in how many minutes.
#[derive(Clone, Copy, Debug, PartialEq, Eq, Structural)]
pub struct GameBudget {
    pub limit: i64,
    pub window_minutes: i64,
}

impl GameBudget {
    /// Whether so many games use the budget up.
    pub open spec fn spent_by(self, games: int) -> bool {
        games >= self.limit
    }

    /// Whether so many games use the budget up.
    pub fn is_spent(&self, games: i64) -> (r: bool)
        ensures
            r == self.spent_by(games as int),
    {
        games >= self.limit
    }
}

/// What is said to an owner who is over the game budget.
pub open spec fn over_budget_message(budget: GameBudget) -> Seq<char> {
    "You're over the game-creation limit ("@ + decimal(budget.limit as int) + " games per "@
        + decimal(budget.window_minutes as int)
        + " minutes, tournament games included). Wait a bit before running the next round."@
}

/// Why a round was enqueued.
pub open spec fn round_reason(tournament_id: Id, round: int) -> Seq<char> {
    "Owner ran round "@ + decimal(round) + " of tournament "@ + tournament_id.text()
}

/// The next step of playing the current round.
pub open spec fn run_round_next(
    tournament_id: Id,
    user_id: Id,
    budget: GameBudget,
    p: Progress,
) -> StepView {
    let page = detail_path(tournament_id);
    match owner_gate(
        StepView::LoadTournament { tournament_id },
        user_id,
        "Only the tournament owner can run rounds"@,
        p,
    ) {
        Some(step) => step,
        None => {
            let t = p.tournament->0->0;
            if !(t.status is InProgress) {
                flash(
                    FlashKind::Error,
                    "Rounds can only be run while the tournament is in progress"@,
                    page,
                )
            } else {
                match p.recent_games {
                    None => StepView::CountRecentGames {
                        user_id,
                        window_minutes: budget.window_minutes,
                    },
                    Some(attempts) => if budget.spent_by(attempts as int) {
                        flash(FlashKind::Error, over_budget_message(budget), page)
                    } else if !p.applied {
                        apply_one(
                            WriteView::EnqueueRound {
                                round: t.current_round,
                                reason: round_reason(tournament_id, t.current_round as int),
                            },
                        )
                    } else {
                        flash(
                            FlashKind::Success,
                            "Round "@ + decimal(t.current_round as int) + " started"@,
                            page + "?watch_round="@ + decimal(t.current_round as int),
                        )
                    },
                }
            }
        },
    }
}

/// Kick off the current round's matches, by the owner only, within their game
/// budget. The work is pinned to the round that the owner saw.
pub fn run_round(tournament_id: Id, user_id: Id, budget: &GameBudget, p: &Progress) -> (r: Step)
    ensures
        r@ == run_round_next(tournament_id, user_id, *budget, *p),
{
    if let Some(step) = check_owner(
        Step::LoadTournament { tournament_id },
        user_id,
        "Only the tournament owner can run rounds",
        p,
    ) {
        return step;
    }
    let page: String = detail_url(tournament_id);
    match &p.tournament {
        Some(Some(t)) => {
            if t.status != TournamentStatus::InProgress {
                return flash_step(
                    FlashKind::Error,
                    "Rounds can only be run while the tournament is in progress".to_owned(),
                    page,
                );
            }
            let attempts: i64 = match p.recent_games {
                None => {
                    return Step::CountRecentGames {
                        user_id,
                        window_minutes: budget.window_minutes,
                    };
                },
                Some(attempts) => attempts,
            };
            if budget.is_spent(attempts) {
                let message: String = "You're over the game-creation limit (".to_owned().concat(
                    decimal_text(budget.limit).as_str(),
                ).concat(" games per ").concat(
                    decimal_text(budget.window_minutes).as_str(),
                ).concat(
                    " minutes, tournament games included). Wait a bit before running the next round.",
                );
                return flash_step(FlashKind::Error, message, page);
            }
            let round: String = decimal_text(t.current_round as i64);
            if !p.applied {
                let reason: String = "Owner ran round ".to_owned().concat(round.as_str()).concat(
                    " of tournament ",
                ).concat(id_text(tournament_id).as_str());
                return apply_one_step(Write::EnqueueRound { round: t.current_round, reason });
            }
            flash_step(
                FlashKind::Success,
                "Round ".to_owned().concat(round.as_str()).concat(" started"),
                page.concat("?watch_round=").concat(round.as_str()),
            )
        },
        _ => not_found_step(),
    }
}

// Resetting.

/// What a reset changes: the bracket goes, and registration opens again.
pub open spec fn reset_writes() -> Seq<WriteView> {
    seq![
        WriteView::DeleteMatches,
        WriteView::SetRound { round: 0 },
        WriteView::SetStatus {
            next: TournamentStatus::Registration,
            expected: TournamentStatus::InProgress,
        },
    ]
}

/// The next step of resetting a tournament.
pub open spec fn reset_next(tournament_id: Id, user_id: Id, p: Progress) -> StepView {
    let page = detail_path(tournament_id);
    match owner_gate(
        StepView::LockTournament { tournament_id },
        user_id,
        "Only the tournament owner can reset it"@,
        p,
    ) {
        Some(step) => step,
        None => if !(p.tournament->0->0.status is InProgress) {
            flash(FlashKind::Error, "Only an in-progress tournament can be reset"@, page)
        } else if !p.applied {
            StepView::Apply(reset_writes())
        } else if !p.committed {
            StepView::Commit
        } else {
            flash(
                FlashKind::Success,
                "Tournament reset — the bracket was cleared and registration is open again. Any games still running will finish on their own but won't count."@,
                page,
            )
        },
    }
}

/// Delete the bracket and reopen registration, by the owner only. Matches are
/// deleted and registrations are kept. Games that still run finish on their
/// own and count for nothing. A completed tournament is not resettable.
pub fn reset_tournament(tournament_id: Id, user_id: Id, p: &Progress) -> (r: Step)
    ensures
        r@ == reset_next(tournament_id, user_id, *p),
{
    if let Some(step) = check_owner(
        Step::LockTournament { tournament_id },
        user_id,
        "Only the tournament owner can reset it",
        p,
    ) {
        return step;
    }
    let page: String = detail_url(tournament_id);
    match &p.tournament {
        Some(Some(t)) => {
            if t.status != TournamentStatus::InProgress {
                return flash_step(
                    FlashKind::Error,
                    "Only an in-progress tournament can be reset".to_owned(),
                    page,
                );
            }
            if !p.applied {
                let mut writes: Vec<Write> = Vec::new();
                writes.push(Write::DeleteMatches);
                writes.push(Write::SetRound { round: 0 });
                writes.push(
                    Write::SetStatus {
                        next: TournamentStatus::Registration,
                        expected: TournamentStatus::InProgress,
                    },
                );
                assert(writes_view(writes@) =~= reset_writes());
                return Step::Apply(writes);
            }
            if !p.committed {
                return Step::Commit;
            }
            flash_step(
                FlashKind::Success,
                "Tournament reset — the bracket was cleared and registration is open again. Any games still running will finish on their own but won't count.".to_owned(),
                page,
            )
        },
        _ => not_found_step(),
    }
}

// Laws.

/// There are two actions, which open registration and cancel; everything else
/// is unknown.
pub proof fn two_actions_are_known(action: Seq<char>)
    ensures
        action_target(action) == Some(TournamentStatus::Registration) <==> action
            == "open_registration"@,
        action_target(action) == Some(TournamentStatus::Canceled) <==> action == "cancel"@,
        action_target(action) is None <==> action != "open_registration"@ && action != "cancel"@,
{
    reveal_strlit("open_registration");
    reveal_strlit("cancel");
    assert("open_registration"@.len() == 17 && "cancel"@.len() == 6);
}

/// A start is judged by the registrations that were read: there have to be two
/// of them and as many as the tournament requires, and a bracket must not be
/// there yet. The bracket is then made of just these registrations, and the
/// tournament runs in its first round.
pub proof fn a_start_is_made_of_its_registrations(t: Tournament, p: Progress)
    requires
        p.registrations is Some,
    ensures
        ({
            let registrations = p.registrations->0@;
            let enough = t.status is Registration && registrations.len() >= 2
                && registrations.len() >= t.required_participants;
            let outcome = starting(t, p);
            &&& outcome is Refused <==> !enough || p.bracket_stored == Some(false)
            &&& enough && p.bracket_stored is None ==> outcome == StartOutcomeView::Ask(
                StepView::Apply(seq![WriteView::PersistBracket { registrations }]),
            )
            &&& enough && p.bracket_stored == Some(true) && !p.applied ==> outcome
                == StartOutcomeView::Ask(
                StepView::Apply(
                    seq![
                        WriteView::SetStatus {
                            next: TournamentStatus::InProgress,
                            expected: TournamentStatus::Registration,
                        },
                        WriteView::SetRound { round: 1 },
                    ],
                ),
            )
            &&& enough && p.bracket_stored == Some(true) && p.applied ==> outcome
                == StartOutcomeView::Started { snakes: registrations.len() }
        }),
{
    crate::rules::a_start_takes_enough_snakes(t, p.registrations->0@.len() as int);
}

/// A reset removes the matches, goes back before the first round and opens
/// registration again, in this order, and nothing else.
pub proof fn a_reset_goes_back_to_registration()
    ensures
        reset_writes().len() == 3,
        reset_writes()[0] is DeleteMatches,
        reset_writes()[1] == (WriteView::SetRound { round: 0 }),
        reset_writes()[2] == (WriteView::SetStatus {
            next: TournamentStatus::Registration,
            expected: TournamentStatus::InProgress,
        }),
{
}

/// A budget is used up once as many games were created as it allows, and more
/// games never leave more of it.
pub proof fn budgets_are_used_up(budget: GameBudget, games: int, more: int)
    ensures
        budget.spent_by(budget.limit as int),
        !budget.spent_by(budget.limit - 1),
        games <= more && budget.spent_by(games) ==> budget.spent_by(more),
        over_budget_message(budget) == "You're over the game-creation limit ("@ + decimal(
            budget.limit as int,
        ) + " games per "@ + decimal(budget.window_minutes as int)
            + " minutes, tournament games included). Wait a bit before running the next round."@,
{
}

} // verus!
