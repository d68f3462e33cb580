//! What whole requests come to: laws about a request that is served step by
//! step until it is answered.

use crate::flow::{
    detail_path, flash, hidden_from, not_found, FlashKind, Progress, ReplyView, StepView,
    WriteView,
};
use crate::forms::{
    form_refusal, form_settings, ImportLeaderboardForm, RegisterForm, SeedForm, StatusForm,
    TournamentSettingsForm, UnregisterForm,
};
use crate::ids::Id;
use crate::lifecycle::{
    action_target, reset_next, reset_writes, round_reason, run_round_next, start_next, start_writes,
    update_status_next, GameBudget,
};
use crate::model::{
    Battlesnake, Leaderboard, RankedEntry, RegistrationStatus, Tournament, TournamentMatch,
    TournamentRegistration, TournamentStatus,
};
use crate::registration::{
    import_choice, import_next, import_writes, move_seed_next, of_tournament, own_snake,
    register_next, unregister_next,
};
use crate::rules::{
    editable, may_register, refreshes, settings_refusal, start_refusal, visible_to,
    MAX_TOTAL_REGISTRATIONS,
};
use crate::settings::{create_next, edit_next, update_settings_next};
use crate::text::{decimal, i32_of, numbers_are_read_back, trimmed};
use vstd::prelude::*;

verus! {

/// What the stored data answers to everything that a request can ask, and
/// what comes of everything that it can do.
pub struct Answers {
    pub tournament: Option<Tournament>,
    pub requester_registrations: i64,
    pub registration_count: i64,
    pub snake: Option<Battlesnake>,
    pub already_registered: bool,
    pub user_registrations: i64,
    pub registration: Option<TournamentRegistration>,
    pub registrations: Vec<TournamentRegistration>,
    pub leaderboard: Option<Leaderboard>,
    pub ranking: Vec<RankedEntry>,
    pub next_seed: i32,
    pub recent_games: i64,
    pub transition_allowed: bool,
    pub assigned_seed: i32,
    pub seed_moved: bool,
    pub bracket_stored: bool,
    pub created: Id,
}

/// The progress of a request after a step, when the step is answered by the
/// stored data.
pub open spec fn record(a: Answers, step: StepView, p: Progress) -> Progress {
    match step {
        StepView::LockTournament { tournament_id: _ } => Progress {
            tournament: Some(a.tournament),
            ..p
        },
        StepView::LoadTournament { tournament_id: _ } => Progress {
            tournament: Some(a.tournament),
            ..p
        },
        StepView::CountRequesterRegistrations { user_id: _ } => Progress {
            requester_registrations: Some(a.requester_registrations),
            ..p
        },
        StepView::CountRegistrations => Progress {
            registration_count: Some(a.registration_count),
            ..p
        },
        StepView::LoadSnake { battlesnake_id: _ } => Progress { snake: Some(a.snake), ..p },
        StepView::CheckRegistered { battlesnake_id: _ } => Progress {
            already_registered: Some(a.already_registered),
            ..p
        },
        StepView::CountUserRegistrations { user_id: _ } => Progress {
            user_registrations: Some(a.user_registrations),
            ..p
        },
        StepView::LoadRegistration { registration_id: _ } => Progress {
            registration: Some(a.registration),
            ..p
        },
        StepView::LoadRegistrations => Progress { registrations: Some(a.registrations), ..p },
        StepView::LoadLeaderboard { leaderboard_id: _ } => Progress {
            leaderboard: Some(a.leaderboard),
            ..p
        },
        StepView::LoadRanking { leaderboard_id: _ } => Progress { ranking: Some(a.ranking), ..p },
        StepView::NextSeed => Progress { next_seed: Some(a.next_seed), ..p },
        StepView::CountRecentGames { user_id: _, window_minutes: _ } => Progress {
            recent_games: Some(a.recent_games),
            ..p
        },
        StepView::CheckTransition { from: _, to: _ } => Progress {
            transition_allowed: Some(a.transition_allowed),
            ..p
        },
        StepView::Apply(writes) => match writes[0] {
            WriteView::Register { battlesnake_id: _, user_id: _ } => Progress {
                assigned_seed: Some(a.assigned_seed),
                ..p
            },
            WriteView::MoveSeed { registration_id: _, new_seed: _ } => Progress {
                seed_moved: Some(a.seed_moved),
                ..p
            },
            WriteView::PersistBracket { registrations: _ } => Progress {
                bracket_stored: Some(a.bracket_stored),
                ..p
            },
            WriteView::CreateTournament { user_id: _, settings: _ } => Progress {
                created: Some(a.created),
                ..p
            },
            _ => Progress { applied: true, ..p },
        },
        StepView::Commit => Progress { committed: true, ..p },
        StepView::Render => p,
        StepView::Reply(_) => p,
    }
}

/// What a request came to: its last step, every change that it made, and
/// whether they were committed.
pub struct Outcome {
    pub answer: Option<StepView>,
    pub writes: Seq<WriteView>,
    pub committed: bool,
}

/// Whether a step ends a request.
pub open spec fn ends(step: StepView) -> bool {
    step is Reply || step is Render
}

/// The changes that a step makes.
pub open spec fn writes_of(step: StepView) -> Seq<WriteView> {
    match step {
        StepView::Apply(writes) => writes,
        _ => Seq::empty(),
    }
}

/// Serves a request from the given progress on, for at most `steps` steps.
pub open spec fn serve(
    next: spec_fn(Progress) -> StepView,
    a: Answers,
    p: Progress,
    steps: nat,
) -> Outcome
    decreases steps,
{
    let step = next(p);
    if ends(step) {
        Outcome { answer: Some(step), writes: Seq::empty(), committed: p.committed }
    } else if steps == 0 {
        Outcome { answer: None, writes: Seq::empty(), committed: p.committed }
    } else {
        let rest = serve(next, a, record(a, step, p), (steps - 1) as nat);
        Outcome { writes: writes_of(step) + rest.writes, ..rest }
    }
}

/// Serves a request from its beginning. Ten steps are enough for every kind.
pub open spec fn outcome(next: spec_fn(Progress) -> StepView, a: Answers) -> Outcome {
    serve(next, a, Progress::fresh(), 10)
}

/// Whether a request was answered with a message of success.
pub open spec fn succeeded(o: Outcome) -> bool {
    o.answer matches Some(StepView::Reply(ReplyView::Flash { kind: FlashKind::Success, .. }))
}

/// Whether a request came to this: it was answered, it succeeded and was
/// committed exactly when it was to be accepted, and it then made just these
/// changes.
pub open spec fn comes_to(o: Outcome, accepted: bool, writes: Seq<WriteView>) -> bool {
    &&& o.answer is Some
    &&& succeeded(o) == accepted
    &&& o.committed == accepted
    &&& accepted ==> o.writes == writes
}

/// Whether the tournament is there and the requester may know it.
pub open spec fn seen_by(a: Answers, user_id: Id) -> bool {
    a.tournament matches Some(t) && !hidden_from(t, user_id, a.requester_registrations as int)
}

/// Whether the tournament is there and the requester owns it.
pub open spec fn owned_by(a: Answers, user_id: Id) -> bool {
    a.tournament matches Some(t) && t.user_id == user_id
}

/// When a registration is accepted.
pub open spec fn register_accepted(a: Answers, user_id: Id) -> bool {
    &&& seen_by(a, user_id)
    &&& may_register(a.tournament->0, a.tournament->0.user_id == user_id)
    &&& own_snake(a.snake, user_id)
    &&& !a.already_registered
    &&& a.user_registrations < a.tournament->0.max_snakes_per_user
    &&& a.registration_count < MAX_TOTAL_REGISTRATIONS
}

/// A request to register a snake is accepted exactly under the rules, then
/// registers that snake for the requester, and changes nothing otherwise.
#[verifier::rlimit(50)]
pub proof fn register_runs(tournament_id: Id, user_id: Id, form: RegisterForm, a: Answers)
    ensures
        comes_to(
            outcome(|p: Progress| register_next(tournament_id, user_id, form, p), a),
            register_accepted(a, user_id),
            seq![WriteView::Register { battlesnake_id: a.snake->0.battlesnake_id, user_id }],
        ),
        !register_accepted(a, user_id) ==> outcome(
            |p: Progress| register_next(tournament_id, user_id, form, p),
            a,
        ).writes == Seq::<WriteView>::empty(),
{
    reveal_with_fuel(serve, 10);
}

/// When the removal of a registration is accepted.
pub open spec fn unregister_accepted(a: Answers, tournament_id: Id, user_id: Id) -> bool {
    &&& seen_by(a, user_id)
    &&& editable(a.tournament->0.status)
    &&& of_tournament(a.registration, tournament_id)
    &&& a.tournament->0.user_id == user_id || a.registration->0.user_id == user_id
}

/// A request to remove a registration is accepted exactly under the rules,
/// then removes that registration, and changes nothing otherwise.
pub proof fn unregister_runs(tournament_id: Id, user_id: Id, form: UnregisterForm, a: Answers)
    ensures
        comes_to(
            outcome(|p: Progress| unregister_next(tournament_id, user_id, form, p), a),
            unregister_accepted(a, tournament_id, user_id),
            seq![WriteView::Unregister { registration_id: a.registration->0.registration_id }],
        ),
        !unregister_accepted(a, tournament_id, user_id) ==> outcome(
            |p: Progress| unregister_next(tournament_id, user_id, form, p),
            a,
        ).writes == Seq::<WriteView>::empty(),
{
    reveal_with_fuel(serve, 7);
}

/// When a move of a seed is accepted.
pub open spec fn move_seed_accepted(a: Answers, user_id: Id) -> bool {
    owned_by(a, user_id) && editable(a.tournament->0.status) && a.seed_moved
}

/// A request to move a seed is accepted exactly under the rules, and then
/// moves the registration that it names to the seed that it names.
pub proof fn move_seed_runs(tournament_id: Id, user_id: Id, form: SeedForm, a: Answers)
    ensures
        comes_to(
            outcome(|p: Progress| move_seed_next(tournament_id, user_id, form, p), a),
            move_seed_accepted(a, user_id),
            seq![
                WriteView::MoveSeed {
                    registration_id: form.registration_id,
                    new_seed: form.new_seed,
                },
            ],
        ),
{
    reveal_with_fuel(serve, 6);
}

/// When a change of status is accepted.
pub open spec fn update_status_accepted(a: Answers, user_id: Id, form: StatusForm) -> bool {
    owned_by(a, user_id) && action_target(form.action@) is Some && a.transition_allowed
}

/// A request to change the status is accepted exactly when its owner asks for
/// a known action that the lifecycle allows. It then moves the tournament
/// from the status that was judged to the one that was asked for, which is
/// never that of a running tournament.
pub proof fn update_status_runs(tournament_id: Id, user_id: Id, form: StatusForm, a: Answers)
    ensures
        comes_to(
            outcome(|p: Progress| update_status_next(tournament_id, user_id, form, p), a),
            update_status_accepted(a, user_id, form),
            seq![
                WriteView::SetStatus {
                    next: action_target(form.action@)->0,
                    expected: a.tournament->0.status,
                },
            ],
        ),
        !update_status_accepted(a, user_id, form) ==> outcome(
            |p: Progress| update_status_next(tournament_id, user_id, form, p),
            a,
        ).writes == Seq::<WriteView>::empty(),
        !(action_target(form.action@) matches Some(TournamentStatus::InProgress)),
{
    reveal_with_fuel(serve, 6);
}

/// When a start is accepted.
pub open spec fn start_accepted(a: Answers, user_id: Id) -> bool {
    &&& owned_by(a, user_id)
    &&& start_refusal(a.tournament->0, a.registrations@.len() as int) is None
    &&& a.bracket_stored
}

/// A request to start a tournament is accepted exactly under the rules. It
/// then stores the bracket of the registrations that were judged and moves the
/// tournament to its first round.
#[verifier::rlimit(50)]
pub proof fn start_runs(tournament_id: Id, user_id: Id, a: Answers)
    ensures
        comes_to(
            outcome(|p: Progress| start_next(tournament_id, user_id, p), a),
            start_accepted(a, user_id),
            seq![WriteView::PersistBracket { registrations: a.registrations@ }] + start_writes(
                a.tournament->0,
            ),
        ),
{
    reveal_with_fuel(serve, 8);
    if start_accepted(a, user_id) {
        assert(outcome(|p: Progress| start_next(tournament_id, user_id, p), a).writes =~= seq![
            WriteView::PersistBracket { registrations: a.registrations@ },
        ] + start_writes(a.tournament->0));
    }
}

/// When a reset is accepted.
pub open spec fn reset_accepted(a: Answers, user_id: Id) -> bool {
    owned_by(a, user_id) && a.tournament->0.status is InProgress
}

/// A request to reset a tournament is accepted exactly while it runs, and
/// changes nothing otherwise.
pub proof fn reset_runs(tournament_id: Id, user_id: Id, a: Answers)
    ensures
        comes_to(
            outcome(|p: Progress| reset_next(tournament_id, user_id, p), a),
            reset_accepted(a, user_id),
            reset_writes(),
        ),
        !reset_accepted(a, user_id) ==> outcome(
            |p: Progress| reset_next(tournament_id, user_id, p),
            a,
        ).writes == Seq::<WriteView>::empty(),
{
    reveal_with_fuel(serve, 5);
    if reset_accepted(a, user_id) {
        assert(outcome(|p: Progress| reset_next(tournament_id, user_id, p), a).writes
            =~= reset_writes());
    }
}

/// When an import is accepted.
pub open spec fn import_accepted(a: Answers, user_id: Id, form: ImportLeaderboardForm) -> bool {
    &&& owned_by(a, user_id)
    &&& editable(a.tournament->0.status)
    &&& !(a.tournament->0.registration_status is Closed)
    &&& a.leaderboard matches Some(leaderboard) && leaderboard.disabled_at is None
    &&& import_choice(
        a.tournament->0,
        a.ranking@,
        a.registrations@,
        form.count as int,
    ).len() > 0
}

/// A request to import from a leaderboard is accepted exactly under the
/// rules, then registers the chosen snakes in rank order from the first free
/// seed on, and changes nothing otherwise.
#[verifier::rlimit(50)]
pub proof fn import_runs(
    tournament_id: Id,
    user_id: Id,
    form: ImportLeaderboardForm,
    a: Answers,
)
    ensures
        comes_to(
            outcome(|p: Progress| import_next(tournament_id, user_id, form, p), a),
            import_accepted(a, user_id, form),
            import_writes(
                import_choice(
                    a.tournament->0,
                    a.ranking@,
                    a.registrations@,
                    form.count as int,
                ),
                a.next_seed as int,
            ),
        ),
        !import_accepted(a, user_id, form) ==> outcome(
            |p: Progress| import_next(tournament_id, user_id, form, p),
            a,
        ).writes == Seq::<WriteView>::empty(),
{
    reveal_with_fuel(serve, 9);
    if import_accepted(a, user_id, form) {
        assert(outcome(
            |p: Progress| import_next(tournament_id, user_id, form, p),
            a,
        ).writes =~= import_writes(
            import_choice(a.tournament->0, a.ranking@, a.registrations@, form.count as int),
            a.next_seed as int,
        ));
    }
}

/// When a change of settings is accepted.
pub open spec fn update_settings_accepted(
    a: Answers,
    user_id: Id,
    form: TournamentSettingsForm,
) -> bool {
    &&& owned_by(a, user_id)
    &&& form_refusal(form) is None
    &&& settings_refusal(
        a.tournament->0,
        a.registration_count > 0,
        form_settings(form).game_type,
        form_settings(form).board_size,
    ) is None
}

/// A request to change settings is accepted exactly under the rules, then
/// writes the settings that the form stands for, and changes nothing
/// otherwise.
#[verifier::rlimit(50)]
pub proof fn update_settings_runs(
    tournament_id: Id,
    user_id: Id,
    form: TournamentSettingsForm,
    a: Answers,
)
    ensures
        comes_to(
            outcome(|p: Progress| update_settings_next(tournament_id, user_id, form, p), a),
            update_settings_accepted(a, user_id, form),
            seq![WriteView::UpdateSettings(form_settings(form))],
        ),
        !update_settings_accepted(a, user_id, form) ==> outcome(
            |p: Progress| update_settings_next(tournament_id, user_id, form, p),
            a,
        ).writes == Seq::<WriteView>::empty(),
{
    reveal_with_fuel(serve, 6);
}

/// A tournament is created exactly when its form is accepted, with the
/// settings that the form stands for, and whoever creates it owns it.
pub proof fn create_runs(user_id: Id, form: TournamentSettingsForm, a: Answers)
    ensures
        ({
            let o = outcome(|p: Progress| create_next(user_id, form, p), a);
            &&& o.answer is Some
            &&& succeeded(o) == (form_refusal(form) is None)
            &&& o.writes == if form_refusal(form) is None {
                seq![WriteView::CreateTournament { user_id, settings: form_settings(form) }]
            } else {
                Seq::empty()
            }
        }),
{
    reveal_with_fuel(serve, 3);
}

/// A round is enqueued exactly when the owner of a running tournament asks
/// for it within their budget, and it is the tournament's current round.
pub proof fn run_round_runs(tournament_id: Id, user_id: Id, budget: GameBudget, a: Answers)
    ensures
        ({
            let o = outcome(|p: Progress| run_round_next(tournament_id, user_id, budget, p), a);
            let accepted = owned_by(a, user_id) && a.tournament->0.status is InProgress
                && a.recent_games < budget.limit;
            &&& o.answer is Some
            &&& succeeded(o) == accepted
            &&& accepted ==> o.writes == seq![
                WriteView::EnqueueRound {
                    round: a.tournament->0.current_round,
                    reason: round_reason(tournament_id, a.tournament->0.current_round as int),
                },
            ]
            &&& !accepted ==> o.writes == Seq::<WriteView>::empty()
        }),
{
    reveal_with_fuel(serve, 5);
}

/// A hidden tournament is answered like one that does not exist, whatever
/// else is asked of it: nothing tells an outsider the two apart.
pub proof fn hidden_tournaments_look_missing(
    tournament_id: Id,
    user_id: Id,
    register: RegisterForm,
    unregister: UnregisterForm,
    seed: SeedForm,
    status: StatusForm,
    settings: TournamentSettingsForm,
    import: ImportLeaderboardForm,
    budget: GameBudget,
    p: Progress,
)
    requires
        p.tournament matches Some(Some(t)) && p.requester_registrations matches Some(n)
            && hidden_from(t, user_id, n as int),
    ensures
        ({
            let missing = Progress { tournament: Some(None), ..p };
            &&& register_next(tournament_id, user_id, register, p) == not_found()
            &&& register_next(tournament_id, user_id, register, missing) == not_found()
            &&& unregister_next(tournament_id, user_id, unregister, p) == not_found()
            &&& unregister_next(tournament_id, user_id, unregister, missing) == not_found()
            &&& move_seed_next(tournament_id, user_id, seed, p) == not_found()
            &&& move_seed_next(tournament_id, user_id, seed, missing) == not_found()
            &&& update_status_next(tournament_id, user_id, status, p) == not_found()
            &&& update_status_next(tournament_id, user_id, status, missing) == not_found()
            &&& update_settings_next(tournament_id, user_id, settings, p) == not_found()
            &&& update_settings_next(tournament_id, user_id, settings, missing) == not_found()
            &&& start_next(tournament_id, user_id, p) == not_found()
            &&& start_next(tournament_id, user_id, missing) == not_found()
            &&& reset_next(tournament_id, user_id, p) == not_found()
            &&& reset_next(tournament_id, user_id, missing) == not_found()
            &&& import_next(tournament_id, user_id, import, p) == not_found()
            &&& import_next(tournament_id, user_id, import, missing) == not_found()
            &&& run_round_next(tournament_id, user_id, budget, p) == not_found()
            &&& run_round_next(tournament_id, user_id, budget, missing) == not_found()
            &&& edit_next(tournament_id, user_id, p) == not_found()
            &&& edit_next(tournament_id, user_id, missing) == not_found()
        }),
{
}

/// Whether a request was answered as one about a missing tournament, and
/// changed nothing.
pub open spec fn turned_away(o: Outcome) -> bool {
    o.answer == Some(not_found()) && o.writes == Seq::<WriteView>::empty() && !o.committed
}

/// Served from its beginning, too, every request about a tournament that is
/// missing or hidden from the requester is told that there is none, and
/// changes nothing.
pub proof fn hidden_tournaments_are_left_alone(
    tournament_id: Id,
    user_id: Id,
    register: RegisterForm,
    unregister: UnregisterForm,
    seed: SeedForm,
    status: StatusForm,
    settings: TournamentSettingsForm,
    import: ImportLeaderboardForm,
    budget: GameBudget,
    a: Answers,
)
    requires
        !seen_by(a, user_id),
    ensures
        turned_away(outcome(|p: Progress| register_next(tournament_id, user_id, register, p), a)),
        turned_away(
            outcome(|p: Progress| unregister_next(tournament_id, user_id, unregister, p), a),
        ),
        turned_away(outcome(|p: Progress| move_seed_next(tournament_id, user_id, seed, p), a)),
        turned_away(
            outcome(|p: Progress| update_status_next(tournament_id, user_id, status, p), a),
        ),
        turned_away(
            outcome(|p: Progress| update_settings_next(tournament_id, user_id, settings, p), a),
        ),
        turned_away(outcome(|p: Progress| start_next(tournament_id, user_id, p), a)),
        turned_away(outcome(|p: Progress| reset_next(tournament_id, user_id, p), a)),
        turned_away(outcome(|p: Progress| import_next(tournament_id, user_id, import, p), a)),
        turned_away(outcome(|p: Progress| run_round_next(tournament_id, user_id, budget, p), a)),
        turned_away(outcome(|p: Progress| edit_next(tournament_id, user_id, p), a)),
{
    reveal_with_fuel(serve, 3);
}

/// Concealment in requests agrees with the rule for viewing: a tournament is
/// hidden from exactly those who may not view its page.
pub proof fn concealment_mirrors_viewing(
    tournament: Tournament,
    user_id: Id,
    participants: Seq<Id>,
    registrations: int,
)
    requires
        registrations == 0 <==> !participants.contains(user_id),
    ensures
        hidden_from(tournament, user_id, registrations) == !visible_to(
            tournament,
            Some(user_id),
            participants,
        ),
{
}

/// Nobody but the owner registers snakes in a participants-only tournament,
/// so no outsider becomes a participant of what is hidden from them.
pub proof fn outsiders_stay_outside(a: Answers, user_id: Id)
    requires
        register_accepted(a, user_id),
        !owned_by(a, user_id),
    ensures
        a.tournament->0.visibility is Public,
{
}

/// An accepted registration leaves its owner and the tournament within their
/// limits.
pub proof fn registration_stays_in_bounds(a: Answers, user_id: Id)
    requires
        register_accepted(a, user_id),
    ensures
        a.user_registrations + 1 <= a.tournament->0.max_snakes_per_user,
        a.registration_count + 1 <= MAX_TOTAL_REGISTRATIONS,
{
}

/// An accepted change of settings keeps the game of a tournament that snakes
/// are registered in.
pub proof fn registered_games_stay_the_same(
    a: Answers,
    user_id: Id,
    form: TournamentSettingsForm,
)
    requires
        update_settings_accepted(a, user_id, form),
        a.registration_count > 0,
    ensures
        form_settings(form).game_type.same(a.tournament->0.game_type),
        form_settings(form).board_size.same(a.tournament->0.board_size),
{
}

/// Where a tournament stands: its status, its round, and the registrations
/// that its bracket was made of, where it has one.
pub struct Stage {
    pub status: TournamentStatus,
    pub round: int,
    pub bracket: Option<Seq<TournamentRegistration>>,
}

/// What a change makes of where a tournament stands.
pub open spec fn stage_after(write: WriteView, stage: Stage) -> Stage {
    match write {
        WriteView::SetStatus { next, expected } => if stage.status == expected {
            Stage { status: next, ..stage }
        } else {
            stage
        },
        WriteView::SetRound { round } => Stage { round: round as int, ..stage },
        WriteView::PersistBracket { registrations } => Stage {
            bracket: Some(registrations),
            ..stage
        },
        WriteView::DeleteMatches => Stage { bracket: None, ..stage },
        _ => stage,
    }
}

/// What a list of changes makes of where a tournament stands.
pub open spec fn stage_after_all(writes: Seq<WriteView>, stage: Stage) -> Stage
    decreases writes.len(),
{
    if writes.len() == 0 {
        stage
    } else {
        stage_after(writes.last(), stage_after_all(writes.drop_last(), stage))
    }
}

/// A started tournament is in its first round, with a bracket of the
/// registrations it had. A reset undoes a start: the tournament is open for registration again,
/// before its first round and without a bracket.
pub proof fn reset_undoes_start(tournament_id: Id, user_id: Id, start: Answers, reset: Answers)
    requires
        start_accepted(start, user_id),
        reset_accepted(reset, user_id),
    ensures
        ({
            let before = Stage { status: start.tournament->0.status, round: 0, bracket: None };
            let started = stage_after_all(
                outcome(|p: Progress| start_next(tournament_id, user_id, p), start).writes,
                before,
            );
            let undone = stage_after_all(
                outcome(|p: Progress| reset_next(tournament_id, user_id, p), reset).writes,
                started,
            );
            &&& started == (Stage {
                status: TournamentStatus::InProgress,
                round: 1,
                bracket: Some(start.registrations@),
            })
            &&& undone == before
        }),
{
    start_runs(tournament_id, user_id, start);
    reset_runs(tournament_id, user_id, reset);
    reveal_with_fuel(stage_after_all, 5);
    let stored = WriteView::PersistBracket { registrations: start.registrations@ };
    let s = seq![stored] + start_writes(start.tournament->0);
    assert(s.drop_last().drop_last() =~= seq![stored]);
    assert(s.drop_last().drop_last().drop_last() =~= Seq::<WriteView>::empty());
    let r = reset_writes();
    assert(r.drop_last().drop_last() =~= seq![WriteView::DeleteMatches]);
    assert(r.drop_last().drop_last().drop_last() =~= Seq::<WriteView>::empty());
}

/// A tournament does not start twice: once it runs, every further request to
/// start it is refused and changes nothing.
pub proof fn no_second_start(tournament_id: Id, user_id: Id, a: Answers)
    requires
        a.tournament matches Some(t) && !(t.status is Registration),
    ensures
        ({
            let o = outcome(|p: Progress| start_next(tournament_id, user_id, p), a);
            o.answer is Some && !succeeded(o) && !o.committed && o.writes
                == Seq::<WriteView>::empty()
        }),
{
    reveal_with_fuel(serve, 5);
}

/// Every request that changes a tournament takes its lock before anything
/// else, so that it is judged and changed in the same state.
pub proof fn requests_lock_first(
    tournament_id: Id,
    user_id: Id,
    register: RegisterForm,
    unregister: UnregisterForm,
    seed: SeedForm,
    status: StatusForm,
    settings: TournamentSettingsForm,
    import: ImportLeaderboardForm,
    p: Progress,
)
    requires
        p.tournament is None,
    ensures
        ({
            let lock = StepView::LockTournament { tournament_id };
            &&& register_next(tournament_id, user_id, register, p) == lock
            &&& unregister_next(tournament_id, user_id, unregister, p) == lock
            &&& move_seed_next(tournament_id, user_id, seed, p) == lock
            &&& update_status_next(tournament_id, user_id, status, p) == lock
            &&& update_settings_next(tournament_id, user_id, settings, p) == lock
            &&& start_next(tournament_id, user_id, p) == lock
            &&& reset_next(tournament_id, user_id, p) == lock
            &&& import_next(tournament_id, user_id, import, p) == lock
        }),
{
}

/// An import obeys the same rules as a registration by the owner: before the
/// start, and never while registration is closed.
pub proof fn imports_obey_the_registration_matrix(
    a: Answers,
    user_id: Id,
    form: ImportLeaderboardForm,
)
    ensures
        import_accepted(a, user_id, form) ==> may_register(a.tournament->0, true),
        a.tournament matches Some(t) ==> (editable(t.status) && !(t.registration_status is Closed))
            == may_register(t, true),
{
}

/// A tournament with accepted settings can start once it is full: it never
/// requires more snakes than it can hold.
pub proof fn a_full_tournament_can_start(form: TournamentSettingsForm, t: Tournament)
    requires
        form_refusal(form) is None,
        t.required_participants == form.required_participants,
        t.status is Registration,
    ensures
        start_refusal(t, MAX_TOTAL_REGISTRATIONS as int) is None,
{
}

/// Whoever runs a round is sent to a page that watches it: it refreshes until
/// the tournament moves on, even while no match is live yet.
pub proof fn a_round_is_watched_after_it_is_run(
    tournament_id: Id,
    user_id: Id,
    budget: GameBudget,
    a: Answers,
    matches: Seq<TournamentMatch>,
)
    requires
        owned_by(a, user_id),
        a.tournament->0.status is InProgress,
        a.recent_games < budget.limit,
    ensures
        ({
            let round = decimal(a.tournament->0.current_round as int);
            let o = outcome(|p: Progress| run_round_next(tournament_id, user_id, budget, p), a);
            &&& o.answer == Some(
                flash(
                    FlashKind::Success,
                    "Round "@ + round + " started"@,
                    detail_path(tournament_id) + "?watch_round="@ + round,
                ),
            )
            &&& refreshes(a.tournament->0, matches, i32_of(round))
        }),
{
    reveal_with_fuel(serve, 5);
    numbers_are_read_back(a.tournament->0.current_round as int);
}

/// Whether none of these changes adds, removes or moves registrations.
pub open spec fn keeps_registrations(writes: Seq<WriteView>) -> bool {
    forall|i: int|
        0 <= i < writes.len() ==> !((#[trigger] writes[i]) is Register || writes[i] is RegisterSeeded
            || writes[i] is Unregister || writes[i] is MoveSeed)
}

/// Starting and resetting a tournament leave its registrations as they are.
pub proof fn starts_and_resets_keep_registrations(
    tournament_id: Id,
    user_id: Id,
    start: Answers,
    reset: Answers,
)
    requires
        start_accepted(start, user_id),
        reset_accepted(reset, user_id),
    ensures
        keeps_registrations(
            outcome(|p: Progress| start_next(tournament_id, user_id, p), start).writes,
        ),
        keeps_registrations(
            outcome(|p: Progress| reset_next(tournament_id, user_id, p), reset).writes,
        ),
{
    start_runs(tournament_id, user_id, start);
    reset_runs(tournament_id, user_id, reset);
}

/// Who gets a snake registered: whoever may know the tournament and may add
/// snakes to it, with a snake of their own that is not registered yet, while
/// they hold fewer than allowed and the tournament fewer than 128.
pub proof fn registrations_are_accepted_by_the_rules(a: Answers, user_id: Id)
    ensures
        register_accepted(a, user_id) <==> {
            &&& a.tournament is Some
            &&& a.snake is Some
            &&& ({
                let t = a.tournament->0;
                let owns = t.user_id == user_id;
                &&& t.status is Created || t.status is Registration
                &&& match t.registration_status {
                    RegistrationStatus::Open => owns || t.visibility is Public,
                    RegistrationStatus::OwnerOnly => owns,
                    RegistrationStatus::Closed => false,
                }
                &&& a.user_registrations < t.max_snakes_per_user
            })
            &&& a.snake->0.user_id == user_id
            &&& !a.already_registered
            &&& a.registration_count < 128
        },
{
}

/// Who gets a registration removed: before the start, the owner of the
/// tournament any of it, and everybody who may know it their own.
pub proof fn removals_are_accepted_by_the_rules(a: Answers, tournament_id: Id, user_id: Id)
    ensures
        unregister_accepted(a, tournament_id, user_id) <==> {
            &&& a.tournament is Some
            &&& a.registration is Some
            &&& ({
                let t = a.tournament->0;
                let owns = t.user_id == user_id;
                &&& t.status is Created || t.status is Registration
                &&& owns || (a.registration->0.user_id == user_id && (t.visibility is Public
                    || a.requester_registrations != 0))
            })
            &&& a.registration->0.tournament_id == tournament_id
        },
{
}

/// What only the owner of a tournament gets done, and when: seeds are moved
/// before the start, a start takes enough snakes and no bracket, a reset takes
/// a running tournament, and a status changes to where the lifecycle lets it.
pub proof fn owners_are_served_by_the_rules(a: Answers, user_id: Id, form: StatusForm)
    ensures
        move_seed_accepted(a, user_id) <==> {
            &&& a.tournament is Some && a.tournament->0.user_id == user_id
            &&& a.tournament->0.status is Created || a.tournament->0.status is Registration
            &&& a.seed_moved
        },
        start_accepted(a, user_id) <==> {
            &&& a.tournament is Some && a.tournament->0.user_id == user_id
            &&& a.tournament->0.status is Registration
            &&& a.registrations@.len() >= 2
            &&& a.registrations@.len() >= a.tournament->0.required_participants
            &&& a.bracket_stored
        },
        reset_accepted(a, user_id) <==> {
            &&& a.tournament is Some && a.tournament->0.user_id == user_id
            &&& a.tournament->0.status is InProgress
        },
        update_status_accepted(a, user_id, form) <==> {
            &&& a.tournament is Some && a.tournament->0.user_id == user_id
            &&& form.action@ == "open_registration"@ || form.action@ == "cancel"@
            &&& a.transition_allowed
        },
{
    crate::lifecycle::two_actions_are_known(form.action@);
    if a.tournament is Some {
        crate::rules::a_start_takes_enough_snakes(
            a.tournament->0,
            a.registrations@.len() as int,
        );
    }
}

/// When settings are changed: by the owner, before the start, to what is
/// within the limits, and with snakes registered only where the game stays.
pub proof fn changes_of_settings_are_accepted_by_the_rules(
    a: Answers,
    user_id: Id,
    form: TournamentSettingsForm,
)
    ensures
        update_settings_accepted(a, user_id, form) <==> {
            &&& a.tournament is Some && a.tournament->0.user_id == user_id
            &&& a.tournament->0.status is Created || a.tournament->0.status is Registration
            &&& form_refusal(form) is None
            &&& a.registration_count > 0 ==> {
                &&& form.game_type@ == a.tournament->0.game_type.text()
                &&& !(a.tournament->0.game_type is Custom)
                &&& form.board_size@ == a.tournament->0.board_size.text()
                &&& !(a.tournament->0.board_size is Custom)
            }
        },
{
    if a.tournament is Some {
        crate::rules::registrations_freeze_the_game(
            a.tournament->0,
            a.registration_count > 0,
            form_settings(form).game_type,
            form_settings(form).board_size,
        );
        crate::rules::games_are_read_as_written(form.game_type@);
        crate::rules::games_are_read_as_written(form.board_size@);
    }
}

/// When an import adds snakes: for the owner, before the start, unless
/// registration is closed, from a leaderboard that is there and not disabled,
/// and as long as there is a snake to add.
pub proof fn imports_are_accepted_by_the_rules(
    a: Answers,
    user_id: Id,
    form: ImportLeaderboardForm,
)
    ensures
        import_accepted(a, user_id, form) <==> {
            &&& a.tournament is Some && a.tournament->0.user_id == user_id
            &&& a.tournament->0.status is Created || a.tournament->0.status is Registration
            &&& a.tournament->0.registration_status is Open
                || a.tournament->0.registration_status is OwnerOnly
            &&& a.leaderboard is Some && a.leaderboard->0.disabled_at is None
            &&& import_choice(
                a.tournament->0,
                a.ranking@,
                a.registrations@,
                form.count as int,
            ).len() > 0
        },
{
}

/// An import of `n` snakes, 1 to 32 of them, registers `n` where so many
/// qualify and fit: it registers no more, and no fewer while a ranked snake is
/// left that is not registered and whose owner may add one. The seeds follow
/// one another from the first free one.
pub proof fn an_import_registers_as_many_as_asked(
    tournament_id: Id,
    user_id: Id,
    form: ImportLeaderboardForm,
    a: Answers,
    place: int,
    i: int,
)
    requires
        import_accepted(a, user_id, form),
        1 <= form.count <= 32,
        a.registrations@.len() <= 128,
        0 <= place < a.ranking@.len(),
        i32::MIN <= a.next_seed && a.next_seed + 32 <= i32::MAX,
    ensures
        ({
            let writes = outcome(
                |p: Progress| import_next(tournament_id, user_id, form, p),
                a,
            ).writes;
            let snake = a.ranking@[place].battlesnake_id;
            let owner = a.ranking@[place].user_id;
            let added = import_choice(
                a.tournament->0,
                a.ranking@,
                a.registrations@,
                form.count as int,
            );
            let theirs = |r: TournamentRegistration| r.user_id == owner;
            let added_theirs = |c: (Id, Id)| c.1 == owner;
            &&& 1 <= writes.len() <= form.count
            &&& a.registrations@.len() + writes.len() <= 128
            &&& writes.len() == added.len()
            &&& 0 <= i < writes.len() ==> writes[i] == (WriteView::RegisterSeeded {
                battlesnake_id: added[i].0,
                user_id: added[i].1,
                seed: (a.next_seed + i) as i32,
            })
            &&& writes.len() < form.count && a.registrations@.len() + writes.len() < 128 ==> {
                ||| exists|k: int|
                    0 <= k < a.registrations@.len() && (#[trigger] a.registrations@[k]).battlesnake_id
                        == snake
                ||| exists|k: int| 0 <= k < added.len() && (#[trigger] added[k]).0 == snake
                ||| a.registrations@.filter(theirs).len() + added.filter(added_theirs).len()
                    >= a.tournament->0.max_snakes_per_user
            }
        }),
{
    import_runs(tournament_id, user_id, form, a);
    crate::registration::imports_register_what_is_asked_for(
        a.tournament->0,
        a.ranking@,
        a.registrations@,
        form.count as int,
        place,
    );
    let added = import_choice(a.tournament->0, a.ranking@, a.registrations@, form.count as int);
    if 0 <= i < added.len() {
        crate::registration::imports_are_seeded_in_order(added, a.next_seed as int, i);
    }
}

/// A created tournament belongs to its creator and has every setting as the
/// form has it, and the creator is sent to its page.
pub proof fn a_created_tournament_is_as_the_form_has_it(
    user_id: Id,
    form: TournamentSettingsForm,
    a: Answers,
)
    requires
        form_refusal(form) is None,
    ensures
        ({
            let o = outcome(|p: Progress| create_next(user_id, form, p), a);
            &&& o.writes.len() == 1
            &&& o.writes[0] is CreateTournament
            &&& o.writes[0]->CreateTournament_user_id == user_id
            &&& ({
                let settings = o.writes[0]->settings;
                &&& settings.visibility == form.visibility
                &&& settings.match_style == form.match_style
                &&& settings.registration_status == form.registration_status
                &&& settings.max_snakes_per_user == form.max_snakes_per_user
                &&& settings.required_participants == form.required_participants
                &&& settings.name == trimmed(form.name@)
                &&& settings.game_type.text() == form.game_type@
                &&& settings.board_size.text() == form.board_size@
            })
            &&& o.answer == Some(
                flash(
                    FlashKind::Success,
                    "Tournament created successfully!"@,
                    "/tournaments/"@ + a.created.text(),
                ),
            )
        }),
{
    create_runs(user_id, form, a);
    crate::forms::settings_are_stored_as_filled_in(form);
    reveal_with_fuel(serve, 3);
}

/// What is said of a registered snake: its name and its seed, on the page of
/// its tournament.
#[verifier::rlimit(50)]
pub proof fn a_registered_snake_is_told_its_seed(
    tournament_id: Id,
    user_id: Id,
    form: RegisterForm,
    a: Answers,
)
    requires
        register_accepted(a, user_id),
    ensures
        outcome(|p: Progress| register_next(tournament_id, user_id, form, p), a).answer == Some(
            flash(
                FlashKind::Success,
                "Registered "@ + a.snake->0.name@ + " (seed "@ + decimal(a.assigned_seed as int)
                    + ")"@,
                "/tournaments/"@ + tournament_id.text(),
            ),
        ),
{
    reveal_with_fuel(serve, 10);
}

/// What is said of a start: how many snakes it is made with.
#[verifier::rlimit(50)]
pub proof fn a_start_is_told_in_numbers(tournament_id: Id, user_id: Id, a: Answers)
    requires
        start_accepted(a, user_id),
    ensures
        outcome(|p: Progress| start_next(tournament_id, user_id, p), a).answer == Some(
            flash(
                FlashKind::Success,
                "Tournament started with "@ + decimal(a.registrations@.len() as int)
                    + " snakes! Use \"Run Round\" to play each round."@,
                "/tournaments/"@ + tournament_id.text(),
            ),
        ),
{
    reveal_with_fuel(serve, 8);
}

/// What is said of an import: how many snakes it added, and from where.
#[verifier::rlimit(50)]
pub proof fn an_import_is_told_in_numbers(
    tournament_id: Id,
    user_id: Id,
    form: ImportLeaderboardForm,
    a: Answers,
)
    requires
        import_accepted(a, user_id, form),
    ensures
        outcome(|p: Progress| import_next(tournament_id, user_id, form, p), a).answer == Some(
            flash(
                FlashKind::Success,
                "Imported "@ + decimal(
                    import_choice(
                        a.tournament->0,
                        a.ranking@,
                        a.registrations@,
                        form.count as int,
                    ).len() as int,
                ) + " snake(s) from "@ + a.leaderboard->0.name@,
                "/tournaments/"@ + tournament_id.text(),
            ),
        ),
{
    reveal_with_fuel(serve, 9);
}

/// What is enqueued for a round says which round of which tournament it is.
pub proof fn rounds_are_enqueued_under_their_names(tournament_id: Id, round: int)
    ensures
        round_reason(tournament_id, round) == "Owner ran round "@ + decimal(round)
            + " of tournament "@ + tournament_id.text(),
{
}

} // verus!
