//! Requests about the snakes of a tournament: registering, removing, seeding
//! and importing. Each function names the next step of its request, from what
//! the request has found out so far.

use crate::flow::{
    apply_one, apply_one_step, check_owner, check_viewer, detail_path, detail_url, flash,
    flash_step, not_found_step, owner_gate, viewer_gate, writes_view, FlashKind, Progress, Step,
    StepView, Write, WriteView,
};
use crate::forms::{ImportLeaderboardForm, RegisterForm, SeedForm, UnregisterForm};
use crate::ids::Id;
use crate::import::{import_stays_in_bounds, import_target, imported, select_import_candidates};
use crate::model::{
    Battlesnake, Leaderboard, RankedEntry, RegistrationStatus, Tournament,
    TournamentRegistration,
};
use crate::rules::{
    can_register, editable, may_register, registrations_editable, MAX_IMPORT_COUNT,
    MAX_TOTAL_REGISTRATIONS,
};
use crate::text::{count_text, decimal, decimal_text};
use vstd::prelude::*;
use vstd::string::StringExecFns;

verus! {

// Registering a snake.

/// How far the registration of a snake has come.
#[derive(Debug)]
pub enum RegisterOutcome {
    Ask(Step),
    Refused(String),
    Registered { seed: i32 },
}

/// How far the registration of a snake has come, with its texts as
/// characters.
pub enum RegisterOutcomeView {
    Ask(StepView),
    Refused(Seq<char>),
    Registered { seed: i32 },
}

impl View for RegisterOutcome {
    type V = RegisterOutcomeView;

    open spec fn view(&self) -> RegisterOutcomeView {
        match *self {
            RegisterOutcome::Ask(step) => RegisterOutcomeView::Ask(step@),
            RegisterOutcome::Refused(message) => RegisterOutcomeView::Refused(message@),
            RegisterOutcome::Registered { seed } => RegisterOutcomeView::Registered { seed },
        }
    }
}

/// The checks of a registration, in order: no snake twice, no owner over the
/// limit, no tournament over its total. Only then the snake is registered.
pub open spec fn registering(
    t: Tournament,
    owner_user_id: Id,
    battlesnake_id: Id,
    snake_name: Seq<char>,
    p: Progress,
) -> RegisterOutcomeView {
    match p.already_registered {
        None => RegisterOutcomeView::Ask(StepView::CheckRegistered { battlesnake_id }),
        Some(true) => RegisterOutcomeView::Refused(
            snake_name + " is already registered in this tournament"@,
        ),
        Some(false) => match p.user_registrations {
            None => RegisterOutcomeView::Ask(
                StepView::CountUserRegistrations { user_id: owner_user_id },
            ),
            Some(held) => if held >= t.max_snakes_per_user {
                RegisterOutcomeView::Refused(
                    "You have reached the limit of "@ + decimal(t.max_snakes_per_user as int)
                        + " snake(s) for this tournament"@,
                )
            } else {
                match p.registration_count {
                    None => RegisterOutcomeView::Ask(StepView::CountRegistrations),
                    Some(total) => if total >= MAX_TOTAL_REGISTRATIONS {
                        RegisterOutcomeView::Refused(
                            "This tournament is full ("@ + decimal(MAX_TOTAL_REGISTRATIONS as int)
                                + " snakes)"@,
                        )
                    } else {
                        match p.assigned_seed {
                            None => RegisterOutcomeView::Ask(
                                apply_one(
                                    WriteView::Register { battlesnake_id, user_id: owner_user_id },
                                ),
                            ),
                            Some(seed) => RegisterOutcomeView::Registered { seed },
                        }
                    },
                }
            },
        },
    }
}

/// The checks and the insertion of a registration: duplicate snake, per-user
/// limit and total are all judged on counts of the same transaction.
pub fn register_snake_in_tx(
    t: &Tournament,
    owner_user_id: Id,
    battlesnake_id: Id,
    snake_name: &str,
    p: &Progress,
) -> (r: RegisterOutcome)
    ensures
        r@ == registering(*t, owner_user_id, battlesnake_id, snake_name@, *p),
{
    match p.already_registered {
        None => {
            return RegisterOutcome::Ask(Step::CheckRegistered { battlesnake_id });
        },
        Some(already) => if already {
            return RegisterOutcome::Refused(
                snake_name.to_owned().concat(" is already registered in this tournament"),
            );
        },
    }
    match p.user_registrations {
        None => {
            return RegisterOutcome::Ask(Step::CountUserRegistrations { user_id: owner_user_id });
        },
        Some(held) => if held >= t.max_snakes_per_user as i64 {
            return RegisterOutcome::Refused(
                "You have reached the limit of ".to_owned().concat(
                    decimal_text(t.max_snakes_per_user as i64).as_str(),
                ).concat(" snake(s) for this tournament"),
            );
        },
    }
    match p.registration_count {
        None => {
            return RegisterOutcome::Ask(Step::CountRegistrations);
        },
        Some(total) => if total >= MAX_TOTAL_REGISTRATIONS {
            return RegisterOutcome::Refused(
                "This tournament is full (".to_owned().concat(
                    decimal_text(MAX_TOTAL_REGISTRATIONS).as_str(),
                ).concat(" snakes)"),
            );
        },
    }
    match p.assigned_seed {
        None => RegisterOutcome::Ask(
            apply_one_step(Write::Register { battlesnake_id, user_id: owner_user_id }),
        ),
        Some(seed) => RegisterOutcome::Registered { seed },
    }
}

/// Whether a snake is there and belongs to a user.
pub open spec fn own_snake(snake: Option<Battlesnake>, user_id: Id) -> bool {
    snake matches Some(s) && s.user_id == user_id
}

/// The next step of registering one of the requester's snakes.
pub open spec fn register_next(
    tournament_id: Id,
    user_id: Id,
    form: RegisterForm,
    p: Progress,
) -> StepView {
    let page = detail_path(tournament_id);
    match viewer_gate(StepView::LockTournament { tournament_id }, user_id, p) {
        Some(step) => step,
        None => {
            let t = p.tournament->0->0;
            if !may_register(t, t.user_id == user_id) {
                flash(FlashKind::Error, "Registration is not open for this tournament"@, page)
            } else if p.snake is None {
                StepView::LoadSnake { battlesnake_id: form.battlesnake_id }
            } else if !own_snake(p.snake->0, user_id) {
                flash(FlashKind::Error, "You can only register your own battlesnakes"@, page)
            } else {
                let snake = p.snake->0->0;
                match registering(t, user_id, snake.battlesnake_id, snake.name@, p) {
                    RegisterOutcomeView::Ask(step) => step,
                    RegisterOutcomeView::Refused(message) => flash(
                        FlashKind::Error,
                        message,
                        page,
                    ),
                    RegisterOutcomeView::Registered { seed } => if !p.committed {
                        StepView::Commit
                    } else {
                        flash(
                            FlashKind::Success,
                            "Registered "@ + snake.name@ + " (seed "@ + decimal(seed as int)
                                + ")"@,
                            page,
                        )
                    },
                }
            }
        },
    }
}

/// Register one of the caller's snakes. Visibility, the registration matrix
/// and every limit are judged against the locked tournament before anything
/// is written.
pub fn register_snake(tournament_id: Id, user_id: Id, form: &RegisterForm, p: &Progress) -> (r:
    Step)
    ensures
        r@ == register_next(tournament_id, user_id, *form, *p),
{
    if let Some(step) = check_viewer(Step::LockTournament { tournament_id }, user_id, p) {
        return step;
    }
    let page: String = detail_url(tournament_id);
    match &p.tournament {
        Some(Some(t)) => {
            if !can_register(t, t.user_id == user_id) {
                return flash_step(
                    FlashKind::Error,
                    "Registration is not open for this tournament".to_owned(),
                    page,
                );
            }
            match &p.snake {
                None => Step::LoadSnake { battlesnake_id: form.battlesnake_id },
                Some(None) => flash_step(
                    FlashKind::Error,
                    "You can only register your own battlesnakes".to_owned(),
                    page,
                ),
                Some(Some(snake)) => {
                    if snake.user_id != user_id {
                        return flash_step(
                            FlashKind::Error,
                            "You can only register your own battlesnakes".to_owned(),
                            page,
                        );
                    }
                    match register_snake_in_tx(
                        t,
                        user_id,
                        snake.battlesnake_id,
                        snake.name.as_str(),
                        p,
                    ) {
                        RegisterOutcome::Ask(step) => step,
                        RegisterOutcome::Refused(message) => flash_step(
                            FlashKind::Error,
                            message,
                            page,
                        ),
                        RegisterOutcome::Registered { seed } => if !p.committed {
                            Step::Commit
                        } else {
                            flash_step(
                                FlashKind::Success,
                                "Registered ".to_owned().concat(snake.name.as_str()).concat(
                                    " (seed ",
                                ).concat(decimal_text(seed as i64).as_str()).concat(")"),
                                page,
                            )
                        },
                    }
                },
            }
        },
        _ => not_found_step(),
    }
}

// Removing a registration.

/// Whether a registration is there and belongs to a tournament.
pub open spec fn of_tournament(
    registration: Option<TournamentRegistration>,
    tournament_id: Id,
) -> bool {
    registration matches Some(r) && r.tournament_id == tournament_id
}

/// The next step of removing a registration.
pub open spec fn unregister_next(
    tournament_id: Id,
    user_id: Id,
    form: UnregisterForm,
    p: Progress,
) -> StepView {
    let page = detail_path(tournament_id);
    match viewer_gate(StepView::LockTournament { tournament_id }, user_id, p) {
        Some(step) => step,
        None => {
            let t = p.tournament->0->0;
            if !editable(t.status) {
                flash(
                    FlashKind::Error,
                    "Snakes can no longer be unregistered from this tournament"@,
                    page,
                )
            } else if p.registration is None {
                StepView::LoadRegistration { registration_id: form.registration_id }
            } else if !of_tournament(p.registration->0, tournament_id) {
                flash(FlashKind::Error, "Registration not found"@, page)
            } else {
                let registration = p.registration->0->0;
                if t.user_id != user_id && registration.user_id != user_id {
                    flash(
                        FlashKind::Error,
                        "You don't have permission to remove this registration"@,
                        page,
                    )
                } else if !p.applied {
                    apply_one(
                        WriteView::Unregister { registration_id: registration.registration_id },
                    )
                } else if !p.committed {
                    StepView::Commit
                } else {
                    flash(FlashKind::Success, "Snake unregistered"@, page)
                }
            }
        },
    }
}

/// Remove a registration, by the snake's owner or the tournament's, and
/// renumber the remaining seeds.
pub fn unregister_snake(tournament_id: Id, user_id: Id, form: &UnregisterForm, p: &Progress) -> (r:
    Step)
    ensures
        r@ == unregister_next(tournament_id, user_id, *form, *p),
{
    if let Some(step) = check_viewer(Step::LockTournament { tournament_id }, user_id, p) {
        return step;
    }
    let page: String = detail_url(tournament_id);
    match &p.tournament {
        Some(Some(t)) => {
            if !registrations_editable(t.status) {
                return flash_step(
                    FlashKind::Error,
                    "Snakes can no longer be unregistered from this tournament".to_owned(),
                    page,
                );
            }
            let registration: TournamentRegistration = match &p.registration {
                None => {
                    return Step::LoadRegistration { registration_id: form.registration_id };
                },
                Some(None) => {
                    return flash_step(
                        FlashKind::Error,
                        "Registration not found".to_owned(),
                        page,
                    );
                },
                Some(Some(found)) => *found,
            };
            if registration.tournament_id != tournament_id {
                return flash_step(FlashKind::Error, "Registration not found".to_owned(), page);
            }
            if t.user_id != user_id && registration.user_id != user_id {
                return flash_step(
                    FlashKind::Error,
                    "You don't have permission to remove this registration".to_owned(),
                    page,
                );
            }
            if !p.applied {
                return apply_one_step(
                    Write::Unregister { registration_id: registration.registration_id },
                );
            }
            if !p.committed {
                return Step::Commit;
            }
            flash_step(FlashKind::Success, "Snake unregistered".to_owned(), page)
        },
        _ => not_found_step(),
    }
}

// Moving a seed.

/// The next step of moving a registration to another seed.
pub open spec fn move_seed_next(
    tournament_id: Id,
    user_id: Id,
    form: SeedForm,
    p: Progress,
) -> StepView {
    let page = detail_path(tournament_id);
    match owner_gate(
        StepView::LockTournament { tournament_id },
        user_id,
        "Only the tournament owner can change seeds"@,
        p,
    ) {
        Some(step) => step,
        None => if !editable(p.tournament->0->0.status) {
            flash(
                FlashKind::Error,
                "Seeds can only be changed before the tournament starts"@,
                page,
            )
        } else {
            match p.seed_moved {
                None => apply_one(
                    WriteView::MoveSeed {
                        registration_id: form.registration_id,
                        new_seed: form.new_seed,
                    },
                ),
                Some(false) => flash(FlashKind::Error, "Registration not found"@, page),
                Some(true) => if !p.committed {
                    StepView::Commit
                } else {
                    flash(FlashKind::Success, "Seed updated"@, page)
                },
            }
        },
    }
}

/// Move a registration to a new seed, by the owner only.
pub fn move_seed(tournament_id: Id, user_id: Id, form: &SeedForm, p: &Progress) -> (r: Step)
    ensures
        r@ == move_seed_next(tournament_id, user_id, *form, *p),
{
    if let Some(step) = check_owner(
        Step::LockTournament { tournament_id },
        user_id,
        "Only the tournament owner can change seeds",
        p,
    ) {
        return step;
    }
    let page: String = detail_url(tournament_id);
    match &p.tournament {
        Some(Some(t)) => {
            if !registrations_editable(t.status) {
                return flash_step(
                    FlashKind::Error,
                    "Seeds can only be changed before the tournament starts".to_owned(),
                    page,
                );
            }
            match p.seed_moved {
                None => apply_one_step(
                    Write::MoveSeed {
                        registration_id: form.registration_id,
                        new_seed: form.new_seed,
                    },
                ),
                Some(moved) => if !moved {
                    flash_step(FlashKind::Error, "Registration not found".to_owned(), page)
                } else if !p.committed {
                    Step::Commit
                } else {
                    flash_step(FlashKind::Success, "Seed updated".to_owned(), page)
                },
            }
        },
        _ => not_found_step(),
    }
}

// Importing from a leaderboard.

/// How many snakes an import asks for: what the form says, within limits.
pub open spec fn import_count(count: int) -> int {
    if count < 1 {
        1
    } else if count > MAX_IMPORT_COUNT {
        MAX_IMPORT_COUNT as int
    } else {
        count
    }
}

/// The snakes that an import adds, with their owners.
pub open spec fn import_choice(
    t: Tournament,
    ranking: Seq<RankedEntry>,
    registrations: Seq<TournamentRegistration>,
    count: int,
) -> Seq<(Id, Id)> {
    imported(
        ranking,
        registrations,
        t.max_snakes_per_user as int,
        import_target(registrations.len() as int, import_count(count)),
    )
}

/// The registrations of an import: one for each snake, seeded one after the
/// other from the first free seed.
pub open spec fn import_writes(choice: Seq<(Id, Id)>, first_seed: int) -> Seq<WriteView> {
    Seq::new(
        choice.len(),
        |i: int|
            WriteView::RegisterSeeded {
                battlesnake_id: choice[i].0,
                user_id: choice[i].1,
                seed: (first_seed + i) as i32,
            },
    )
}

/// Whether the seeds of an import, and the one after them, are numbers that a
/// seed can be.
pub open spec fn import_seeds_fit(form: ImportLeaderboardForm, p: Progress) -> bool {
    match (p.tournament, p.ranking, p.registrations, p.next_seed) {
        (Some(Some(t)), Some(ranking), Some(registrations), Some(first_seed)) => first_seed
            + import_choice(t, ranking@, registrations@, form.count as int).len() <= i32::MAX,
        _ => true,
    }
}

/// Whether the seeds of an import, and the one after them, are numbers that a
/// seed can be.
pub fn seeds_fit(form: &ImportLeaderboardForm, p: &Progress) -> (r: bool)
    ensures
        r == import_seeds_fit(*form, *p),
{
    match (&p.tournament, &p.ranking, &p.registrations, p.next_seed) {
        (Some(Some(t)), Some(ranking), Some(registrations), Some(first_seed)) => {
            let count: i64 = clamp_count(form.count);
            let choice: Vec<(Id, Id)> = select_import_candidates(
                ranking.as_slice(),
                registrations.as_slice(),
                t.max_snakes_per_user,
                count,
            );
            proof {
                import_stays_in_bounds(
                    ranking@,
                    registrations@,
                    t.max_snakes_per_user as int,
                    count as int,
                );
            }
            first_seed as i64 + choice.len() as i64 <= i32::MAX as i64
        },
        _ => true,
    }
}

fn clamp_count(count: i64) -> (r: i64)
    ensures
        r == import_count(count as int),
{
    if count < 1 {
        1
    } else if count > MAX_IMPORT_COUNT {
        MAX_IMPORT_COUNT
    } else {
        count
    }
}

/// The next step of importing snakes from a leaderboard.
pub open spec fn import_next(
    tournament_id: Id,
    user_id: Id,
    form: ImportLeaderboardForm,
    p: Progress,
) -> StepView {
    let page = detail_path(tournament_id);
    match owner_gate(
        StepView::LockTournament { tournament_id },
        user_id,
        "Only the tournament owner can import from a leaderboard"@,
        p,
    ) {
        Some(step) => step,
        None => {
            let t = p.tournament->0->0;
            if !editable(t.status) {
                flash(
                    FlashKind::Error,
                    "Snakes can only be imported before the tournament starts"@,
                    page,
                )
            } else if t.registration_status is Closed {
                flash(FlashKind::Error, "Registration is closed for this tournament"@, page)
            } else {
                match p.leaderboard {
                    None => StepView::LoadLeaderboard { leaderboard_id: form.leaderboard_id },
                    Some(None) => flash(FlashKind::Error, "Leaderboard not found"@, page),
                    Some(Some(leaderboard)) => import_from(leaderboard, t, form, page, p),
                }
            }
        },
    }
}

/// The next step of importing snakes, once the leaderboard is known.
pub open spec fn import_from(
    leaderboard: Leaderboard,
    t: Tournament,
    form: ImportLeaderboardForm,
    page: Seq<char>,
    p: Progress,
) -> StepView {
    if leaderboard.disabled_at is Some {
        flash(
            FlashKind::Error,
            leaderboard.name@ + " is disabled and cannot be imported from"@,
            page,
        )
    } else if p.ranking is None {
        StepView::LoadRanking { leaderboard_id: leaderboard.leaderboard_id }
    } else if p.registrations is None {
        StepView::LoadRegistrations
    } else {
        let choice = import_choice(t, p.ranking->0@, p.registrations->0@, form.count as int);
        if choice.len() == 0 {
            flash(
                FlashKind::Info,
                "No eligible snakes to import from "@ + leaderboard.name@,
                page,
            )
        } else {
            match p.next_seed {
                None => StepView::NextSeed,
                Some(first_seed) => if !p.applied {
                    StepView::Apply(import_writes(choice, first_seed as int))
                } else if !p.committed {
                    StepView::Commit
                } else {
                    flash(
                        FlashKind::Success,
                        "Imported "@ + decimal(choice.len() as int) + " snake(s) from "@
                            + leaderboard.name@,
                        page,
                    )
                },
            }
        }
    }
}

fn plan_import(choice: &Vec<(Id, Id)>, first_seed: i32) -> (r: Vec<Write>)
    requires
        first_seed + choice@.len() <= i32::MAX,
        choice@.len() <= MAX_IMPORT_COUNT,
    ensures
        writes_view(r@) == import_writes(choice@, first_seed as int),
{
    let mut writes: Vec<Write> = Vec::new();
    let mut i: usize = 0;
    while i < choice.len()
        invariant
            i <= choice@.len(),
            writes@.len() == i,
            first_seed + choice@.len() <= i32::MAX,
            choice@.len() <= MAX_IMPORT_COUNT,
            forall|k: int|
                0 <= k < i ==> (#[trigger] writes@[k])@ == (WriteView::RegisterSeeded {
                    battlesnake_id: choice@[k].0,
                    user_id: choice@[k].1,
                    seed: (first_seed + k) as i32,
                }),
        decreases choice@.len() - i,
    {
        let (battlesnake_id, user_id): (Id, Id) = choice[i];
        writes.push(Write::RegisterSeeded { battlesnake_id, user_id, seed: first_seed + i as i32 });
        i = i + 1;
    }
    assert(writes_view(writes@) =~= import_writes(choice@, first_seed as int));
    writes
}

/// The "leaderboards feed tournaments" qualifier flow: registers the top
/// ranked snakes that are not registered already, within the per-user limit
/// and the total, seeded in rank order after the existing registrations.
pub fn import_leaderboard(
    tournament_id: Id,
    user_id: Id,
    form: &ImportLeaderboardForm,
    p: &Progress,
) -> (r: Step)
    requires
        import_seeds_fit(*form, *p),
    ensures
        r@ == import_next(tournament_id, user_id, *form, *p),
{
    if let Some(step) = check_owner(
        Step::LockTournament { tournament_id },
        user_id,
        "Only the tournament owner can import from a leaderboard",
        p,
    ) {
        return step;
    }
    let page: String = detail_url(tournament_id);
    match &p.tournament {
        Some(Some(t)) => {
            if !registrations_editable(t.status) {
                return flash_step(
                    FlashKind::Error,
                    "Snakes can only be imported before the tournament starts".to_owned(),
                    page,
                );
            }
            if t.registration_status == RegistrationStatus::Closed {
                return flash_step(
                    FlashKind::Error,
                    "Registration is closed for this tournament".to_owned(),
                    page,
                );
            }
            match &p.leaderboard {
                None => Step::LoadLeaderboard { leaderboard_id: form.leaderboard_id },
                Some(None) => flash_step(
                    FlashKind::Error,
                    "Leaderboard not found".to_owned(),
                    page,
                ),
                Some(Some(leaderboard)) => import_from_leaderboard(leaderboard, t, form, page, p),
            }
        },
        _ => not_found_step(),
    }
}

fn import_from_leaderboard(
    leaderboard: &Leaderboard,
    t: &Tournament,
    form: &ImportLeaderboardForm,
    page: String,
    p: &Progress,
) -> (r: Step)
    requires
        import_seeds_fit(*form, *p),
        p.tournament == Some(Some(*t)),
    ensures
        r@ == import_from(*leaderboard, *t, *form, page@, *p),
{
    if leaderboard.disabled_at.is_some() {
        return flash_step(
            FlashKind::Error,
            leaderboard.name.clone().concat(" is disabled and cannot be imported from"),
            page,
        );
    }
    let ranking: &Vec<RankedEntry> = match &p.ranking {
        None => {
            return Step::LoadRanking { leaderboard_id: leaderboard.leaderboard_id };
        },
        Some(ranking) => ranking,
    };
    let registrations: &Vec<TournamentRegistration> = match &p.registrations {
        None => {
            return Step::LoadRegistrations;
        },
        Some(registrations) => registrations,
    };
    let count: i64 = clamp_count(form.count);
    let choice: Vec<(Id, Id)> = select_import_candidates(
        ranking.as_slice(),
        registrations.as_slice(),
        t.max_snakes_per_user,
        count,
    );
    assert(choice@ == import_choice(*t, ranking@, registrations@, form.count as int));
    if choice.len() == 0 {
        return flash_step(
            FlashKind::Info,
            "No eligible snakes to import from ".to_owned().concat(leaderboard.name.as_str()),
            page,
        );
    }
    let first_seed: i32 = match p.next_seed {
        None => {
            return Step::NextSeed;
        },
        Some(first_seed) => first_seed,
    };
    if !p.applied {
        proof {
            import_stays_in_bounds(
                ranking@,
                registrations@,
                t.max_snakes_per_user as int,
                count as int,
            );
        }
        return Step::Apply(plan_import(&choice, first_seed));
    }
    if !p.committed {
        return Step::Commit;
    }
    flash_step(
        FlashKind::Success,
        "Imported ".to_owned().concat(count_text(choice.len()).as_str()).concat(
            " snake(s) from ",
        ).concat(leaderboard.name.as_str()),
        page,
    )
}

// Laws.

/// A snake is registered exactly when it is not registered yet, its owner
/// holds fewer snakes than allowed, and the tournament holds fewer than 128;
/// it is then that snake that is registered for that owner, at the seed that
/// it was given.
pub proof fn a_registration_needs_room(
    t: Tournament,
    owner_user_id: Id,
    battlesnake_id: Id,
    snake_name: Seq<char>,
    p: Progress,
)
    requires
        p.already_registered is Some,
        p.user_registrations is Some,
        p.registration_count is Some,
    ensures
        ({
            let outcome = registering(t, owner_user_id, battlesnake_id, snake_name, p);
            let held = p.user_registrations->0;
            let room = held < t.max_snakes_per_user && p.registration_count->0 < 128;
            &&& outcome is Refused <==> p.already_registered->0 || !room
            &&& !p.already_registered->0 && room ==> {
                &&& p.assigned_seed is None ==> outcome == RegisterOutcomeView::Ask(
                    StepView::Apply(
                        seq![WriteView::Register { battlesnake_id, user_id: owner_user_id }],
                    ),
                )
                &&& p.assigned_seed matches Some(seed) ==> outcome
                    == RegisterOutcomeView::Registered { seed }
            }
            &&& p.already_registered->0 ==> outcome == RegisterOutcomeView::Refused(
                snake_name + " is already registered in this tournament"@,
            )
            &&& !p.already_registered->0 && held >= t.max_snakes_per_user ==> outcome
                == RegisterOutcomeView::Refused(
                "You have reached the limit of "@ + decimal(t.max_snakes_per_user as int)
                    + " snake(s) for this tournament"@,
            )
        }),
{
}

/// The facts of a registration are asked for one after the other: of the
/// snake, of its owner, of the whole tournament.
pub proof fn a_registration_asks_about_its_own_snake_and_owner(
    t: Tournament,
    owner_user_id: Id,
    battlesnake_id: Id,
    snake_name: Seq<char>,
    p: Progress,
)
    ensures
        ({
            let outcome = registering(t, owner_user_id, battlesnake_id, snake_name, p);
            &&& p.already_registered is None ==> outcome == RegisterOutcomeView::Ask(
                StepView::CheckRegistered { battlesnake_id },
            )
            &&& p.already_registered == Some(false) && p.user_registrations is None ==> outcome
                == RegisterOutcomeView::Ask(
                StepView::CountUserRegistrations { user_id: owner_user_id },
            )
            &&& p.already_registered == Some(false) && p.user_registrations is Some
                && p.user_registrations->0 < t.max_snakes_per_user && p.registration_count
                is None ==> outcome
                == RegisterOutcomeView::Ask(StepView::CountRegistrations)
        }),
{
}

/// An import registers at most as many snakes as its form asks for, where that
/// is a number from 1 to 32, one where it is less and 32 where it is more. It
/// registers exactly as many unless the tournament would hold more than 128 or
/// the ranking has no more snakes that qualify: every other one is registered
/// already, or its owner is at the limit.
pub proof fn imports_register_what_is_asked_for(
    t: Tournament,
    ranking: Seq<RankedEntry>,
    registrations: Seq<TournamentRegistration>,
    count: int,
    place: int,
)
    requires
        registrations.len() <= 128,
        0 <= place < ranking.len(),
    ensures
        ({
            let added = import_choice(t, ranking, registrations, count);
            let asked = if count < 1 {
                1
            } else if count <= 32 {
                count
            } else {
                32
            };
            let owner = ranking[place].user_id;
            let theirs = |r: TournamentRegistration| r.user_id == owner;
            let added_theirs = |c: (Id, Id)| c.1 == owner;
            &&& added.len() <= asked
            &&& registrations.len() + added.len() <= 128
            &&& added.len() < asked && registrations.len() + added.len() < 128 ==> {
                ||| exists|k: int|
                    0 <= k < registrations.len() && (#[trigger] registrations[k]).battlesnake_id
                        == ranking[place].battlesnake_id
                ||| exists|k: int|
                    0 <= k < added.len() && (#[trigger] added[k]).0 == ranking[place].battlesnake_id
                ||| registrations.filter(theirs).len() + added.filter(added_theirs).len()
                    >= t.max_snakes_per_user
            }
        }),
{
    let asked = import_count(count);
    let target = import_target(registrations.len() as int, asked);
    let limit = t.max_snakes_per_user as int;
    let added = import_choice(t, ranking, registrations, count);
    import_stays_in_bounds(ranking, registrations, limit, asked);
    crate::import::import_leaves_no_eligible_snake(ranking, registrations, limit, target, place);
    let owner = ranking[place].user_id;
    crate::import::chosen_are_counted(added, owner, |c: (Id, Id)| c.1 == owner);
    assert(crate::import::owned(registrations, owner) == registrations.filter(
        |r: TournamentRegistration| r.user_id == owner,
    ).len());
}

/// An import registers no snake that is registered already and none twice, and
/// leaves nobody with more snakes than allowed.
pub proof fn imports_obey_every_limit(
    t: Tournament,
    ranking: Seq<RankedEntry>,
    registrations: Seq<TournamentRegistration>,
    count: int,
    i: int,
    j: int,
    k: int,
)
    requires
        0 <= i < import_choice(t, ranking, registrations, count).len(),
    ensures
        ({
            let added = import_choice(t, ranking, registrations, count);
            let owner = added[i].1;
            let theirs = |r: TournamentRegistration| r.user_id == owner;
            let added_theirs = |c: (Id, Id)| c.1 == owner;
            &&& 0 <= k < registrations.len() ==> registrations[k].battlesnake_id != added[i].0
            &&& 0 <= j < added.len() && j != i ==> added[j].0 != added[i].0
            &&& registrations.filter(theirs).len() + added.filter(added_theirs).len()
                <= t.max_snakes_per_user
            &&& exists|place: int|
                0 <= place < ranking.len() && (#[trigger] ranking[place]).battlesnake_id
                    == added[i].0 && ranking[place].user_id == added[i].1
        }),
{
    let target = import_target(registrations.len() as int, import_count(count));
    let limit = t.max_snakes_per_user as int;
    let added = import_choice(t, ranking, registrations, count);
    let owner = added[i].1;
    crate::import::import_adds_new_snakes_once(ranking, registrations, limit, target);
    crate::import::import_respects_the_user_limit(ranking, registrations, limit, target, owner);
    crate::import::import_keeps_rank_order(ranking, registrations, limit, target);
    let places = crate::import::import_places(ranking, registrations, limit, target);
    assert(0 <= places[i] < ranking.len());
    assert(ranking[places[i]].battlesnake_id == added[i].0);
    if 0 <= k < registrations.len() && registrations[k].battlesnake_id == added[i].0 {
        assert(crate::import::registered(registrations, added[i].0));
    }
    if 0 <= j < added.len() && j != i {
        if j < i {
            assert(added[j].0 != added[i].0);
        } else {
            assert(added[i].0 != added[j].0);
        }
    }
    let added_theirs = |c: (Id, Id)| c.1 == owner;
    crate::import::chosen_are_counted(added, owner, added_theirs);
    assert(added_theirs(added[i]));
    added.lemma_filter_contains(added_theirs, i);
    assert(added.filter(added_theirs).len() > 0);
    assert(crate::import::owned(registrations, owner) == registrations.filter(
        |r: TournamentRegistration| r.user_id == owner,
    ).len());
}

/// The snakes of an import are seeded one after the other, in the order in
/// which they were chosen, each for its own owner.
pub proof fn imports_are_seeded_in_order(choice: Seq<(Id, Id)>, first_seed: int, i: int)
    requires
        0 <= i < choice.len(),
        i32::MIN <= first_seed && first_seed + choice.len() <= i32::MAX,
    ensures
        import_writes(choice, first_seed).len() == choice.len(),
        import_writes(choice, first_seed)[i] is RegisterSeeded,
        import_writes(choice, first_seed)[i]->RegisterSeeded_battlesnake_id == choice[i].0,
        import_writes(choice, first_seed)[i]->RegisterSeeded_user_id == choice[i].1,
        import_writes(choice, first_seed)[i]->seed == first_seed + i,
{
}

} // verus!
