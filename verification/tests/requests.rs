use arena::flow::{is_hidden_from, FlashKind, Progress, Reply, Step, Write};
use arena::forms::{
    ImportLeaderboardForm, RegisterForm, SeedForm, StatusForm, TournamentSettingsForm,
    UnregisterForm,
};
use arena::ids::Id;
use arena::lifecycle::{
    reset_tournament, run_round, start_tournament, start_tournament_in_tx, update_status,
    GameBudget, StartOutcome,
};
use arena::model::{
    Battlesnake, GameBoardSize, GameType, Leaderboard, MatchStyle, RankedEntry,
    RegistrationStatus, Tournament, TournamentRegistration, TournamentStatus,
    TournamentVisibility,
};
use arena::registration::{
    import_leaderboard, move_seed, register_snake, register_snake_in_tx, seeds_fit,
    unregister_snake, RegisterOutcome,
};
use arena::rules::MAX_TOTAL_REGISTRATIONS;
use arena::settings::{create_tournament, edit_tournament, update_settings};
use arena::time::Timestamp;

const EPOCH: Timestamp = Timestamp { secs: 0, nanos: 0 };

/// A stored tournament with everything around it.
#[derive(Clone)]
struct Store {
    next_id: u128,
    tournament: Option<Tournament>,
    registrations: Vec<TournamentRegistration>,
    snakes: Vec<Battlesnake>,
    leaderboards: Vec<Leaderboard>,
    ranking: Vec<RankedEntry>,
    /// The snakes and seeds that the bracket was made of.
    bracket: Option<Vec<(Id, i32)>>,
    recent_games: i64,
    /// Whose games were counted, and in how many minutes.
    counted: Option<(Id, i64)>,
    enqueued: Vec<(i32, String)>,
    locked: bool,
}

impl Store {
    fn new(max_snakes_per_user: i32) -> Store {
        let mut store = Store {
            next_id: 1,
            tournament: None,
            registrations: vec![],
            snakes: vec![],
            leaderboards: vec![],
            ranking: vec![],
            bracket: None,
            recent_games: 0,
            counted: None,
            enqueued: vec![],
            locked: false,
        };
        let tournament_id = store.id();
        let user_id = store.id();
        store.tournament = Some(Tournament {
            tournament_id,
            name: "Cap Test".to_string(),
            description: None,
            user_id,
            game_type: GameType::Standard,
            board_size: GameBoardSize::Medium,
            registration_status: RegistrationStatus::Open,
            visibility: TournamentVisibility::Public,
            status: TournamentStatus::Created,
            match_style: MatchStyle::SingleGame,
            max_snakes_per_user,
            required_participants: 2,
            current_round: 0,
            created_at: EPOCH,
            updated_at: EPOCH,
        });
        store
    }

    fn id(&mut self) -> Id {
        self.next_id += 1;
        Id::from_u128(self.next_id)
    }

    fn t(&mut self) -> &mut Tournament {
        self.tournament.as_mut().unwrap()
    }

    fn owner(&self) -> Id {
        self.tournament.as_ref().unwrap().user_id
    }

    fn tournament_id(&self) -> Id {
        self.tournament.as_ref().unwrap().tournament_id
    }

    fn find(&self, tournament_id: Id) -> Option<Tournament> {
        self.tournament
            .clone()
            .filter(|t| t.tournament_id == tournament_id)
    }

    fn snake(&mut self, user_id: Id, name: &str) -> Id {
        let battlesnake_id = self.id();
        self.snakes.push(Battlesnake {
            battlesnake_id,
            user_id,
            name: name.to_string(),
            color: "#123456".to_string(),
        });
        battlesnake_id
    }

    fn register(&mut self, battlesnake_id: Id, user_id: Id, seed: i32) -> Id {
        let registration_id = self.id();
        let tournament_id = self.tournament_id();
        self.registrations.push(TournamentRegistration {
            registration_id,
            tournament_id,
            battlesnake_id,
            user_id,
            seed,
            registered_at: EPOCH,
        });
        registration_id
    }

    fn registrations_of(&self, user_id: Id) -> i64 {
        self.registrations
            .iter()
            .filter(|r| r.user_id == user_id)
            .count() as i64
    }

    fn allows(from: TournamentStatus, to: TournamentStatus) -> bool {
        matches!(
            (from, to),
            (TournamentStatus::Created, TournamentStatus::Registration)
                | (TournamentStatus::Created, TournamentStatus::Canceled)
                | (TournamentStatus::Registration, TournamentStatus::InProgress)
                | (TournamentStatus::Registration, TournamentStatus::Canceled)
                | (TournamentStatus::InProgress, TournamentStatus::Completed)
                | (TournamentStatus::InProgress, TournamentStatus::Canceled)
        )
    }

    fn write(&mut self, write: Write, p: &mut Progress) {
        match write {
            Write::CreateTournament { user_id, settings } => {
                let created = self.id();
                self.tournament = Some(Tournament {
                    tournament_id: created,
                    name: settings.name,
                    description: settings.description,
                    user_id,
                    game_type: settings.game_type,
                    board_size: settings.board_size,
                    registration_status: settings.registration_status,
                    visibility: settings.visibility,
                    status: TournamentStatus::Created,
                    match_style: settings.match_style,
                    max_snakes_per_user: settings.max_snakes_per_user,
                    required_participants: settings.required_participants,
                    current_round: 0,
                    created_at: EPOCH,
                    updated_at: EPOCH,
                });
                p.created = Some(created);
            }
            Write::UpdateSettings(settings) => {
                let t = self.t();
                t.name = settings.name;
                t.description = settings.description;
                t.game_type = settings.game_type;
                t.board_size = settings.board_size;
                t.registration_status = settings.registration_status;
                t.visibility = settings.visibility;
                t.match_style = settings.match_style;
                t.max_snakes_per_user = settings.max_snakes_per_user;
                t.required_participants = settings.required_participants;
                p.applied = true;
            }
            Write::Register {
                battlesnake_id,
                user_id,
            } => {
                let seed = self.registrations.len() as i32 + 1;
                self.register(battlesnake_id, user_id, seed);
                p.assigned_seed = Some(seed);
            }
            Write::RegisterSeeded {
                battlesnake_id,
                user_id,
                seed,
            } => {
                self.register(battlesnake_id, user_id, seed);
                p.applied = true;
            }
            Write::Unregister { registration_id } => {
                self.registrations
                    .retain(|r| r.registration_id != registration_id);
                for (i, r) in self.registrations.iter_mut().enumerate() {
                    r.seed = i as i32 + 1;
                }
                p.applied = true;
            }
            Write::MoveSeed {
                registration_id,
                new_seed,
            } => {
                let found = self
                    .registrations
                    .iter_mut()
                    .find(|r| r.registration_id == registration_id);
                p.seed_moved = Some(found.is_some());
                if let Some(r) = found {
                    r.seed = new_seed;
                }
            }
            Write::SetStatus { next, expected } => {
                assert_eq!(self.t().status, expected);
                self.t().status = next;
                p.applied = true;
            }
            Write::SetRound { round } => {
                self.t().current_round = round;
                p.applied = true;
            }
            Write::PersistBracket { registrations } => {
                p.bracket_stored = Some(self.bracket.is_none());
                let snakes = registrations.iter().map(|r| (r.battlesnake_id, r.seed));
                self.bracket = Some(snakes.collect());
            }
            Write::DeleteMatches => {
                self.bracket = None;
                p.applied = true;
            }
            Write::EnqueueRound { round, reason } => {
                self.enqueued.push((round, reason));
                p.applied = true;
            }
        }
    }

    fn perform(&mut self, step: Step, requester: Id, p: &mut Progress) {
        match step {
            Step::LockTournament { tournament_id } => {
                self.locked = true;
                p.tournament = Some(self.find(tournament_id));
            }
            Step::LoadTournament { tournament_id } => {
                p.tournament = Some(self.find(tournament_id));
            }
            Step::CountRequesterRegistrations { user_id } => {
                assert_eq!(user_id, requester);
                p.requester_registrations = Some(self.registrations_of(user_id));
            }
            Step::CountRegistrations => {
                p.registration_count = Some(self.registrations.len() as i64);
            }
            Step::LoadSnake { battlesnake_id } => {
                p.snake = Some(
                    self.snakes
                        .iter()
                        .find(|s| s.battlesnake_id == battlesnake_id)
                        .cloned(),
                );
            }
            Step::CheckRegistered { battlesnake_id } => {
                p.already_registered = Some(
                    self.registrations
                        .iter()
                        .any(|r| r.battlesnake_id == battlesnake_id),
                );
            }
            Step::CountUserRegistrations { user_id } => {
                p.user_registrations = Some(self.registrations_of(user_id));
            }
            Step::LoadRegistration { registration_id } => {
                p.registration = Some(
                    self.registrations
                        .iter()
                        .find(|r| r.registration_id == registration_id)
                        .copied(),
                );
            }
            Step::LoadRegistrations => p.registrations = Some(self.registrations.clone()),
            Step::LoadLeaderboard { leaderboard_id } => {
                p.leaderboard = Some(
                    self.leaderboards
                        .iter()
                        .find(|lb| lb.leaderboard_id == leaderboard_id)
                        .cloned(),
                );
            }
            Step::LoadRanking { .. } => p.ranking = Some(self.ranking.clone()),
            Step::NextSeed => p.next_seed = Some(self.registrations.len() as i32 + 1),
            Step::CountRecentGames {
                user_id,
                window_minutes,
            } => {
                self.counted = Some((user_id, window_minutes));
                p.recent_games = Some(self.recent_games);
            }
            Step::CheckTransition { from, to } => {
                p.transition_allowed = Some(Store::allows(from, to));
            }
            Step::Apply(writes) => {
                for write in writes {
                    self.write(write, p);
                }
            }
            Step::Commit => p.committed = true,
            Step::Render | Step::Reply(_) => panic!("the request is answered"),
        }
    }

    /// Serves a request. What is not committed is rolled back.
    fn serve(&mut self, requester: Id, next: &dyn Fn(&Progress) -> Step) -> Option<Reply> {
        let before = self.clone();
        let mut p = Progress::start();
        for _ in 0..12 {
            match next(&p) {
                Step::Reply(reply) => {
                    if self.locked && !p.committed {
                        *self = before;
                    }
                    self.locked = false;
                    return Some(reply);
                }
                Step::Render => return None,
                step => self.perform(step, requester, &mut p),
            }
        }
        panic!("the request is never answered");
    }

    fn flash(
        &mut self,
        requester: Id,
        next: &dyn Fn(&Progress) -> Step,
    ) -> (FlashKind, String, String) {
        match self.serve(requester, next) {
            Some(Reply::Flash { kind, message, to }) => (kind, message, to),
            other => panic!("not a flash message: {other:?}"),
        }
    }
}

fn registered(outcome: RegisterOutcome) -> Result<i32, String> {
    match outcome {
        RegisterOutcome::Registered { seed } => Ok(seed),
        RegisterOutcome::Refused(message) => Err(message),
        RegisterOutcome::Ask(step) => panic!("not finished: {step:?}"),
    }
}

fn register_in_store(store: &mut Store, user_id: Id, snake: Id, name: &str) -> Result<i32, String> {
    let t = store.tournament.clone().unwrap();
    let mut p = Progress::start();
    loop {
        match register_snake_in_tx(&t, user_id, snake, name, &p) {
            RegisterOutcome::Ask(step) => store.perform(step, user_id, &mut p),
            done => return registered(done),
        }
    }
}

fn start_in_store(store: &mut Store) -> Result<usize, String> {
    let t = store.tournament.clone().unwrap();
    let before = store.clone();
    let mut p = Progress::start();
    loop {
        match start_tournament_in_tx(&t, &p) {
            StartOutcome::Ask(step) => store.perform(step, t.user_id, &mut p),
            StartOutcome::Refused(message) => {
                *store = before;
                return Err(message);
            }
            StartOutcome::Started { snakes } => return Ok(snakes),
        }
    }
}

#[test]
fn per_user_cap_and_dupes_enforced_inside_locked_transaction() {
    let mut store = Store::new(1);
    let user_id = store.owner();
    let snake_1 = store.snake(user_id, "snake-1");
    let snake_2 = store.snake(user_id, "snake-2");

    assert!(register_in_store(&mut store, user_id, snake_1, "snake-1").is_ok());

    let message = register_in_store(&mut store, user_id, snake_1, "snake-1")
        .expect_err("duplicate registration should be refused");
    assert!(
        message.contains("already registered"),
        "unexpected refusal message: {message}"
    );

    let message = register_in_store(&mut store, user_id, snake_2, "snake-2")
        .expect_err("second registration should hit the per-user cap");
    assert!(
        message.contains("limit"),
        "unexpected refusal message: {message}"
    );
    assert_eq!(store.registrations.len(), 1);
}

#[test]
fn total_registration_cap_refuses_the_129th_snake() {
    let mut store = Store::new(32);
    let owner = store.owner();
    for u in 0..4i64 {
        let filler = store.id();
        for g in 1..=32i32 {
            let snake = store.snake(filler, "snake");
            store.register(snake, filler, u as i32 * 32 + g);
        }
    }
    assert_eq!(store.registrations.len() as i64, MAX_TOTAL_REGISTRATIONS);

    let late_snake = store.snake(owner, "late-snake");
    let message = register_in_store(&mut store, owner, late_snake, "late-snake")
        .expect_err("the 129th registration should be refused");
    assert!(
        message.contains("full"),
        "unexpected refusal message: {message}"
    );
    assert_eq!(message, "This tournament is full (128 snakes)");
}

#[test]
fn participants_only_tournaments_hidden_from_outsiders() {
    let mut store = Store::new(1);
    let owner = store.owner();
    let participant = store.id();
    let outsider = store.id();
    let snake = store.snake(participant, "participant-snake");
    store.t().visibility = TournamentVisibility::ParticipantsOnly;
    store.register(snake, participant, 1);
    let t = store.tournament.clone().unwrap();

    for (user, hidden) in [(owner, false), (participant, false), (outsider, true)] {
        let count = store.registrations_of(user);
        assert_eq!(is_hidden_from(&t, user, Some(count)), Some(hidden));
    }
    assert_eq!(is_hidden_from(&t, owner, None), Some(false));
    assert_eq!(is_hidden_from(&t, outsider, None), None);
}

#[test]
fn start_with_one_registration_is_refused_under_the_lock() {
    let mut store = Store::new(2);
    let user_id = store.owner();
    let snake = store.snake(user_id, "lonely-snake");
    store.t().status = TournamentStatus::Registration;
    store.register(snake, user_id, 1);

    let message =
        start_in_store(&mut store).expect_err("one registration should not be enough to start");
    assert!(
        message.contains("At least 2"),
        "unexpected refusal message: {message}"
    );
    assert_eq!(store.t().status, TournamentStatus::Registration);
    assert!(store.bracket.is_none());
}

#[test]
fn double_start_gets_a_friendly_refusal_not_a_raw_error() {
    let mut store = Store::new(2);
    let user_id = store.owner();
    store.t().status = TournamentStatus::Registration;
    for seed in 1..=2i32 {
        let snake = store.snake(user_id, &format!("snake-{seed}"));
        store.register(snake, user_id, seed);
    }

    let snake_count = start_in_store(&mut store).expect("first start should succeed");
    assert_eq!(snake_count, 2);
    assert_eq!(store.t().status, TournamentStatus::InProgress);
    assert_eq!(store.t().current_round, 1);

    let message = start_in_store(&mut store).expect_err("second start should be refused");
    assert!(
        message.contains("cannot start from status"),
        "unexpected refusal message: {message}"
    );

    store.t().status = TournamentStatus::Registration;
    let message = start_in_store(&mut store)
        .expect_err("starting over an existing bracket should be refused");
    assert_eq!(message, "Tournament already started");
}

#[test]
fn registering_a_snake_goes_through_every_check() {
    let mut store = Store::new(1);
    let id = store.tournament_id();
    let page = format!("/tournaments/{}", uuid::Uuid::from_u128(id.bits));
    let user = store.id();
    let other = store.id();
    let snake = store.snake(user, "Sly");
    let foreign = store.snake(other, "Foe");

    let form = RegisterForm { battlesnake_id: foreign };
    assert_eq!(
        store.flash(user, &|p| register_snake(id, user, &form, p)),
        (
            FlashKind::Error,
            "You can only register your own battlesnakes".to_string(),
            page.clone()
        )
    );
    let form = RegisterForm { battlesnake_id: Id::from_u128(0) };
    assert_eq!(
        store.flash(user, &|p| register_snake(id, user, &form, p)).1,
        "You can only register your own battlesnakes"
    );
    let form = RegisterForm { battlesnake_id: snake };
    assert_eq!(
        store.flash(user, &|p| register_snake(id, user, &form, p)),
        (
            FlashKind::Success,
            "Registered Sly (seed 1)".to_string(),
            page.clone()
        )
    );
    assert_eq!(store.registrations.len(), 1);
    assert_eq!(store.registrations[0].user_id, user);
    assert_eq!(
        store.flash(user, &|p| register_snake(id, user, &form, p)).1,
        "Sly is already registered in this tournament"
    );
    let second = store.snake(user, "Sly II");
    let form = RegisterForm { battlesnake_id: second };
    assert_eq!(
        store.flash(user, &|p| register_snake(id, user, &form, p)).1,
        "You have reached the limit of 1 snake(s) for this tournament"
    );
    store.t().registration_status = RegistrationStatus::Closed;
    assert_eq!(
        store.flash(user, &|p| register_snake(id, user, &form, p)).1,
        "Registration is not open for this tournament"
    );
    store.tournament = None;
    assert!(matches!(
        store.serve(user, &|p| register_snake(id, user, &form, p)),
        Some(Reply::NotFound { message }) if message == "Tournament not found"
    ));
}

#[test]
fn registrations_are_removed_by_their_owners_or_the_tournaments() {
    let mut store = Store::new(3);
    let id = store.tournament_id();
    let owner = store.owner();
    let user = store.id();
    let stranger = store.id();
    let snake = store.snake(user, "Sly");
    let other = store.snake(user, "Sal");
    let registration_id = store.register(snake, user, 1);
    let second = store.register(other, user, 2);

    let form = UnregisterForm { registration_id };
    assert_eq!(
        store.flash(stranger, &|p| unregister_snake(id, stranger, &form, p)).1,
        "You don't have permission to remove this registration"
    );
    assert_eq!(
        store.flash(user, &|p| unregister_snake(id, user, &form, p)).1,
        "Snake unregistered"
    );
    assert_eq!(store.registrations.len(), 1);
    assert_eq!(store.registrations[0].seed, 1);
    assert_eq!(
        store.flash(user, &|p| unregister_snake(id, user, &form, p)).1,
        "Registration not found"
    );
    // A registration of another tournament is not found either.
    store.registrations[0].tournament_id = Id::from_u128(77);
    let form = UnregisterForm { registration_id: second };
    assert_eq!(
        store.flash(owner, &|p| unregister_snake(id, owner, &form, p)).1,
        "Registration not found"
    );
    store.registrations[0].tournament_id = id;
    store.t().status = TournamentStatus::InProgress;
    assert_eq!(
        store.flash(owner, &|p| unregister_snake(id, owner, &form, p)).1,
        "Snakes can no longer be unregistered from this tournament"
    );
    store.t().status = TournamentStatus::Registration;
    assert_eq!(
        store.flash(owner, &|p| unregister_snake(id, owner, &form, p)).0,
        FlashKind::Success
    );
    assert!(store.registrations.is_empty());
}

#[test]
fn seeds_are_moved_by_the_owner_before_the_start() {
    let mut store = Store::new(3);
    let id = store.tournament_id();
    let owner = store.owner();
    let user = store.id();
    let snake = store.snake(user, "Sly");
    let registration_id = store.register(snake, user, 1);
    let form = SeedForm { registration_id, new_seed: 4 };
    assert!(matches!(
        store.serve(user, &|p| move_seed(id, user, &form, p)),
        Some(Reply::Forbidden { message }) if message == "Only the tournament owner can change seeds"
    ));
    assert_eq!(
        store.flash(owner, &|p| move_seed(id, owner, &form, p)).1,
        "Seed updated"
    );
    assert_eq!(store.registrations[0].seed, 4);
    let missing = SeedForm { registration_id: Id::from_u128(0), new_seed: 1 };
    assert_eq!(
        store.flash(owner, &|p| move_seed(id, owner, &missing, p)),
        (
            FlashKind::Error,
            "Registration not found".to_string(),
            format!("/tournaments/{}", uuid::Uuid::from_u128(id.bits))
        )
    );
    store.t().status = TournamentStatus::Completed;
    assert_eq!(
        store.flash(owner, &|p| move_seed(id, owner, &form, p)).1,
        "Seeds can only be changed before the tournament starts"
    );
}

#[test]
fn the_status_changes_as_far_as_the_lifecycle_allows() {
    let mut store = Store::new(3);
    let id = store.tournament_id();
    let owner = store.owner();
    let user = store.id();
    let open = StatusForm { action: "open_registration".to_string() };
    let cancel = StatusForm { action: "cancel".to_string() };
    let start = StatusForm { action: "start".to_string() };
    assert!(matches!(
        store.serve(user, &|p| update_status(id, user, &open, p)),
        Some(Reply::Forbidden { message })
            if message == "Only the tournament owner can change its status"
    ));
    assert_eq!(
        store.flash(owner, &|p| update_status(id, owner, &start, p)).1,
        "Unknown action: start"
    );
    assert_eq!(
        store.flash(owner, &|p| update_status(id, owner, &open, p)).1,
        "Registration is now open!"
    );
    assert_eq!(store.t().status, TournamentStatus::Registration);
    assert_eq!(
        store.flash(owner, &|p| update_status(id, owner, &open, p)).1,
        "Cannot move tournament from registration to registration"
    );
    assert_eq!(
        store.flash(owner, &|p| update_status(id, owner, &cancel, p)),
        (
            FlashKind::Success,
            "Tournament canceled".to_string(),
            format!("/tournaments/{}", uuid::Uuid::from_u128(id.bits))
        )
    );
    assert_eq!(store.t().status, TournamentStatus::Canceled);
    assert_eq!(
        store.flash(owner, &|p| update_status(id, owner, &cancel, p)).1,
        "Cannot move tournament from canceled to canceled"
    );
}

#[test]
fn a_reset_undoes_a_start() {
    let mut store = Store::new(2);
    let id = store.tournament_id();
    let owner = store.owner();
    store.t().status = TournamentStatus::Registration;
    let mut seeded = vec![];
    for seed in 1..=2i32 {
        let snake = store.snake(owner, "snake");
        store.register(snake, owner, seed);
        seeded.push((snake, seed));
    }
    assert_eq!(
        store.flash(owner, &|p| reset_tournament(id, owner, p)).1,
        "Only an in-progress tournament can be reset"
    );
    let user = store.id();
    assert!(matches!(
        store.serve(user, &|p| start_tournament(id, user, p)),
        Some(Reply::Forbidden { message }) if message == "Only the tournament owner can start it"
    ));
    assert_eq!(
        store.flash(owner, &|p| start_tournament(id, owner, p)).1,
        "Tournament started with 2 snakes! Use \"Run Round\" to play each round."
    );
    assert_eq!(store.bracket, Some(seeded));
    assert_eq!(store.t().current_round, 1);
    assert_eq!(
        store.flash(owner, &|p| start_tournament(id, owner, p)).1,
        "Tournament cannot start from status 'in_progress'"
    );
    assert!(matches!(
        store.serve(user, &|p| reset_tournament(id, user, p)),
        Some(Reply::Forbidden { message }) if message == "Only the tournament owner can reset it"
    ));
    let (kind, message, _) = store.flash(owner, &|p| reset_tournament(id, owner, p));
    assert_eq!(kind, FlashKind::Success);
    assert_eq!(
        message,
        "Tournament reset — the bracket was cleared and registration is open again. \
         Any games still running will finish on their own but won't count."
    );
    assert!(store.bracket.is_none());
    assert_eq!(store.t().current_round, 0);
    assert_eq!(store.t().status, TournamentStatus::Registration);
    assert_eq!(store.registrations.len(), 2);
}

#[test]
fn rounds_run_within_the_owners_budget() {
    let mut store = Store::new(2);
    let id = store.tournament_id();
    let owner = store.owner();
    let user = store.id();
    let budget = GameBudget { limit: 10, window_minutes: 60 };
    let page = format!("/tournaments/{}", uuid::Uuid::from_u128(id.bits));
    assert_eq!(
        store.flash(owner, &|p| run_round(id, owner, &budget, p)).1,
        "Rounds can only be run while the tournament is in progress"
    );
    store.t().status = TournamentStatus::InProgress;
    store.t().current_round = 3;
    assert!(matches!(
        store.serve(user, &|p| run_round(id, user, &budget, p)),
        Some(Reply::Forbidden { message }) if message == "Only the tournament owner can run rounds"
    ));
    store.t().visibility = TournamentVisibility::ParticipantsOnly;
    assert!(matches!(
        store.serve(user, &|p| run_round(id, user, &budget, p)),
        Some(Reply::NotFound { message }) if message == "Tournament not found"
    ));
    assert!(store.enqueued.is_empty());
    store.recent_games = 10;
    assert_eq!(
        store.flash(owner, &|p| run_round(id, owner, &budget, p)).1,
        "You're over the game-creation limit (10 games per 60 minutes, tournament games \
         included). Wait a bit before running the next round."
    );
    assert_eq!(store.counted, Some((owner, 60)));
    store.recent_games = 9;
    assert_eq!(
        store.flash(owner, &|p| run_round(id, owner, &budget, p)),
        (
            FlashKind::Success,
            "Round 3 started".to_string(),
            format!("{page}?watch_round=3")
        )
    );
    assert_eq!(
        store.enqueued,
        vec![(
            3,
            format!(
                "Owner ran round 3 of tournament {}",
                uuid::Uuid::from_u128(id.bits)
            )
        )]
    );
}

#[test]
fn leaderboards_feed_tournaments() {
    let mut store = Store::new(1);
    let id = store.tournament_id();
    let owner = store.owner();
    let user = store.id();
    let leaderboard_id = store.id();
    store.leaderboards.push(Leaderboard {
        leaderboard_id,
        name: "Standard".to_string(),
        disabled_at: None,
    });
    let form = ImportLeaderboardForm { leaderboard_id, count: 2 };
    assert!(matches!(
        store.serve(user, &|p| import_leaderboard(id, user, &form, p)),
        Some(Reply::Forbidden { message })
            if message == "Only the tournament owner can import from a leaderboard"
    ));
    assert_eq!(
        store.flash(owner, &|p| import_leaderboard(id, owner, &form, p)),
        (
            FlashKind::Info,
            "No eligible snakes to import from Standard".to_string(),
            format!("/tournaments/{}", uuid::Uuid::from_u128(id.bits))
        )
    );
    for _ in 0..3 {
        let (entry, snake, holder) = (store.id(), store.id(), store.id());
        store.ranking.push(RankedEntry {
            leaderboard_entry_id: entry,
            battlesnake_id: snake,
            user_id: holder,
            games_played: 50,
            first_place_finishes: 10,
            non_first_finishes: 40,
            snake_name: "ranked-snake".to_string(),
            snake_color: "#888888".to_string(),
            owner_login: "ranked-owner".to_string(),
        });
    }
    assert_eq!(
        store.flash(owner, &|p| import_leaderboard(id, owner, &form, p)).1,
        "Imported 2 snake(s) from Standard"
    );
    let seeds: Vec<(Id, i32)> = store
        .registrations
        .iter()
        .map(|r| (r.battlesnake_id, r.seed))
        .collect();
    assert_eq!(
        seeds,
        vec![
            (store.ranking[0].battlesnake_id, 1),
            (store.ranking[1].battlesnake_id, 2)
        ]
    );
    // A count below one asks for one.
    let form = ImportLeaderboardForm { leaderboard_id, count: -7 };
    assert_eq!(
        store.flash(owner, &|p| import_leaderboard(id, owner, &form, p)).1,
        "Imported 1 snake(s) from Standard"
    );
    assert_eq!(store.registrations[2].seed, 3);

    store.leaderboards[0].disabled_at = Some(EPOCH);
    assert_eq!(
        store.flash(owner, &|p| import_leaderboard(id, owner, &form, p)).1,
        "Standard is disabled and cannot be imported from"
    );
    let missing = ImportLeaderboardForm { leaderboard_id: Id::from_u128(0), count: 1 };
    assert_eq!(
        store.flash(owner, &|p| import_leaderboard(id, owner, &missing, p)).1,
        "Leaderboard not found"
    );
    store.t().registration_status = RegistrationStatus::Closed;
    assert_eq!(
        store.flash(owner, &|p| import_leaderboard(id, owner, &form, p)).1,
        "Registration is closed for this tournament"
    );
    store.t().status = TournamentStatus::InProgress;
    assert_eq!(
        store.flash(owner, &|p| import_leaderboard(id, owner, &form, p)).1,
        "Snakes can only be imported before the tournament starts"
    );
}

#[test]
fn imported_seeds_have_to_fit() {
    let mut store = Store::new(1);
    let form = ImportLeaderboardForm { leaderboard_id: Id::from_u128(9), count: 3 };
    let mut p = Progress::start();
    assert!(seeds_fit(&form, &p));
    for n in 0..2 {
        let (entry, snake, holder) = (store.id(), store.id(), store.id());
        store.ranking.push(RankedEntry {
            leaderboard_entry_id: entry,
            battlesnake_id: snake,
            user_id: holder,
            games_played: n,
            first_place_finishes: 0,
            non_first_finishes: n,
            snake_name: "s".to_string(),
            snake_color: "#888888".to_string(),
            owner_login: "o".to_string(),
        });
    }
    p.tournament = Some(store.tournament.clone());
    p.ranking = Some(store.ranking.clone());
    p.registrations = Some(vec![]);
    p.next_seed = Some(i32::MAX - 2);
    assert!(seeds_fit(&form, &p));
    p.next_seed = Some(i32::MAX - 1);
    assert!(!seeds_fit(&form, &p));
}

#[test]
fn an_import_asks_for_no_more_than_its_limit() {
    let mut store = Store::new(1);
    let id = store.tournament_id();
    let owner = store.owner();
    let leaderboard_id = store.id();
    store.leaderboards.push(Leaderboard {
        leaderboard_id,
        name: "Standard".to_string(),
        disabled_at: None,
    });
    for _ in 0..40 {
        let (entry, snake, holder) = (store.id(), store.id(), store.id());
        store.ranking.push(RankedEntry {
            leaderboard_entry_id: entry,
            battlesnake_id: snake,
            user_id: holder,
            games_played: 50,
            first_place_finishes: 10,
            non_first_finishes: 40,
            snake_name: "s".to_string(),
            snake_color: "#888888".to_string(),
            owner_login: "o".to_string(),
        });
    }
    let form = ImportLeaderboardForm { leaderboard_id, count: 1000 };
    assert_eq!(
        store.flash(owner, &|p| import_leaderboard(id, owner, &form, p)).1,
        "Imported 32 snake(s) from Standard"
    );
    assert_eq!(store.registrations.len(), 32);
}

fn settings_form() -> TournamentSettingsForm {
    TournamentSettingsForm {
        name: "  Snake Cup ".to_string(),
        description: "  ".to_string(),
        game_type: "Royale".to_string(),
        board_size: "19x19".to_string(),
        match_style: MatchStyle::BestOf3,
        registration_status: RegistrationStatus::OwnerOnly,
        visibility: TournamentVisibility::ParticipantsOnly,
        max_snakes_per_user: 3,
        required_participants: 4,
    }
}

#[test]
fn tournaments_are_created_from_accepted_forms() {
    let mut store = Store::new(1);
    let user = store.id();
    let mut form = settings_form();
    form.board_size = "25x25".to_string();
    assert_eq!(
        store.flash(user, &|p| create_tournament(user, &form, p)),
        (
            FlashKind::Error,
            "Invalid board size: 25x25".to_string(),
            "/tournaments/new".to_string()
        )
    );
    form = settings_form();
    form.name = " ".to_string();
    form.game_type = "Solo".to_string();
    assert_eq!(
        store.flash(user, &|p| create_tournament(user, &form, p)).1,
        "Tournament name cannot be empty"
    );
    form.name = "Cup".to_string();
    assert_eq!(
        store.flash(user, &|p| create_tournament(user, &form, p)).1,
        "Invalid game type: Solo"
    );
    form = settings_form();
    let (kind, message, to) = store.flash(user, &|p| create_tournament(user, &form, p));
    assert_eq!(kind, FlashKind::Success);
    assert_eq!(message, "Tournament created successfully!");
    assert_eq!(
        to,
        format!(
            "/tournaments/{}",
            uuid::Uuid::from_u128(store.tournament_id().bits)
        )
    );
    assert_eq!(store.owner(), user);
    assert_eq!(store.t().name, "Snake Cup");
    assert_eq!(store.t().description, None);
    assert_eq!(store.t().game_type, GameType::Royale);
    assert_eq!(store.t().max_snakes_per_user, 3);
}

#[test]
fn settings_are_updated_by_the_owner_before_the_start() {
    let mut store = Store::new(1);
    let id = store.tournament_id();
    let owner = store.owner();
    let user = store.id();
    let mut form = settings_form();
    form.description = " A fine cup\n".to_string();
    let edit = format!("/tournaments/{}/edit", uuid::Uuid::from_u128(id.bits));
    assert!(matches!(
        store.serve(user, &|p| update_settings(id, user, &form, p)),
        Some(Reply::Forbidden { message })
            if message == "You don't have permission to edit this tournament"
    ));
    assert_eq!(
        store.flash(owner, &|p| update_settings(id, owner, &form, p)).1,
        "Tournament settings updated!"
    );
    assert_eq!(store.t().description, Some("A fine cup".to_string()));
    assert_eq!(store.t().board_size, GameBoardSize::Large);

    let snake = store.snake(owner, "Sly");
    store.register(snake, owner, 1);
    form.board_size = "7x7".to_string();
    assert_eq!(
        store.flash(owner, &|p| update_settings(id, owner, &form, p)),
        (
            FlashKind::Error,
            "Game type and board size cannot be changed after snakes have registered".to_string(),
            edit.clone()
        )
    );
    form.board_size = "19x19".to_string();
    form.max_snakes_per_user = 33;
    assert_eq!(
        store.flash(owner, &|p| update_settings(id, owner, &form, p)),
        (
            FlashKind::Error,
            "Max snakes per user must be between 1 and 32".to_string(),
            edit.clone()
        )
    );
    form.max_snakes_per_user = 2;
    store.t().status = TournamentStatus::InProgress;
    assert_eq!(
        store.flash(owner, &|p| update_settings(id, owner, &form, p)).1,
        "Tournament settings can only be edited before the tournament starts"
    );
    assert_eq!(store.t().max_snakes_per_user, 3);
}

#[test]
fn the_settings_page_is_the_owners() {
    let mut store = Store::new(1);
    let id = store.tournament_id();
    let owner = store.owner();
    let user = store.id();
    assert!(store.serve(owner, &|p| edit_tournament(id, owner, p)).is_none());
    assert!(matches!(
        store.serve(user, &|p| edit_tournament(id, user, p)),
        Some(Reply::Forbidden { message })
            if message == "You don't have permission to edit this tournament"
    ));
    store.t().visibility = TournamentVisibility::ParticipantsOnly;
    assert!(matches!(
        store.serve(user, &|p| edit_tournament(id, user, p)),
        Some(Reply::NotFound { message }) if message == "Tournament not found"
    ));
}

#[test]
fn hidden_tournaments_are_answered_like_missing_ones() {
    let mut store = Store::new(1);
    let id = store.tournament_id();
    let user = store.id();
    store.t().visibility = TournamentVisibility::ParticipantsOnly;
    let register = RegisterForm { battlesnake_id: Id::from_u128(5) };
    let unregister = UnregisterForm { registration_id: Id::from_u128(5) };
    let seed = SeedForm { registration_id: Id::from_u128(5), new_seed: 1 };
    let status = StatusForm { action: "cancel".to_string() };
    let import = ImportLeaderboardForm { leaderboard_id: Id::from_u128(5), count: 1 };
    let settings = settings_form();
    let budget = GameBudget { limit: 10, window_minutes: 60 };
    for hidden in [true, false] {
        if !hidden {
            store.tournament = None;
        }
        let replies = vec![
            store.serve(user, &|p| register_snake(id, user, &register, p)),
            store.serve(user, &|p| unregister_snake(id, user, &unregister, p)),
            store.serve(user, &|p| move_seed(id, user, &seed, p)),
            store.serve(user, &|p| update_status(id, user, &status, p)),
            store.serve(user, &|p| update_settings(id, user, &settings, p)),
            store.serve(user, &|p| start_tournament(id, user, p)),
            store.serve(user, &|p| reset_tournament(id, user, p)),
            store.serve(user, &|p| import_leaderboard(id, user, &import, p)),
            store.serve(user, &|p| run_round(id, user, &budget, p)),
            store.serve(user, &|p| edit_tournament(id, user, p)),
        ];
        for reply in replies {
            assert!(matches!(
                reply,
                Some(Reply::NotFound { message }) if message == "Tournament not found"
            ));
        }
    }
}
