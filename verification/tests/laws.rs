use arena::forms::TournamentSettingsForm;
use arena::ids::Id;
use arena::model::{
    GameBoardSize, GameType, MatchStatus, MatchStyle, RegistrationStatus, Tournament,
    TournamentMatch, TournamentStatus, TournamentVisibility,
};
use arena::rules::{
    can_register, can_view, is_tie_game, parse_watch_round, should_refresh_tournament,
    validate_settings_update, validate_start, win_count,
};
use arena::text::{decimal_text, parse_i32, trim_text};
use arena::time::Timestamp;
use arena::tournament_forms::tournament_form_fields;

const EPOCH: Timestamp = Timestamp { secs: 0, nanos: 0 };

fn form() -> TournamentSettingsForm {
    TournamentSettingsForm {
        name: "\t Snake Cup \u{3000}".to_string(),
        description: "  A fine cup  ".to_string(),
        game_type: "Snail Mode".to_string(),
        board_size: "7x7".to_string(),
        match_style: MatchStyle::FirstTo3,
        registration_status: RegistrationStatus::Closed,
        visibility: TournamentVisibility::ParticipantsOnly,
        max_snakes_per_user: 32,
        required_participants: 128,
    }
}

fn stored(form: &TournamentSettingsForm) -> Tournament {
    let settings = form.settings().unwrap();
    Tournament {
        tournament_id: Id::from_u128(1),
        name: settings.name,
        description: settings.description,
        user_id: Id::from_u128(2),
        game_type: settings.game_type,
        board_size: settings.board_size,
        registration_status: settings.registration_status,
        visibility: settings.visibility,
        status: TournamentStatus::Registration,
        match_style: settings.match_style,
        max_snakes_per_user: settings.max_snakes_per_user,
        required_participants: settings.required_participants,
        current_round: 0,
        created_at: EPOCH,
        updated_at: EPOCH,
    }
}

#[test]
fn wins_add_up_over_games() {
    let (a, b) = (Id::from_u128(1), Id::from_u128(2));
    let first = [Some(a), None, Some(b)];
    let second = [Some(a), Some(a)];
    let all = [Some(a), None, Some(b), Some(a), Some(a)];
    assert_eq!(win_count(&first, a), 1);
    assert_eq!(win_count(&second, a), 2);
    assert_eq!(win_count(&all, a), 3);
}

#[test]
fn saving_settings_as_filled_in_changes_nothing() {
    let t = stored(&form());
    let fields = tournament_form_fields(Some(&t));
    let value = |choices: &[arena::tournament_forms::Choice]| {
        choices.iter().find(|c| c.selected).unwrap().value.clone()
    };
    let again = TournamentSettingsForm {
        name: fields.name.clone(),
        description: fields.description.clone(),
        game_type: value(&fields.game_types),
        board_size: value(&fields.board_sizes),
        match_style: t.match_style,
        registration_status: t.registration_status,
        visibility: t.visibility,
        max_snakes_per_user: fields.max_snakes_per_user,
        required_participants: fields.required_participants,
    };
    let settings = again.settings().unwrap();
    assert_eq!(settings.name, "Snake Cup");
    assert_eq!(settings.name, t.name);
    assert_eq!(settings.description, t.description);
    assert_eq!(settings.game_type, GameType::SnailMode);
    assert_eq!(settings.board_size, GameBoardSize::Small);
    assert!(validate_settings_update(&t, true, &settings.game_type, &settings.board_size).is_ok());
    assert_eq!(value(&fields.registration_statuses), "closed");
    assert_eq!(value(&fields.visibilities), "participants_only");
    assert_eq!(value(&fields.match_styles), "first_to_3");
}

#[test]
fn accepted_settings_are_trimmed_and_within_limits() {
    let mut f = form();
    let settings = f.settings().unwrap();
    assert_eq!(trim_text(&settings.name), settings.name);
    assert_eq!(f.description_opt().as_deref(), Some("A fine cup"));
    f.description = " \n ".to_string();
    assert_eq!(f.description_opt(), None);
    f.required_participants = 129;
    assert_eq!(
        f.settings().unwrap_err(),
        "Required participants must be between 2 and 128"
    );
}

#[test]
fn a_full_tournament_can_always_start() {
    let t = stored(&form());
    assert!(validate_start(&t, 127).is_err());
    assert!(validate_start(&t, 128).is_ok());
}

#[test]
fn a_round_that_was_run_is_watched() {
    let mut t = stored(&form());
    t.status = TournamentStatus::InProgress;
    t.current_round = 3;
    let watched = parse_watch_round(Some(&decimal_text(t.current_round as i64)));
    assert_eq!(watched, Some(3));
    let waiting: [TournamentMatch; 0] = [];
    assert!(should_refresh_tournament(&t, &waiting, watched));
    t.current_round = 4;
    assert!(!should_refresh_tournament(&t, &waiting, watched));
}

#[test]
fn written_numbers_are_read_back() {
    for n in [0, 7, 10, 99, 100, 4096, i32::MAX, -1, -10, i32::MIN] {
        assert_eq!(parse_i32(&decimal_text(n as i64)), Some(n));
    }
    assert_eq!(parse_i32(&decimal_text(i32::MAX as i64 + 1)), None);
}

#[test]
fn whoever_may_register_may_view() {
    let mut t = stored(&form());
    let owner = t.user_id;
    let other = Id::from_u128(9);
    for policy in [
        RegistrationStatus::Open,
        RegistrationStatus::OwnerOnly,
        RegistrationStatus::Closed,
    ] {
        for visibility in [
            TournamentVisibility::Public,
            TournamentVisibility::ParticipantsOnly,
        ] {
            t.registration_status = policy;
            t.visibility = visibility;
            assert!(can_view(&t, Some(owner), &[]));
            if can_register(&t, false) {
                assert!(can_view(&t, Some(other), &[]));
            }
        }
    }
}

#[test]
fn no_game_is_won_twice() {
    let (a, b) = (Id::from_u128(1), Id::from_u128(2));
    let games = [Some(a), Some(b), None, Some(a)];
    assert_eq!(win_count(&games, a) + win_count(&games, b), 3);
    assert!(!is_tie_game(Some(a), true, MatchStatus::Completed));
    assert!(!is_tie_game(None, false, MatchStatus::InProgress));
}

#[test]
fn the_form_sets_the_limits_that_settings_are_judged_by() {
    let limits = tournament_form_fields(None).limits;
    let judged = |name: usize, description: usize, required: i32, snakes: i32| {
        let mut form = form();
        form.name = format!(" {} ", "n".repeat(name));
        form.description = "d".repeat(description);
        form.required_participants = required;
        form.max_snakes_per_user = snakes;
        form.settings().is_ok()
    };
    let (name, description) = (limits.name_chars, limits.description_chars);
    let (few, many) = (limits.min_required_participants, limits.max_required_participants);
    let (least, most) = (limits.min_snakes_per_user, limits.max_snakes_per_user);
    assert!(judged(name, description, few, least));
    assert!(judged(1, 0, many, most));
    assert!(!judged(name + 1, description, few, least));
    assert!(!judged(name, description + 1, few, least));
    assert!(!judged(name, description, few - 1, least));
    assert!(!judged(name, description, many + 1, least));
    assert!(!judged(name, description, few, least - 1));
    assert!(!judged(name, description, few, most + 1));
    assert!(!judged(0, 0, few, least));
}
