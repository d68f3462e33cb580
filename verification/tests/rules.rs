use arena::ids::Id;
use arena::model::{
    GameBoardSize, GameType, MatchStatus, MatchStyle, RegistrationStatus, Tournament,
    TournamentMatch, TournamentStatus, TournamentVisibility,
};
use arena::rules::{
    can_register, can_view, is_tie_game, parse_board_size, parse_game_type, parse_watch_round,
    registrations_editable, round_label, should_refresh_tournament, validate_settings_update,
    validate_start, validate_tournament_params, win_count, MAX_DESCRIPTION_CHARS, MAX_NAME_CHARS,
    MAX_REQUIRED_PARTICIPANTS, MAX_SNAKES_PER_USER_LIMIT,
};
use arena::time::Timestamp;

fn new_id() -> Id {
    Id::from_u128(uuid::Uuid::new_v4().as_u128())
}

fn now() -> Timestamp {
    let t = chrono::Utc::now();
    Timestamp {
        secs: t.timestamp(),
        nanos: t.timestamp_subsec_nanos(),
    }
}

fn test_tournament(
    status: TournamentStatus,
    registration_status: RegistrationStatus,
    visibility: TournamentVisibility,
) -> Tournament {
    Tournament {
        tournament_id: new_id(),
        name: "Test Tournament".to_string(),
        description: None,
        user_id: new_id(),
        game_type: GameType::Standard,
        board_size: GameBoardSize::Medium,
        registration_status,
        visibility,
        status,
        match_style: MatchStyle::SingleGame,
        max_snakes_per_user: 1,
        required_participants: 2,
        current_round: 0,
        created_at: now(),
        updated_at: now(),
    }
}

fn test_match(status: MatchStatus) -> TournamentMatch {
    TournamentMatch {
        match_id: new_id(),
        tournament_id: new_id(),
        round: 1,
        position: 0,
        status,
        next_match_id: None,
        winner_id: None,
        visual_column: 0,
        visual_row: 0,
        created_at: now(),
        updated_at: now(),
    }
}

#[test]
fn tournament_refresh_follows_live_matches_and_watched_queue_gap() {
    let mut tournament = test_tournament(
        TournamentStatus::InProgress,
        RegistrationStatus::Closed,
        TournamentVisibility::Public,
    );
    tournament.current_round = 1;

    assert!(should_refresh_tournament(
        &tournament,
        &[test_match(MatchStatus::InProgress)],
        None
    ));
    assert!(should_refresh_tournament(
        &tournament,
        &[test_match(MatchStatus::Scheduled)],
        Some(1)
    ));
    assert!(!should_refresh_tournament(
        &tournament,
        &[test_match(MatchStatus::Scheduled)],
        None
    ));

    tournament.current_round = 2;
    assert!(!should_refresh_tournament(
        &tournament,
        &[test_match(MatchStatus::Scheduled)],
        Some(1)
    ));
}

#[test]
fn terminal_tournaments_never_refresh() {
    for status in [TournamentStatus::Completed, TournamentStatus::Canceled] {
        let tournament = test_tournament(
            status,
            RegistrationStatus::Closed,
            TournamentVisibility::Public,
        );
        assert!(!should_refresh_tournament(
            &tournament,
            &[test_match(MatchStatus::InProgress)],
            Some(tournament.current_round)
        ));
    }
}

#[test]
fn watch_round_parsing_is_lenient() {
    for value in ["", "alphabetic", "999999999999999999999"] {
        assert_eq!(parse_watch_round(Some(value)), None);
    }
    assert_eq!(parse_watch_round(Some("-1")), Some(-1));
    assert_eq!(parse_watch_round(Some("3")), Some(3));
    assert_eq!(parse_watch_round(None), None);
}

#[test]
fn watch_round_parsing_agrees_with_the_standard_parser() {
    for value in [
        "0", "-0", "+0", "+7", "-", "+", "--1", "+-1", " 1", "1 ", "007", "2147483647",
        "2147483648", "-2147483648", "-2147483649", "1_000", "0x10", "\u{0661}", "1.0",
        "00000000000000000000000000000000000000000000012",
    ] {
        assert_eq!(
            parse_watch_round(Some(value)),
            value.parse::<i32>().ok(),
            "{value}"
        );
    }
}

#[test]
fn registrations_editable_only_before_start() {
    assert!(registrations_editable(TournamentStatus::Created));
    assert!(registrations_editable(TournamentStatus::Registration));
    assert!(!registrations_editable(TournamentStatus::InProgress));
    assert!(!registrations_editable(TournamentStatus::Completed));
    assert!(!registrations_editable(TournamentStatus::Canceled));
}

#[test]
fn can_register_permission_matrix() {
    // (status, registration_status, visibility, is_owner, expected)
    let cases = [
        // Open + public: anyone, but only while created/registration
        (TournamentStatus::Created, RegistrationStatus::Open, TournamentVisibility::Public, false, true),
        (TournamentStatus::Created, RegistrationStatus::Open, TournamentVisibility::Public, true, true),
        (TournamentStatus::Registration, RegistrationStatus::Open, TournamentVisibility::Public, false, true),
        (TournamentStatus::Registration, RegistrationStatus::Open, TournamentVisibility::Public, true, true),
        (TournamentStatus::InProgress, RegistrationStatus::Open, TournamentVisibility::Public, false, false),
        (TournamentStatus::InProgress, RegistrationStatus::Open, TournamentVisibility::Public, true, false),
        (TournamentStatus::Completed, RegistrationStatus::Open, TournamentVisibility::Public, true, false),
        (TournamentStatus::Canceled, RegistrationStatus::Open, TournamentVisibility::Public, true, false),
        // OwnerOnly: only the owner, still gated by status
        (TournamentStatus::Created, RegistrationStatus::OwnerOnly, TournamentVisibility::Public, false, false),
        (TournamentStatus::Created, RegistrationStatus::OwnerOnly, TournamentVisibility::Public, true, true),
        (TournamentStatus::Registration, RegistrationStatus::OwnerOnly, TournamentVisibility::Public, false, false),
        (TournamentStatus::Registration, RegistrationStatus::OwnerOnly, TournamentVisibility::Public, true, true),
        (TournamentStatus::InProgress, RegistrationStatus::OwnerOnly, TournamentVisibility::Public, true, false),
        (TournamentStatus::Canceled, RegistrationStatus::OwnerOnly, TournamentVisibility::Public, true, false),
        // Closed: nobody, not even the owner
        (TournamentStatus::Created, RegistrationStatus::Closed, TournamentVisibility::Public, false, false),
        (TournamentStatus::Created, RegistrationStatus::Closed, TournamentVisibility::Public, true, false),
        (TournamentStatus::Registration, RegistrationStatus::Closed, TournamentVisibility::Public, false, false),
        (TournamentStatus::Registration, RegistrationStatus::Closed, TournamentVisibility::Public, true, false),
        (TournamentStatus::InProgress, RegistrationStatus::Closed, TournamentVisibility::Public, true, false),
        // ParticipantsOnly: only the owner may register snakes
        (TournamentStatus::Created, RegistrationStatus::Open, TournamentVisibility::ParticipantsOnly, false, false),
        (TournamentStatus::Created, RegistrationStatus::Open, TournamentVisibility::ParticipantsOnly, true, true),
        (TournamentStatus::Registration, RegistrationStatus::Open, TournamentVisibility::ParticipantsOnly, false, false),
        (TournamentStatus::Registration, RegistrationStatus::Open, TournamentVisibility::ParticipantsOnly, true, true),
        (TournamentStatus::Registration, RegistrationStatus::OwnerOnly, TournamentVisibility::ParticipantsOnly, false, false),
        (TournamentStatus::Registration, RegistrationStatus::OwnerOnly, TournamentVisibility::ParticipantsOnly, true, true),
        (TournamentStatus::Registration, RegistrationStatus::Closed, TournamentVisibility::ParticipantsOnly, false, false),
        (TournamentStatus::Registration, RegistrationStatus::Closed, TournamentVisibility::ParticipantsOnly, true, false),
        (TournamentStatus::InProgress, RegistrationStatus::Open, TournamentVisibility::ParticipantsOnly, true, false),
        (TournamentStatus::Canceled, RegistrationStatus::Open, TournamentVisibility::ParticipantsOnly, true, false),
    ];

    for (status, registration_status, visibility, is_owner, expected) in cases {
        let t = test_tournament(status, registration_status, visibility);
        assert_eq!(
            can_register(&t, is_owner),
            expected,
            "status={status:?} registration_status={registration_status:?} visibility={visibility:?} is_owner={is_owner}"
        );
    }
}

#[test]
fn can_view_public_tournaments() {
    let t = test_tournament(
        TournamentStatus::Created,
        RegistrationStatus::Open,
        TournamentVisibility::Public,
    );
    assert!(can_view(&t, None, &[]));
    assert!(can_view(&t, Some(new_id()), &[]));
}

#[test]
fn can_view_participants_only_tournaments() {
    let t = test_tournament(
        TournamentStatus::Created,
        RegistrationStatus::Open,
        TournamentVisibility::ParticipantsOnly,
    );
    let participant = new_id();
    let stranger = new_id();

    // Anonymous and non-participants are denied
    assert!(!can_view(&t, None, &[participant]));
    assert!(!can_view(&t, Some(stranger), &[participant]));

    // The owner and registered participants can view
    assert!(can_view(&t, Some(t.user_id), &[participant]));
    assert!(can_view(&t, Some(participant), &[participant]));
}

#[test]
fn validate_tournament_params_rules() {
    assert!(validate_tournament_params("Snake Cup", "", 2, 1).is_ok());
    assert!(validate_tournament_params("Snake Cup", "A fine cup", 8, 3).is_ok());

    assert!(validate_tournament_params("", "", 2, 1).is_err());
    assert!(validate_tournament_params("   ", "", 2, 1).is_err());
    assert!(validate_tournament_params("Snake Cup", "", 1, 1).is_err());
    assert!(validate_tournament_params("Snake Cup", "", 0, 1).is_err());
    assert!(validate_tournament_params("Snake Cup", "", 2, 0).is_err());
    assert!(validate_tournament_params("Snake Cup", "", 2, -1).is_err());
}

#[test]
fn validate_tournament_params_upper_limits() {
    let max_name = "n".repeat(MAX_NAME_CHARS);
    let max_description = "d".repeat(MAX_DESCRIPTION_CHARS);

    // At the limits: fine.
    assert!(
        validate_tournament_params(
            &max_name,
            &max_description,
            MAX_REQUIRED_PARTICIPANTS,
            MAX_SNAKES_PER_USER_LIMIT
        )
        .is_ok()
    );
    // Name is measured after trimming.
    assert!(validate_tournament_params(&format!("  {max_name}  "), "", 2, 1).is_ok());

    // One past each limit: refused.
    let long_name = "n".repeat(MAX_NAME_CHARS + 1);
    assert!(validate_tournament_params(&long_name, "", 2, 1).is_err());

    let long_description = "d".repeat(MAX_DESCRIPTION_CHARS + 1);
    assert!(validate_tournament_params("Snake Cup", &long_description, 2, 1).is_err());

    assert!(
        validate_tournament_params("Snake Cup", "", MAX_REQUIRED_PARTICIPANTS + 1, 1).is_err()
    );
    assert!(
        validate_tournament_params("Snake Cup", "", 2, MAX_SNAKES_PER_USER_LIMIT + 1).is_err()
    );
}

#[test]
fn parameter_refusals_name_the_limit() {
    let message = |name: &str, description: &str, required: i32, per_user: i32| {
        validate_tournament_params(name, description, required, per_user).unwrap_err()
    };
    assert_eq!(message("\u{2003}\t", "", 2, 1), "Tournament name cannot be empty");
    assert_eq!(
        message(&"é".repeat(129), "", 2, 1),
        "Tournament name must be at most 128 characters"
    );
    assert_eq!(
        message("x", &"é".repeat(4001), 2, 1),
        "Description must be at most 4000 characters"
    );
    assert_eq!(
        message("x", "", 129, 1),
        "Required participants must be between 2 and 128"
    );
    assert_eq!(
        message("x", "", 2, 33),
        "Max snakes per user must be between 1 and 32"
    );
    // Lengths are counted in characters, not bytes.
    assert!(validate_tournament_params(&"é".repeat(128), &"é".repeat(4000), 2, 1).is_ok());
}

#[test]
fn settings_update_blocked_after_start() {
    for status in [
        TournamentStatus::InProgress,
        TournamentStatus::Completed,
        TournamentStatus::Canceled,
    ] {
        let t = test_tournament(
            status,
            RegistrationStatus::Open,
            TournamentVisibility::Public,
        );
        assert!(
            validate_settings_update(&t, false, &t.game_type.clone(), &t.board_size.clone())
                .is_err(),
            "settings should be locked in status {status:?}"
        );
    }
}

#[test]
fn settings_update_freezes_game_config_once_registered() {
    let t = test_tournament(
        TournamentStatus::Registration,
        RegistrationStatus::Open,
        TournamentVisibility::Public,
    );

    // No registrations: everything editable
    assert!(validate_settings_update(&t, false, &GameType::Royale, &GameBoardSize::Large).is_ok());

    // With registrations: game_type/board_size are frozen
    assert!(validate_settings_update(&t, true, &GameType::Royale, &GameBoardSize::Medium).is_err());
    assert!(
        validate_settings_update(&t, true, &GameType::Standard, &GameBoardSize::Large).is_err()
    );

    // With registrations but unchanged game config: fine
    assert!(
        validate_settings_update(&t, true, &GameType::Standard, &GameBoardSize::Medium).is_ok()
    );
}

#[test]
fn parse_game_type_accepts_dropdown_values_only() {
    assert_eq!(parse_game_type("Standard").unwrap(), GameType::Standard);
    assert_eq!(parse_game_type("Royale").unwrap(), GameType::Royale);
    assert_eq!(
        parse_game_type("Constrictor").unwrap(),
        GameType::Constrictor
    );
    assert_eq!(parse_game_type("Snail Mode").unwrap(), GameType::SnailMode);
    assert!(parse_game_type("Solo").is_err());
    assert!(parse_game_type("Wrapped").is_err());
    assert!(parse_game_type("").is_err());
}

#[test]
fn parse_board_size_accepts_dropdown_values_only() {
    assert_eq!(parse_board_size("7x7").unwrap(), GameBoardSize::Small);
    assert_eq!(parse_board_size("11x11").unwrap(), GameBoardSize::Medium);
    assert_eq!(parse_board_size("19x19").unwrap(), GameBoardSize::Large);
    assert!(parse_board_size("25x25").is_err());
    assert!(parse_board_size("").is_err());
}

#[test]
fn form_value_refusals_quote_the_value() {
    assert_eq!(
        parse_game_type("Wrapped").unwrap_err(),
        "Invalid game type: Wrapped"
    );
    assert_eq!(
        parse_board_size("25x25").unwrap_err(),
        "Invalid board size: 25x25"
    );
}

#[test]
fn validate_start_requires_registration_status() {
    for status in [
        TournamentStatus::Created,
        TournamentStatus::InProgress,
        TournamentStatus::Completed,
        TournamentStatus::Canceled,
    ] {
        let t = test_tournament(
            status,
            RegistrationStatus::Open,
            TournamentVisibility::Public,
        );
        assert!(
            validate_start(&t, 8).is_err(),
            "start should be rejected from status {status:?}"
        );
    }

    let t = test_tournament(
        TournamentStatus::Registration,
        RegistrationStatus::Open,
        TournamentVisibility::Public,
    );
    assert!(validate_start(&t, 8).is_ok());
}

#[test]
fn validate_start_requires_enough_participants() {
    let mut t = test_tournament(
        TournamentStatus::Registration,
        RegistrationStatus::Open,
        TournamentVisibility::Public,
    );

    // required_participants = 2 (default)
    assert!(validate_start(&t, 0).is_err());
    assert!(validate_start(&t, 1).is_err());
    assert!(validate_start(&t, 2).is_ok());
    assert!(validate_start(&t, 3).is_ok());

    // Higher bar: must meet required_participants
    t.required_participants = 8;
    assert!(validate_start(&t, 7).is_err());
    assert!(validate_start(&t, 8).is_ok());
    assert!(validate_start(&t, 9).is_ok());

    // Degenerate config below 2 still needs 2 snakes for a bracket
    t.required_participants = 0;
    assert!(validate_start(&t, 1).is_err());
    assert!(validate_start(&t, 2).is_ok());
}

#[test]
fn start_refusals_say_what_is_missing() {
    let mut t = test_tournament(
        TournamentStatus::InProgress,
        RegistrationStatus::Open,
        TournamentVisibility::Public,
    );
    assert_eq!(
        validate_start(&t, 8).unwrap_err(),
        "Tournament cannot start from status 'in_progress'"
    );
    t.status = TournamentStatus::Registration;
    assert_eq!(
        validate_start(&t, -3).unwrap_err(),
        "At least 2 registered snakes are needed to start a tournament"
    );
    t.required_participants = 8;
    assert_eq!(
        validate_start(&t, 7).unwrap_err(),
        "Tournament requires 8 participants but only 7 are registered"
    );
}

#[test]
fn round_labels_name_the_final() {
    assert_eq!(round_label(1, 1), "Final"); // 2-snake tournament
    assert_eq!(round_label(1, 3), "Round 1");
    assert_eq!(round_label(2, 3), "Round 2");
    assert_eq!(round_label(3, 3), "Final");
}

#[test]
fn win_count_counts_only_the_participants_wins() {
    let a = new_id();
    let b = new_id();
    let winners = [Some(a), None, Some(b), Some(a)];

    assert_eq!(win_count(&winners, a), 2);
    assert_eq!(win_count(&winners, b), 1);
    assert_eq!(win_count(&winners, new_id()), 0);
    assert_eq!(win_count(&[], a), 0);
    assert_eq!(win_count(&[None, None], a), 0);
}

#[test]
fn tie_games_are_distinguished_from_in_flight_games() {
    let winner = Some(new_id());

    // A decided game is never a tie.
    assert!(!is_tie_game(winner, false, MatchStatus::InProgress));
    assert!(!is_tie_game(winner, true, MatchStatus::Completed));

    // No winner + a later game exists: this game finished as a tie.
    assert!(is_tie_game(None, true, MatchStatus::InProgress));

    // No winner on the last game: tie only if the match is over.
    assert!(!is_tie_game(None, false, MatchStatus::InProgress));
    assert!(!is_tie_game(None, false, MatchStatus::Scheduled));
    assert!(is_tie_game(None, false, MatchStatus::Completed));
}
