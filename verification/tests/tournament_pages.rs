use arena::bracket::{
    bracket_match_card, bracket_section, bracket_team_row, count_in_status, group_games,
    group_participants, is_drawable, total_rounds, BracketMatchView, Connector,
};
use arena::ids::Id;
use arena::model::{
    Battlesnake, BracketParticipant, GameBoardSize, GameType, Leaderboard, MatchGame,
    MatchStatus, MatchStyle, RegistrationDetails, RegistrationStatus, Tournament,
    TournamentListing, TournamentMatch, TournamentStatus, TournamentVisibility, User,
};
use arena::time::Timestamp;
use arena::tournament_forms::{edit_page, tournament_form_fields, Choice, FormLimits};
use arena::tournament_page::{
    list_tournaments, show_tournament, status_badge, style_label, tournament_page, ShowFacts,
    ShowStep,
};

const EPOCH: Timestamp = Timestamp { secs: 0, nanos: 0 };

fn id(n: u128) -> Id {
    Id::from_u128(n)
}

fn text(n: u128) -> String {
    uuid::Uuid::from_u128(n).to_string()
}

fn tournament(status: TournamentStatus) -> Tournament {
    Tournament {
        tournament_id: id(1),
        name: "Snake Cup".to_string(),
        description: Some("A fine cup".to_string()),
        user_id: id(2),
        game_type: GameType::Royale,
        board_size: GameBoardSize::Large,
        registration_status: RegistrationStatus::Open,
        visibility: TournamentVisibility::Public,
        status,
        match_style: MatchStyle::BestOf3,
        max_snakes_per_user: 2,
        required_participants: 4,
        current_round: 1,
        created_at: EPOCH,
        updated_at: EPOCH,
    }
}

fn a_match(n: u128, round: i32, position: i32, row: i32, status: MatchStatus) -> TournamentMatch {
    TournamentMatch {
        match_id: id(n),
        tournament_id: id(1),
        round,
        position,
        status,
        next_match_id: None,
        winner_id: None,
        visual_column: round - 1,
        visual_row: row,
        created_at: EPOCH,
        updated_at: EPOCH,
    }
}

fn side(match_id: u128, snake: Option<u128>, name: Option<&str>, color: &str) -> BracketParticipant {
    BracketParticipant {
        match_id: id(match_id),
        battlesnake_id: snake.map(id),
        snake_name: name.map(|n| n.to_string()),
        snake_color: Some(color.to_string()),
    }
}

fn game(match_id: u128, game_id: u128, number: i32, winner: Option<u128>) -> MatchGame {
    MatchGame {
        match_id: id(match_id),
        game_id: id(game_id),
        game_number: number,
        winner_id: winner.map(id),
    }
}

#[test]
fn rows_of_a_match_tell_winner_and_loser() {
    let mut m = a_match(10, 1, 0, 0, MatchStatus::Completed);
    m.winner_id = Some(id(50));
    let winners = [Some(id(50)), None, Some(id(51)), Some(id(50))];
    let row = bracket_team_row(&side(10, Some(50), Some("Ada"), "#fff"), &m, &winners, true);
    assert!(row.is_winner && !row.is_loser && !row.is_tbd);
    assert_eq!((row.name.as_str(), row.score.as_str()), ("Ada", "2"));
    assert_eq!(row.color.as_deref(), Some("#fff"));
    let row = bracket_team_row(&side(10, Some(51), Some("Bob"), ""), &m, &winners, true);
    assert!(!row.is_winner && row.is_loser);
    assert_eq!(row.score, "1");
    assert_eq!(row.color, None);
    let row = bracket_team_row(&side(10, Some(50), Some("Ada"), "#fff"), &m, &winners, false);
    assert_eq!(row.score, "✓");
    let row = bracket_team_row(&side(10, Some(51), None, "#fff"), &m, &winners, false);
    assert_eq!((row.name.as_str(), row.score.as_str()), ("TBD", "—"));
    let row = bracket_team_row(&side(10, None, None, ""), &m, &winners, true);
    assert!(row.is_tbd && !row.is_winner && !row.is_loser);
    assert_eq!(row.score, "—");
}

#[test]
fn cards_show_where_a_match_stands() {
    let m = a_match(10, 1, 2, 4, MatchStatus::InProgress);
    let sides = vec![
        side(10, Some(50), Some("Ada"), "#fff"),
        side(10, Some(51), Some("Bob"), "#000"),
    ];
    let games = vec![game(10, 70, 1, None), game(10, 71, 2, None)];
    let view = BracketMatchView {
        tournament_match: &m,
        participants: &sides,
        games: &games,
    };
    let card = bracket_match_card(&view, MatchStyle::BestOf3, 2);
    assert!(card.live && !card.bye);
    assert_eq!((card.column, card.row, card.row_end), (1, 5, 7));
    assert_eq!(card.tag, "R1 · M3 · live · game 2");
    assert_eq!(card.theater, Some(format!("/games/{}", text(71))));
    let links: Vec<(String, String)> = card.games.into_iter().map(|g| (g.href, g.text)).collect();
    assert_eq!(
        links,
        vec![
            (format!("/games/{}", text(70)), "Game 1 (tie)".to_string()),
            (format!("/games/{}", text(71)), "Game 2".to_string()),
        ]
    );
    assert_eq!(card.teams[0].score, "0");

    let mut bye = a_match(11, 1, 0, 0, MatchStatus::Scheduled);
    let view = BracketMatchView {
        tournament_match: &bye,
        participants: &sides[..1],
        games: &[],
    };
    let card = bracket_match_card(&view, MatchStyle::SingleGame, 2);
    assert!(card.bye && card.theater.is_none() && card.games.is_empty());
    assert_eq!(card.tag, "R1 · M1 · bye");
    bye.round = 2;
    let view = BracketMatchView {
        tournament_match: &bye,
        participants: &sides[..1],
        games: &[],
    };
    let card = bracket_match_card(&view, MatchStyle::SingleGame, 2);
    assert!(!card.bye);
    assert_eq!(card.tag, "Final · scheduled");
    for (status, label) in [
        (MatchStatus::Completed, "Final · done"),
        (MatchStatus::Canceled, "Final · canceled"),
        (MatchStatus::InProgress, "Final · live"),
    ] {
        bye.status = status;
        let view = BracketMatchView {
            tournament_match: &bye,
            participants: &[],
            games: &[],
        };
        assert_eq!(bracket_match_card(&view, MatchStyle::SingleGame, 2).tag, label);
    }
}

fn four_snakes() -> (Vec<TournamentMatch>, Vec<BracketParticipant>) {
    let mut last = a_match(12, 2, 0, 1, MatchStatus::Completed);
    last.winner_id = Some(id(52));
    let matches = vec![
        a_match(10, 1, 0, 0, MatchStatus::Completed),
        a_match(11, 1, 1, 2, MatchStatus::Completed),
        last,
    ];
    let sides = vec![
        side(10, Some(50), Some("Ada"), "#a"),
        side(11, Some(52), Some("Cyd"), "#c"),
        side(10, Some(51), Some("Bob"), "#b"),
        side(12, Some(50), Some("Ada"), "#a"),
        side(12, Some(52), Some("Cyd"), "#c"),
    ];
    (matches, sides)
}

#[test]
fn brackets_are_drawn_on_a_grid() {
    let (matches, sides) = four_snakes();
    assert_eq!(total_rounds(&matches), 2);
    assert_eq!(count_in_status(&matches, MatchStatus::Completed), 3);
    assert_eq!(count_in_status(&matches, MatchStatus::Scheduled), 0);
    let by_match = group_participants(sides);
    let games = group_games(vec![game(12, 70, 1, Some(52))]);
    let t = tournament(TournamentStatus::Completed);
    let bracket = bracket_section(&t, &matches, &by_match, &games).unwrap();
    assert_eq!(bracket.note, "3 of 3 matches played · 2 rounds");
    assert_eq!(bracket.min_width, 646);
    assert_eq!(bracket.rows, 4);
    assert_eq!((bracket.champion_line_column, bracket.champion_column), (4, 5));
    assert_eq!(
        bracket.columns,
        "minmax(210px, 1fr) 28px minmax(210px, 1fr) 28px minmax(170px, 1fr)"
    );
    let headings: Vec<(i32, String)> = bracket
        .headings
        .into_iter()
        .map(|h| (h.column, h.label))
        .collect();
    assert_eq!(
        headings,
        vec![(1, "Round 1".to_string()), (3, "Final".to_string())]
    );
    assert_eq!(bracket.matches.len(), 3);
    assert_eq!(bracket.matches[0].card.teams.len(), 2);
    assert_eq!(bracket.matches[0].card.teams[1].name, "Bob");
    assert_eq!(bracket.matches[0].connector, None);
    assert_eq!(
        bracket.matches[2].connector,
        Some(Connector { column: 2, row: 2, row_end: 4 })
    );
    assert_eq!(bracket.matches[2].card.games.len(), 1);
    let slot = bracket.champion_slot.unwrap();
    assert_eq!((slot.row, slot.row_end), (2, 4));
    let champion = slot.champion.unwrap();
    assert_eq!(champion.name, "Cyd");
    assert_eq!(champion.color.as_deref(), Some("#c"));
}

#[test]
fn only_a_completed_tournament_has_a_champion() {
    let (matches, sides) = four_snakes();
    let games = group_games(vec![]);
    let by_match = group_participants(sides);
    let t = tournament(TournamentStatus::InProgress);
    let bracket = bracket_section(&t, &matches, &by_match, &games).unwrap();
    assert!(bracket.champion_slot.unwrap().champion.is_none());
    // A champion whose snake is gone keeps the slot.
    let t = tournament(TournamentStatus::Completed);
    let bracket = bracket_section(&t, &matches, &group_participants(vec![]), &games).unwrap();
    let champion = bracket.champion_slot.unwrap().champion.unwrap();
    assert_eq!(champion.name, "(deleted snake)");
    assert_eq!(champion.color, None);
    let nameless = group_participants(vec![side(12, Some(52), None, "")]);
    let bracket = bracket_section(&t, &matches, &nameless, &games).unwrap();
    let champion = bracket.champion_slot.unwrap().champion.unwrap();
    assert_eq!(champion.name, "(deleted snake)");
}

#[test]
fn brackets_without_matches_or_feeders() {
    let t = tournament(TournamentStatus::InProgress);
    let none = group_participants(vec![]);
    let games = group_games(vec![]);
    assert!(bracket_section(&t, &[], &none, &games).is_none());
    let lonely = [a_match(10, 1, 0, 0, MatchStatus::Scheduled)];
    let bracket = bracket_section(&t, &lonely, &none, &games).unwrap();
    assert_eq!(bracket.note, "0 of 1 matches played · 1 round");
    assert_eq!(bracket.rows, 2);
    // Without both feeders there is no connector; of two matches at one place
    // the later one is the feeder.
    let odd = [
        a_match(10, 1, 0, 0, MatchStatus::Scheduled),
        a_match(11, 2, 0, 1, MatchStatus::Scheduled),
    ];
    let bracket = bracket_section(&t, &odd, &none, &games).unwrap();
    assert_eq!(bracket.matches[1].connector, None);
    let twice = [
        a_match(10, 1, 0, 0, MatchStatus::Scheduled),
        a_match(11, 1, 0, 8, MatchStatus::Scheduled),
        a_match(12, 1, 1, 2, MatchStatus::Scheduled),
        a_match(13, 2, 0, 1, MatchStatus::Scheduled),
    ];
    let bracket = bracket_section(&t, &twice, &none, &games).unwrap();
    assert_eq!(
        bracket.matches[3].connector,
        Some(Connector { column: 2, row: 10, row_end: 4 })
    );
    let deep = [a_match(10, 31, 0, 0, MatchStatus::Scheduled)];
    let bracket = bracket_section(&t, &deep, &none, &games).unwrap();
    assert_eq!(bracket.rows, 1_i64 << 31);
    let deep = [a_match(10, 30, 0, 0, MatchStatus::Scheduled)];
    assert_eq!(
        bracket_section(&t, &deep, &none, &games).unwrap().rows,
        1 << 30
    );
}

fn selected(choices: &[Choice]) -> Vec<&str> {
    choices
        .iter()
        .filter(|c| c.selected)
        .map(|c| c.value.as_str())
        .collect()
}

#[test]
fn forms_start_blank_or_with_the_current_settings() {
    let blank = tournament_form_fields(None);
    assert_eq!((blank.name.as_str(), blank.description.as_str()), ("", ""));
    assert_eq!(selected(&blank.game_types), vec!["Standard"]);
    assert_eq!(selected(&blank.board_sizes), vec!["11x11"]);
    assert_eq!(selected(&blank.match_styles), vec!["single_game"]);
    assert_eq!(selected(&blank.registration_statuses), vec!["open"]);
    assert_eq!(selected(&blank.visibilities), vec!["public"]);
    assert_eq!((blank.max_snakes_per_user, blank.required_participants), (1, 2));
    let limits = FormLimits {
        name_chars: 128,
        description_chars: 4000,
        min_snakes_per_user: 1,
        max_snakes_per_user: 32,
        min_required_participants: 2,
        max_required_participants: 128,
    };
    assert_eq!(blank.limits, limits);

    let t = tournament(TournamentStatus::Created);
    let filled = tournament_form_fields(Some(&t));
    assert_eq!(filled.name, "Snake Cup");
    assert_eq!(filled.description, "A fine cup");
    assert_eq!(selected(&filled.game_types), vec!["Royale"]);
    assert_eq!(selected(&filled.board_sizes), vec!["19x19"]);
    assert_eq!(selected(&filled.match_styles), vec!["best_of_3"]);
    let labels: Vec<&str> = filled.board_sizes.iter().map(|c| c.label.as_str()).collect();
    assert_eq!(labels, vec!["7x7 (Small)", "11x11 (Medium)", "19x19 (Large)"]);
    assert_eq!((filled.max_snakes_per_user, filled.required_participants), (2, 4));
    assert_eq!(filled.limits, limits);

    let mut odd = tournament(TournamentStatus::Created);
    odd.game_type = GameType::Custom("Wrapped".to_string());
    odd.description = None;
    let filled = tournament_form_fields(Some(&odd));
    assert!(selected(&filled.game_types).is_empty());
    assert_eq!(filled.description, "");
}

#[test]
fn the_settings_page_warns_once_snakes_are_registered() {
    let t = tournament(TournamentStatus::Created);
    let page = edit_page(id(1), &t, 0);
    assert_eq!(page.title, "Edit Tournament: Snake Cup");
    assert_eq!(page.detail_url, format!("/tournaments/{}", text(1)));
    assert_eq!(page.action, format!("/tournaments/{}/settings", text(1)));
    assert_eq!(page.note, None);
    assert_eq!(
        edit_page(id(1), &t, 3).note.as_deref(),
        Some("3 snake(s) are registered — game type and board size can no longer be changed.")
    );
}

#[test]
fn the_list_shows_tournaments_or_where_else_to_go() {
    let listing = TournamentListing {
        tournament_id: id(1),
        name: "Snake Cup".to_string(),
        owner_login: "ada".to_string(),
        status: TournamentStatus::Registration,
        registration_count: 7,
        game_type: GameType::SnailMode,
        created_at: EPOCH,
    };
    let list = list_tournaments(Some(id(2)), &[listing]);
    assert!(list.can_create && list.instead.is_none());
    let row = &list.rows[0];
    assert_eq!(row.href, format!("/tournaments/{}", text(1)));
    assert_eq!(row.owner, "by ada");
    assert_eq!(row.badge.class, "badge ok");
    assert_eq!(row.badge.label, "Registration open");
    assert_eq!((row.snakes.as_str(), row.game.as_str()), ("7", "Snail Mode"));
    assert_eq!(row.created, "Jan 1, 1970");

    let list = list_tournaments(Some(id(2)), &[]);
    assert_eq!(
        list.instead,
        Some((
            "/tournaments/new".to_string(),
            "Create the First Tournament".to_string()
        ))
    );
    let list = list_tournaments(None, &[]);
    assert!(!list.can_create);
    assert_eq!(
        list.instead,
        Some(("/leaderboards".to_string(), "Watch the Leaderboards".to_string()))
    );
}

#[test]
fn badges_and_styles_have_names() {
    for (status, class, label) in [
        (TournamentStatus::Created, "badge", "Draft"),
        (TournamentStatus::Registration, "badge ok", "Registration open"),
        (TournamentStatus::InProgress, "badge live", "In progress"),
        (TournamentStatus::Completed, "badge", "Completed"),
        (TournamentStatus::Canceled, "badge", "Canceled"),
    ] {
        let badge = status_badge(status);
        assert_eq!((badge.class.as_str(), badge.label.as_str()), (class, label));
    }
    assert_eq!(style_label(MatchStyle::SingleGame), "Single game");
    assert_eq!(style_label(MatchStyle::BestOf3), "Best of 3");
    assert_eq!(style_label(MatchStyle::FirstTo3), "First to 3");
}

fn details(n: u128, user: u128, snake: u128, seed: i32) -> RegistrationDetails {
    RegistrationDetails {
        registration_id: id(n),
        battlesnake_id: id(snake),
        user_id: id(user),
        seed,
        snake_name: format!("snake-{snake}"),
        snake_color: "#123456".to_string(),
        owner_login: format!("user-{user}"),
    }
}

fn snake(n: u128, user: u128) -> Battlesnake {
    Battlesnake {
        battlesnake_id: id(n),
        user_id: id(user),
        name: format!("snake-{n}"),
        color: "#123456".to_string(),
    }
}

fn no_facts() -> ShowFacts {
    ShowFacts {
        tournament: None,
        registrations: None,
        owner: None,
        viewer_snakes: None,
        leaderboards: None,
        matches: None,
        participants: None,
        games: None,
        can_cancel: None,
    }
}

fn owner() -> User {
    User {
        user_id: id(2),
        github_login: "ada".to_string(),
        github_avatar_url: None,
        display_name: None,
        site_theme: "light".to_string(),
        theater_theme: "dark".to_string(),
    }
}

/// Reads everything that the page asks for, and says in which order.
fn read(viewer: Option<Id>, t: &Tournament, registrations: &[RegistrationDetails]) -> (ShowFacts, Vec<String>) {
    let mut facts = no_facts();
    let mut asked = vec![];
    loop {
        let step = show_tournament(t.tournament_id, viewer, &facts);
        asked.push(format!("{step:?}").split([' ', '{']).next().unwrap().to_string());
        match step {
            ShowStep::LoadTournament { tournament_id } => {
                assert_eq!(tournament_id, t.tournament_id);
                facts.tournament = Some(Some(t.clone()));
            }
            ShowStep::LoadRegistrations => facts.registrations = Some(registrations.to_vec()),
            ShowStep::LoadOwner { user_id } => {
                assert_eq!(user_id, t.user_id);
                facts.owner = Some(Some(owner()));
            }
            ShowStep::LoadSnakes { user_id } => {
                assert_eq!(Some(user_id), viewer);
                facts.viewer_snakes = Some(vec![snake(30, 2), snake(31, 2)]);
            }
            ShowStep::LoadLeaderboards => {
                facts.leaderboards = Some(vec![Leaderboard {
                    leaderboard_id: id(90),
                    name: "Standard".to_string(),
                    disabled_at: None,
                }]);
            }
            ShowStep::LoadMatches => facts.matches = Some(four_snakes().0),
            ShowStep::LoadParticipants => facts.participants = Some(four_snakes().1),
            ShowStep::LoadGames => facts.games = Some(vec![]),
            ShowStep::CheckTransition { from, to } => {
                assert_eq!((from, to), (t.status, TournamentStatus::Canceled));
                facts.can_cancel = Some(true);
            }
            ShowStep::NotFound { .. } | ShowStep::Render => return (facts, asked),
        }
    }
}

#[test]
fn the_owner_sees_controls_before_the_start() {
    let t = tournament(TournamentStatus::Registration);
    let registrations = vec![details(40, 2, 30, 1), details(41, 3, 33, 12)];
    let (facts, asked) = read(Some(id(2)), &t, &registrations);
    assert_eq!(
        asked,
        vec![
            "LoadTournament",
            "LoadRegistrations",
            "LoadOwner",
            "LoadSnakes",
            "LoadLeaderboards",
            "CheckTransition",
            "Render"
        ]
    );
    let page = tournament_page(Some(id(2)), None, facts);
    assert_eq!(page.title, "Tournament: Snake Cup");
    assert_eq!(page.url, format!("/tournaments/{}", text(1)));
    assert_eq!(page.subtitle, "by ada · Royale · 19x19 · Best of 3");
    assert_eq!(page.format, "Best of 3 · 19x19 Royale");
    assert_eq!(page.round_pill, None);
    assert_eq!(page.refresh_key, None);
    assert_eq!(page.badge.label, "Registration open");
    assert_eq!(page.description.as_deref(), Some("A fine cup"));
    assert_eq!(page.registered.value, "2");
    assert_eq!(page.registered.note.as_deref(), Some("of 4 needed"));
    assert_eq!((page.rounds.value.as_str(), page.played.value.as_str()), ("—", "—"));
    assert!(page.bracket.is_none() && page.show_actions);
    assert_eq!(page.max_seed, 2);
    assert_eq!(page.rows[0].seed_label, "01");
    assert_eq!(page.rows[1].seed_label, "12");
    assert_eq!(page.rows[1].href, format!("/battlesnakes/{}/profile", text(33)));
    assert_eq!(page.rows[1].owner, "by user-3");
    assert!(page.rows.iter().all(|r| r.can_move && r.can_unregister));
    let controls = page.controls.unwrap();
    assert!(controls.start && controls.edit && controls.cancel);
    assert!(!controls.open_registration && !controls.reset && controls.run_round.is_none());
    assert_eq!(page.imports.len(), 1);
    assert_eq!(page.imports[0].value, text(90));
    // One snake is registered already; the owner is under the limit of two.
    let offered: Vec<&str> = page.registerable.iter().map(|c| c.label.as_str()).collect();
    assert_eq!(offered, vec!["snake-31"]);
    assert_eq!(page.details.registration, "open");
    assert_eq!(page.details.visibility, "public");
    assert_eq!(page.details.created, "Jan 1, 1970");
}

#[test]
fn others_may_only_remove_their_own_snakes() {
    let t = tournament(TournamentStatus::Registration);
    let registrations = vec![details(40, 2, 30, 1), details(41, 3, 33, 2), details(42, 3, 34, 3)];
    let (facts, asked) = read(Some(id(3)), &t, &registrations);
    // At the limit: no snakes are asked for.
    assert_eq!(
        asked,
        vec!["LoadTournament", "LoadRegistrations", "LoadOwner", "Render"]
    );
    let page = tournament_page(Some(id(3)), None, facts);
    assert!(page.controls.is_none() && page.imports.is_empty() && page.registerable.is_empty());
    let may: Vec<(bool, bool)> = page.rows.iter().map(|r| (r.can_move, r.can_unregister)).collect();
    assert_eq!(may, vec![(false, false), (false, true), (false, true)]);

    let (facts, _) = read(None, &t, &registrations);
    let page = tournament_page(None, None, facts);
    assert!(!page.show_actions);
    assert!(page.rows.iter().all(|r| !r.can_move && !r.can_unregister));
}

#[test]
fn running_tournaments_show_their_bracket_and_refresh() {
    let mut t = tournament(TournamentStatus::InProgress);
    t.current_round = 2;
    let (facts, asked) = read(Some(id(2)), &t, &[]);
    assert_eq!(
        asked,
        vec![
            "LoadTournament",
            "LoadRegistrations",
            "LoadOwner",
            "LoadMatches",
            "LoadParticipants",
            "LoadGames",
            "CheckTransition",
            "Render"
        ]
    );
    let page = tournament_page(Some(id(2)), Some(2), facts);
    assert_eq!(page.round_pill.as_deref(), Some("LIVE · ROUND 2 OF 2"));
    assert_eq!(page.refresh_key.as_deref(), Some("tournament:2:0:0:3:0"));
    assert_eq!(page.rounds.value, "2");
    assert_eq!(page.played.value, "3");
    assert!(page.played.live);
    assert_eq!(page.played.note.as_deref(), Some("of 3"));
    assert_eq!(page.registered.note, None);
    assert_eq!(page.bracket.unwrap().matches.len(), 3);
    let controls = page.controls.unwrap();
    assert_eq!(controls.run_round.as_deref(), Some("Run Round 2"));
    assert!(controls.reset && !controls.edit && !controls.start);
    // Nothing live and nothing watched: no refresh.
    let (facts, _) = read(None, &t, &[]);
    assert_eq!(tournament_page(None, Some(1), facts).refresh_key, None);
}

#[test]
fn outsiders_get_no_page_of_a_hidden_tournament() {
    let mut t = tournament(TournamentStatus::Registration);
    t.visibility = TournamentVisibility::ParticipantsOnly;
    let registrations = vec![details(41, 3, 33, 1)];
    for (viewer, seen) in [
        (None, false),
        (Some(id(9)), false),
        (Some(id(3)), true),
        (Some(id(2)), true),
    ] {
        let (_, asked) = read(viewer, &t, &registrations);
        assert_eq!(
            asked.last().map(String::as_str),
            Some(if seen { "Render" } else { "NotFound" })
        );
    }
    let mut facts = no_facts();
    facts.tournament = Some(None);
    assert!(matches!(
        show_tournament(id(1), None, &facts),
        ShowStep::NotFound { message } if message == "Tournament not found"
    ));
}

#[test]
fn a_missing_owner_is_unknown() {
    let t = tournament(TournamentStatus::Canceled);
    let (mut facts, _) = read(None, &t, &[]);
    facts.owner = Some(None);
    let page = tournament_page(None, None, facts);
    assert_eq!(page.subtitle, "by Unknown · Royale · 19x19 · Best of 3");
}

#[test]
fn brackets_are_drawable_within_limits() {
    let (mut matches, _) = four_snakes();
    assert!(is_drawable(&matches));
    assert!(is_drawable(&[]));
    matches[2].round = 32;
    assert!(!is_drawable(&matches));
    matches[2].round = 2;
    matches[0].visual_row = i32::MAX - 2;
    assert!(!is_drawable(&matches));
    matches[0].visual_row = i32::MAX - 3;
    assert!(is_drawable(&matches));
    matches[2].position = 1 << 30;
    assert!(!is_drawable(&matches));
}
