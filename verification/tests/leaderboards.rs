use arena::entry_page::{
    entry_page, group_opponents, is_history_dated, medal_text, place_text, show_leaderboard_entry, EntryFacts,
    EntryStep,
};
use arena::flow::FlashKind;
use arena::forms::{JoinLeaveForm, LeaveForm};
use arena::ids::Id;
use arena::leaderboard_page::{
    active_algorithm, is_ladder_ready, leaderboard_page, leaderboard_page_at, list_leaderboards, next_run_text,
    ordinal, show_leaderboard, LadderFacts, LadderRules, LadderStep, MineState,
};
use arena::membership::{
    join_leaderboard, leave_leaderboard, leave_leaderboard_at, MemberFacts, MemberStep,
};
use arena::model::{
    ActivityEvent, Battlesnake, GameOpponent, Leaderboard, LeaderboardEntry, LeaderboardSort,
    LeaderboardStatus, PlayedGame, RankedEntry, TopEater, User,
};
use arena::paging::{page_count, shown_page};
use arena::time::Timestamp;

const EPOCH: Timestamp = Timestamp { secs: 0, nanos: 0 };

fn id(n: u128) -> Id {
    Id::from_u128(n)
}

fn text(n: u128) -> String {
    uuid::Uuid::from_u128(n).to_string()
}

fn at(secs: i64) -> Timestamp {
    Timestamp { secs, nanos: 0 }
}

fn rules() -> LadderRules {
    LadderRules {
        min_games_for_ranking: 10,
        min_match_size: 4,
        matchmaker_interval_secs: 300,
        disabled_reason_health: "health".to_string(),
    }
}

fn board(n: u128, name: &str) -> Leaderboard {
    Leaderboard {
        leaderboard_id: id(n),
        name: name.to_string(),
        disabled_at: None,
    }
}

fn ranked(n: u128, user: u128) -> RankedEntry {
    RankedEntry {
        leaderboard_entry_id: id(1000 + n),
        battlesnake_id: id(n),
        user_id: id(user),
        games_played: 50,
        first_place_finishes: 10,
        non_first_finishes: 40,
        snake_name: format!("snake-{n}"),
        snake_color: "#888888".to_string(),
        owner_login: format!("user-{user}"),
    }
}

fn snake(n: u128, user: u128) -> Battlesnake {
    Battlesnake {
        battlesnake_id: id(n),
        user_id: id(user),
        name: format!("snake-{n}"),
        color: "#abcdef".to_string(),
    }
}

fn entry(n: u128, ladder: u128, snake: u128) -> LeaderboardEntry {
    LeaderboardEntry {
        leaderboard_entry_id: id(n),
        leaderboard_id: id(ladder),
        battlesnake_id: id(snake),
        games_played: 7,
        first_place_finishes: 2,
        disabled_at: None,
        disabled_reason: None,
    }
}

#[test]
fn pages_are_counted_and_clamped() {
    for (total, pages) in [(-3, 1), (0, 1), (1, 1), (50, 1), (51, 2), (100, 2), (101, 3)] {
        assert_eq!(page_count(total, 50), pages);
    }
    assert_eq!(page_count(i64::MAX - 50, 50), i64::MAX / 50);
    for (asked, shown) in [
        (None, 0),
        (Some(0), 0),
        (Some(2), 2),
        (Some(3), 2),
        (Some(i64::MAX), 2),
        (Some(-1), 0),
        (Some(i64::MIN), 0),
    ] {
        assert_eq!(shown_page(asked, 3), shown);
    }
}

#[test]
fn the_list_tells_which_leaderboards_are_active() {
    let mut old = board(2, "Old");
    old.disabled_at = Some(EPOCH);
    let rows = list_leaderboards(&[board(1, "Standard"), old]);
    assert_eq!(rows[0].href, format!("/leaderboards/{}", text(1)));
    assert!(rows[0].active && !rows[1].active);
    assert_eq!(rows[1].name, "Old");
    assert!(list_leaderboards(&[]).is_empty());
}

#[test]
fn places_have_words_and_medals() {
    for (n, word, badge, medal) in [
        (1, "1st", "🥇 1st", "🥇"),
        (2, "2nd", "🥈 2nd", "🥈"),
        (3, "3rd", "🥉 3rd", "🥉"),
        (4, "4th", "4th", "▪️"),
        (0, "0th", "0th", "▪️"),
    ] {
        assert_eq!(ordinal(n), word);
        assert_eq!(place_text(n), badge);
        assert_eq!(medal_text(n), medal);
    }
    assert_eq!(active_algorithm(LeaderboardSort::Rating), "weng_lin");
    assert_eq!(active_algorithm(LeaderboardSort::FoodEaten), "food_eaten");
}

#[test]
fn the_next_run_is_told_or_what_it_waits_for() {
    assert_eq!(
        next_run_text(&rules(), 3, Some(at(0)), at(0)),
        "waiting for at least 4 healthy snakes (3 enabled)"
    );
    assert_eq!(next_run_text(&rules(), 4, None, at(0)), "waiting for first games");
    assert_eq!(next_run_text(&rules(), 4, Some(at(0)), at(0)), "in 5 minutes");
    assert_eq!(next_run_text(&rules(), 9, Some(at(0)), at(600)), "5 minutes ago");
}

fn ladder_facts() -> LadderFacts {
    LadderFacts {
        leaderboard: None,
        leaderboards: None,
        total_ranked: None,
        ranked: None,
        placement: None,
        status: None,
        activity: None,
        eaters: None,
        snakes: None,
        entries: None,
        active_entries: None,
        tags: false,
        scores: false,
    }
}

/// Reads everything that the page asks for, and says in which order.
fn read_ladder(
    viewer: Option<Id>,
    asked: Option<i64>,
    sort: LeaderboardSort,
) -> (LadderFacts, Vec<String>) {
    let mut facts = ladder_facts();
    let mut steps = vec![];
    loop {
        let step = show_leaderboard(id(1), viewer, asked, sort, &facts);
        steps.push(format!("{step:?}").split([' ', '{']).next().unwrap().to_string());
        match step {
            LadderStep::LoadLeaderboard { leaderboard_id } => {
                assert_eq!(leaderboard_id, id(1));
                facts.leaderboard = Some(Some(board(1, "Standard")));
            }
            LadderStep::LoadLeaderboards => {
                facts.leaderboards = Some(vec![board(1, "Standard"), board(2, "Duels")]);
            }
            LadderStep::CountRanked => facts.total_ranked = Some(120),
            LadderStep::LoadRanked {
                page,
                per_page,
                sort: by,
            } => {
                assert_eq!(by, sort);
                assert_eq!(per_page, 50);
                let from = page as u128 * 50;
                let to = (from + 50).min(120);
                facts.ranked = Some((from..to).map(|n| ranked(n, 500 + n)).collect());
            }
            LadderStep::LoadPlacement => facts.placement = Some(vec![ranked(300, 7)]),
            LadderStep::LoadStatus => {
                facts.status = Some(LeaderboardStatus {
                    total_games: 99,
                    games_in_progress: 2,
                    last_game_created_at: Some(at(1000)),
                });
            }
            LadderStep::LoadActivity { limit } => {
                assert_eq!(limit, 8);
                facts.activity = Some(vec![ActivityEvent {
                    leaderboard_entry_id: id(1005),
                    snake_name: "snake-5".to_string(),
                    placement: 2,
                    created_at: at(880),
                }]);
            }
            LadderStep::LoadTopEaters { limit } => {
                assert_eq!(limit, 3);
                facts.eaters = Some(vec![TopEater {
                    leaderboard_entry_id: id(1006),
                    snake_name: "snake-6".to_string(),
                    owner_login: "user-506".to_string(),
                    food_score: 321,
                }]);
            }
            LadderStep::LoadSnakes { user_id } => {
                assert_eq!(Some(user_id), viewer);
                facts.snakes = Some(vec![snake(51, 551), snake(60, 551)]);
            }
            LadderStep::LoadEntries { user_id } => {
                assert_eq!(Some(user_id), viewer);
                let mut paused = entry(2001, 1, 60);
                paused.disabled_at = Some(EPOCH);
                let mut sick = entry(2002, 1, 51);
                sick.disabled_at = Some(EPOCH);
                sick.disabled_reason = Some("health".to_string());
                facts.entries = Some(vec![
                    entry(2000, 1, 51),
                    entry(2003, 1, 9999),
                    paused,
                    sick,
                ]);
            }
            LadderStep::CountActive => facts.active_entries = Some(20),
            LadderStep::LoadTags { battlesnake_ids } => {
                let ranked = facts.ranked.as_ref().unwrap();
                assert_eq!(battlesnake_ids.len(), ranked.len() + 1);
                assert_eq!(battlesnake_ids[0], ranked[0].battlesnake_id);
                assert_eq!(battlesnake_ids[ranked.len()], id(300));
                facts.tags = true;
            }
            LadderStep::LoadScores { entry_ids } => {
                assert_eq!(entry_ids.last(), Some(&id(1300)));
                facts.scores = true;
            }
            LadderStep::NotFound { .. } | LadderStep::Render => return (facts, steps),
        }
    }
}

#[test]
fn everything_is_read_in_order() {
    let (_, steps) = read_ladder(None, None, LeaderboardSort::Rating);
    assert_eq!(
        steps,
        vec![
            "LoadLeaderboard",
            "LoadLeaderboards",
            "CountRanked",
            "LoadRanked",
            "LoadPlacement",
            "LoadStatus",
            "LoadActivity",
            "LoadTopEaters",
            "CountActive",
            "LoadTags",
            "LoadScores",
            "Render"
        ]
    );
    let (_, steps) = read_ladder(Some(id(551)), None, LeaderboardSort::Rating);
    assert_eq!(steps[8], "LoadSnakes");
    assert_eq!(steps[9], "LoadEntries");
    let mut facts = ladder_facts();
    facts.leaderboard = Some(None);
    assert!(matches!(
        show_leaderboard(id(1), None, None, LeaderboardSort::Rating, &facts),
        LadderStep::NotFound { message } if message == "Leaderboard not found"
    ));
}

#[test]
fn a_page_of_the_ranking_counts_on() {
    let viewer = Some(id(551));
    let (facts, _) = read_ladder(viewer, Some(1), LeaderboardSort::FoodEaten);
    let page = leaderboard_page_at(
        id(1),
        viewer,
        Some(1),
        LeaderboardSort::FoodEaten,
        &rules(),
        &facts,
        at(1000),
    );
    let url = format!("/leaderboards/{}", text(1));
    assert_eq!(page.title, "Standard");
    assert_eq!(page.url, url);
    assert_eq!(
        page.description,
        "Standard leaderboard on Battlesnake Arena — 120 ranked snakes, 99 games played."
    );
    let modes: Vec<(String, Option<String>)> =
        page.modes.into_iter().map(|m| (m.name, m.href)).collect();
    assert_eq!(
        modes,
        vec![
            ("Standard".to_string(), None),
            ("Duels".to_string(), Some(format!("/leaderboards/{}", text(2)))),
        ]
    );
    assert_eq!(page.next_run, "in 5 minutes");
    assert_eq!(page.refresh_key.as_deref(), Some("leaderboard:99:2:1000"));
    let sorts: Vec<(String, Option<String>)> =
        page.sorts.into_iter().map(|m| (m.name, m.href)).collect();
    assert_eq!(
        sorts,
        vec![
            ("Rating".to_string(), Some(format!("{url}?sort=rating"))),
            ("Food eaten".to_string(), None),
        ]
    );
    assert_eq!(page.active_algorithm, "food_eaten");
    assert_eq!(page.rows.len(), 50);
    assert_eq!(page.rows[0].rank, "51");
    assert_eq!(page.rows[49].rank, "100");
    assert!(!page.rows[0].top && !page.rows[0].you);
    assert!(page.rows[1].you);
    assert_eq!(page.rows[0].href, format!("{url}/entries/{}", text(1050)));
    assert_eq!(page.rows[0].owner_href, "/users/user-550");
    assert_eq!(
        page.pager.previous,
        Some(format!("{url}?sort=food_eaten&page=0"))
    );
    assert_eq!(page.pager.position.as_deref(), Some("Page 2 of 3"));
    assert_eq!(page.pager.next, Some(format!("{url}?sort=food_eaten&page=2")));
    assert_eq!(page.showing, "Showing 51–100 of 120 ranked snakes");
    assert_eq!(page.placement[0].games_remaining, "-40");
    assert_eq!(page.activity[0].ago, "2m ago");
    assert_eq!(page.activity[0].class, "place p2");
    assert_eq!(page.activity[0].place, "2nd");
    assert_eq!(page.eaters[0].place, "#1");
    assert_eq!(page.eaters[0].food, "321 food");
    assert!(page.signed_in && !page.needs_snake);
    let mine: Vec<(usize, String, MineState)> = page
        .mine
        .iter()
        .map(|m| (m.place, m.name.clone(), m.state))
        .collect();
    assert_eq!(
        mine,
        vec![
            (0, "snake-51".to_string(), MineState::Active),
            (2, "snake-60".to_string(), MineState::Paused),
            (3, "snake-51".to_string(), MineState::AutoPaused),
        ]
    );
    assert_eq!(page.mine[1].profile, format!("/battlesnakes/{}/profile", text(60)));
    assert_eq!(page.joinable.len(), 2);
    assert_eq!(
        page.unranked_note,
        "No snakes have completed enough games to be ranked yet. (Minimum: 10 games)"
    );
}

#[test]
fn the_ends_of_the_ranking_have_one_neighbour() {
    let (facts, _) = read_ladder(None, None, LeaderboardSort::Rating);
    let page = leaderboard_page_at(
        id(1),
        None,
        None,
        LeaderboardSort::Rating,
        &rules(),
        &facts,
        at(1000),
    );
    assert_eq!(page.pager.previous, None);
    assert!(page.pager.next.is_some());
    assert_eq!(page.rows[0].rank, "01");
    assert!(page.rows[2].top && !page.rows[3].top);
    assert!(!page.signed_in && page.mine.is_empty() && page.joinable.is_empty());
    let (facts, _) = read_ladder(None, Some(99), LeaderboardSort::Rating);
    let page = leaderboard_page_at(
        id(1),
        None,
        Some(99),
        LeaderboardSort::Rating,
        &rules(),
        &facts,
        at(1000),
    );
    assert!(page.pager.previous.is_some());
    assert_eq!(page.pager.next, None);
    assert_eq!(page.rows.len(), 20);
    assert_eq!(page.showing, "Showing 101–120 of 120 ranked snakes");
}

#[test]
fn a_quiet_leaderboard_does_not_refresh() {
    let viewer = Some(id(551));
    let (mut facts, _) = read_ladder(viewer, None, LeaderboardSort::Rating);
    facts.status = Some(LeaderboardStatus {
        total_games: 0,
        games_in_progress: 0,
        last_game_created_at: None,
    });
    facts.snakes = Some(vec![]);
    facts.entries = Some(vec![]);
    facts.leaderboards = Some(vec![board(1, "Standard")]);
    facts.total_ranked = Some(0);
    facts.ranked = Some(vec![]);
    let page = leaderboard_page(
        id(1),
        viewer,
        None,
        LeaderboardSort::Rating,
        &rules(),
        &facts,
    );
    assert_eq!(page.refresh_key, None);
    assert_eq!(page.next_run, "waiting for first games");
    assert!(page.modes.is_empty() && page.needs_snake);
    assert_eq!(page.pager.position, None);
    let mut status = facts.status.unwrap();
    status.games_in_progress = 1;
    facts.status = Some(status);
    let page = leaderboard_page(
        id(1),
        viewer,
        None,
        LeaderboardSort::Rating,
        &rules(),
        &facts,
    );
    assert_eq!(page.refresh_key.as_deref(), Some("leaderboard:0:1:none"));
}

#[test]
fn recent_games_are_aged_by_the_clock() {
    let (mut facts, _) = read_ladder(None, None, LeaderboardSort::Rating);
    let hours_ago = chrono::Utc::now().timestamp() - 5 * 3600 - 30;
    facts.activity = Some(vec![ActivityEvent {
        leaderboard_entry_id: id(1),
        snake_name: "s".to_string(),
        placement: 1,
        created_at: at(hours_ago),
    }]);
    let page = leaderboard_page(
        id(1),
        None,
        None,
        LeaderboardSort::Rating,
        &rules(),
        &facts,
    );
    assert_eq!(page.activity[0].ago, "5h ago");
}

fn played(n: u128, placement: i32) -> PlayedGame {
    PlayedGame {
        game_id: id(n),
        game_created_at: at(1_700_000_000),
        placement,
        food_eaten: 6,
    }
}

fn met(game: u128, entry: Option<u128>, name: &str) -> GameOpponent {
    GameOpponent {
        game_id: id(game),
        leaderboard_entry_id: entry.map(id),
        snake_name: name.to_string(),
    }
}

fn entry_facts() -> EntryFacts {
    EntryFacts {
        leaderboard: None,
        entry: None,
        snake: None,
        owner: None,
        total_games: None,
        history: None,
        opponents: None,
        rating_history: false,
        rank: None,
        recent: None,
        scores: false,
    }
}

fn read_entry(asked: Option<i64>) -> (EntryFacts, Vec<String>) {
    let mut facts = entry_facts();
    let mut steps = vec![];
    loop {
        let step = show_leaderboard_entry(id(1), id(2000), asked, &facts);
        steps.push(format!("{step:?}").split([' ', '{']).next().unwrap().to_string());
        match step {
            EntryStep::LoadLeaderboard { leaderboard_id } => {
                assert_eq!(leaderboard_id, id(1));
                facts.leaderboard = Some(Some(board(1, "Standard")));
            }
            EntryStep::LoadEntry { entry_id } => {
                assert_eq!(entry_id, id(2000));
                facts.entry = Some(Some(entry(2000, 1, 51)));
            }
            EntryStep::LoadSnake { battlesnake_id } => {
                assert_eq!(battlesnake_id, id(51));
                facts.snake = Some(Some(snake(51, 551)));
            }
            EntryStep::LoadOwner { user_id } => {
                assert_eq!(user_id, id(551));
                facts.owner = Some(Some(User {
                    user_id,
                    github_login: "ada".to_string(),
                    github_avatar_url: Some("https://a/x.png".to_string()),
                    display_name: None,
                    site_theme: "light".to_string(),
                    theater_theme: "dark".to_string(),
                }));
            }
            EntryStep::CountGames => facts.total_games = Some(41),
            EntryStep::LoadHistory { page, per_page } => {
                assert_eq!((page, per_page), (asked.unwrap_or(0).clamp(0, 2), 20));
                facts.history = Some(vec![played(70, 1), played(71, 4)]);
            }
            EntryStep::LoadOpponents { game_ids } => {
                assert_eq!(game_ids, vec![id(70), id(71)]);
                facts.opponents = Some(vec![
                    met(70, Some(2007), "Bob"),
                    met(99, Some(2008), "Eve"),
                    met(70, None, "Gone"),
                ]);
            }
            EntryStep::LoadRatingHistory => facts.rating_history = true,
            EntryStep::LoadRank { games_played } => {
                assert_eq!(games_played, entry(2000, 1, 51).games_played);
                facts.rank = Some(Some(3));
            }
            EntryStep::LoadRecent { page, per_page } => {
                assert_eq!((page, per_page), (0, 5));
                facts.recent = Some(vec![played(70, 1), played(71, 4), played(72, 2)]);
            }
            EntryStep::LoadScores => facts.scores = true,
            EntryStep::NotFound { .. } | EntryStep::Render => return (facts, steps),
        }
    }
}

#[test]
fn a_membership_is_shown_with_its_history() {
    let (facts, steps) = read_entry(Some(1));
    assert_eq!(
        steps,
        vec![
            "LoadLeaderboard",
            "LoadEntry",
            "LoadSnake",
            "LoadOwner",
            "CountGames",
            "LoadHistory",
            "LoadOpponents",
            "LoadRatingHistory",
            "LoadRank",
            "LoadRecent",
            "LoadScores",
            "Render"
        ]
    );
    let page = entry_page(id(1), id(2000), Some(1), "43.2", facts);
    let ladder = format!("/leaderboards/{}", text(1));
    let url = format!("{ladder}/entries/{}", text(2000));
    assert_eq!(page.title, "snake-51 - Standard");
    assert_eq!(
        page.description,
        "snake-51 by ada on the Standard leaderboard — rating 43.2, 7 games played."
    );
    assert_eq!(page.ladder_href, ladder);
    assert_eq!(page.snake_href, format!("/battlesnakes/{}/profile", text(51)));
    assert_eq!(page.owner_href.as_deref(), Some("/users/ada"));
    assert_eq!(page.owner_avatar.as_deref(), Some("https://a/x.png"));
    assert_eq!(page.rank.as_deref(), Some("#3"));
    assert_eq!((page.games_played, page.first_places), (7, 2));
    assert_eq!(page.form, vec!["🥇", "▪️", "🥈"]);
    assert_eq!(page.games[0].date, "2023-11-14 22:13");
    let opponents: Vec<(String, Option<String>)> = page.games[0]
        .opponents
        .iter()
        .map(|o| (o.name.clone(), o.href.clone()))
        .collect();
    assert_eq!(
        opponents,
        vec![
            (
                "Bob".to_string(),
                Some(format!("{ladder}/entries/{}", text(2007)))
            ),
            ("Gone".to_string(), None),
        ]
    );
    assert!(page.games[0].won && !page.games[1].won);
    assert!(page.games[1].opponents.is_empty());
    assert_eq!(page.games[1].place, "4th");
    assert_eq!(page.games[1].replay, format!("/games/{}", text(71)));
    let pager = page.pager.unwrap();
    assert_eq!(pager.previous, Some(format!("{url}?page=0")));
    assert_eq!(pager.position.as_deref(), Some("Page 2 of 3"));
    assert_eq!(pager.next, Some(format!("{url}?page=2")));
}

#[test]
fn a_membership_without_games_rank_or_owner() {
    let (mut facts, _) = read_entry(None);
    facts.total_games = Some(0);
    facts.history = Some(vec![]);
    facts.opponents = None;
    facts.owner = Some(None);
    facts.rank = Some(None);
    facts.recent = Some(vec![]);
    assert!(matches!(
        show_leaderboard_entry(id(1), id(2000), None, &facts),
        EntryStep::Render
    ));
    let page = entry_page(id(1), id(2000), None, "0.0", facts);
    assert_eq!(page.owner, "Unknown");
    assert!(page.owner_href.is_none() && page.owner_avatar.is_none() && page.rank.is_none());
    assert!(page.form.is_empty() && page.games.is_empty() && page.pager.is_none());
}

#[test]
fn a_membership_has_to_be_there_and_belong_to_the_leaderboard() {
    let missing = |facts: &EntryFacts| match show_leaderboard_entry(id(1), id(2000), None, facts) {
        EntryStep::NotFound { message } => message,
        other => panic!("{other:?}"),
    };
    let mut facts = entry_facts();
    facts.leaderboard = Some(None);
    assert_eq!(missing(&facts), "Leaderboard not found");
    facts.leaderboard = Some(Some(board(1, "Standard")));
    facts.entry = Some(None);
    assert_eq!(missing(&facts), "Leaderboard entry not found");
    facts.entry = Some(Some(entry(2000, 2, 51)));
    assert_eq!(missing(&facts), "Entry does not belong to this leaderboard");
    facts.entry = Some(Some(entry(2000, 1, 51)));
    facts.snake = Some(None);
    assert_eq!(missing(&facts), "Snake no longer exists");
}

#[test]
fn opponents_are_grouped_by_game() {
    let groups = group_opponents(vec![met(1, None, "a"), met(2, None, "b"), met(1, None, "c")]);
    let names: Vec<&str> = groups[&1].iter().map(|o| o.snake_name.as_str()).collect();
    assert_eq!(names, vec!["a", "c"]);
    assert_eq!(groups.len(), 2);
}

#[test]
fn own_snakes_join_active_leaderboards() {
    let form = JoinLeaveForm { battlesnake_id: id(51) };
    let url = format!("/leaderboards/{}", text(1));
    let mut facts = MemberFacts::start();
    let next = |facts: &MemberFacts| join_leaderboard(id(1), id(551), &form, facts);
    assert!(matches!(next(&facts), MemberStep::LoadLeaderboard { leaderboard_id } if leaderboard_id == id(1)));
    facts.leaderboard = Some(None);
    assert!(matches!(next(&facts), MemberStep::Fail { message, to } if message == "Leaderboard not found" && to == url));
    let mut old = board(1, "Standard");
    old.disabled_at = Some(EPOCH);
    facts.leaderboard = Some(Some(old));
    assert!(matches!(
        next(&facts),
        MemberStep::Flash { kind: FlashKind::Error, message, to }
            if message == "That leaderboard is no longer active." && to == url
    ));
    facts.leaderboard = Some(Some(board(1, "Standard")));
    assert!(matches!(next(&facts), MemberStep::LoadSnake { battlesnake_id } if battlesnake_id == id(51)));
    facts.snake = Some(None);
    assert!(matches!(next(&facts), MemberStep::Fail { message, .. } if message == "Battlesnake not found"));
    facts.snake = Some(Some(snake(51, 9)));
    assert!(matches!(next(&facts), MemberStep::Fail { message, .. } if message == "You don't own this battlesnake"));
    facts.snake = Some(Some(snake(51, 551)));
    assert!(matches!(next(&facts), MemberStep::Join { battlesnake_id, .. } if battlesnake_id == id(51)));
    facts.joined = Some(id(2000));
    assert!(matches!(next(&facts), MemberStep::Reactivate { battlesnake_id } if battlesnake_id == id(51)));
    facts.reactivated = true;
    assert!(matches!(next(&facts), MemberStep::InitializeScoring { leaderboard_entry_id } if leaderboard_entry_id == id(2000)));
    facts.scoring_initialized = true;
    assert!(matches!(
        next(&facts),
        MemberStep::Flash { kind: FlashKind::Success, message, to }
            if message == "snake-51 is in the matchmaking rotation on Standard — it'll be picked up in upcoming games."
                && to == url
    ));
}

#[test]
fn own_snakes_are_paused() {
    let form = LeaveForm { leaderboard_entry_id: id(2000) };
    let mut facts = MemberFacts::start();
    let next = |facts: &MemberFacts| leave_leaderboard_at(id(1), id(551), &form, facts, at(5));
    assert!(matches!(next(&facts), MemberStep::LoadEntry { leaderboard_entry_id } if leaderboard_entry_id == id(2000)));
    facts.entry = Some(None);
    assert!(matches!(next(&facts), MemberStep::Fail { message, .. } if message == "Leaderboard entry not found"));
    facts.entry = Some(Some(entry(2000, 2, 51)));
    assert!(matches!(next(&facts), MemberStep::Fail { message, .. } if message == "Entry does not belong to this leaderboard"));
    facts.entry = Some(Some(entry(2000, 1, 51)));
    assert!(matches!(next(&facts), MemberStep::LoadSnake { battlesnake_id } if battlesnake_id == id(51)));
    facts.snake = Some(None);
    assert!(matches!(next(&facts), MemberStep::Fail { message, .. } if message == "Battlesnake not found"));
    facts.snake = Some(Some(snake(51, 9)));
    assert!(matches!(next(&facts), MemberStep::Fail { message, .. } if message == "You don't own this battlesnake"));
    facts.snake = Some(Some(snake(51, 551)));
    assert!(matches!(next(&facts), MemberStep::Pause { leaderboard_entry_id, at: when } if leaderboard_entry_id == id(2000) && when == at(5)));
    let before = chrono::Utc::now().timestamp();
    assert!(matches!(
        leave_leaderboard(id(1), id(551), &form, &facts),
        MemberStep::Pause { at: when, .. } if before <= when.secs && when.secs <= before + 60
    ));
    facts.paused = true;
    assert!(matches!(next(&facts), MemberStep::Redirect { to } if to == format!("/leaderboards/{}", text(1))));
}

#[test]
fn a_page_waits_until_everything_is_read_and_within_reach() {
    let sort = LeaderboardSort::Rating;
    let ready = |facts: &LadderFacts| is_ladder_ready(id(1), None, None, sort, &rules(), facts);
    let (mut facts, _) = read_ladder(None, None, sort);
    assert!(ready(&facts));
    facts.total_ranked = Some(i64::MAX);
    assert!(!ready(&facts));
    facts.total_ranked = Some(120);
    facts.scores = false;
    assert!(!ready(&facts));
    facts.scores = true;
    facts.status = Some(LeaderboardStatus {
        total_games: 1,
        games_in_progress: 0,
        last_game_created_at: Some(at(arena::time::LAST_SECOND)),
    });
    assert!(!ready(&facts));
    // A starved ladder tells no time.
    facts.active_entries = Some(0);
    assert!(ready(&facts));
    facts.activity = Some(vec![ActivityEvent {
        leaderboard_entry_id: id(1),
        snake_name: "s".to_string(),
        placement: 1,
        created_at: Timestamp { secs: 0, nanos: 2_000_000_000 },
    }]);
    assert!(!ready(&facts));

    let mut game = played(1, 1);
    assert!(is_history_dated(&[game]));
    game.game_created_at = at(i64::MAX);
    assert!(!is_history_dated(&[played(1, 1), game]));
}
