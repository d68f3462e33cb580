use arena::ids::Id;
use arena::import::select_import_candidates;
use arena::model::{RankedEntry, TournamentRegistration};
use arena::time::Timestamp;

fn new_id() -> Id {
    Id::from_u128(uuid::Uuid::new_v4().as_u128())
}

fn ranked_entry(battlesnake_id: Id, user_id: Id) -> RankedEntry {
    RankedEntry {
        leaderboard_entry_id: new_id(),
        battlesnake_id,
        user_id,
        games_played: 50,
        first_place_finishes: 10,
        non_first_finishes: 40,
        snake_name: "ranked-snake".to_string(),
        snake_color: "#888888".to_string(),
        owner_login: "ranked-owner".to_string(),
    }
}

fn registration(battlesnake_id: Id, user_id: Id, seed: i32) -> TournamentRegistration {
    let t = chrono::Utc::now();
    TournamentRegistration {
        registration_id: new_id(),
        tournament_id: new_id(),
        battlesnake_id,
        user_id,
        seed,
        registered_at: Timestamp {
            secs: t.timestamp(),
            nanos: t.timestamp_subsec_nanos(),
        },
    }
}

#[test]
fn import_candidates_skip_duplicates_and_capped_owners() {
    let user_a = new_id();
    let user_b = new_id();
    let already_registered = new_id();
    let a_snake_2 = new_id();
    let b_snake = new_id();

    let existing = vec![registration(already_registered, user_a, 1)];
    let ranked = vec![
        ranked_entry(already_registered, user_a), // dupe: skipped
        ranked_entry(a_snake_2, user_a),          // user_a at cap 1: skipped
        ranked_entry(b_snake, user_b),            // selected
    ];

    let candidates = select_import_candidates(&ranked, &existing, 1, 10);
    assert_eq!(candidates, vec![(b_snake, user_b)]);
}

#[test]
fn import_candidates_stop_at_requested_count() {
    let ranked: Vec<_> = (0..10)
        .map(|_| ranked_entry(new_id(), new_id()))
        .collect();

    let candidates = select_import_candidates(&ranked, &[], 1, 3);
    assert_eq!(candidates.len(), 3);
    // Rank order preserved.
    assert_eq!(candidates[0].0, ranked[0].battlesnake_id);
    assert_eq!(candidates[2].0, ranked[2].battlesnake_id);
}

#[test]
fn import_candidates_never_exceed_total_registration_cap() {
    // 126 existing registrations: only 2 slots left no matter the ask.
    let existing: Vec<_> = (0..126)
        .map(|i| registration(new_id(), new_id(), i + 1))
        .collect();
    let ranked: Vec<_> = (0..10)
        .map(|_| ranked_entry(new_id(), new_id()))
        .collect();

    let candidates = select_import_candidates(&ranked, &existing, 1, 10);
    assert_eq!(candidates.len(), 2);

    // Already full: nothing to import.
    let full: Vec<_> = (0..128)
        .map(|i| registration(new_id(), new_id(), i + 1))
        .collect();
    let candidates = select_import_candidates(&ranked, &full, 1, 10);
    assert!(candidates.is_empty());
}

#[test]
fn import_skips_a_snake_that_is_ranked_twice() {
    let owner = new_id();
    let snake = new_id();
    let other = new_id();
    let ranked = vec![
        ranked_entry(snake, owner),
        ranked_entry(snake, owner),
        ranked_entry(other, owner),
    ];
    let candidates = select_import_candidates(&ranked, &[], 5, 10);
    assert_eq!(candidates, vec![(snake, owner), (other, owner)]);
}

#[test]
fn import_counts_existing_and_added_snakes_of_an_owner() {
    let owner = new_id();
    let existing = vec![registration(new_id(), owner, 1)];
    let ranked: Vec<_> = (0..5).map(|_| ranked_entry(new_id(), owner)).collect();
    let candidates = select_import_candidates(&ranked, &existing, 3, 10);
    assert_eq!(candidates.len(), 2);
    assert_eq!(candidates[1].0, ranked[1].battlesnake_id);
}

#[test]
fn import_takes_nothing_when_nothing_is_allowed() {
    let ranked = vec![ranked_entry(new_id(), new_id())];
    assert!(select_import_candidates(&ranked, &[], 0, 10).is_empty());
    assert!(select_import_candidates(&ranked, &[], -1, 10).is_empty());
    assert!(select_import_candidates(&ranked, &[], 1, 0).is_empty());
    assert!(select_import_candidates(&ranked, &[], 1, -5).is_empty());
}

#[test]
fn smaller_imports_come_first() {
    let (a, b) = (new_id(), new_id());
    let ranked: Vec<_> = [a, a, b, a, b]
        .into_iter()
        .map(|user| ranked_entry(new_id(), user))
        .collect();
    let many = select_import_candidates(&ranked, &[], 2, 10);
    assert_eq!(many.len(), 4);
    for count in 0..=4usize {
        let few = select_import_candidates(&ranked, &[], 2, count as i64);
        assert_eq!(few, many[..count].to_vec());
    }
}
