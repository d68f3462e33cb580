//! The list of leaderboards and the page of one leaderboard: what has to be
//! read for it and what it shows. Scores are not among it; they are laid
//! beside the rows by place.

use crate::ids::{id_text, is_id, Id};
use crate::lists::{ids_of, views};
use crate::model::{
    ActivityEvent, Battlesnake, Leaderboard, LeaderboardEntry, LeaderboardSort, LeaderboardStatus,
    RankedEntry, TopEater,
};
use crate::paging::{page_count, page_shown, pages_of, shown_page};
use crate::text::{
    count_text, decimal, decimal_text, decimal_two, decimal_two_text, opt_text, same_text,
};
use crate::time::{
    ago, fmt_ago_at, later_by, now, plus_seconds, reaches, relative, relative_text,
    seconds_between, Timestamp, FIRST_SECOND, LAST_SECOND,
};
use crate::tournament_forms::{choice, Choice, ChoiceView};
use crate::tournament_page::{profile_path, profile_url, snake_choices};
use vstd::prelude::*;
use vstd::string::StringExecFns;

verus! {

// Paths.

/// The page of a leaderboard.
pub open spec fn ladder_path(leaderboard_id: Id) -> Seq<char> {
    "/leaderboards/"@ + leaderboard_id.text()
}

/// The page of a leaderboard.
pub fn ladder_url(leaderboard_id: Id) -> (r: String)
    ensures
        r@ == ladder_path(leaderboard_id),
{
    "/leaderboards/".to_owned().concat(id_text(leaderboard_id).as_str())
}

/// The page of a snake's membership of a leaderboard.
pub open spec fn entry_path(leaderboard_id: Id, entry_id: Id) -> Seq<char> {
    ladder_path(leaderboard_id) + "/entries/"@ + entry_id.text()
}

/// The page of a snake's membership of a leaderboard.
pub fn entry_url(leaderboard_id: Id, entry_id: Id) -> (r: String)
    ensures
        r@ == entry_path(leaderboard_id, entry_id),
{
    ladder_url(leaderboard_id).concat("/entries/").concat(id_text(entry_id).as_str())
}

/// The page of a user.
pub open spec fn user_path(login: Seq<char>) -> Seq<char> {
    "/users/"@ + login
}

/// The page of a user.
pub fn user_url(login: &str) -> (r: String)
    ensures
        r@ == user_path(login@),
{
    "/users/".to_owned().concat(login)
}

// The list.

/// One leaderboard in the list.
#[derive(Debug)]
pub struct LeaderboardRow {
    pub href: String,
    pub name: String,
    pub active: bool,
}

/// One leaderboard in the list, with its texts as characters.
pub struct LeaderboardRowView {
    pub href: Seq<char>,
    pub name: Seq<char>,
    pub active: bool,
}

impl View for LeaderboardRow {
    type V = LeaderboardRowView;

    open spec fn view(&self) -> LeaderboardRowView {
        LeaderboardRowView { href: self.href@, name: self.name@, active: self.active }
    }
}

/// One leaderboard in the list: it is active unless it was disabled.
pub open spec fn leaderboard_row(lb: Leaderboard) -> LeaderboardRowView {
    LeaderboardRowView {
        href: ladder_path(lb.leaderboard_id),
        name: lb.name@,
        active: lb.disabled_at is None,
    }
}

/// The list of leaderboards, in the order in which they were read.
pub fn list_leaderboards(leaderboards: &[Leaderboard]) -> (r: Vec<LeaderboardRow>)
    ensures
        views(r@) == Seq::new(leaderboards@.len(), |i: int| leaderboard_row(leaderboards@[i])),
{
    let mut rows: Vec<LeaderboardRow> = Vec::new();
    let mut i: usize = 0;
    while i < leaderboards.len()
        invariant
            i <= leaderboards.len(),
            rows@.len() == i,
            forall|k: int| 0 <= k < i ==> (#[trigger] rows@[k])@ == leaderboard_row(leaderboards@[k]),
        decreases leaderboards.len() - i,
    {
        let lb: &Leaderboard = &leaderboards[i];
        rows.push(
            LeaderboardRow {
                href: ladder_url(lb.leaderboard_id),
                name: lb.name.clone(),
                active: lb.disabled_at.is_none(),
            },
        );
        i = i + 1;
    }
    assert(views(rows@) =~= Seq::new(
        leaderboards@.len(),
        |i: int| leaderboard_row(leaderboards@[i]),
    ));
    rows
}

// What the page of a leaderboard needs.

/// How many snakes stand on a page of the ranking.
pub const RANKED_PER_PAGE: i64 = 50;

/// How many recent games are listed.
pub const ACTIVITY_LIMIT: i64 = 8;

/// How many of the best eaters are listed.
pub const EATERS_LIMIT: i64 = 3;

/// What a request for a leaderboard's page has read so far. What has not been
/// asked for is `None`, or false where only the presentation reads it.
#[derive(Debug)]
pub struct LadderFacts {
    pub leaderboard: Option<Option<Leaderboard>>,
    pub leaderboards: Option<Vec<Leaderboard>>,
    pub total_ranked: Option<i64>,
    pub ranked: Option<Vec<RankedEntry>>,
    pub placement: Option<Vec<RankedEntry>>,
    pub status: Option<LeaderboardStatus>,
    pub activity: Option<Vec<ActivityEvent>>,
    pub eaters: Option<Vec<TopEater>>,
    pub snakes: Option<Vec<Battlesnake>>,
    pub entries: Option<Vec<LeaderboardEntry>>,
    pub active_entries: Option<i64>,
    pub tags: bool,
    pub scores: bool,
}

/// What a request for a leaderboard's page does next. A step that names no
/// leaderboard is about the one that was read.
#[derive(Debug)]
pub enum LadderStep {
    LoadLeaderboard { leaderboard_id: Id },
    NotFound { message: String },
    LoadLeaderboards,
    CountRanked,
    LoadRanked { page: i64, per_page: i64, sort: LeaderboardSort },
    LoadPlacement,
    LoadStatus,
    LoadActivity { limit: i64 },
    LoadTopEaters { limit: i64 },
    /// Read the viewer's snakes.
    LoadSnakes { user_id: Id },
    /// Read the viewer's memberships.
    LoadEntries { user_id: Id },
    CountActive,
    LoadTags { battlesnake_ids: Vec<Id> },
    LoadScores { entry_ids: Vec<Id> },
    Render,
}

/// What a request for a leaderboard's page does next, with its texts as
/// characters.
pub enum LadderStepView {
    LoadLeaderboard { leaderboard_id: Id },
    NotFound { message: Seq<char> },
    LoadLeaderboards,
    CountRanked,
    LoadRanked { page: int, per_page: int, sort: LeaderboardSort },
    LoadPlacement,
    LoadStatus,
    LoadActivity { limit: int },
    LoadTopEaters { limit: int },
    LoadSnakes { user_id: Id },
    LoadEntries { user_id: Id },
    CountActive,
    LoadTags { battlesnake_ids: Seq<Id> },
    LoadScores { entry_ids: Seq<Id> },
    Render,
}

impl View for LadderStep {
    type V = LadderStepView;

    open spec fn view(&self) -> LadderStepView {
        match *self {
            LadderStep::LoadLeaderboard { leaderboard_id } => LadderStepView::LoadLeaderboard {
                leaderboard_id,
            },
            LadderStep::NotFound { message } => LadderStepView::NotFound { message: message@ },
            LadderStep::LoadLeaderboards => LadderStepView::LoadLeaderboards,
            LadderStep::CountRanked => LadderStepView::CountRanked,
            LadderStep::LoadRanked { page, per_page, sort } => LadderStepView::LoadRanked {
                page: page as int,
                per_page: per_page as int,
                sort,
            },
            LadderStep::LoadPlacement => LadderStepView::LoadPlacement,
            LadderStep::LoadStatus => LadderStepView::LoadStatus,
            LadderStep::LoadActivity { limit } => LadderStepView::LoadActivity {
                limit: limit as int,
            },
            LadderStep::LoadTopEaters { limit } => LadderStepView::LoadTopEaters {
                limit: limit as int,
            },
            LadderStep::LoadSnakes { user_id } => LadderStepView::LoadSnakes { user_id },
            LadderStep::LoadEntries { user_id } => LadderStepView::LoadEntries { user_id },
            LadderStep::CountActive => LadderStepView::CountActive,
            LadderStep::LoadTags { battlesnake_ids } => LadderStepView::LoadTags {
                battlesnake_ids: battlesnake_ids@,
            },
            LadderStep::LoadScores { entry_ids } => LadderStepView::LoadScores {
                entry_ids: entry_ids@,
            },
            LadderStep::Render => LadderStepView::Render,
        }
    }
}

/// The snakes of a list of standings.
pub open spec fn standing_snakes(entries: Seq<RankedEntry>) -> Seq<Id> {
    Seq::new(entries.len(), |i: int| entries[i].battlesnake_id)
}

/// The memberships behind a list of standings.
pub open spec fn standing_entries(entries: Seq<RankedEntry>) -> Seq<Id> {
    Seq::new(entries.len(), |i: int| entries[i].leaderboard_entry_id)
}

/// The page of the ranking that is shown.
pub open spec fn ranking_page(total_ranked: i64, asked: Option<i64>) -> int {
    page_shown(asked, pages_of(total_ranked as int, RANKED_PER_PAGE as int))
}

/// The next step of showing a leaderboard. Everything is read in a fixed
/// order, the viewer's own snakes only for somebody who is signed in, and tags
/// and scores only for the snakes that are shown.
pub open spec fn ladder_next(
    leaderboard_id: Id,
    viewer: Option<Id>,
    asked: Option<i64>,
    sort: LeaderboardSort,
    facts: LadderFacts,
) -> LadderStepView {
    if facts.leaderboard is None {
        LadderStepView::LoadLeaderboard { leaderboard_id }
    } else if facts.leaderboard->0 is None {
        LadderStepView::NotFound { message: "Leaderboard not found"@ }
    } else if facts.leaderboards is None {
        LadderStepView::LoadLeaderboards
    } else if facts.total_ranked is None {
        LadderStepView::CountRanked
    } else if facts.ranked is None {
        LadderStepView::LoadRanked {
            page: ranking_page(facts.total_ranked->0, asked),
            per_page: RANKED_PER_PAGE as int,
            sort,
        }
    } else if facts.placement is None {
        LadderStepView::LoadPlacement
    } else if facts.status is None {
        LadderStepView::LoadStatus
    } else if facts.activity is None {
        LadderStepView::LoadActivity { limit: ACTIVITY_LIMIT as int }
    } else if facts.eaters is None {
        LadderStepView::LoadTopEaters { limit: EATERS_LIMIT as int }
    } else if viewer is Some && facts.snakes is None {
        LadderStepView::LoadSnakes { user_id: viewer->0 }
    } else if viewer is Some && facts.entries is None {
        LadderStepView::LoadEntries { user_id: viewer->0 }
    } else if facts.active_entries is None {
        LadderStepView::CountActive
    } else if !facts.tags {
        LadderStepView::LoadTags {
            battlesnake_ids: standing_snakes(facts.ranked->0@) + standing_snakes(
                facts.placement->0@,
            ),
        }
    } else if !facts.scores {
        LadderStepView::LoadScores {
            entry_ids: standing_entries(facts.ranked->0@) + standing_entries(facts.placement->0@),
        }
    } else {
        LadderStepView::Render
    }
}

/// Whether the count of ranked snakes leaves room for another page.
pub open spec fn countable(facts: LadderFacts) -> bool {
    facts.total_ranked matches Some(total) ==> total + RANKED_PER_PAGE <= i64::MAX
}

fn list_snakes(ranked: &[RankedEntry], placement: &[RankedEntry]) -> (r: Vec<Id>)
    ensures
        r@ == standing_snakes(ranked@) + standing_snakes(placement@),
{
    let snake = |e: &RankedEntry| -> (id: Id)
        ensures
            id == e.battlesnake_id,
        { e.battlesnake_id };
    let mut ids: Vec<Id> = ids_of(ranked, snake);
    let mut others: Vec<Id> = ids_of(placement, snake);
    assert(ids@ =~= standing_snakes(ranked@));
    assert(others@ =~= standing_snakes(placement@));
    ids.append(&mut others);
    ids
}

fn list_entries(ranked: &[RankedEntry], placement: &[RankedEntry]) -> (r: Vec<Id>)
    ensures
        r@ == standing_entries(ranked@) + standing_entries(placement@),
{
    let entry = |e: &RankedEntry| -> (id: Id)
        ensures
            id == e.leaderboard_entry_id,
        { e.leaderboard_entry_id };
    let mut ids: Vec<Id> = ids_of(ranked, entry);
    let mut others: Vec<Id> = ids_of(placement, entry);
    assert(ids@ =~= standing_entries(ranked@));
    assert(others@ =~= standing_entries(placement@));
    ids.append(&mut others);
    ids
}

/// The page of a leaderboard.
pub fn show_leaderboard(
    leaderboard_id: Id,
    viewer: Option<Id>,
    asked: Option<i64>,
    sort: LeaderboardSort,
    facts: &LadderFacts,
) -> (r: LadderStep)
    requires
        countable(*facts),
    ensures
        r@ == ladder_next(leaderboard_id, viewer, asked, sort, *facts),
{
    match &facts.leaderboard {
        None => {
            return LadderStep::LoadLeaderboard { leaderboard_id };
        },
        Some(None) => {
            return LadderStep::NotFound { message: "Leaderboard not found".to_owned() };
        },
        Some(Some(_)) => {},
    }
    if facts.leaderboards.is_none() {
        return LadderStep::LoadLeaderboards;
    }
    let total_ranked: i64 = match facts.total_ranked {
        None => {
            return LadderStep::CountRanked;
        },
        Some(total_ranked) => total_ranked,
    };
    let ranked: &Vec<RankedEntry> = match &facts.ranked {
        None => {
            let pages: i64 = page_count(total_ranked, RANKED_PER_PAGE);
            return LadderStep::LoadRanked {
                page: shown_page(asked, pages),
                per_page: RANKED_PER_PAGE,
                sort,
            };
        },
        Some(ranked) => ranked,
    };
    let placement: &Vec<RankedEntry> = match &facts.placement {
        None => {
            return LadderStep::LoadPlacement;
        },
        Some(placement) => placement,
    };
    if facts.status.is_none() {
        return LadderStep::LoadStatus;
    }
    if facts.activity.is_none() {
        return LadderStep::LoadActivity { limit: ACTIVITY_LIMIT };
    }
    if facts.eaters.is_none() {
        return LadderStep::LoadTopEaters { limit: EATERS_LIMIT };
    }
    match viewer {
        Some(user_id) => {
            if facts.snakes.is_none() {
                return LadderStep::LoadSnakes { user_id };
            }
            if facts.entries.is_none() {
                return LadderStep::LoadEntries { user_id };
            }
        },
        None => {},
    }
    if facts.active_entries.is_none() {
        LadderStep::CountActive
    } else if !facts.tags {
        LadderStep::LoadTags {
            battlesnake_ids: list_snakes(ranked.as_slice(), placement.as_slice()),
        }
    } else if !facts.scores {
        LadderStep::LoadScores {
            entry_ids: list_entries(ranked.as_slice(), placement.as_slice()),
        }
    } else {
        LadderStep::Render
    }
}

// The page of a leaderboard.

/// The numbers that matchmaking goes by, and the mark that it leaves on a
/// snake that it takes out.
#[derive(Debug)]
pub struct LadderRules {
    pub min_games_for_ranking: i32,
    pub min_match_size: usize,
    pub matchmaker_interval_secs: i64,
    pub disabled_reason_health: String,
}

/// One of several pages to choose from. The one that is shown has no link.
#[derive(Debug)]
pub struct Tab {
    pub name: String,
    pub href: Option<String>,
}

/// One of several pages to choose from, with its texts as characters.
pub struct TabView {
    pub name: Seq<char>,
    pub href: Option<Seq<char>>,
}

impl View for Tab {
    type V = TabView;

    open spec fn view(&self) -> TabView {
        TabView { name: self.name@, href: opt_text(self.href) }
    }
}

/// A ranked snake.
#[derive(Debug)]
pub struct RankRow {
    pub rank: String,
    pub top: bool,
    pub you: bool,
    pub color: String,
    pub href: String,
    pub name: String,
    pub owner: String,
    pub owner_href: String,
    pub games_played: i32,
    pub first_places: i32,
}

/// A ranked snake, with its texts as characters.
pub struct RankRowView {
    pub rank: Seq<char>,
    pub top: bool,
    pub you: bool,
    pub color: Seq<char>,
    pub href: Seq<char>,
    pub name: Seq<char>,
    pub owner: Seq<char>,
    pub owner_href: Seq<char>,
    pub games_played: int,
    pub first_places: int,
}

impl View for RankRow {
    type V = RankRowView;

    open spec fn view(&self) -> RankRowView {
        RankRowView {
            rank: self.rank@,
            top: self.top,
            you: self.you,
            color: self.color@,
            href: self.href@,
            name: self.name@,
            owner: self.owner@,
            owner_href: self.owner_href@,
            games_played: self.games_played as int,
            first_places: self.first_places as int,
        }
    }
}

/// The links to the pages beside the one that is shown.
#[derive(Debug)]
pub struct Pager {
    pub previous: Option<String>,
    pub position: Option<String>,
    pub next: Option<String>,
}

/// The links to the pages beside the one that is shown, as characters.
pub struct PagerView {
    pub previous: Option<Seq<char>>,
    pub position: Option<Seq<char>>,
    pub next: Option<Seq<char>>,
}

impl View for Pager {
    type V = PagerView;

    open spec fn view(&self) -> PagerView {
        PagerView {
            previous: opt_text(self.previous),
            position: opt_text(self.position),
            next: opt_text(self.next),
        }
    }
}

/// A snake that is not ranked yet.
#[derive(Debug)]
pub struct PlacementRow {
    pub color: String,
    pub href: String,
    pub name: String,
    pub owner: String,
    pub owner_href: String,
    pub games_played: i32,
    pub games_remaining: String,
}

/// A snake that is not ranked yet, with its texts as characters.
pub struct PlacementRowView {
    pub color: Seq<char>,
    pub href: Seq<char>,
    pub name: Seq<char>,
    pub owner: Seq<char>,
    pub owner_href: Seq<char>,
    pub games_played: int,
    pub games_remaining: Seq<char>,
}

impl View for PlacementRow {
    type V = PlacementRowView;

    open spec fn view(&self) -> PlacementRowView {
        PlacementRowView {
            color: self.color@,
            href: self.href@,
            name: self.name@,
            owner: self.owner@,
            owner_href: self.owner_href@,
            games_played: self.games_played as int,
            games_remaining: self.games_remaining@,
        }
    }
}

/// What a snake got out of a recent game.
#[derive(Debug)]
pub struct ActivityRow {
    pub ago: String,
    pub href: String,
    pub name: String,
    pub class: String,
    pub place: String,
}

/// What a snake got out of a recent game, with its texts as characters.
pub struct ActivityRowView {
    pub ago: Seq<char>,
    pub href: Seq<char>,
    pub name: Seq<char>,
    pub class: Seq<char>,
    pub place: Seq<char>,
}

impl View for ActivityRow {
    type V = ActivityRowView;

    open spec fn view(&self) -> ActivityRowView {
        ActivityRowView {
            ago: self.ago@,
            href: self.href@,
            name: self.name@,
            class: self.class@,
            place: self.place@,
        }
    }
}

/// How a membership of the viewer stands.
#[derive(Clone, Copy, Debug, PartialEq, Eq, Structural)]
pub enum MineState {
    Active,
    Paused,
    /// Taken out because the snake failed its health checks.
    AutoPaused,
}

/// A membership of the viewer.
#[derive(Debug)]
pub struct MineRow {
    /// The place of the membership among all that were read.
    pub place: usize,
    pub color: String,
    pub name: String,
    pub state: MineState,
    pub profile: String,
    pub battlesnake_id: String,
    pub leaderboard_entry_id: String,
    pub games_played: i32,
}

/// A membership of the viewer, with its texts as characters.
pub struct MineRowView {
    pub place: int,
    pub color: Seq<char>,
    pub name: Seq<char>,
    pub state: MineState,
    pub profile: Seq<char>,
    pub battlesnake_id: Seq<char>,
    pub leaderboard_entry_id: Seq<char>,
    pub games_played: int,
}

impl View for MineRow {
    type V = MineRowView;

    open spec fn view(&self) -> MineRowView {
        MineRowView {
            place: self.place as int,
            color: self.color@,
            name: self.name@,
            state: self.state,
            profile: self.profile@,
            battlesnake_id: self.battlesnake_id@,
            leaderboard_entry_id: self.leaderboard_entry_id@,
            games_played: self.games_played as int,
        }
    }
}

/// One of the best eaters.
#[derive(Debug)]
pub struct EaterRow {
    pub place: String,
    pub href: String,
    pub name: String,
    pub owner: String,
    pub owner_href: String,
    pub food: String,
}

/// One of the best eaters, with its texts as characters.
pub struct EaterRowView {
    pub place: Seq<char>,
    pub href: Seq<char>,
    pub name: Seq<char>,
    pub owner: Seq<char>,
    pub owner_href: Seq<char>,
    pub food: Seq<char>,
}

impl View for EaterRow {
    type V = EaterRowView;

    open spec fn view(&self) -> EaterRowView {
        EaterRowView {
            place: self.place@,
            href: self.href@,
            name: self.name@,
            owner: self.owner@,
            owner_href: self.owner_href@,
            food: self.food@,
        }
    }
}

/// The place in a game as a word.
pub open spec fn ordinal_word(n: int) -> Seq<char> {
    if n == 1 {
        "1st"@
    } else if n == 2 {
        "2nd"@
    } else if n == 3 {
        "3rd"@
    } else {
        decimal(n) + "th"@
    }
}

/// The place in a game as a word.
pub fn ordinal(n: i32) -> (r: String)
    ensures
        r@ == ordinal_word(n as int),
{
    if n == 1 {
        "1st".to_owned()
    } else if n == 2 {
        "2nd".to_owned()
    } else if n == 3 {
        "3rd".to_owned()
    } else {
        decimal_text(n as i64).concat("th")
    }
}

/// The other leaderboards, offered where there is more than one.
pub open spec fn modes_of(leaderboard_id: Id, leaderboards: Seq<Leaderboard>) -> Seq<TabView> {
    if leaderboards.len() > 1 {
        Seq::new(
            leaderboards.len(),
            |i: int|
                TabView {
                    name: leaderboards[i].name@,
                    href: if leaderboards[i].leaderboard_id == leaderboard_id {
                        None
                    } else {
                        Some(ladder_path(leaderboards[i].leaderboard_id))
                    },
                },
        )
    } else {
        Seq::empty()
    }
}

fn list_modes(leaderboard_id: Id, leaderboards: &[Leaderboard]) -> (r: Vec<Tab>)
    ensures
        views(r@) == modes_of(leaderboard_id, leaderboards@),
{
    let mut tabs: Vec<Tab> = Vec::new();
    if leaderboards.len() > 1 {
        let mut i: usize = 0;
        while i < leaderboards.len()
            invariant
                i <= leaderboards.len(),
                tabs@.len() == i,
                leaderboards@.len() > 1,
                forall|k: int|
                    0 <= k < i ==> (#[trigger] tabs@[k])@ == modes_of(
                        leaderboard_id,
                        leaderboards@,
                    )[k],
            decreases leaderboards.len() - i,
        {
            let lb: &Leaderboard = &leaderboards[i];
            let href: Option<String> = if lb.leaderboard_id == leaderboard_id {
                None
            } else {
                Some(ladder_url(lb.leaderboard_id))
            };
            tabs.push(Tab { name: lb.name.clone(), href });
            i = i + 1;
        }
    }
    assert(views(tabs@) =~= modes_of(leaderboard_id, leaderboards@));
    tabs
}

/// What is said of the next matchmaker run. A ladder with too few snakes
/// waits for more; otherwise the next run follows the last game, at an
/// interval, once there was one.
pub open spec fn next_run(
    rules: LadderRules,
    active_entries: int,
    last_game: Option<Timestamp>,
    now: Timestamp,
) -> Seq<char> {
    if active_entries < rules.min_match_size {
        "waiting for at least "@ + decimal(rules.min_match_size as int) + " healthy snakes ("@
            + decimal(active_entries) + " enabled)"@
    } else {
        match last_game {
            Some(last) => relative(later_by(last, rules.matchmaker_interval_secs as int), now),
            None => "waiting for first games"@,
        }
    }
}

/// Whether the calendar reaches the run after the last game, where one is
/// told.
pub open spec fn run_reached(
    rules: LadderRules,
    active_entries: int,
    last_game: Option<Timestamp>,
) -> bool {
    active_entries >= rules.min_match_size ==> (last_game matches Some(last) ==> reaches(
        last,
        rules.matchmaker_interval_secs as int,
    ))
}

/// What is said of the next matchmaker run.
pub fn next_run_text(
    rules: &LadderRules,
    active_entries: i64,
    last_game: Option<Timestamp>,
    now: Timestamp,
) -> (r: String)
    requires
        run_reached(*rules, active_entries as int, last_game),
        now.valid(),
    ensures
        r@ == next_run(*rules, active_entries as int, last_game, now),
{
    if (active_entries as i128) < rules.min_match_size as i128 {
        return "waiting for at least ".to_owned().concat(
            count_text(rules.min_match_size).as_str(),
        ).concat(" healthy snakes (").concat(decimal_text(active_entries).as_str()).concat(
            " enabled)",
        );
    }
    match last_game {
        Some(last) => relative_text(plus_seconds(last, rules.matchmaker_interval_secs), now),
        None => "waiting for first games".to_owned(),
    }
}

/// What a page that reloads itself compares, while games are being played.
pub open spec fn ladder_key(status: LeaderboardStatus) -> Option<Seq<char>> {
    if status.games_in_progress > 0 {
        Some(
            "leaderboard:"@ + decimal(status.total_games as int) + ":"@ + decimal(
                status.games_in_progress as int,
            ) + ":"@ + match status.last_game_created_at {
                Some(last) => decimal(last.secs as int),
                None => "none"@,
            },
        )
    } else {
        None
    }
}

fn ladder_key_text(status: &LeaderboardStatus) -> (r: Option<String>)
    ensures
        opt_text(r) == ladder_key(*status),
{
    if status.games_in_progress > 0 {
        let last: String = match status.last_game_created_at {
            Some(last) => decimal_text(last.secs),
            None => "none".to_owned(),
        };
        Some(
            "leaderboard:".to_owned().concat(decimal_text(status.total_games).as_str()).concat(
                ":",
            ).concat(decimal_text(status.games_in_progress).as_str()).concat(":").concat(
                last.as_str(),
            ),
        )
    } else {
        None
    }
}

/// The two orders to choose from.
pub open spec fn sorts_of(leaderboard_id: Id, sort: LeaderboardSort) -> Seq<TabView> {
    seq![
        TabView {
            name: "Rating"@,
            href: if sort is Rating {
                None
            } else {
                Some(ladder_path(leaderboard_id) + "?sort=rating"@)
            },
        },
        TabView {
            name: "Food eaten"@,
            href: if sort is FoodEaten {
                None
            } else {
                Some(ladder_path(leaderboard_id) + "?sort=food_eaten"@)
            },
        },
    ]
}

fn list_sorts(leaderboard_id: Id, sort: LeaderboardSort) -> (r: Vec<Tab>)
    ensures
        views(r@) == sorts_of(leaderboard_id, sort),
{
    let rating: Option<String> = if sort == LeaderboardSort::Rating {
        None
    } else {
        Some(ladder_url(leaderboard_id).concat("?sort=rating"))
    };
    let food: Option<String> = if sort == LeaderboardSort::FoodEaten {
        None
    } else {
        Some(ladder_url(leaderboard_id).concat("?sort=food_eaten"))
    };
    let tabs: Vec<Tab> = vec![
        Tab { name: "Rating".to_owned(), href: rating },
        Tab { name: "Food eaten".to_owned(), href: food },
    ];
    assert(views(tabs@) =~= sorts_of(leaderboard_id, sort));
    tabs
}

/// The scoring whose column the order goes by.
pub open spec fn sort_column(sort: LeaderboardSort) -> Seq<char> {
    match sort {
        LeaderboardSort::Rating => "weng_lin"@,
        LeaderboardSort::FoodEaten => "food_eaten"@,
    }
}

/// The scoring whose column the order goes by. It stays visible on narrow
/// screens.
pub fn active_algorithm(sort: LeaderboardSort) -> (r: &'static str)
    ensures
        r@ == sort_column(sort),
{
    match sort {
        LeaderboardSort::Rating => "weng_lin",
        LeaderboardSort::FoodEaten => "food_eaten",
    }
}

/// The snake at the given rank.
pub open spec fn rank_row(
    leaderboard_id: Id,
    viewer: Option<Id>,
    rank: int,
    entry: RankedEntry,
) -> RankRowView {
    RankRowView {
        rank: decimal_two(rank),
        top: rank <= 3,
        you: viewer == Some(entry.user_id),
        color: entry.snake_color@,
        href: entry_path(leaderboard_id, entry.leaderboard_entry_id),
        name: entry.snake_name@,
        owner: entry.owner_login@,
        owner_href: user_path(entry.owner_login@),
        games_played: entry.games_played as int,
        first_places: entry.first_place_finishes as int,
    }
}

/// The ranked snakes of a page, counted on from the pages before it.
pub open spec fn rank_rows(
    leaderboard_id: Id,
    viewer: Option<Id>,
    rank_start: int,
    ranked: Seq<RankedEntry>,
) -> Seq<RankRowView> {
    Seq::new(
        ranked.len(),
        |i: int| rank_row(leaderboard_id, viewer, rank_start + i + 1, ranked[i]),
    )
}

fn list_ranked(
    leaderboard_id: Id,
    viewer: Option<Id>,
    rank_start: i64,
    ranked: &[RankedEntry],
) -> (r: Vec<RankRow>)
    requires
        rank_start + ranked@.len() <= i64::MAX,
        rank_start >= 0,
    ensures
        views(r@) == rank_rows(leaderboard_id, viewer, rank_start as int, ranked@),
{
    let mut rows: Vec<RankRow> = Vec::new();
    let mut i: usize = 0;
    while i < ranked.len()
        invariant
            i <= ranked.len(),
            rows@.len() == i,
            rank_start + ranked@.len() <= i64::MAX,
            rank_start >= 0,
            forall|k: int|
                0 <= k < i ==> (#[trigger] rows@[k])@ == rank_row(
                    leaderboard_id,
                    viewer,
                    rank_start + k + 1,
                    ranked@[k],
                ),
        decreases ranked.len() - i,
    {
        let entry: &RankedEntry = &ranked[i];
        let rank: i64 = rank_start + i as i64 + 1;
        rows.push(
            RankRow {
                rank: decimal_two_text(rank),
                top: rank <= 3,
                you: is_id(viewer, entry.user_id),
                color: entry.snake_color.clone(),
                href: entry_url(leaderboard_id, entry.leaderboard_entry_id),
                name: entry.snake_name.clone(),
                owner: entry.owner_login.clone(),
                owner_href: user_url(entry.owner_login.as_str()),
                games_played: entry.games_played,
                first_places: entry.first_place_finishes,
            },
        );
        i = i + 1;
    }
    assert(views(rows@) =~= rank_rows(leaderboard_id, viewer, rank_start as int, ranked@));
    rows
}

/// The link to a page of the ranking.
pub open spec fn ranking_link(leaderboard_id: Id, sort: LeaderboardSort, page: int) -> Seq<char> {
    ladder_path(leaderboard_id) + "?sort="@ + sort.text() + "&page="@ + decimal(page)
}

fn ranking_url(leaderboard_id: Id, sort: LeaderboardSort, page: i64) -> (r: String)
    ensures
        r@ == ranking_link(leaderboard_id, sort, page as int),
{
    ladder_url(leaderboard_id).concat("?sort=").concat(sort.as_str()).concat("&page=").concat(
        decimal_text(page).as_str(),
    )
}

/// The place of a page among all of them.
pub open spec fn page_position(page: int, pages: int) -> Seq<char> {
    "Page "@ + decimal(page + 1) + " of "@ + decimal(pages)
}

/// The place of a page among all of them.
pub fn position_text(page: i64, pages: i64) -> (r: String)
    requires
        page < pages,
    ensures
        r@ == page_position(page as int, pages as int),
{
    "Page ".to_owned().concat(decimal_text(page + 1).as_str()).concat(" of ").concat(
        decimal_text(pages).as_str(),
    )
}

/// The links beside a page of the ranking: back unless it is the first, on
/// unless it is the last, and its place where there are several.
pub open spec fn ranking_pager(
    leaderboard_id: Id,
    sort: LeaderboardSort,
    page: int,
    pages: int,
) -> PagerView {
    PagerView {
        previous: if page > 0 {
            Some(ranking_link(leaderboard_id, sort, page - 1))
        } else {
            None
        },
        position: if pages > 1 {
            Some(page_position(page, pages))
        } else {
            None
        },
        next: if page < pages - 1 {
            Some(ranking_link(leaderboard_id, sort, page + 1))
        } else {
            None
        },
    }
}

fn make_ranking_pager(leaderboard_id: Id, sort: LeaderboardSort, page: i64, pages: i64) -> (r:
    Pager)
    requires
        0 <= page < pages,
    ensures
        r@ == ranking_pager(leaderboard_id, sort, page as int, pages as int),
{
    let previous: Option<String> = if page > 0 {
        Some(ranking_url(leaderboard_id, sort, page - 1))
    } else {
        None
    };
    let position: Option<String> = if pages > 1 {
        Some(position_text(page, pages))
    } else {
        None
    };
    let next: Option<String> = if page < pages - 1 {
        Some(ranking_url(leaderboard_id, sort, page + 1))
    } else {
        None
    };
    Pager { previous, position, next }
}

/// Which of the ranked snakes are shown.
pub open spec fn showing(rank_start: int, shown: int, total_ranked: int) -> Seq<char> {
    "Showing "@ + decimal(rank_start + 1) + "–"@ + decimal(rank_start + shown) + " of "@ + decimal(
        total_ranked,
    ) + " ranked snakes"@
}

/// A snake that is not ranked yet.
pub open spec fn placement_row(
    leaderboard_id: Id,
    min_games: int,
    entry: RankedEntry,
) -> PlacementRowView {
    PlacementRowView {
        color: entry.snake_color@,
        href: entry_path(leaderboard_id, entry.leaderboard_entry_id),
        name: entry.snake_name@,
        owner: entry.owner_login@,
        owner_href: user_path(entry.owner_login@),
        games_played: entry.games_played as int,
        games_remaining: decimal(min_games - entry.games_played),
    }
}

fn list_placement(leaderboard_id: Id, min_games: i32, placement: &[RankedEntry]) -> (r: Vec<
    PlacementRow,
>)
    ensures
        views(r@) == Seq::new(
            placement@.len(),
            |i: int| placement_row(leaderboard_id, min_games as int, placement@[i]),
        ),
{
    let mut rows: Vec<PlacementRow> = Vec::new();
    let mut i: usize = 0;
    while i < placement.len()
        invariant
            i <= placement.len(),
            rows@.len() == i,
            forall|k: int|
                0 <= k < i ==> (#[trigger] rows@[k])@ == placement_row(
                    leaderboard_id,
                    min_games as int,
                    placement@[k],
                ),
        decreases placement.len() - i,
    {
        let entry: &RankedEntry = &placement[i];
        rows.push(
            PlacementRow {
                color: entry.snake_color.clone(),
                href: entry_url(leaderboard_id, entry.leaderboard_entry_id),
                name: entry.snake_name.clone(),
                owner: entry.owner_login.clone(),
                owner_href: user_url(entry.owner_login.as_str()),
                games_played: entry.games_played,
                games_remaining: decimal_text(min_games as i64 - entry.games_played as i64),
            },
        );
        i = i + 1;
    }
    assert(views(rows@) =~= Seq::new(
        placement@.len(),
        |i: int| placement_row(leaderboard_id, min_games as int, placement@[i]),
    ));
    rows
}

/// What a snake got out of a recent game.
pub open spec fn activity_row(
    leaderboard_id: Id,
    now: Timestamp,
    event: ActivityEvent,
) -> ActivityRowView {
    ActivityRowView {
        ago: ago(seconds_between(now, event.created_at)),
        href: entry_path(leaderboard_id, event.leaderboard_entry_id),
        name: event.snake_name@,
        class: "place p"@ + decimal(event.placement as int),
        place: ordinal_word(event.placement as int),
    }
}

/// Whether the calendar reaches every one of these games.
pub open spec fn activity_dated(activity: Seq<ActivityEvent>) -> bool {
    forall|i: int| 0 <= i < activity.len() ==> (#[trigger] activity[i]).created_at.valid()
}

fn list_activity(leaderboard_id: Id, now: Timestamp, activity: &[ActivityEvent]) -> (r: Vec<
    ActivityRow,
>)
    requires
        now.valid(),
        activity_dated(activity@),
    ensures
        views(r@) == Seq::new(
            activity@.len(),
            |i: int| activity_row(leaderboard_id, now, activity@[i]),
        ),
{
    let mut rows: Vec<ActivityRow> = Vec::new();
    let mut i: usize = 0;
    while i < activity.len()
        invariant
            i <= activity.len(),
            rows@.len() == i,
            now.valid(),
            activity_dated(activity@),
            forall|k: int|
                0 <= k < i ==> (#[trigger] rows@[k])@ == activity_row(
                    leaderboard_id,
                    now,
                    activity@[k],
                ),
        decreases activity.len() - i,
    {
        let event: &ActivityEvent = &activity[i];
        rows.push(
            ActivityRow {
                ago: fmt_ago_at(event.created_at, now),
                href: entry_url(leaderboard_id, event.leaderboard_entry_id),
                name: event.snake_name.clone(),
                class: "place p".to_owned().concat(decimal_text(event.placement as i64).as_str()),
                place: ordinal(event.placement),
            },
        );
        i = i + 1;
    }
    assert(views(rows@) =~= Seq::new(
        activity@.len(),
        |i: int| activity_row(leaderboard_id, now, activity@[i]),
    ));
    rows
}

/// The first of these snakes with the given identifier.
pub open spec fn find_snake(snakes: Seq<Battlesnake>, battlesnake_id: Id) -> Option<Battlesnake>
    decreases snakes.len(),
{
    if snakes.len() == 0 {
        None
    } else if snakes[0].battlesnake_id == battlesnake_id {
        Some(snakes[0])
    } else {
        find_snake(snakes.drop_first(), battlesnake_id)
    }
}

fn snake_at(snakes: &[Battlesnake], battlesnake_id: Id) -> (r: Option<usize>)
    ensures
        match r {
            Some(i) => i < snakes@.len() && find_snake(snakes@, battlesnake_id) == Some(
                snakes@[i as int],
            ),
            None => find_snake(snakes@, battlesnake_id) is None,
        },
{
    let mut i: usize = 0;
    assert(snakes@.skip(0) =~= snakes@);
    while i < snakes.len()
        invariant
            i <= snakes.len(),
            find_snake(snakes@, battlesnake_id) == find_snake(
                snakes@.skip(i as int),
                battlesnake_id,
            ),
        decreases snakes.len() - i,
    {
        assert(snakes@.skip(i as int).drop_first() =~= snakes@.skip(i + 1));
        assert(snakes@.skip(i as int)[0] == snakes@[i as int]);
        if snakes[i].battlesnake_id == battlesnake_id {
            return Some(i);
        }
        i = i + 1;
    }
    None
}

/// How a membership stands: active until it is paused, and marked where a
/// failed health check paused it.
pub open spec fn mine_state(entry: LeaderboardEntry, health: Seq<char>) -> MineState {
    if entry.disabled_at is None {
        MineState::Active
    } else if opt_text(entry.disabled_reason) == Some(health) {
        MineState::AutoPaused
    } else {
        MineState::Paused
    }
}

/// A membership of the viewer.
pub open spec fn mine_row(
    place: int,
    entry: LeaderboardEntry,
    snake: Battlesnake,
    health: Seq<char>,
) -> MineRowView {
    MineRowView {
        place,
        color: snake.color@,
        name: snake.name@,
        state: mine_state(entry, health),
        profile: profile_path(snake.battlesnake_id),
        battlesnake_id: snake.battlesnake_id.text(),
        leaderboard_entry_id: entry.leaderboard_entry_id.text(),
        games_played: entry.games_played as int,
    }
}

/// The memberships of the viewer, as far as their snakes are there.
pub open spec fn mine_rows(
    entries: Seq<LeaderboardEntry>,
    snakes: Seq<Battlesnake>,
    health: Seq<char>,
) -> Seq<MineRowView>
    decreases entries.len(),
{
    if entries.len() == 0 {
        Seq::empty()
    } else {
        let before = mine_rows(entries.drop_last(), snakes, health);
        match find_snake(snakes, entries.last().battlesnake_id) {
            Some(snake) => before.push(
                mine_row(entries.len() - 1, entries.last(), snake, health),
            ),
            None => before,
        }
    }
}

fn state_of(entry: &LeaderboardEntry, health: &str) -> (r: MineState)
    ensures
        r == mine_state(*entry, health@),
{
    if entry.disabled_at.is_none() {
        return MineState::Active;
    }
    match &entry.disabled_reason {
        Some(reason) => if same_text(reason.as_str(), health) {
            MineState::AutoPaused
        } else {
            MineState::Paused
        },
        None => MineState::Paused,
    }
}

fn list_mine(entries: &[LeaderboardEntry], snakes: &[Battlesnake], health: &str) -> (r: Vec<
    MineRow,
>)
    ensures
        views(r@) == mine_rows(entries@, snakes@, health@),
{
    let mut rows: Vec<MineRow> = Vec::new();
    let mut i: usize = 0;
    assert(entries@.take(0) =~= Seq::<LeaderboardEntry>::empty());
    assert(views(rows@) =~= mine_rows(entries@.take(0), snakes@, health@));
    while i < entries.len()
        invariant
            i <= entries.len(),
            views(rows@) == mine_rows(entries@.take(i as int), snakes@, health@),
        decreases entries.len() - i,
    {
        let entry: &LeaderboardEntry = &entries[i];
        let ghost before = rows@;
        assert(entries@.take(i + 1).drop_last() =~= entries@.take(i as int));
        match snake_at(snakes, entry.battlesnake_id) {
            Some(k) => {
                let snake: &Battlesnake = &snakes[k];
                rows.push(
                    MineRow {
                        place: i,
                        color: snake.color.clone(),
                        name: snake.name.clone(),
                        state: state_of(entry, health),
                        profile: profile_url(snake.battlesnake_id),
                        battlesnake_id: id_text(snake.battlesnake_id),
                        leaderboard_entry_id: id_text(entry.leaderboard_entry_id),
                        games_played: entry.games_played,
                    },
                );
                assert(views(rows@) =~= views(before).push(rows@.last()@));
            },
            None => {},
        }
        i = i + 1;
    }
    assert(entries@.take(i as int) =~= entries@);
    rows
}

fn list_joinable(snakes: &[Battlesnake]) -> (r: Vec<Choice>)
    ensures
        views(r@) == snake_choices(snakes@),
{
    let mut choices: Vec<Choice> = Vec::new();
    let mut i: usize = 0;
    while i < snakes.len()
        invariant
            i <= snakes.len(),
            choices@.len() == i,
            forall|k: int|
                0 <= k < i ==> (#[trigger] choices@[k])@ == choice(
                    snakes@[k].battlesnake_id.text(),
                    snakes@[k].name@,
                    false,
                ),
        decreases snakes.len() - i,
    {
        let snake: &Battlesnake = &snakes[i];
        choices.push(
            Choice {
                value: id_text(snake.battlesnake_id),
                label: snake.name.clone(),
                selected: false,
            },
        );
        i = i + 1;
    }
    assert(views(choices@) =~= snake_choices(snakes@));
    choices
}

/// One of the best eaters.
pub open spec fn eater_row(leaderboard_id: Id, i: int, eater: TopEater) -> EaterRowView {
    EaterRowView {
        place: "#"@ + decimal(i + 1),
        href: entry_path(leaderboard_id, eater.leaderboard_entry_id),
        name: eater.snake_name@,
        owner: eater.owner_login@,
        owner_href: user_path(eater.owner_login@),
        food: decimal(eater.food_score as int) + " food"@,
    }
}

fn list_eaters(leaderboard_id: Id, eaters: &[TopEater]) -> (r: Vec<EaterRow>)
    ensures
        views(r@) == Seq::new(eaters@.len(), |i: int| eater_row(leaderboard_id, i, eaters@[i])),
{
    let mut rows: Vec<EaterRow> = Vec::new();
    let mut i: usize = 0;
    while i < eaters.len()
        invariant
            i <= eaters.len(),
            rows@.len() == i,
            forall|k: int|
                0 <= k < i ==> (#[trigger] rows@[k])@ == eater_row(leaderboard_id, k, eaters@[k]),
        decreases eaters.len() - i,
    {
        let eater: &TopEater = &eaters[i];
        rows.push(
            EaterRow {
                place: "#".to_owned().concat(count_text(i + 1).as_str()),
                href: entry_url(leaderboard_id, eater.leaderboard_entry_id),
                name: eater.snake_name.clone(),
                owner: eater.owner_login.clone(),
                owner_href: user_url(eater.owner_login.as_str()),
                food: decimal_text(eater.food_score).concat(" food"),
            },
        );
        i = i + 1;
    }
    assert(views(rows@) =~= Seq::new(
        eaters@.len(),
        |i: int| eater_row(leaderboard_id, i, eaters@[i]),
    ));
    rows
}

/// The page of a leaderboard.
#[derive(Debug)]
pub struct LadderPage {
    pub title: String,
    pub description: String,
    pub url: String,
    pub modes: Vec<Tab>,
    pub total_ranked: i64,
    pub total_games: i64,
    pub games_in_progress: i64,
    pub next_run: String,
    pub refresh_key: Option<String>,
    pub sorts: Vec<Tab>,
    pub active_algorithm: String,
    /// What stands in place of an empty ranking.
    pub unranked_note: String,
    pub rows: Vec<RankRow>,
    pub pager: Pager,
    pub showing: String,
    pub placement: Vec<PlacementRow>,
    pub activity: Vec<ActivityRow>,
    pub signed_in: bool,
    pub mine: Vec<MineRow>,
    pub joinable: Vec<Choice>,
    /// Whether the viewer is told to register a snake first.
    pub needs_snake: bool,
    pub eaters: Vec<EaterRow>,
}

/// The page of a leaderboard, with its texts as characters.
pub struct LadderPageView {
    pub title: Seq<char>,
    pub description: Seq<char>,
    pub url: Seq<char>,
    pub modes: Seq<TabView>,
    pub total_ranked: int,
    pub total_games: int,
    pub games_in_progress: int,
    pub next_run: Seq<char>,
    pub refresh_key: Option<Seq<char>>,
    pub sorts: Seq<TabView>,
    pub active_algorithm: Seq<char>,
    pub unranked_note: Seq<char>,
    pub rows: Seq<RankRowView>,
    pub pager: PagerView,
    pub showing: Seq<char>,
    pub placement: Seq<PlacementRowView>,
    pub activity: Seq<ActivityRowView>,
    pub signed_in: bool,
    pub mine: Seq<MineRowView>,
    pub joinable: Seq<ChoiceView>,
    pub needs_snake: bool,
    pub eaters: Seq<EaterRowView>,
}

impl View for LadderPage {
    type V = LadderPageView;

    open spec fn view(&self) -> LadderPageView {
        LadderPageView {
            title: self.title@,
            description: self.description@,
            url: self.url@,
            modes: views(self.modes@),
            total_ranked: self.total_ranked as int,
            total_games: self.total_games as int,
            games_in_progress: self.games_in_progress as int,
            next_run: self.next_run@,
            refresh_key: opt_text(self.refresh_key),
            sorts: views(self.sorts@),
            active_algorithm: self.active_algorithm@,
            unranked_note: self.unranked_note@,
            rows: views(self.rows@),
            pager: self.pager@,
            showing: self.showing@,
            placement: views(self.placement@),
            activity: views(self.activity@),
            signed_in: self.signed_in,
            mine: views(self.mine@),
            joinable: views(self.joinable@),
            needs_snake: self.needs_snake,
            eaters: views(self.eaters@),
        }
    }
}

/// What is said of a leaderboard where its page is linked.
pub open spec fn ladder_description(name: Seq<char>, total_ranked: int, total_games: int) -> Seq<
    char,
> {
    name + " leaderboard on Battlesnake Arena — "@ + decimal(total_ranked) + " ranked snakes, "@
        + decimal(total_games) + " games played."@
}

/// What stands in place of an empty ranking.
pub open spec fn unranked_text(min_games: int) -> Seq<char> {
    "No snakes have completed enough games to be ranked yet. (Minimum: "@ + decimal(min_games)
        + " games)"@
}

/// The rows that were read for somebody who is signed in.
pub open spec fn own<T>(viewer: Option<Id>, rows: Option<Vec<T>>) -> Seq<T> {
    match (viewer, rows) {
        (Some(_), Some(rows)) => rows@,
        _ => Seq::empty(),
    }
}

/// The page of a leaderboard at the time `now`, from everything that was read
/// for it.
pub open spec fn ladder_page_of(
    leaderboard_id: Id,
    viewer: Option<Id>,
    asked: Option<i64>,
    sort: LeaderboardSort,
    rules: LadderRules,
    facts: LadderFacts,
    now: Timestamp,
) -> LadderPageView {
    let lb = facts.leaderboard->0->0;
    let total_ranked = facts.total_ranked->0;
    let ranked = facts.ranked->0@;
    let placement = facts.placement->0@;
    let status = facts.status->0;
    let activity = facts.activity->0@;
    let eaters = facts.eaters->0@;
    let pages = pages_of(total_ranked as int, RANKED_PER_PAGE as int);
    let page = ranking_page(total_ranked, asked);
    let rank_start = page * RANKED_PER_PAGE;
    let snakes = own(viewer, facts.snakes);
    let entries = own(viewer, facts.entries);
    LadderPageView {
        title: lb.name@,
        description: ladder_description(lb.name@, total_ranked as int, status.total_games as int),
        url: ladder_path(leaderboard_id),
        modes: modes_of(leaderboard_id, facts.leaderboards->0@),
        total_ranked: total_ranked as int,
        total_games: status.total_games as int,
        games_in_progress: status.games_in_progress as int,
        next_run: next_run(
            rules,
            facts.active_entries->0 as int,
            status.last_game_created_at,
            now,
        ),
        refresh_key: ladder_key(status),
        sorts: sorts_of(leaderboard_id, sort),
        active_algorithm: sort_column(sort),
        unranked_note: unranked_text(rules.min_games_for_ranking as int),
        rows: rank_rows(leaderboard_id, viewer, rank_start, ranked),
        pager: ranking_pager(leaderboard_id, sort, page, pages),
        showing: showing(rank_start, ranked.len() as int, total_ranked as int),
        placement: Seq::new(
            placement.len(),
            |i: int|
                placement_row(leaderboard_id, rules.min_games_for_ranking as int, placement[i]),
        ),
        activity: Seq::new(
            activity.len(),
            |i: int| activity_row(leaderboard_id, now, activity[i]),
        ),
        signed_in: viewer is Some,
        mine: mine_rows(entries, snakes, rules.disabled_reason_health@),
        joinable: snake_choices(snakes),
        needs_snake: viewer is Some && snakes.len() == 0 && entries.len() == 0,
        eaters: Seq::new(eaters.len(), |i: int| eater_row(leaderboard_id, i, eaters[i])),
    }
}

/// Whether everything that the page shows was read, and its times and counts
/// are within reach.
pub open spec fn ladder_ready(
    leaderboard_id: Id,
    viewer: Option<Id>,
    asked: Option<i64>,
    sort: LeaderboardSort,
    rules: LadderRules,
    facts: LadderFacts,
) -> bool {
    &&& countable(facts)
    &&& ladder_next(leaderboard_id, viewer, asked, sort, facts) is Render
    &&& ranking_page(facts.total_ranked->0, asked) * RANKED_PER_PAGE + facts.ranked->0@.len()
        <= i64::MAX
    &&& run_reached(
        rules,
        facts.active_entries->0 as int,
        facts.status->0.last_game_created_at,
    )
    &&& activity_dated(facts.activity->0@)
}

fn is_activity_dated(activity: &[ActivityEvent]) -> (r: bool)
    ensures
        r == activity_dated(activity@),
{
    let mut i: usize = 0;
    while i < activity.len()
        invariant
            i <= activity.len(),
            forall|k: int| 0 <= k < i ==> (#[trigger] activity@[k]).created_at.valid(),
        decreases activity.len() - i,
    {
        if !activity[i].created_at.is_valid() {
            assert(!activity_dated(activity@)) by {
                assert(!activity@[i as int].created_at.valid());
            }
            return false;
        }
        i = i + 1;
    }
    true
}

fn is_run_reached(rules: &LadderRules, active_entries: i64, last_game: Option<Timestamp>) -> (r:
    bool)
    ensures
        r == run_reached(*rules, active_entries as int, last_game),
{
    if (active_entries as i128) < rules.min_match_size as i128 {
        return true;
    }
    match last_game {
        Some(last) => {
            if !last.is_valid() {
                return false;
            }
            let secs: i128 = last.secs as i128 + rules.matchmaker_interval_secs as i128;
            FIRST_SECOND as i128 <= secs && secs <= LAST_SECOND as i128
        },
        None => true,
    }
}

/// Whether everything that the page shows was read, and its times and counts
/// are within reach.
pub fn is_ladder_ready(
    leaderboard_id: Id,
    viewer: Option<Id>,
    asked: Option<i64>,
    sort: LeaderboardSort,
    rules: &LadderRules,
    facts: &LadderFacts,
) -> (r: bool)
    ensures
        r == ladder_ready(leaderboard_id, viewer, asked, sort, *rules, *facts),
{
    match facts.total_ranked {
        Some(total_ranked) => if total_ranked > i64::MAX - RANKED_PER_PAGE {
            return false;
        },
        None => {},
    }
    match show_leaderboard(leaderboard_id, viewer, asked, sort, facts) {
        LadderStep::Render => {},
        _ => {
            return false;
        },
    }
    match (facts.total_ranked, &facts.ranked, &facts.status, &facts.activity, facts.active_entries) {
        (Some(total_ranked), Some(ranked), Some(status), Some(activity), Some(active_entries)) => {
            let pages: i64 = page_count(total_ranked, RANKED_PER_PAGE);
            let page: i64 = shown_page(asked, pages);
            proof {
                crate::paging::pages_are_counted(total_ranked as int, RANKED_PER_PAGE as int);
            }
            let last: i128 = page as i128 * RANKED_PER_PAGE as i128 + ranked.len() as i128;
            last <= i64::MAX as i128 && is_run_reached(
                rules,
                active_entries,
                status.last_game_created_at,
            ) && is_activity_dated(activity.as_slice())
        },
        _ => false,
    }
}

/// The page of a leaderboard at the time `now`, once everything it shows was
/// read.
pub fn leaderboard_page_at(
    leaderboard_id: Id,
    viewer: Option<Id>,
    asked: Option<i64>,
    sort: LeaderboardSort,
    rules: &LadderRules,
    facts: &LadderFacts,
    now: Timestamp,
) -> (r: LadderPage)
    requires
        ladder_ready(leaderboard_id, viewer, asked, sort, *rules, *facts),
        now.valid(),
    ensures
        r@ == ladder_page_of(leaderboard_id, viewer, asked, sort, *rules, *facts, now),
{
    let total_ranked: i64 = facts.total_ranked.unwrap();
    let status: LeaderboardStatus = facts.status.unwrap();
    let active_entries: i64 = facts.active_entries.unwrap();
    let pages: i64 = page_count(total_ranked, RANKED_PER_PAGE);
    let page: i64 = shown_page(asked, pages);
    proof {
        crate::paging::pages_are_counted(total_ranked as int, RANKED_PER_PAGE as int);
    }
    let rank_start: i64 = page * RANKED_PER_PAGE;
    let lb: &Leaderboard = facts.leaderboard.as_ref().unwrap().as_ref().unwrap();
    let leaderboards: &Vec<Leaderboard> = facts.leaderboards.as_ref().unwrap();
    let ranked: &Vec<RankedEntry> = facts.ranked.as_ref().unwrap();
    let placement: &Vec<RankedEntry> = facts.placement.as_ref().unwrap();
    let activity: &Vec<ActivityEvent> = facts.activity.as_ref().unwrap();
    let eaters: &Vec<TopEater> = facts.eaters.as_ref().unwrap();
    let no_snakes: Vec<Battlesnake> = Vec::new();
    let no_entries: Vec<LeaderboardEntry> = Vec::new();
    let snakes: &[Battlesnake] = match (viewer, &facts.snakes) {
        (Some(_), Some(snakes)) => snakes.as_slice(),
        _ => no_snakes.as_slice(),
    };
    let entries: &[LeaderboardEntry] = match (viewer, &facts.entries) {
        (Some(_), Some(entries)) => entries.as_slice(),
        _ => no_entries.as_slice(),
    };
    assert(snakes@ =~= own(viewer, facts.snakes));
    assert(entries@ =~= own(viewer, facts.entries));
    let description: String = lb.name.clone().concat(
        " leaderboard on Battlesnake Arena — ",
    ).concat(decimal_text(total_ranked).as_str()).concat(" ranked snakes, ").concat(
        decimal_text(status.total_games).as_str(),
    ).concat(" games played.");
    let unranked_note: String =
        "No snakes have completed enough games to be ranked yet. (Minimum: ".to_owned().concat(
        decimal_text(rules.min_games_for_ranking as i64).as_str(),
    ).concat(" games)");
    let shown: String = "Showing ".to_owned().concat(
        decimal_text(rank_start + 1).as_str(),
    ).concat("–").concat(decimal_text(rank_start + ranked.len() as i64).as_str()).concat(
        " of ",
    ).concat(decimal_text(total_ranked).as_str()).concat(" ranked snakes");
    LadderPage {
        title: lb.name.clone(),
        description,
        url: ladder_url(leaderboard_id),
        modes: list_modes(leaderboard_id, leaderboards.as_slice()),
        total_ranked,
        total_games: status.total_games,
        games_in_progress: status.games_in_progress,
        next_run: next_run_text(rules, active_entries, status.last_game_created_at, now),
        refresh_key: ladder_key_text(&status),
        sorts: list_sorts(leaderboard_id, sort),
        active_algorithm: active_algorithm(sort).to_owned(),
        unranked_note,
        rows: list_ranked(leaderboard_id, viewer, rank_start, ranked.as_slice()),
        pager: make_ranking_pager(leaderboard_id, sort, page, pages),
        showing: shown,
        placement: list_placement(
            leaderboard_id,
            rules.min_games_for_ranking,
            placement.as_slice(),
        ),
        activity: list_activity(leaderboard_id, now, activity.as_slice()),
        signed_in: viewer.is_some(),
        mine: list_mine(entries, snakes, rules.disabled_reason_health.as_str()),
        joinable: list_joinable(snakes),
        needs_snake: viewer.is_some() && snakes.len() == 0 && entries.len() == 0,
        eaters: list_eaters(leaderboard_id, eaters.as_slice()),
    }
}

/// The page of a leaderboard as it is now.
pub fn leaderboard_page(
    leaderboard_id: Id,
    viewer: Option<Id>,
    asked: Option<i64>,
    sort: LeaderboardSort,
    rules: &LadderRules,
    facts: &LadderFacts,
) -> (r: LadderPage)
    requires
        ladder_ready(leaderboard_id, viewer, asked, sort, *rules, *facts),
    ensures
        exists|now: Timestamp| #[trigger]
            now.valid() && now.secs >= 0 && r@ == ladder_page_of(
                leaderboard_id,
                viewer,
                asked,
                sort,
                *rules,
                *facts,
                now,
            ),
{
    let current: Timestamp = now();
    leaderboard_page_at(leaderboard_id, viewer, asked, sort, rules, facts, current)
}

// Laws.

/// The part of a ranking that stands on a page.
pub open spec fn on_page(all: Seq<RankedEntry>, page: int) -> Seq<RankedEntry> {
    let from = page * RANKED_PER_PAGE;
    let to = (page + 1) * RANKED_PER_PAGE;
    all.subrange(
        from,
        if to <= all.len() {
            to
        } else {
            all.len() as int
        },
    )
}

/// Every ranked snake stands on exactly one page, asking for that page shows
/// it, and there it has the rank of its place in the whole ranking.
pub proof fn every_snake_is_shown_at_its_rank(
    leaderboard_id: Id,
    viewer: Option<Id>,
    all: Seq<RankedEntry>,
    i: int,
) -> (page: int)
    requires
        0 <= i < all.len(),
        all.len() + RANKED_PER_PAGE <= i64::MAX,
    ensures
        0 <= page < pages_of(all.len() as int, RANKED_PER_PAGE as int),
        crate::paging::stands_on(i, page, RANKED_PER_PAGE as int),
        forall|other: int| #[trigger]
            crate::paging::stands_on(i, other, RANKED_PER_PAGE as int) ==> other == page,
        ranking_page(all.len() as i64, Some(page as i64)) == page,
        rank_rows(leaderboard_id, viewer, page * RANKED_PER_PAGE, on_page(all, page))[i - page
            * RANKED_PER_PAGE] == rank_row(leaderboard_id, viewer, i + 1, all[i]),
{
    let page = crate::paging::every_entry_stands_on_one_page(
        i,
        all.len() as int,
        RANKED_PER_PAGE as int,
    );
    crate::paging::pages_are_counted(all.len() as int, RANKED_PER_PAGE as int);
    assert(on_page(all, page)[i - page * RANKED_PER_PAGE] == all[i]);
    page
}

/// The links beside a page of the ranking lead to pages that exist.
pub proof fn the_pager_leads_to_existing_pages(total_ranked: i64, asked: Option<i64>)
    requires
        total_ranked + RANKED_PER_PAGE <= i64::MAX,
    ensures
        ({
            let page = ranking_page(total_ranked, asked);
            let pages = pages_of(total_ranked as int, RANKED_PER_PAGE as int);
            &&& page > 0 ==> ranking_page(total_ranked, Some((page - 1) as i64)) == page - 1
            &&& page < pages - 1 ==> ranking_page(total_ranked, Some((page + 1) as i64)) == page
                + 1
        }),
{
    crate::paging::pages_are_counted(total_ranked as int, RANKED_PER_PAGE as int);
}

/// Every leaderboard of the list is shown under its own name, leads to its own
/// page, and is active unless it was disabled.
pub proof fn the_list_shows_each_leaderboard(lb: Leaderboard)
    ensures
        leaderboard_row(lb).href == "/leaderboards/"@ + lb.leaderboard_id.text(),
        leaderboard_row(lb).name == lb.name@,
        leaderboard_row(lb).active <==> lb.disabled_at is None,
{
}

/// Each row of the ranking shows the very entry that stands there: its rank
/// counted on from the pages before, its snake, its owner, how many games it
/// played and how many of them it won. The best three stand out, and so do the
/// viewer's own.
pub proof fn ranked_rows_show_their_entries(
    leaderboard_id: Id,
    viewer: Option<Id>,
    asked: Option<i64>,
    sort: LeaderboardSort,
    rules: LadderRules,
    facts: LadderFacts,
    now: Timestamp,
    i: int,
)
    requires
        facts.total_ranked is Some,
        facts.ranked is Some,
        0 <= i < facts.ranked->0@.len(),
    ensures
        ({
            let shown = ladder_page_of(leaderboard_id, viewer, asked, sort, rules, facts, now);
            let entry = facts.ranked->0@[i];
            let row = shown.rows[i];
            let page = page_shown(asked, pages_of(facts.total_ranked->0 as int, 50));
            let rank = page * 50 + i + 1;
            &&& shown.rows.len() == facts.ranked->0@.len()
            &&& row.games_played == entry.games_played
            &&& row.first_places == entry.first_place_finishes
            &&& row.rank == decimal_two(rank)
            &&& row.top <==> rank <= 3
            &&& row.you <==> viewer is Some && viewer->0 == entry.user_id
            &&& row.name == entry.snake_name@
            &&& row.color == entry.snake_color@
            &&& row.href == "/leaderboards/"@ + leaderboard_id.text() + "/entries/"@
                + entry.leaderboard_entry_id.text()
            &&& row.owner == entry.owner_login@
            &&& row.owner_href == "/users/"@ + entry.owner_login@
        }),
{
}

/// Each snake that is not ranked yet is shown with its own games, and with as
/// many to go as make up the minimum.
pub proof fn unranked_rows_show_their_entries(
    leaderboard_id: Id,
    viewer: Option<Id>,
    asked: Option<i64>,
    sort: LeaderboardSort,
    rules: LadderRules,
    facts: LadderFacts,
    now: Timestamp,
    i: int,
)
    requires
        facts.placement is Some,
        0 <= i < facts.placement->0@.len(),
    ensures
        ({
            let shown = ladder_page_of(leaderboard_id, viewer, asked, sort, rules, facts, now);
            let entry = facts.placement->0@[i];
            let row = shown.placement[i];
            &&& shown.placement.len() == facts.placement->0@.len()
            &&& row.games_played == entry.games_played
            &&& exists|left: int|
                row.games_remaining == #[trigger] decimal(left) && left + entry.games_played
                    == rules.min_games_for_ranking
            &&& row.name == entry.snake_name@
            &&& row.color == entry.snake_color@
            &&& row.href == "/leaderboards/"@ + leaderboard_id.text() + "/entries/"@
                + entry.leaderboard_entry_id.text()
            &&& row.owner == entry.owner_login@
            &&& row.owner_href == "/users/"@ + entry.owner_login@
        }),
{
    let left = rules.min_games_for_ranking - facts.placement->0@[i].games_played;
    assert(left + facts.placement->0@[i].games_played == rules.min_games_for_ranking);
}

/// Each recent result and each of the best eaters is shown as it was read: who
/// it was, at what place, how long ago, and how much was eaten.
pub proof fn recent_results_and_eaters_are_shown(
    leaderboard_id: Id,
    viewer: Option<Id>,
    asked: Option<i64>,
    sort: LeaderboardSort,
    rules: LadderRules,
    facts: LadderFacts,
    now: Timestamp,
    i: int,
)
    requires
        facts.activity is Some,
        facts.eaters is Some,
    ensures
        ({
            let shown = ladder_page_of(leaderboard_id, viewer, asked, sort, rules, facts, now);
            let at = "/leaderboards/"@ + leaderboard_id.text() + "/entries/"@;
            &&& shown.activity.len() == facts.activity->0@.len()
            &&& shown.eaters.len() == facts.eaters->0@.len()
            &&& 0 <= i < facts.activity->0@.len() ==> {
                let event = facts.activity->0@[i];
                let row = shown.activity[i];
                &&& row.name == event.snake_name@
                &&& row.href == at + event.leaderboard_entry_id.text()
                &&& row.ago == ago(seconds_between(now, event.created_at))
                &&& row.class == "place p"@ + decimal(event.placement as int)
                &&& event.placement == 1 ==> row.place == "1st"@
                &&& event.placement == 2 ==> row.place == "2nd"@
                &&& event.placement == 3 ==> row.place == "3rd"@
                &&& !(1 <= event.placement <= 3) ==> row.place == decimal(event.placement as int)
                    + "th"@
            }
            &&& 0 <= i < facts.eaters->0@.len() ==> {
                let eater = facts.eaters->0@[i];
                let row = shown.eaters[i];
                &&& row.place == "#"@ + decimal(i + 1)
                &&& row.name == eater.snake_name@
                &&& row.href == at + eater.leaderboard_entry_id.text()
                &&& row.owner == eater.owner_login@
                &&& row.owner_href == "/users/"@ + eater.owner_login@
                &&& row.food == decimal(eater.food_score as int) + " food"@
            }
        }),
{
}

proof fn the_first_snake_is_found(snakes: Seq<Battlesnake>, battlesnake_id: Id, j: int)
    requires
        0 <= j < snakes.len(),
        snakes[j].battlesnake_id == battlesnake_id,
        forall|k: int| 0 <= k < j ==> (#[trigger] snakes[k]).battlesnake_id != battlesnake_id,
    ensures
        find_snake(snakes, battlesnake_id) == Some(snakes[j]),
    decreases snakes.len(),
{
    if j > 0 {
        let rest = snakes.drop_first();
        assert(rest[j - 1] == snakes[j]);
        assert forall|k: int| 0 <= k < j - 1 implies (#[trigger] rest[k]).battlesnake_id
            != battlesnake_id by {
            assert(rest[k] == snakes[k + 1]);
        }
        the_first_snake_is_found(rest, battlesnake_id, j - 1);
    }
}

proof fn a_missing_snake_is_not_found(snakes: Seq<Battlesnake>, battlesnake_id: Id)
    requires
        forall|k: int|
            0 <= k < snakes.len() ==> (#[trigger] snakes[k]).battlesnake_id != battlesnake_id,
    ensures
        find_snake(snakes, battlesnake_id) is None,
    decreases snakes.len(),
{
    if snakes.len() > 0 {
        let rest = snakes.drop_first();
        assert(snakes[0].battlesnake_id != battlesnake_id);
        assert forall|k: int| 0 <= k < rest.len() implies (#[trigger] rest[k]).battlesnake_id
            != battlesnake_id by {
            assert(rest[k] == snakes[k + 1]);
        }
        a_missing_snake_is_not_found(rest, battlesnake_id);
    }
}

/// The viewer's memberships are listed one after the other, each with the
/// snake it is of: active until it is paused, and told apart where a failed
/// health check paused it. One whose snake is not there is left out.
pub proof fn own_memberships_are_listed(
    before: Seq<LeaderboardEntry>,
    entry: LeaderboardEntry,
    snakes: Seq<Battlesnake>,
    health: Seq<char>,
    j: int,
)
    ensures
        mine_rows(Seq::empty(), snakes, health) == Seq::<MineRowView>::empty(),
        (forall|k: int|
            0 <= k < snakes.len() ==> (#[trigger] snakes[k]).battlesnake_id
                != entry.battlesnake_id) ==> mine_rows(before.push(entry), snakes, health)
            == mine_rows(before, snakes, health),
        0 <= j < snakes.len() && snakes[j].battlesnake_id == entry.battlesnake_id && (forall|k: int|
            0 <= k < j ==> (#[trigger] snakes[k]).battlesnake_id != entry.battlesnake_id) ==> {
            let rows = mine_rows(before.push(entry), snakes, health);
            let row = rows.last();
            let failed = entry.disabled_reason is Some && entry.disabled_reason->0@ == health;
            &&& rows.len() == mine_rows(before, snakes, health).len() + 1
            &&& rows.drop_last() == mine_rows(before, snakes, health)
            &&& row.place == before.len()
            &&& row.name == snakes[j].name@
            &&& row.color == snakes[j].color@
            &&& row.profile == "/battlesnakes/"@ + entry.battlesnake_id.text() + "/profile"@
            &&& row.battlesnake_id == entry.battlesnake_id.text()
            &&& row.leaderboard_entry_id == entry.leaderboard_entry_id.text()
            &&& row.games_played == entry.games_played
            &&& row.state is Active <==> entry.disabled_at is None
            &&& row.state is AutoPaused <==> entry.disabled_at is Some && failed
            &&& row.state is Paused <==> entry.disabled_at is Some && !failed
        },
{
    let all = before.push(entry);
    assert(all.drop_last() =~= before);
    assert(all.last() == entry);
    if forall|k: int|
        0 <= k < snakes.len() ==> (#[trigger] snakes[k]).battlesnake_id != entry.battlesnake_id {
        a_missing_snake_is_not_found(snakes, entry.battlesnake_id);
    }
    if 0 <= j < snakes.len() && snakes[j].battlesnake_id == entry.battlesnake_id && (forall|k: int|
        0 <= k < j ==> (#[trigger] snakes[k]).battlesnake_id != entry.battlesnake_id) {
        the_first_snake_is_found(snakes, entry.battlesnake_id, j);
        assert(mine_rows(all, snakes, health).drop_last() =~= mine_rows(before, snakes, health));
    }
}

/// Whoever is signed in sees their own memberships and snakes, and is told to
/// register one where there are neither; nobody else sees any.
pub proof fn viewers_see_their_own(
    leaderboard_id: Id,
    viewer: Option<Id>,
    asked: Option<i64>,
    sort: LeaderboardSort,
    rules: LadderRules,
    facts: LadderFacts,
    now: Timestamp,
    i: int,
)
    requires
        facts.snakes is Some,
        facts.entries is Some,
    ensures
        ({
            let shown = ladder_page_of(leaderboard_id, viewer, asked, sort, rules, facts, now);
            let snakes = facts.snakes->0@;
            let entries = facts.entries->0@;
            &&& shown.signed_in <==> viewer is Some
            &&& viewer is None ==> shown.joinable.len() == 0 && shown.mine.len() == 0
                && !shown.needs_snake
            &&& viewer is Some ==> {
                &&& shown.joinable.len() == snakes.len()
                &&& 0 <= i < snakes.len() ==> shown.joinable[i].value
                    == snakes[i].battlesnake_id.text() && shown.joinable[i].label == snakes[i].name@
                    && !shown.joinable[i].selected
                &&& shown.mine == mine_rows(entries, snakes, rules.disabled_reason_health@)
                &&& shown.needs_snake <==> snakes.len() == 0 && entries.len() == 0
            }
        }),
{
}

/// The page tells how many snakes are ranked, how many games were and are
/// being played, and which of the ranked snakes it shows.
pub proof fn the_page_counts_snakes_and_games(
    leaderboard_id: Id,
    viewer: Option<Id>,
    asked: Option<i64>,
    sort: LeaderboardSort,
    rules: LadderRules,
    facts: LadderFacts,
    now: Timestamp,
)
    requires
        facts.total_ranked is Some,
        facts.ranked is Some,
        facts.status is Some,
    ensures
        ({
            let shown = ladder_page_of(leaderboard_id, viewer, asked, sort, rules, facts, now);
            let name = facts.leaderboard->0->0.name@;
            let status = facts.status->0;
            let page = page_shown(asked, pages_of(facts.total_ranked->0 as int, 50));
            &&& shown.title == name
            &&& shown.url == "/leaderboards/"@ + leaderboard_id.text()
            &&& shown.total_ranked == facts.total_ranked->0
            &&& shown.total_games == status.total_games
            &&& shown.games_in_progress == status.games_in_progress
            &&& shown.description == name + " leaderboard on Battlesnake Arena — "@ + decimal(
                facts.total_ranked->0 as int,
            ) + " ranked snakes, "@ + decimal(status.total_games as int) + " games played."@
            &&& shown.showing == "Showing "@ + decimal(page * 50 + 1) + "–"@ + decimal(
                page * 50 + facts.ranked->0@.len(),
            ) + " of "@ + decimal(facts.total_ranked->0 as int) + " ranked snakes"@
            &&& shown.refresh_key is Some <==> status.games_in_progress > 0
            &&& shown.refresh_key is Some ==> shown.refresh_key->0 == "leaderboard:"@ + decimal(
                status.total_games as int,
            ) + ":"@ + decimal(status.games_in_progress as int) + ":"@ + (
            if status.last_game_created_at is Some {
                decimal(status.last_game_created_at->0.secs as int)
            } else {
                "none"@
            })
            &&& shown.unranked_note
                == "No snakes have completed enough games to be ranked yet. (Minimum: "@ + decimal(
                rules.min_games_for_ranking as int,
            ) + " games)"@
        }),
{
}

/// The next run of the matchmaker is told as it lies ahead of now, an interval
/// after the last game. While there are too few snakes it is said how many
/// there are and how many it takes, and before the first game that it is
/// waited for.
pub proof fn the_next_run_follows_the_last_game(
    leaderboard_id: Id,
    viewer: Option<Id>,
    asked: Option<i64>,
    sort: LeaderboardSort,
    rules: LadderRules,
    facts: LadderFacts,
    now: Timestamp,
)
    requires
        facts.status is Some,
        facts.active_entries is Some,
    ensures
        ({
            let told = ladder_page_of(
                leaderboard_id,
                viewer,
                asked,
                sort,
                rules,
                facts,
                now,
            ).next_run;
            let enabled = facts.active_entries->0;
            let last = facts.status->0.last_game_created_at;
            &&& enabled < rules.min_match_size ==> told == "waiting for at least "@ + decimal(
                rules.min_match_size as int,
            ) + " healthy snakes ("@ + decimal(enabled as int) + " enabled)"@
            &&& enabled >= rules.min_match_size && last is None ==> told
                == "waiting for first games"@
            &&& enabled >= rules.min_match_size && last is Some && reaches(
                last->0,
                rules.matchmaker_interval_secs as int,
            ) ==> exists|run: Timestamp|
                told == #[trigger] relative(run, now) && run.secs == last->0.secs
                    + rules.matchmaker_interval_secs && run.nanos == last->0.nanos
        }),
{
    let last = facts.status->0.last_game_created_at;
    if last is Some && reaches(last->0, rules.matchmaker_interval_secs as int) {
        let run = later_by(last->0, rules.matchmaker_interval_secs as int);
        assert(run.secs == last->0.secs + rules.matchmaker_interval_secs);
    }
}

/// Every other leaderboard is a link away, and so is the other order; the ones
/// that are shown are not links.
pub proof fn other_views_are_a_link_away(
    leaderboard_id: Id,
    viewer: Option<Id>,
    asked: Option<i64>,
    sort: LeaderboardSort,
    rules: LadderRules,
    facts: LadderFacts,
    now: Timestamp,
    i: int,
)
    requires
        facts.leaderboards is Some,
        0 <= i < facts.leaderboards->0@.len(),
    ensures
        ({
            let shown = ladder_page_of(leaderboard_id, viewer, asked, sort, rules, facts, now);
            let all = facts.leaderboards->0@;
            let here = "/leaderboards/"@ + leaderboard_id.text();
            &&& all.len() == 1 ==> shown.modes.len() == 0
            &&& all.len() > 1 ==> {
                &&& shown.modes.len() == all.len()
                &&& shown.modes[i].name == all[i].name@
                &&& all[i].leaderboard_id == leaderboard_id ==> shown.modes[i].href is None
                &&& all[i].leaderboard_id != leaderboard_id ==> shown.modes[i].href == Some(
                    "/leaderboards/"@ + all[i].leaderboard_id.text(),
                )
            }
            &&& shown.sorts.len() == 2
            &&& sort is Rating ==> {
                &&& shown.sorts[0].href is None
                &&& shown.sorts[1].href == Some(here + "?sort=food_eaten"@)
                &&& shown.active_algorithm == "weng_lin"@
            }
            &&& sort is FoodEaten ==> {
                &&& shown.sorts[0].href == Some(here + "?sort=rating"@)
                &&& shown.sorts[1].href is None
                &&& shown.active_algorithm == "food_eaten"@
            }
        }),
{
}

/// The pages beside the one that is shown are a link away, in the same order:
/// none before the first and none behind the last.
pub proof fn the_pager_leads_one_page_on_and_back(
    leaderboard_id: Id,
    viewer: Option<Id>,
    asked: Option<i64>,
    sort: LeaderboardSort,
    rules: LadderRules,
    facts: LadderFacts,
    now: Timestamp,
)
    requires
        facts.total_ranked is Some,
    ensures
        ({
            let pager = ladder_page_of(leaderboard_id, viewer, asked, sort, rules, facts, now).pager;
            let pages = pages_of(facts.total_ranked->0 as int, 50);
            let page = page_shown(asked, pages);
            let order = match sort {
                LeaderboardSort::Rating => "rating"@,
                LeaderboardSort::FoodEaten => "food_eaten"@,
            };
            let link = "/leaderboards/"@ + leaderboard_id.text() + "?sort="@ + order + "&page="@;
            &&& pager.previous is Some <==> page > 0
            &&& pager.previous is Some ==> pager.previous->0 == link + decimal(page - 1)
            &&& pager.next is Some <==> page + 1 < pages
            &&& pager.next is Some ==> pager.next->0 == link + decimal(page + 1)
            &&& pager.position is Some <==> pages > 1
            &&& pager.position is Some ==> pager.position->0 == "Page "@ + decimal(page + 1)
                + " of "@ + decimal(pages)
        }),
{
}

/// What is read for a page is read about its own leaderboard and viewer, and a
/// page is made once all of it is there: the ranking of the page that is
/// shown, in the order that was asked for, and tags and scores of just the
/// snakes that are shown.
pub proof fn ladders_are_made_of_what_they_need(
    leaderboard_id: Id,
    viewer: Option<Id>,
    asked: Option<i64>,
    sort: LeaderboardSort,
    facts: LadderFacts,
)
    ensures
        ({
            let step = ladder_next(leaderboard_id, viewer, asked, sort, facts);
            let ranked = facts.ranked->0@;
            let placement = facts.placement->0@;
            &&& facts.leaderboard is None ==> step == (LadderStepView::LoadLeaderboard {
                leaderboard_id,
            })
            &&& facts.leaderboard == Some(None::<Leaderboard>) ==> step is NotFound
            &&& facts.leaderboard is Some && facts.leaderboard->0 is Some ==> !(step is NotFound)
            &&& step is LoadRanked ==> {
                &&& step->LoadRanked_page == page_shown(
                    asked,
                    pages_of(facts.total_ranked->0 as int, 50),
                )
                &&& step->LoadRanked_per_page == 50
                &&& step->LoadRanked_sort == sort
            }
            &&& step is LoadActivity ==> step == (LadderStepView::LoadActivity { limit: 8 })
            &&& step is LoadTopEaters ==> step == (LadderStepView::LoadTopEaters { limit: 3 })
            &&& step is LoadSnakes ==> viewer is Some && step == (LadderStepView::LoadSnakes {
                user_id: viewer->0,
            })
            &&& step is LoadEntries ==> viewer is Some && step == (LadderStepView::LoadEntries {
                user_id: viewer->0,
            })
            &&& step is LoadTags ==> step->battlesnake_ids == Seq::new(
                ranked.len() + placement.len(),
                |k: int|
                    if k < ranked.len() {
                        ranked[k].battlesnake_id
                    } else {
                        placement[k - ranked.len()].battlesnake_id
                    },
            )
            &&& step is LoadScores ==> step->entry_ids == Seq::new(
                ranked.len() + placement.len(),
                |k: int|
                    if k < ranked.len() {
                        ranked[k].leaderboard_entry_id
                    } else {
                        placement[k - ranked.len()].leaderboard_entry_id
                    },
            )
            &&& step is Render ==> {
                &&& facts.leaderboard is Some && facts.leaderboard->0 is Some
                &&& facts.leaderboards is Some && facts.total_ranked is Some && facts.ranked is Some
                &&& facts.placement is Some && facts.status is Some && facts.activity is Some
                &&& facts.eaters is Some && facts.active_entries is Some
                &&& viewer is Some ==> facts.snakes is Some && facts.entries is Some
                &&& facts.tags && facts.scores
            }
        }),
{
    let step = ladder_next(leaderboard_id, viewer, asked, sort, facts);
    let ranked = facts.ranked->0@;
    let placement = facts.placement->0@;
    if step is LoadTags {
        assert(step->battlesnake_ids =~= Seq::new(
            ranked.len() + placement.len(),
            |k: int|
                if k < ranked.len() {
                    ranked[k].battlesnake_id
                } else {
                    placement[k - ranked.len()].battlesnake_id
                },
        ));
    }
    if step is LoadScores {
        assert(step->entry_ids =~= Seq::new(
            ranked.len() + placement.len(),
            |k: int|
                if k < ranked.len() {
                    ranked[k].leaderboard_entry_id
                } else {
                    placement[k - ranked.len()].leaderboard_entry_id
                },
        ));
    }
}

} // verus!
