//! The page of a snake's membership of a leaderboard: what has to be read for
//! it and what it shows. Scores are not among it; they are laid beside the
//! rows by place.

use crate::bracket::{game_path, game_url};
use crate::ids::Id;
use crate::leaderboard_page::{
    entry_path, entry_url, ladder_path, ladder_url, page_position, position_text, user_path,
    user_url, Pager, PagerView, Tab, TabView,
};
use crate::lists::{belonging, group, group_items, ids_of, views, Grouped};
use crate::model::{Battlesnake, GameOpponent, Leaderboard, LeaderboardEntry, PlayedGame, User};
use crate::paging::{page_count, page_shown, pages_of, shown_page};
use crate::text::{decimal, decimal_text, opt_text};
use crate::time::{minute_shown, minute_text};
use crate::tournament_page::{profile_path, profile_url};
use std::collections::HashMap;
use vstd::prelude::*;
use vstd::string::StringExecFns;

verus! {

/// How many games stand on a page of the history.
pub const GAMES_PER_PAGE: i64 = 20;

/// How many games the recent form goes back.
pub const RECENT_GAMES: i64 = 5;

/// What a request for the page of a membership has read so far. What has not
/// been asked for is `None`, or false where only the presentation reads it.
#[derive(Debug)]
pub struct EntryFacts {
    pub leaderboard: Option<Option<Leaderboard>>,
    pub entry: Option<Option<LeaderboardEntry>>,
    pub snake: Option<Option<Battlesnake>>,
    pub owner: Option<Option<User>>,
    pub total_games: Option<i64>,
    pub history: Option<Vec<PlayedGame>>,
    pub opponents: Option<Vec<GameOpponent>>,
    pub rating_history: bool,
    pub rank: Option<Option<i64>>,
    pub recent: Option<Vec<PlayedGame>>,
    pub scores: bool,
}

/// What a request for the page of a membership does next. A step that names
/// nothing is about the membership that was read.
#[derive(Debug)]
pub enum EntryStep {
    LoadLeaderboard { leaderboard_id: Id },
    LoadEntry { entry_id: Id },
    NotFound { message: String },
    LoadSnake { battlesnake_id: Id },
    LoadOwner { user_id: Id },
    CountGames,
    LoadHistory { page: i64, per_page: i64 },
    LoadOpponents { game_ids: Vec<Id> },
    LoadRatingHistory,
    /// Read the rank that the rating has after so many games.
    LoadRank { games_played: i32 },
    LoadRecent { page: i64, per_page: i64 },
    LoadScores,
    Render,
}

/// What a request for the page of a membership does next, with its texts as
/// characters.
pub enum EntryStepView {
    LoadLeaderboard { leaderboard_id: Id },
    LoadEntry { entry_id: Id },
    NotFound { message: Seq<char> },
    LoadSnake { battlesnake_id: Id },
    LoadOwner { user_id: Id },
    CountGames,
    LoadHistory { page: int, per_page: int },
    LoadOpponents { game_ids: Seq<Id> },
    LoadRatingHistory,
    LoadRank { games_played: i32 },
    LoadRecent { page: int, per_page: int },
    LoadScores,
    Render,
}

impl View for EntryStep {
    type V = EntryStepView;

    open spec fn view(&self) -> EntryStepView {
        match *self {
            EntryStep::LoadLeaderboard { leaderboard_id } => EntryStepView::LoadLeaderboard {
                leaderboard_id,
            },
            EntryStep::LoadEntry { entry_id } => EntryStepView::LoadEntry { entry_id },
            EntryStep::NotFound { message } => EntryStepView::NotFound { message: message@ },
            EntryStep::LoadSnake { battlesnake_id } => EntryStepView::LoadSnake { battlesnake_id },
            EntryStep::LoadOwner { user_id } => EntryStepView::LoadOwner { user_id },
            EntryStep::CountGames => EntryStepView::CountGames,
            EntryStep::LoadHistory { page, per_page } => EntryStepView::LoadHistory {
                page: page as int,
                per_page: per_page as int,
            },
            EntryStep::LoadOpponents { game_ids } => EntryStepView::LoadOpponents {
                game_ids: game_ids@,
            },
            EntryStep::LoadRatingHistory => EntryStepView::LoadRatingHistory,
            EntryStep::LoadRank { games_played } => EntryStepView::LoadRank { games_played },
            EntryStep::LoadRecent { page, per_page } => EntryStepView::LoadRecent {
                page: page as int,
                per_page: per_page as int,
            },
            EntryStep::LoadScores => EntryStepView::LoadScores,
            EntryStep::Render => EntryStepView::Render,
        }
    }
}

/// The games of a history.
pub open spec fn game_ids_of(history: Seq<PlayedGame>) -> Seq<Id> {
    Seq::new(history.len(), |i: int| history[i].game_id)
}

/// The page of the history that is shown.
pub open spec fn history_page(total_games: i64, asked: Option<i64>) -> int {
    page_shown(asked, pages_of(total_games as int, GAMES_PER_PAGE as int))
}

/// The next step of showing a membership. The leaderboard, the membership and
/// the snake have to be there and belong together; opponents are only read
/// where there are games.
pub open spec fn entry_next(
    leaderboard_id: Id,
    entry_id: Id,
    asked: Option<i64>,
    facts: EntryFacts,
) -> EntryStepView {
    if facts.leaderboard is None {
        EntryStepView::LoadLeaderboard { leaderboard_id }
    } else if facts.leaderboard->0 is None {
        EntryStepView::NotFound { message: "Leaderboard not found"@ }
    } else if facts.entry is None {
        EntryStepView::LoadEntry { entry_id }
    } else if facts.entry->0 is None {
        EntryStepView::NotFound { message: "Leaderboard entry not found"@ }
    } else if facts.entry->0->0.leaderboard_id != leaderboard_id {
        EntryStepView::NotFound { message: "Entry does not belong to this leaderboard"@ }
    } else if facts.snake is None {
        EntryStepView::LoadSnake { battlesnake_id: facts.entry->0->0.battlesnake_id }
    } else if facts.snake->0 is None {
        EntryStepView::NotFound { message: "Snake no longer exists"@ }
    } else if facts.owner is None {
        EntryStepView::LoadOwner { user_id: facts.snake->0->0.user_id }
    } else if facts.total_games is None {
        EntryStepView::CountGames
    } else if facts.history is None {
        EntryStepView::LoadHistory {
            page: history_page(facts.total_games->0, asked),
            per_page: GAMES_PER_PAGE as int,
        }
    } else if facts.history->0@.len() > 0 && facts.opponents is None {
        EntryStepView::LoadOpponents { game_ids: game_ids_of(facts.history->0@) }
    } else if !facts.rating_history {
        EntryStepView::LoadRatingHistory
    } else if facts.rank is None {
        EntryStepView::LoadRank { games_played: facts.entry->0->0.games_played }
    } else if facts.recent is None {
        EntryStepView::LoadRecent { page: 0, per_page: RECENT_GAMES as int }
    } else if !facts.scores {
        EntryStepView::LoadScores
    } else {
        EntryStepView::Render
    }
}

/// Whether the count of games leaves room for another page.
pub open spec fn games_countable(facts: EntryFacts) -> bool {
    facts.total_games matches Some(total) ==> total + GAMES_PER_PAGE <= i64::MAX
}

fn list_game_ids(history: &[PlayedGame]) -> (r: Vec<Id>)
    ensures
        r@ == game_ids_of(history@),
{
    let id_of = |g: &PlayedGame| -> (id: Id)
        ensures
            id == g.game_id,
        { g.game_id };
    let ids: Vec<Id> = ids_of(history, id_of);
    assert(ids@ =~= game_ids_of(history@));
    ids
}

fn missing(message: &str) -> (r: EntryStep)
    ensures
        r@ == (EntryStepView::NotFound { message: message@ }),
{
    EntryStep::NotFound { message: message.to_owned() }
}

/// The page of a snake's membership of a leaderboard.
pub fn show_leaderboard_entry(
    leaderboard_id: Id,
    entry_id: Id,
    asked: Option<i64>,
    facts: &EntryFacts,
) -> (r: EntryStep)
    requires
        games_countable(*facts),
    ensures
        r@ == entry_next(leaderboard_id, entry_id, asked, *facts),
{
    match &facts.leaderboard {
        None => {
            return EntryStep::LoadLeaderboard { leaderboard_id };
        },
        Some(None) => {
            return missing("Leaderboard not found");
        },
        Some(Some(_)) => {},
    }
    let entry: &LeaderboardEntry = match &facts.entry {
        None => {
            return EntryStep::LoadEntry { entry_id };
        },
        Some(None) => {
            return missing("Leaderboard entry not found");
        },
        Some(Some(entry)) => entry,
    };
    if entry.leaderboard_id != leaderboard_id {
        return missing("Entry does not belong to this leaderboard");
    }
    let snake: &Battlesnake = match &facts.snake {
        None => {
            return EntryStep::LoadSnake { battlesnake_id: entry.battlesnake_id };
        },
        Some(None) => {
            return missing("Snake no longer exists");
        },
        Some(Some(snake)) => snake,
    };
    if facts.owner.is_none() {
        return EntryStep::LoadOwner { user_id: snake.user_id };
    }
    let total_games: i64 = match facts.total_games {
        None => {
            return EntryStep::CountGames;
        },
        Some(total_games) => total_games,
    };
    let history: &Vec<PlayedGame> = match &facts.history {
        None => {
            let pages: i64 = page_count(total_games, GAMES_PER_PAGE);
            return EntryStep::LoadHistory {
                page: shown_page(asked, pages),
                per_page: GAMES_PER_PAGE,
            };
        },
        Some(history) => history,
    };
    if history.len() > 0 && facts.opponents.is_none() {
        EntryStep::LoadOpponents { game_ids: list_game_ids(history.as_slice()) }
    } else if !facts.rating_history {
        EntryStep::LoadRatingHistory
    } else if facts.rank.is_none() {
        EntryStep::LoadRank { games_played: entry.games_played }
    } else if facts.recent.is_none() {
        EntryStep::LoadRecent { page: 0, per_page: RECENT_GAMES }
    } else if !facts.scores {
        EntryStep::LoadScores
    } else {
        EntryStep::Render
    }
}

// The page of a membership.

/// The opponents in a game, in the order in which they were read.
pub open spec fn opponents_in(opponents: Seq<GameOpponent>, game_id: Id) -> Seq<GameOpponent> {
    belonging(opponents, game_id)
}

impl Grouped for GameOpponent {
    open spec fn group_id(&self) -> Id {
        self.game_id
    }

    fn belongs_to(&self) -> (r: Id) {
        self.game_id
    }
}

/// Groups opponents by game.
pub fn group_opponents(opponents: Vec<GameOpponent>) -> (r: HashMap<u128, Vec<GameOpponent>>)
    ensures
        forall|game_id: Id| #[trigger] group(r@, game_id) == opponents_in(opponents@, game_id),
{
    group_items(opponents)
}

/// An opponent: a name, with a link where there is a membership to link to.
pub open spec fn opponent_tab(leaderboard_id: Id, opponent: GameOpponent) -> TabView {
    TabView {
        name: opponent.snake_name@,
        href: match opponent.leaderboard_entry_id {
            Some(entry_id) => Some(entry_path(leaderboard_id, entry_id)),
            None => None,
        },
    }
}

fn list_opponents(leaderboard_id: Id, opponents: &[GameOpponent]) -> (r: Vec<Tab>)
    ensures
        views(r@) == Seq::new(
            opponents@.len(),
            |i: int| opponent_tab(leaderboard_id, opponents@[i]),
        ),
{
    let mut tabs: Vec<Tab> = Vec::new();
    let mut i: usize = 0;
    while i < opponents.len()
        invariant
            i <= opponents.len(),
            tabs@.len() == i,
            forall|k: int|
                0 <= k < i ==> (#[trigger] tabs@[k])@ == opponent_tab(
                    leaderboard_id,
                    opponents@[k],
                ),
        decreases opponents.len() - i,
    {
        let opponent: &GameOpponent = &opponents[i];
        let href: Option<String> = match opponent.leaderboard_entry_id {
            Some(entry_id) => Some(entry_url(leaderboard_id, entry_id)),
            None => None,
        };
        tabs.push(Tab { name: opponent.snake_name.clone(), href });
        i = i + 1;
    }
    assert(views(tabs@) =~= Seq::new(
        opponents@.len(),
        |i: int| opponent_tab(leaderboard_id, opponents@[i]),
    ));
    tabs
}

/// The badge of a place in a game.
pub open spec fn place_label(placement: int) -> Seq<char> {
    if placement == 1 {
        "🥇 1st"@
    } else if placement == 2 {
        "🥈 2nd"@
    } else if placement == 3 {
        "🥉 3rd"@
    } else {
        decimal(placement) + "th"@
    }
}

/// The badge of a place in a game.
pub fn place_text(placement: i32) -> (r: String)
    ensures
        r@ == place_label(placement as int),
{
    if placement == 1 {
        "🥇 1st".to_owned()
    } else if placement == 2 {
        "🥈 2nd".to_owned()
    } else if placement == 3 {
        "🥉 3rd".to_owned()
    } else {
        decimal_text(placement as i64).concat("th")
    }
}

/// The sign of a place in the recent form.
pub open spec fn medal(placement: int) -> Seq<char> {
    if placement == 1 {
        "🥇"@
    } else if placement == 2 {
        "🥈"@
    } else if placement == 3 {
        "🥉"@
    } else {
        "▪️"@
    }
}

/// The sign of a place in the recent form.
pub fn medal_text(placement: i32) -> (r: String)
    ensures
        r@ == medal(placement as int),
{
    if placement == 1 {
        "🥇".to_owned()
    } else if placement == 2 {
        "🥈".to_owned()
    } else if placement == 3 {
        "🥉".to_owned()
    } else {
        "▪️".to_owned()
    }
}

fn list_form(recent: &[PlayedGame]) -> (r: Vec<String>)
    ensures
        views(r@) == Seq::new(recent@.len(), |i: int| medal(recent@[i].placement as int)),
{
    let mut form: Vec<String> = Vec::new();
    let mut i: usize = 0;
    while i < recent.len()
        invariant
            i <= recent.len(),
            form@.len() == i,
            forall|k: int|
                0 <= k < i ==> (#[trigger] form@[k])@ == medal(recent@[k].placement as int),
        decreases recent.len() - i,
    {
        form.push(medal_text(recent[i].placement));
        i = i + 1;
    }
    assert(views(form@) =~= Seq::new(
        recent@.len(),
        |i: int| medal(recent@[i].placement as int),
    ));
    form
}

/// A game of the history.
#[derive(Debug)]
pub struct GameRow {
    pub date: String,
    pub opponents: Vec<Tab>,
    pub won: bool,
    pub place: String,
    pub food: i32,
    pub replay: String,
}

/// A game of the history, with its texts as characters.
pub struct GameRowView {
    pub date: Seq<char>,
    pub opponents: Seq<TabView>,
    pub won: bool,
    pub place: Seq<char>,
    pub food: int,
    pub replay: Seq<char>,
}

impl View for GameRow {
    type V = GameRowView;

    open spec fn view(&self) -> GameRowView {
        GameRowView {
            date: self.date@,
            opponents: views(self.opponents@),
            won: self.won,
            place: self.place@,
            food: self.food as int,
            replay: self.replay@,
        }
    }
}

/// A game of the history, with whom the snake met in it.
pub open spec fn game_row(
    leaderboard_id: Id,
    game: PlayedGame,
    opponents: Seq<GameOpponent>,
) -> GameRowView {
    GameRowView {
        date: minute_shown(game.game_created_at),
        opponents: Seq::new(
            opponents.len(),
            |i: int| opponent_tab(leaderboard_id, opponents[i]),
        ),
        won: game.placement == 1,
        place: place_label(game.placement as int),
        food: game.food_eaten as int,
        replay: game_path(game.game_id),
    }
}

/// Whether the calendar reaches every one of these games.
pub open spec fn history_dated(history: Seq<PlayedGame>) -> bool {
    forall|i: int| 0 <= i < history.len() ==> (#[trigger] history[i]).game_created_at.valid()
}

/// Whether the calendar reaches every one of these games.
pub fn is_history_dated(history: &[PlayedGame]) -> (r: bool)
    ensures
        r == history_dated(history@),
{
    let mut i: usize = 0;
    while i < history.len()
        invariant
            i <= history.len(),
            forall|k: int| 0 <= k < i ==> (#[trigger] history@[k]).game_created_at.valid(),
        decreases history.len() - i,
    {
        if !history[i].game_created_at.is_valid() {
            assert(!history_dated(history@)) by {
                assert(!history@[i as int].game_created_at.valid());
            }
            return false;
        }
        i = i + 1;
    }
    true
}

fn list_games(
    leaderboard_id: Id,
    history: &[PlayedGame],
    opponents: &HashMap<u128, Vec<GameOpponent>>,
) -> (r: Vec<GameRow>)
    requires
        history_dated(history@),
    ensures
        views(r@) == Seq::new(
            history@.len(),
            |i: int|
                game_row(leaderboard_id, history@[i], group(opponents@, history@[i].game_id)),
        ),
{
    broadcast use vstd::std_specs::hash::group_hash_axioms;

    let mut rows: Vec<GameRow> = Vec::new();
    let mut i: usize = 0;
    while i < history.len()
        invariant
            i <= history.len(),
            rows@.len() == i,
            history_dated(history@),
            forall|k: int|
                0 <= k < i ==> (#[trigger] rows@[k])@ == game_row(
                    leaderboard_id,
                    history@[k],
                    group(opponents@, history@[k].game_id),
                ),
        decreases history.len() - i,
    {
        let game: PlayedGame = history[i];
        let nobody: Vec<GameOpponent> = Vec::new();
        let met: &[GameOpponent] = match opponents.get(&game.game_id.bits) {
            Some(met) => met.as_slice(),
            None => nobody.as_slice(),
        };
        assert(met@ =~= group(opponents@, game.game_id));
        rows.push(
            GameRow {
                date: minute_text(game.game_created_at),
                opponents: list_opponents(leaderboard_id, met),
                won: game.placement == 1,
                place: place_text(game.placement),
                food: game.food_eaten,
                replay: game_url(game.game_id),
            },
        );
        i = i + 1;
    }
    assert(views(rows@) =~= Seq::new(
        history@.len(),
        |i: int| game_row(leaderboard_id, history@[i], group(opponents@, history@[i].game_id)),
    ));
    rows
}

/// The link to a page of the history.
pub open spec fn history_link(leaderboard_id: Id, entry_id: Id, page: int) -> Seq<char> {
    entry_path(leaderboard_id, entry_id) + "?page="@ + decimal(page)
}

/// The links beside a page of the history, where it has several pages.
pub open spec fn history_pager(
    leaderboard_id: Id,
    entry_id: Id,
    page: int,
    pages: int,
) -> Option<PagerView> {
    if pages > 1 {
        Some(
            PagerView {
                previous: if page > 0 {
                    Some(history_link(leaderboard_id, entry_id, page - 1))
                } else {
                    None
                },
                position: Some(page_position(page, pages)),
                next: if page < pages - 1 {
                    Some(history_link(leaderboard_id, entry_id, page + 1))
                } else {
                    None
                },
            },
        )
    } else {
        None
    }
}

fn make_history_pager(leaderboard_id: Id, entry_id: Id, page: i64, pages: i64) -> (r: Option<
    Pager,
>)
    requires
        0 <= page < pages,
    ensures
        match r {
            Some(pager) => history_pager(leaderboard_id, entry_id, page as int, pages as int)
                == Some(pager@),
            None => history_pager(leaderboard_id, entry_id, page as int, pages as int) is None,
        },
{
    if pages <= 1 {
        return None;
    }
    let previous: Option<String> = if page > 0 {
        Some(
            entry_url(leaderboard_id, entry_id).concat("?page=").concat(
                decimal_text(page - 1).as_str(),
            ),
        )
    } else {
        None
    };
    let next: Option<String> = if page < pages - 1 {
        Some(
            entry_url(leaderboard_id, entry_id).concat("?page=").concat(
                decimal_text(page + 1).as_str(),
            ),
        )
    } else {
        None
    };
    Some(Pager { previous, position: Some(position_text(page, pages)), next })
}

/// The page of a membership.
#[derive(Debug)]
pub struct EntryPage {
    pub title: String,
    pub description: String,
    pub ladder_name: String,
    pub ladder_href: String,
    pub snake_name: String,
    pub snake_href: String,
    pub profile_href: String,
    pub owner: String,
    /// The page of the owner, where the owner still exists.
    pub owner_href: Option<String>,
    pub owner_avatar: Option<String>,
    /// The rank, where the snake has one.
    pub rank: Option<String>,
    pub games_played: i32,
    pub first_places: i32,
    pub form: Vec<String>,
    pub games: Vec<GameRow>,
    pub pager: Option<Pager>,
}

/// The page of a membership, with its texts as characters.
pub struct EntryPageView {
    pub title: Seq<char>,
    pub description: Seq<char>,
    pub ladder_name: Seq<char>,
    pub ladder_href: Seq<char>,
    pub snake_name: Seq<char>,
    pub snake_href: Seq<char>,
    pub profile_href: Seq<char>,
    pub owner: Seq<char>,
    pub owner_href: Option<Seq<char>>,
    pub owner_avatar: Option<Seq<char>>,
    pub rank: Option<Seq<char>>,
    pub games_played: int,
    pub first_places: int,
    pub form: Seq<Seq<char>>,
    pub games: Seq<GameRowView>,
    pub pager: Option<PagerView>,
}

impl View for EntryPage {
    type V = EntryPageView;

    open spec fn view(&self) -> EntryPageView {
        EntryPageView {
            title: self.title@,
            description: self.description@,
            ladder_name: self.ladder_name@,
            ladder_href: self.ladder_href@,
            snake_name: self.snake_name@,
            snake_href: self.snake_href@,
            profile_href: self.profile_href@,
            owner: self.owner@,
            owner_href: opt_text(self.owner_href),
            owner_avatar: opt_text(self.owner_avatar),
            rank: opt_text(self.rank),
            games_played: self.games_played as int,
            first_places: self.first_places as int,
            form: views(self.form@),
            games: views(self.games@),
            pager: match self.pager {
                Some(pager) => Some(pager@),
                None => None,
            },
        }
    }
}

/// The name that an owner is shown under.
pub open spec fn owner_name(owner: Option<User>) -> Seq<char> {
    match owner {
        Some(user) => user.github_login@,
        None => "Unknown"@,
    }
}

/// What is said of a membership where its page is linked.
pub open spec fn entry_description(
    snake: Seq<char>,
    owner: Seq<char>,
    ladder: Seq<char>,
    rating: Seq<char>,
    games_played: int,
) -> Seq<char> {
    snake + " by "@ + owner + " on the "@ + ladder + " leaderboard — rating "@ + rating + ", "@
        + decimal(games_played) + " games played."@
}

/// The opponents that were read, none where there was nobody to ask about.
pub open spec fn read_opponents(opponents: Option<Vec<GameOpponent>>) -> Seq<GameOpponent> {
    match opponents {
        Some(opponents) => opponents@,
        None => Seq::empty(),
    }
}

/// The page of a membership, from everything that was read for it and the
/// rating as it is written.
pub open spec fn entry_page_of(
    leaderboard_id: Id,
    entry_id: Id,
    asked: Option<i64>,
    rating: Seq<char>,
    facts: EntryFacts,
) -> EntryPageView {
    let lb = facts.leaderboard->0->0;
    let entry = facts.entry->0->0;
    let snake = facts.snake->0->0;
    let owner = facts.owner->0;
    let history = facts.history->0@;
    let recent = facts.recent->0@;
    let total_games = facts.total_games->0;
    let opponents = read_opponents(facts.opponents);
    EntryPageView {
        title: snake.name@ + " - "@ + lb.name@,
        description: entry_description(
            snake.name@,
            owner_name(owner),
            lb.name@,
            rating,
            entry.games_played as int,
        ),
        ladder_name: lb.name@,
        ladder_href: ladder_path(leaderboard_id),
        snake_name: snake.name@,
        snake_href: profile_path(snake.battlesnake_id),
        profile_href: profile_path(entry.battlesnake_id),
        owner: owner_name(owner),
        owner_href: match owner {
            Some(user) => Some(user_path(user.github_login@)),
            None => None,
        },
        owner_avatar: match owner {
            Some(user) => opt_text(user.github_avatar_url),
            None => None,
        },
        rank: match facts.rank->0 {
            Some(rank) => Some("#"@ + decimal(rank as int)),
            None => None,
        },
        games_played: entry.games_played as int,
        first_places: entry.first_place_finishes as int,
        form: Seq::new(recent.len(), |i: int| medal(recent[i].placement as int)),
        games: Seq::new(
            history.len(),
            |i: int|
                game_row(leaderboard_id, history[i], opponents_in(opponents, history[i].game_id)),
        ),
        pager: history_pager(
            leaderboard_id,
            entry_id,
            history_page(total_games, asked),
            pages_of(total_games as int, GAMES_PER_PAGE as int),
        ),
    }
}

/// The page of a membership, once everything it shows was read. The rating is
/// given as it is written.
pub fn entry_page(
    leaderboard_id: Id,
    entry_id: Id,
    asked: Option<i64>,
    rating: &str,
    facts: EntryFacts,
) -> (r: EntryPage)
    requires
        games_countable(facts),
        entry_next(leaderboard_id, entry_id, asked, facts) is Render,
        history_dated(facts.history->0@),
    ensures
        r@ == entry_page_of(leaderboard_id, entry_id, asked, rating@, facts),
{
    let ghost given = facts;
    let total_games: i64 = facts.total_games.unwrap();
    let pages: i64 = page_count(total_games, GAMES_PER_PAGE);
    let page: i64 = shown_page(asked, pages);
    let lb: Leaderboard = facts.leaderboard.unwrap().unwrap();
    let entry: LeaderboardEntry = facts.entry.unwrap().unwrap();
    let snake: Battlesnake = facts.snake.unwrap().unwrap();
    let history: Vec<PlayedGame> = facts.history.unwrap();
    let recent: Vec<PlayedGame> = facts.recent.unwrap();
    let opponents: Vec<GameOpponent> = match facts.opponents {
        Some(opponents) => opponents,
        None => Vec::new(),
    };
    assert(opponents@ =~= read_opponents(given.opponents));
    let met: HashMap<u128, Vec<GameOpponent>> = group_opponents(opponents);
    let (owner, owner_href, owner_avatar) = match facts.owner.unwrap() {
        Some(user) => {
            let href: String = user_url(user.github_login.as_str());
            (user.github_login, Some(href), user.github_avatar_url)
        },
        None => ("Unknown".to_owned(), None, None),
    };
    let rank: Option<String> = match facts.rank.unwrap() {
        Some(rank) => Some("#".to_owned().concat(decimal_text(rank).as_str())),
        None => None,
    };
    let description: String = snake.name.clone().concat(" by ").concat(owner.as_str()).concat(
        " on the ",
    ).concat(lb.name.as_str()).concat(" leaderboard — rating ").concat(rating).concat(", ").concat(
        decimal_text(entry.games_played as i64).as_str(),
    ).concat(" games played.");
    let page = EntryPage {
        title: snake.name.clone().concat(" - ").concat(lb.name.as_str()),
        description,
        ladder_name: lb.name,
        ladder_href: ladder_url(leaderboard_id),
        snake_name: snake.name,
        snake_href: profile_url(snake.battlesnake_id),
        profile_href: profile_url(entry.battlesnake_id),
        owner,
        owner_href,
        owner_avatar,
        rank,
        games_played: entry.games_played,
        first_places: entry.first_place_finishes,
        form: list_form(recent.as_slice()),
        games: list_games(leaderboard_id, history.as_slice(), &met),
        pager: make_history_pager(leaderboard_id, entry_id, page, pages),
    };
    assert(page@.games =~= entry_page_of(leaderboard_id, entry_id, asked, rating@, given).games);
    page
}

// Laws.

/// A page is only made of a membership that belongs to the leaderboard it is
/// asked for on; any other is answered as missing.
pub proof fn entries_stay_on_their_leaderboard(
    leaderboard_id: Id,
    entry_id: Id,
    asked: Option<i64>,
    facts: EntryFacts,
)
    ensures
        entry_next(leaderboard_id, entry_id, asked, facts) is Render ==> facts.entry is Some
            && facts.entry->0 is Some && facts.entry->0->0.leaderboard_id == leaderboard_id,
        (facts.leaderboard is Some && facts.entry is Some && facts.entry->0 is Some
            && facts.entry->0->0.leaderboard_id != leaderboard_id) ==> entry_next(
            leaderboard_id,
            entry_id,
            asked,
            facts,
        ) is NotFound,
{
}

/// The part of a history that stands on a page.
pub open spec fn games_on_page(all: Seq<PlayedGame>, page: int) -> Seq<PlayedGame> {
    let from = page * GAMES_PER_PAGE;
    let to = (page + 1) * GAMES_PER_PAGE;
    all.subrange(
        from,
        if to <= all.len() {
            to
        } else {
            all.len() as int
        },
    )
}

/// Every game of a history stands on exactly one page, and asking for that
/// page shows it.
pub proof fn every_game_is_shown_once(all: Seq<PlayedGame>, i: int) -> (page: int)
    requires
        0 <= i < all.len(),
        all.len() + GAMES_PER_PAGE <= i64::MAX,
    ensures
        0 <= page < pages_of(all.len() as int, GAMES_PER_PAGE as int),
        forall|other: int| #[trigger]
            crate::paging::stands_on(i, other, GAMES_PER_PAGE as int) ==> other == page,
        history_page(all.len() as i64, Some(page as i64)) == page,
        games_on_page(all, page)[i - page * GAMES_PER_PAGE] == all[i],
{
    let page = crate::paging::every_entry_stands_on_one_page(
        i,
        all.len() as int,
        GAMES_PER_PAGE as int,
    );
    crate::paging::pages_are_counted(all.len() as int, GAMES_PER_PAGE as int);
    page
}

/// The recent form is read from the latest games whatever page of the history
/// is shown.
pub proof fn recent_form_ignores_the_page(
    leaderboard_id: Id,
    entry_id: Id,
    asked: Option<i64>,
    facts: EntryFacts,
)
    requires
        entry_next(leaderboard_id, entry_id, asked, facts) is LoadRecent,
    ensures
        entry_next(leaderboard_id, entry_id, asked, facts) == (EntryStepView::LoadRecent {
            page: 0,
            per_page: RECENT_GAMES as int,
        }),
        forall|other: Option<i64>|
            #![trigger entry_next(leaderboard_id, entry_id, other, facts)]
            entry_next(leaderboard_id, entry_id, other, facts) == entry_next(
                leaderboard_id,
                entry_id,
                asked,
                facts,
            ),
{
}

/// The page shows the membership that was read: the snake, its owner, its
/// rank, how many games it played and how many of them it won.
pub proof fn the_page_shows_the_membership(
    leaderboard_id: Id,
    entry_id: Id,
    asked: Option<i64>,
    rating: Seq<char>,
    facts: EntryFacts,
)
    ensures
        ({
            let page = entry_page_of(leaderboard_id, entry_id, asked, rating, facts);
            let ladder = facts.leaderboard->0->0.name@;
            let entry = facts.entry->0->0;
            let snake = facts.snake->0->0;
            let owner = facts.owner->0;
            let login = if owner is Some {
                owner->0.github_login@
            } else {
                "Unknown"@
            };
            &&& page.title == snake.name@ + " - "@ + ladder
            &&& page.description == snake.name@ + " by "@ + login + " on the "@ + ladder
                + " leaderboard — rating "@ + rating + ", "@ + decimal(entry.games_played as int)
                + " games played."@
            &&& page.ladder_name == ladder
            &&& page.ladder_href == "/leaderboards/"@ + leaderboard_id.text()
            &&& page.snake_name == snake.name@
            &&& page.snake_href == "/battlesnakes/"@ + snake.battlesnake_id.text() + "/profile"@
            &&& page.profile_href == "/battlesnakes/"@ + entry.battlesnake_id.text() + "/profile"@
            &&& page.owner == login
            &&& page.owner_href is Some <==> owner is Some
            &&& owner is Some ==> page.owner_href->0 == "/users/"@ + owner->0.github_login@
            &&& page.owner_avatar is Some <==> owner is Some && owner->0.github_avatar_url is Some
            &&& page.owner_avatar is Some ==> page.owner_avatar->0
                == owner->0.github_avatar_url->0@
            &&& page.rank is Some <==> facts.rank->0 is Some
            &&& facts.rank->0 is Some ==> page.rank->0 == "#"@ + decimal(facts.rank->0->0 as int)
            &&& page.games_played == entry.games_played
            &&& page.first_places == entry.first_place_finishes
        }),
{
}

/// Each game of the history is shown as it was played: when, at what place,
/// how much was eaten, where it can be watched, and against whom.
pub proof fn games_are_shown_as_they_were_played(
    leaderboard_id: Id,
    entry_id: Id,
    asked: Option<i64>,
    rating: Seq<char>,
    facts: EntryFacts,
    i: int,
    k: int,
)
    requires
        facts.history is Some,
        facts.opponents is Some,
        0 <= i < facts.history->0@.len(),
    ensures
        ({
            let page = entry_page_of(leaderboard_id, entry_id, asked, rating, facts);
            let game = facts.history->0@[i];
            let row = page.games[i];
            let met = facts.opponents->0@.filter(|o: GameOpponent| o.game_id == game.game_id);
            &&& page.games.len() == facts.history->0@.len()
            &&& row.date == minute_shown(game.game_created_at)
            &&& row.won <==> game.placement == 1
            &&& row.food == game.food_eaten
            &&& row.replay == "/games/"@ + game.game_id.text()
            &&& game.placement == 1 ==> row.place == "🥇 1st"@
            &&& game.placement == 2 ==> row.place == "🥈 2nd"@
            &&& game.placement == 3 ==> row.place == "🥉 3rd"@
            &&& !(1 <= game.placement <= 3) ==> row.place == decimal(game.placement as int) + "th"@
            &&& row.opponents.len() == met.len()
            &&& 0 <= k < met.len() ==> {
                &&& row.opponents[k].name == met[k].snake_name@
                &&& met[k].leaderboard_entry_id is None ==> row.opponents[k].href is None
                &&& met[k].leaderboard_entry_id is Some ==> row.opponents[k].href == Some(
                    "/leaderboards/"@ + leaderboard_id.text() + "/entries/"@
                        + met[k].leaderboard_entry_id->0.text(),
                )
            }
        }),
{
    let game = facts.history->0@[i];
    crate::lists::belonging_is_told_item_by_item(
        facts.opponents->0@,
        game.game_id,
        |o: GameOpponent| o.game_id == game.game_id,
    );
}

/// The recent form has a sign for each of the latest games, by its place.
pub proof fn the_form_tells_the_latest_places(
    leaderboard_id: Id,
    entry_id: Id,
    asked: Option<i64>,
    rating: Seq<char>,
    facts: EntryFacts,
    i: int,
)
    requires
        facts.recent is Some,
        0 <= i < facts.recent->0@.len(),
    ensures
        ({
            let form = entry_page_of(leaderboard_id, entry_id, asked, rating, facts).form;
            let placement = facts.recent->0@[i].placement;
            &&& form.len() == facts.recent->0@.len()
            &&& placement == 1 ==> form[i] == "🥇"@
            &&& placement == 2 ==> form[i] == "🥈"@
            &&& placement == 3 ==> form[i] == "🥉"@
            &&& !(1 <= placement <= 3) ==> form[i] == "▪️"@
        }),
{
}

/// A history of several pages leads one page on and back, none before the
/// first and none behind the last; one page leads nowhere.
pub proof fn the_history_leads_one_page_on_and_back(
    leaderboard_id: Id,
    entry_id: Id,
    asked: Option<i64>,
    rating: Seq<char>,
    facts: EntryFacts,
)
    requires
        facts.total_games is Some,
    ensures
        ({
            let pager = entry_page_of(leaderboard_id, entry_id, asked, rating, facts).pager;
            let pages = pages_of(facts.total_games->0 as int, 20);
            let page = page_shown(asked, pages);
            let link = "/leaderboards/"@ + leaderboard_id.text() + "/entries/"@ + entry_id.text()
                + "?page="@;
            &&& pager is Some <==> pages > 1
            &&& pager is Some ==> {
                &&& pager->0.previous is Some <==> page > 0
                &&& pager->0.previous is Some ==> pager->0.previous->0 == link + decimal(page - 1)
                &&& pager->0.next is Some <==> page + 1 < pages
                &&& pager->0.next is Some ==> pager->0.next->0 == link + decimal(page + 1)
                &&& pager->0.position == Some(
                    "Page "@ + decimal(page + 1) + " of "@ + decimal(pages),
                )
            }
        }),
{
}

/// What is read for the page is read about the membership itself: its snake,
/// the snake's owner, the games of the page that is shown, whom it met in
/// them, and the five latest games. A page is made once all of it is there.
pub proof fn memberships_are_shown_from_what_they_need(
    leaderboard_id: Id,
    entry_id: Id,
    asked: Option<i64>,
    facts: EntryFacts,
)
    ensures
        ({
            let step = entry_next(leaderboard_id, entry_id, asked, facts);
            let history = facts.history->0@;
            &&& facts.leaderboard is None ==> step == (EntryStepView::LoadLeaderboard {
                leaderboard_id,
            })
            &&& step is LoadEntry ==> step == (EntryStepView::LoadEntry { entry_id })
            &&& step is LoadSnake ==> step == (EntryStepView::LoadSnake {
                battlesnake_id: facts.entry->0->0.battlesnake_id,
            })
            &&& step is LoadOwner ==> step == (EntryStepView::LoadOwner {
                user_id: facts.snake->0->0.user_id,
            })
            &&& step is LoadHistory ==> {
                &&& step->LoadHistory_page == page_shown(
                    asked,
                    pages_of(facts.total_games->0 as int, 20),
                )
                &&& step->LoadHistory_per_page == 20
            }
            &&& step is LoadOpponents ==> history.len() > 0 && step->game_ids == Seq::new(
                history.len(),
                |k: int| history[k].game_id,
            )
            &&& step is LoadRank ==> step->games_played == facts.entry->0->0.games_played
            &&& step is LoadRecent ==> step->LoadRecent_page == 0 && step->LoadRecent_per_page == 5
            &&& facts.leaderboard == Some(None::<Leaderboard>) ==> step is NotFound
            &&& step is Render ==> {
                &&& facts.leaderboard is Some && facts.leaderboard->0 is Some
                &&& facts.entry is Some && facts.entry->0 is Some
                &&& facts.snake is Some && facts.snake->0 is Some
                &&& facts.owner is Some && facts.total_games is Some && facts.history is Some
                &&& history.len() > 0 ==> facts.opponents is Some
                &&& facts.rank is Some && facts.recent is Some
                &&& facts.rating_history && facts.scores
            }
        }),
{
}

} // verus!
