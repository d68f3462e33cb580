//! How a bracket is drawn: rounds as columns of a grid, each match with its
//! sides and games, and a slot for the champion.

use crate::ids::{id_text, is_id, Id};
use crate::lists::{
    belonging, belonging_is_told_item_by_item, group, group_items, grouped, views, Grouped,
};
use crate::model::{
    BracketParticipant, MatchGame, MatchStatus, MatchStyle, Tournament, TournamentMatch,
    TournamentStatus,
};
use crate::rules::{is_tie_game, round_label, round_name, tied, win_count, wins};
use crate::text::{count_text, decimal, decimal_text, opt_text};
use std::collections::HashMap;
use vstd::prelude::*;
use vstd::string::StringExecFns;

verus! {

// Grouping by match.

/// The sides of a match, in the order in which they were read.
pub open spec fn sides_of(participants: Seq<BracketParticipant>, match_id: Id) -> Seq<
    BracketParticipant,
> {
    belonging(participants, match_id)
}

/// The games of a match, in the order in which they were read.
pub open spec fn games_of(games: Seq<MatchGame>, match_id: Id) -> Seq<MatchGame> {
    belonging(games, match_id)
}

impl Grouped for BracketParticipant {
    open spec fn group_id(&self) -> Id {
        self.match_id
    }

    fn belongs_to(&self) -> (r: Id) {
        self.match_id
    }
}

impl Grouped for MatchGame {
    open spec fn group_id(&self) -> Id {
        self.match_id
    }

    fn belongs_to(&self) -> (r: Id) {
        self.match_id
    }
}

/// Groups sides by their match.
pub fn group_participants(participants: Vec<BracketParticipant>) -> (r: HashMap<
    u128,
    Vec<BracketParticipant>,
>)
    ensures
        forall|match_id: Id| #[trigger] group(r@, match_id) == sides_of(participants@, match_id),
{
    group_items(participants)
}

/// Groups games by their match.
pub fn group_games(games: Vec<MatchGame>) -> (r: HashMap<u128, Vec<MatchGame>>)
    ensures
        forall|match_id: Id| #[trigger] group(r@, match_id) == games_of(games@, match_id),
{
    group_items(games)
}

// One side of a match.

/// A text, unless it is missing or empty.
pub open spec fn nonempty(text: Option<String>) -> Option<Seq<char>> {
    match text {
        Some(s) => if s@.len() == 0 {
            None
        } else {
            Some(s@)
        },
        None => None,
    }
}

/// A text, unless it is missing or empty.
pub fn nonempty_text(text: &Option<String>) -> (r: Option<String>)
    ensures
        opt_text(r) == nonempty(*text),
{
    match text {
        Some(s) => if s.as_str().is_empty() {
            None
        } else {
            Some(s.clone())
        },
        None => None,
    }
}

/// How one side of a match is shown.
#[derive(Debug)]
pub struct TeamRow {
    pub is_winner: bool,
    pub is_loser: bool,
    pub is_tbd: bool,
    pub color: Option<String>,
    pub name: String,
    pub score: String,
}

/// How one side of a match is shown, with its texts as characters.
pub struct TeamRowView {
    pub is_winner: bool,
    pub is_loser: bool,
    pub is_tbd: bool,
    pub color: Option<Seq<char>>,
    pub name: Seq<char>,
    pub score: Seq<char>,
}

impl View for TeamRow {
    type V = TeamRowView;

    open spec fn view(&self) -> TeamRowView {
        TeamRowView {
            is_winner: self.is_winner,
            is_loser: self.is_loser,
            is_tbd: self.is_tbd,
            color: opt_text(self.color),
            name: self.name@,
            score: self.score@,
        }
    }
}

/// Whether this side won the match.
pub open spec fn won(p: BracketParticipant, m: TournamentMatch) -> bool {
    p.battlesnake_id is Some && p.battlesnake_id == m.winner_id
}

/// How one side of a match is shown: the winner, the loser or neither, and
/// its wins where more than one game is played.
pub open spec fn team_row(
    p: BracketParticipant,
    m: TournamentMatch,
    game_winners: Seq<Option<Id>>,
    show_wins: bool,
) -> TeamRowView {
    TeamRowView {
        is_winner: won(p, m),
        is_loser: m.winner_id is Some && p.battlesnake_id is Some && !won(p, m),
        is_tbd: p.battlesnake_id is None,
        color: nonempty(p.snake_color),
        name: match p.snake_name {
            Some(name) => name@,
            None => "TBD"@,
        },
        score: if show_wins && p.battlesnake_id is Some {
            decimal(wins(game_winners, p.battlesnake_id->0) as int)
        } else if !show_wins && won(p, m) {
            "✓"@
        } else {
            "—"@
        },
    }
}

/// One team row inside a match card: color chip, name, score cell.
pub fn bracket_team_row(
    p: &BracketParticipant,
    m: &TournamentMatch,
    game_winners: &[Option<Id>],
    show_wins: bool,
) -> (r: TeamRow)
    ensures
        r@ == team_row(*p, *m, game_winners@, show_wins),
{
    let is_winner: bool = match p.battlesnake_id {
        Some(id) => is_id(m.winner_id, id),
        None => false,
    };
    let name: String = match &p.snake_name {
        Some(name) => name.clone(),
        None => "TBD".to_owned(),
    };
    let score: String = match p.battlesnake_id {
        Some(id) => if show_wins {
            count_text(win_count(game_winners, id))
        } else if is_winner {
            "✓".to_owned()
        } else {
            "—".to_owned()
        },
        None => "—".to_owned(),
    };
    TeamRow {
        is_winner,
        is_loser: m.winner_id.is_some() && p.battlesnake_id.is_some() && !is_winner,
        is_tbd: p.battlesnake_id.is_none(),
        color: nonempty_text(&p.snake_color),
        name,
        score,
    }
}

// One match.

/// Everything needed to show one match in the bracket.
pub struct BracketMatchView<'a> {
    pub tournament_match: &'a TournamentMatch,
    pub participants: &'a [BracketParticipant],
    pub games: &'a [MatchGame],
}

/// A link to a game.
#[derive(Debug)]
pub struct GameLink {
    pub href: String,
    pub text: String,
}

/// A link to a game, with its texts as characters.
pub struct GameLinkView {
    pub href: Seq<char>,
    pub text: Seq<char>,
}

impl View for GameLink {
    type V = GameLinkView;

    open spec fn view(&self) -> GameLinkView {
        GameLinkView { href: self.href@, text: self.text@ }
    }
}

/// How a match is shown.
#[derive(Debug)]
pub struct MatchCard {
    pub live: bool,
    pub column: i32,
    pub row: i32,
    pub row_end: i32,
    pub tag: String,
    pub teams: Vec<TeamRow>,
    pub bye: bool,
    /// Where the game that is being played can be watched.
    pub theater: Option<String>,
    pub games: Vec<GameLink>,
}

/// How a match is shown, with its texts as characters.
pub struct MatchCardView {
    pub live: bool,
    pub column: int,
    pub row: int,
    pub row_end: int,
    pub tag: Seq<char>,
    pub teams: Seq<TeamRowView>,
    pub bye: bool,
    pub theater: Option<Seq<char>>,
    pub games: Seq<GameLinkView>,
}

impl View for MatchCard {
    type V = MatchCardView;

    open spec fn view(&self) -> MatchCardView {
        MatchCardView {
            live: self.live,
            column: self.column as int,
            row: self.row as int,
            row_end: self.row_end as int,
            tag: self.tag@,
            teams: views(self.teams@),
            bye: self.bye,
            theater: opt_text(self.theater),
            games: views(self.games@),
        }
    }
}

/// Whether a match has numbers that a grid can be drawn with.
pub open spec fn drawable(m: TournamentMatch, total_rounds: int) -> bool {
    &&& i32::MIN <= m.visual_column * 2 && m.visual_column * 2 + 1 <= i32::MAX
    &&& m.visual_row + 3 <= i32::MAX
    &&& m.round != total_rounds ==> m.position + 1 <= i32::MAX
}

/// Who won each of these games.
pub open spec fn winners_of(games: Seq<MatchGame>) -> Seq<Option<Id>> {
    Seq::new(games.len(), |i: int| games[i].winner_id)
}

/// Whether a match is a bye: only the one side that was seeded into it is
/// stored.
pub open spec fn is_bye(m: TournamentMatch, sides: int) -> bool {
    m.round == 1 && sides == 1
}

/// What a match is called: the final, or its round and place.
pub open spec fn match_name(m: TournamentMatch, total_rounds: int) -> Seq<char> {
    if m.round == total_rounds {
        "Final"@
    } else {
        "R"@ + decimal(m.round as int) + " · M"@ + decimal(m.position + 1)
    }
}

/// What is said of where a match stands.
pub open spec fn match_state(m: TournamentMatch, bye: bool) -> Seq<char> {
    match m.status {
        MatchStatus::Scheduled => if bye {
            "bye"@
        } else {
            "scheduled"@
        },
        MatchStatus::InProgress => "live"@,
        MatchStatus::Completed => "done"@,
        MatchStatus::Canceled => "canceled"@,
    }
}

/// The game of a match that is being played: the last one, while the match is
/// live.
pub open spec fn live_game(m: TournamentMatch, games: Seq<MatchGame>) -> Option<MatchGame> {
    if m.status is InProgress && games.len() > 0 {
        Some(games.last())
    } else {
        None
    }
}

/// Where a game can be watched.
pub open spec fn game_path(game_id: Id) -> Seq<char> {
    "/games/"@ + game_id.text()
}

/// Where a game can be watched.
pub fn game_url(game_id: Id) -> (r: String)
    ensures
        r@ == game_path(game_id),
{
    "/games/".to_owned().concat(id_text(game_id).as_str())
}

/// The tag of a match: its name, where it stands, and the game being played.
pub open spec fn match_tag(
    m: TournamentMatch,
    total_rounds: int,
    bye: bool,
    games: Seq<MatchGame>,
) -> Seq<char> {
    let tag = match_name(m, total_rounds) + " · "@ + match_state(m, bye);
    match live_game(m, games) {
        Some(game) => tag + " · game "@ + decimal(game.game_number as int),
        None => tag,
    }
}

/// The link to the game at a place of a match.
pub open spec fn game_link(m: TournamentMatch, games: Seq<MatchGame>, i: int) -> GameLinkView {
    let name = "Game "@ + decimal(games[i].game_number as int);
    GameLinkView {
        href: game_path(games[i].game_id),
        text: if tied(games[i].winner_id, i + 1 < games.len(), m.status) {
            name + " (tie)"@
        } else {
            name
        },
    }
}

/// How a match is shown.
pub open spec fn match_card(
    m: TournamentMatch,
    sides: Seq<BracketParticipant>,
    games: Seq<MatchGame>,
    match_style: MatchStyle,
    total_rounds: int,
) -> MatchCardView {
    let bye = is_bye(m, sides.len() as int);
    MatchCardView {
        live: m.status is InProgress,
        column: m.visual_column * 2 + 1,
        row: m.visual_row + 1,
        row_end: m.visual_row + 3,
        tag: match_tag(m, total_rounds, bye, games),
        teams: Seq::new(
            sides.len(),
            |i: int| team_row(sides[i], m, winners_of(games), !(match_style is SingleGame)),
        ),
        bye,
        theater: match live_game(m, games) {
            Some(game) => Some(game_path(game.game_id)),
            None => None,
        },
        games: Seq::new(games.len(), |i: int| game_link(m, games, i)),
    }
}

fn game_winners(games: &[MatchGame]) -> (r: Vec<Option<Id>>)
    ensures
        r@ == winners_of(games@),
{
    let mut winners: Vec<Option<Id>> = Vec::new();
    let mut i: usize = 0;
    while i < games.len()
        invariant
            i <= games.len(),
            winners@ =~= winners_of(games@.take(i as int)),
        decreases games.len() - i,
    {
        winners.push(games[i].winner_id);
        i = i + 1;
    }
    assert(games@.take(i as int) =~= games@);
    winners
}

/// One match card, placed on the bracket grid. Round columns are the odd grid
/// columns, with connectors between; each match spans two grid rows so that
/// later rounds are centered between their feeders.
pub fn bracket_match_card(
    view: &BracketMatchView,
    match_style: MatchStyle,
    total_rounds: i32,
) -> (r: MatchCard)
    requires
        drawable(*view.tournament_match, total_rounds as int),
    ensures
        r@ == match_card(
            *view.tournament_match,
            view.participants@,
            view.games@,
            match_style,
            total_rounds as int,
        ),
{
    let m: &TournamentMatch = view.tournament_match;
    let winners: Vec<Option<Id>> = game_winners(view.games);
    let show_wins: bool = match_style != MatchStyle::SingleGame;
    let bye: bool = m.round == 1 && view.participants.len() == 1;
    let live: bool = m.status == MatchStatus::InProgress;
    let name: String = if m.round == total_rounds {
        "Final".to_owned()
    } else {
        "R".to_owned().concat(decimal_text(m.round as i64).as_str()).concat(" · M").concat(
            decimal_text(m.position as i64 + 1).as_str(),
        )
    };
    let state: &str = match m.status {
        MatchStatus::Scheduled => if bye {
            "bye"
        } else {
            "scheduled"
        },
        MatchStatus::InProgress => "live",
        MatchStatus::Completed => "done",
        MatchStatus::Canceled => "canceled",
    };
    let mut tag: String = name.concat(" · ").concat(state);
    let mut theater: Option<String> = None;
    if live && view.games.len() > 0 {
        let game: MatchGame = view.games[view.games.len() - 1];
        tag = tag.concat(" · game ").concat(decimal_text(game.game_number as i64).as_str());
        theater = Some(game_url(game.game_id));
    }
    let mut teams: Vec<TeamRow> = Vec::new();
    let mut i: usize = 0;
    while i < view.participants.len()
        invariant
            i <= view.participants.len(),
            teams@.len() == i,
            winners@ == winners_of(view.games@),
            m == view.tournament_match,
            forall|k: int|
                0 <= k < i ==> (#[trigger] teams@[k])@ == team_row(
                    view.participants@[k],
                    *m,
                    winners_of(view.games@),
                    show_wins,
                ),
        decreases view.participants.len() - i,
    {
        teams.push(bracket_team_row(&view.participants[i], m, winners.as_slice(), show_wins));
        i = i + 1;
    }
    let mut games: Vec<GameLink> = Vec::new();
    let mut j: usize = 0;
    while j < view.games.len()
        invariant
            j <= view.games.len(),
            games@.len() == j,
            m == view.tournament_match,
            forall|k: int|
                0 <= k < j ==> (#[trigger] games@[k])@ == game_link(*m, view.games@, k),
        decreases view.games.len() - j,
    {
        let game: MatchGame = view.games[j];
        let mut text: String = "Game ".to_owned().concat(
            decimal_text(game.game_number as i64).as_str(),
        );
        if is_tie_game(game.winner_id, j + 1 < view.games.len(), m.status) {
            text = text.concat(" (tie)");
        }
        games.push(GameLink { href: game_url(game.game_id), text });
        j = j + 1;
    }
    let card = MatchCard {
        live,
        column: m.visual_column * 2 + 1,
        row: m.visual_row + 1,
        row_end: m.visual_row + 3,
        tag,
        teams,
        bye,
        theater,
        games,
    };
    let ghost expected = match_card(
        *m,
        view.participants@,
        view.games@,
        match_style,
        total_rounds as int,
    );
    assert(card@.teams =~= expected.teams);
    assert(card@.games =~= expected.games);
    card
}

// The whole bracket.

/// The number of rounds: the highest round of any match, and 0 without
/// matches.
pub open spec fn rounds_of(matches: Seq<TournamentMatch>) -> int
    decreases matches.len(),
{
    if matches.len() == 0 {
        0
    } else if matches.len() == 1 {
        matches[0].round as int
    } else {
        let before = rounds_of(matches.drop_last());
        if matches.last().round > before {
            matches.last().round as int
        } else {
            before
        }
    }
}

/// The number of rounds of a bracket.
pub fn total_rounds(matches: &[TournamentMatch]) -> (r: i32)
    ensures
        r == rounds_of(matches@),
{
    if matches.len() == 0 {
        return 0;
    }
    let mut highest: i32 = matches[0].round;
    let mut i: usize = 1;
    assert(matches@.take(1)[0] == matches@[0]);
    while i < matches.len()
        invariant
            1 <= i <= matches.len(),
            highest == rounds_of(matches@.take(i as int)),
        decreases matches.len() - i,
    {
        assert(matches@.take(i + 1).drop_last() =~= matches@.take(i as int));
        if matches[i].round > highest {
            highest = matches[i].round;
        }
        i = i + 1;
    }
    assert(matches@.take(i as int) =~= matches@);
    highest
}

/// No match is in a higher round than the last one, and some match is in it.
pub proof fn rounds_are_the_highest(matches: Seq<TournamentMatch>)
    ensures
        forall|i: int| 0 <= i < matches.len() ==> (#[trigger] matches[i]).round <= rounds_of(matches),
        matches.len() > 0 ==> exists|i: int|
            0 <= i < matches.len() && (#[trigger] matches[i]).round == rounds_of(matches),
    decreases matches.len(),
{
    if matches.len() > 1 {
        let before = matches.drop_last();
        rounds_are_the_highest(before);
        assert forall|i: int| 0 <= i < matches.len() implies (#[trigger] matches[i]).round
            <= rounds_of(matches) by {
            if i < before.len() {
                assert(before[i].round <= rounds_of(before));
            }
        }
        let k = choose|k: int|
            0 <= k < before.len() && (#[trigger] before[k]).round == rounds_of(before);
        assert(matches[k] == before[k]);
        assert(matches[matches.len() - 1] == matches.last());
    } else if matches.len() == 1 {
        assert(matches[0].round == rounds_of(matches));
    }
}

/// How many of these matches are in the given status.
pub open spec fn in_status(matches: Seq<TournamentMatch>, status: MatchStatus) -> nat {
    matches.filter(|m: TournamentMatch| m.status == status).len()
}

/// How many of these matches are in the given status.
pub fn count_in_status(matches: &[TournamentMatch], status: MatchStatus) -> (r: usize)
    ensures
        r == in_status(matches@, status),
{
    let ghost there = |m: TournamentMatch| m.status == status;
    let mut count: usize = 0;
    let mut i: usize = 0;
    proof {
        reveal(Seq::filter);
        assert(matches@.take(0) =~= Seq::<TournamentMatch>::empty());
    }
    while i < matches.len()
        invariant
            i <= matches.len(),
            count <= i,
            there == (|m: TournamentMatch| m.status == status),
            count == matches@.take(i as int).filter(there).len(),
        decreases matches.len() - i,
    {
        proof {
            reveal(Seq::filter);
            assert(matches@.take(i + 1).drop_last() =~= matches@.take(i as int));
        }
        if matches[i].status == status {
            count = count + 1;
        }
        i = i + 1;
    }
    assert(matches@.take(i as int) =~= matches@);
    count
}

/// The grid row of the match at a place of a round. Of several the last one
/// read counts.
pub open spec fn row_at(matches: Seq<TournamentMatch>, round: int, position: int) -> Option<int>
    decreases matches.len(),
{
    if matches.len() == 0 {
        None
    } else if matches.last().round == round && matches.last().position == position {
        Some(matches.last().visual_row as int)
    } else {
        row_at(matches.drop_last(), round, position)
    }
}

fn row_of(matches: &[TournamentMatch], round: i32, position: i32) -> (r: Option<i32>)
    ensures
        match r {
            Some(row) => {
                &&& row_at(matches@, round as int, position as int) == Some(row as int)
                &&& exists|k: int| 0 <= k < matches@.len() && matches@[k].visual_row == row
            },
            None => row_at(matches@, round as int, position as int) is None,
        },
{
    let mut i: usize = matches.len();
    assert(matches@.take(i as int) =~= matches@);
    while i > 0
        invariant
            i <= matches.len(),
            row_at(matches@, round as int, position as int) == row_at(
                matches@.take(i as int),
                round as int,
                position as int,
            ),
        decreases i,
    {
        assert(matches@.take(i as int).drop_last() =~= matches@.take(i - 1));
        let m: TournamentMatch = matches[i - 1];
        if m.round == round && m.position == position {
            assert(matches@[i - 1].visual_row == m.visual_row);
            return Some(m.visual_row);
        }
        i = i - 1;
    }
    None
}

/// The line that leads from two matches to the one that their winners play.
#[derive(Clone, Copy, Debug, PartialEq, Eq, Structural)]
pub struct Connector {
    pub column: i32,
    pub row: i32,
    pub row_end: i32,
}

/// The line into a match, from the center of its upper feeder to the center
/// of its lower one. Matches of the first round have none, and neither have
/// those with a feeder missing.
pub open spec fn connector_of(matches: Seq<TournamentMatch>, m: TournamentMatch) -> Option<
    Connector,
> {
    if m.round <= 1 {
        None
    } else {
        match (
            row_at(matches, m.round - 1, m.position * 2),
            row_at(matches, m.round - 1, m.position * 2 + 1),
        ) {
            (Some(top), Some(bottom)) => Some(
                Connector {
                    column: (m.round * 2 - 2) as i32,
                    row: (top + 2) as i32,
                    row_end: (bottom + 2) as i32,
                },
            ),
            _ => None,
        }
    }
}

/// The first match of the last round.
pub open spec fn final_of(matches: Seq<TournamentMatch>, rounds: int) -> Option<TournamentMatch>
    decreases matches.len(),
{
    if matches.len() == 0 {
        None
    } else if matches[0].round == rounds {
        Some(matches[0])
    } else {
        final_of(matches.drop_first(), rounds)
    }
}

fn find_final(matches: &[TournamentMatch], rounds: i32) -> (r: Option<TournamentMatch>)
    ensures
        r == final_of(matches@, rounds as int),
        r matches Some(m) ==> matches@.contains(m),
{
    let mut i: usize = 0;
    assert(matches@.skip(0) =~= matches@);
    while i < matches.len()
        invariant
            i <= matches.len(),
            final_of(matches@, rounds as int) == final_of(matches@.skip(i as int), rounds as int),
        decreases matches.len() - i,
    {
        assert(matches@.skip(i as int).drop_first() =~= matches@.skip(i + 1));
        if matches[i].round == rounds {
            assert(matches@[i as int] == matches@.skip(i as int)[0]);
            return Some(matches[i]);
        }
        i = i + 1;
    }
    None
}

/// The first side with the given snake.
pub open spec fn side_with(sides: Seq<BracketParticipant>, battlesnake_id: Id) -> Option<
    BracketParticipant,
>
    decreases sides.len(),
{
    if sides.len() == 0 {
        None
    } else if sides[0].battlesnake_id == Some(battlesnake_id) {
        Some(sides[0])
    } else {
        side_with(sides.drop_first(), battlesnake_id)
    }
}

/// The champion of a tournament.
#[derive(Debug)]
pub struct Champion {
    pub name: String,
    pub color: Option<String>,
}

/// The champion of a tournament, with its texts as characters.
pub struct ChampionView {
    pub name: Seq<char>,
    pub color: Option<Seq<char>>,
}

impl View for Champion {
    type V = ChampionView;

    open spec fn view(&self) -> ChampionView {
        ChampionView { name: self.name@, color: opt_text(self.color) }
    }
}

/// What is shown of a champion whose snake no longer exists.
pub open spec fn deleted_champion() -> ChampionView {
    ChampionView { name: "(deleted snake)"@, color: None }
}

/// How the champion of a match is shown, as the side that won it.
pub open spec fn champion_among(sides: Seq<BracketParticipant>, winner_id: Id) -> ChampionView {
    match side_with(sides, winner_id) {
        Some(side) => ChampionView {
            name: match side.snake_name {
                Some(name) => name@,
                None => deleted_champion().name,
            },
            color: nonempty(side.snake_color),
        },
        None => deleted_champion(),
    }
}

/// The champion: the winner of the final of a completed tournament. A snake
/// that was deleted since is still shown, under a neutral name.
pub open spec fn champion_of(
    t: Tournament,
    final_match: Option<TournamentMatch>,
    sides: spec_fn(Id) -> Seq<BracketParticipant>,
) -> Option<ChampionView> {
    if !(t.status is Completed) {
        None
    } else {
        match final_match {
            Some(m) => match m.winner_id {
                Some(winner_id) => Some(champion_among(sides(m.match_id), winner_id)),
                None => None,
            },
            None => None,
        }
    }
}

/// Views an optional champion.
pub open spec fn champion_view(champion: Option<Champion>) -> Option<ChampionView> {
    match champion {
        Some(c) => Some(c@),
        None => None,
    }
}

fn champion_in(sides: &[BracketParticipant], winner_id: Id) -> (r: Champion)
    ensures
        r@ == champion_among(sides@, winner_id),
{
    let mut i: usize = 0;
    assert(sides@.skip(0) =~= sides@);
    while i < sides.len()
        invariant
            i <= sides.len(),
            side_with(sides@, winner_id) == side_with(sides@.skip(i as int), winner_id),
        decreases sides.len() - i,
    {
        assert(sides@.skip(i as int).drop_first() =~= sides@.skip(i + 1));
        assert(sides@.skip(i as int)[0] == sides@[i as int]);
        let side: &BracketParticipant = &sides[i];
        if is_id(side.battlesnake_id, winner_id) {
            let name: String = match &side.snake_name {
                Some(name) => name.clone(),
                None => "(deleted snake)".to_owned(),
            };
            return Champion { name, color: nonempty_text(&side.snake_color) };
        }
        i = i + 1;
    }
    Champion { name: "(deleted snake)".to_owned(), color: None }
}

fn find_champion(
    t: &Tournament,
    final_match: &Option<TournamentMatch>,
    sides: &HashMap<u128, Vec<BracketParticipant>>,
) -> (r: Option<Champion>)
    ensures
        champion_view(r) == champion_of(*t, *final_match, grouped(sides@)),
{
    broadcast use vstd::std_specs::hash::group_hash_axioms;

    if t.status != TournamentStatus::Completed {
        return None;
    }
    match final_match {
        None => None,
        Some(m) => match m.winner_id {
            None => None,
            Some(winner_id) => match sides.get(&m.match_id.bits) {
                Some(found) => Some(champion_in(found.as_slice(), winner_id)),
                None => {
                    let none: Vec<BracketParticipant> = Vec::new();
                    Some(champion_in(none.as_slice(), winner_id))
                },
            },
        },
    }
}

/// The columns of the grid: for each round one for its matches and one for
/// its connectors, and a last one for the champion.
pub open spec fn grid_columns(rounds: nat) -> Seq<char> {
    round_columns(rounds) + "minmax(170px, 1fr)"@
}

/// The columns of so many rounds.
pub open spec fn round_columns(rounds: nat) -> Seq<char>
    decreases rounds,
{
    if rounds == 0 {
        Seq::empty()
    } else {
        round_columns((rounds - 1) as nat) + "minmax(210px, 1fr) 28px "@
    }
}

/// The rows of the grid: a bracket of `n` rounds has up to 2 to the `n` snakes,
/// and as many rows.
pub open spec fn grid_rows(rounds: int) -> int {
    vstd::arithmetic::power2::pow2(rounds as nat) as int
}

/// The heading of a round, and where it stands.
#[derive(Debug)]
pub struct RoundHeading {
    pub column: i32,
    pub label: String,
}

/// The heading of a round, with its text as characters.
pub struct RoundHeadingView {
    pub column: int,
    pub label: Seq<char>,
}

impl View for RoundHeading {
    type V = RoundHeadingView;

    open spec fn view(&self) -> RoundHeadingView {
        RoundHeadingView { column: self.column as int, label: self.label@ }
    }
}

/// A match on the grid, with the line that leads into it.
#[derive(Debug)]
pub struct PlacedMatch {
    pub card: MatchCard,
    pub connector: Option<Connector>,
}

/// A match on the grid, with its texts as characters.
pub struct PlacedMatchView {
    pub card: MatchCardView,
    pub connector: Option<Connector>,
}

impl View for PlacedMatch {
    type V = PlacedMatchView;

    open spec fn view(&self) -> PlacedMatchView {
        PlacedMatchView { card: self.card@, connector: self.connector }
    }
}

/// The champion's slot behind the final.
#[derive(Debug)]
pub struct ChampionSlot {
    pub row: i32,
    pub row_end: i32,
    pub champion: Option<Champion>,
}

/// The champion's slot, with its texts as characters.
pub struct ChampionSlotView {
    pub row: int,
    pub row_end: int,
    pub champion: Option<ChampionView>,
}

/// How a bracket is drawn.
#[derive(Debug)]
pub struct Bracket {
    pub note: String,
    pub min_width: i32,
    pub columns: String,
    pub rows: i64,
    pub headings: Vec<RoundHeading>,
    /// The column of the line that leads to the champion.
    pub champion_line_column: i32,
    pub champion_column: i32,
    pub matches: Vec<PlacedMatch>,
    pub champion_slot: Option<ChampionSlot>,
}

/// How a bracket is drawn, with its texts as characters.
pub struct BracketView {
    pub note: Seq<char>,
    pub min_width: int,
    pub columns: Seq<char>,
    pub rows: int,
    pub headings: Seq<RoundHeadingView>,
    pub champion_line_column: int,
    pub champion_column: int,
    pub matches: Seq<PlacedMatchView>,
    pub champion_slot: Option<ChampionSlotView>,
}

impl View for Bracket {
    type V = BracketView;

    open spec fn view(&self) -> BracketView {
        BracketView {
            note: self.note@,
            min_width: self.min_width as int,
            columns: self.columns@,
            rows: self.rows as int,
            headings: views(self.headings@),
            champion_line_column: self.champion_line_column as int,
            champion_column: self.champion_column as int,
            matches: views(self.matches@),
            champion_slot: match self.champion_slot {
                Some(slot) => Some(
                    ChampionSlotView {
                        row: slot.row as int,
                        row_end: slot.row_end as int,
                        champion: champion_view(slot.champion),
                    },
                ),
                None => None,
            },
        }
    }
}

/// What is said above a bracket.
pub open spec fn bracket_note(matches: Seq<TournamentMatch>) -> Seq<char> {
    let rounds = rounds_of(matches);
    decimal(in_status(matches, MatchStatus::Completed) as int) + " of "@ + decimal(matches.len() as int)
        + " matches played · "@ + decimal(rounds) + if rounds == 1 {
        " round"@
    } else {
        " rounds"@
    }
}

/// How a bracket with at least one round is drawn, from the sides and the
/// games of each match.
pub open spec fn bracket_drawn(
    t: Tournament,
    matches: Seq<TournamentMatch>,
    sides: spec_fn(Id) -> Seq<BracketParticipant>,
    games: spec_fn(Id) -> Seq<MatchGame>,
) -> BracketView {
    let rounds = rounds_of(matches);
    let final_match = final_of(matches, rounds);
    BracketView {
        note: bracket_note(matches),
        min_width: rounds * 238 + 170,
        columns: grid_columns(rounds as nat),
        rows: grid_rows(rounds),
        headings: Seq::new(
            rounds as nat,
            |i: int|
                RoundHeadingView { column: i * 2 + 1, label: round_name(i + 1, rounds) },
        ),
        champion_line_column: rounds * 2,
        champion_column: rounds * 2 + 1,
        matches: Seq::new(
            matches.len(),
            |i: int|
                PlacedMatchView {
                    card: match_card(
                        matches[i],
                        sides(matches[i].match_id),
                        games(matches[i].match_id),
                        t.match_style,
                        rounds,
                    ),
                    connector: connector_of(matches, matches[i]),
                },
        ),
        champion_slot: match final_match {
            Some(m) => Some(
                ChampionSlotView {
                    row: m.visual_row + 1,
                    row_end: m.visual_row + 3,
                    champion: champion_of(t, final_match, sides),
                },
            ),
            None => None,
        },
    }
}

/// Whether a bracket has numbers that a grid can be drawn with.
pub open spec fn bracket_drawable(matches: Seq<TournamentMatch>) -> bool {
    let rounds = rounds_of(matches);
    &&& rounds == 0 || 0 < rounds < 32
    &&& rounds > 0 ==> forall|i: int|
        0 <= i < matches.len() ==> {
            &&& drawable(#[trigger] matches[i], rounds)
            &&& matches[i].round > 1 ==> i32::MIN <= matches[i].position * 2 && matches[i].position
                * 2 + 1 <= i32::MAX
        }
}

/// Whether a bracket has numbers that a grid can be drawn with.
pub fn is_drawable(matches: &[TournamentMatch]) -> (r: bool)
    ensures
        r == bracket_drawable(matches@),
{
    let rounds: i32 = total_rounds(matches);
    if rounds == 0 {
        return true;
    }
    if rounds < 0 || rounds >= 32 {
        return false;
    }
    let mut i: usize = 0;
    while i < matches.len()
        invariant
            i <= matches.len(),
            rounds == rounds_of(matches@),
            0 < rounds < 32,
            forall|k: int|
                0 <= k < i ==> {
                    &&& drawable(#[trigger] matches@[k], rounds as int)
                    &&& matches@[k].round > 1 ==> i32::MIN <= matches@[k].position * 2
                        && matches@[k].position * 2 + 1 <= i32::MAX
                },
        decreases matches.len() - i,
    {
        let m: TournamentMatch = matches[i];
        let column: i64 = m.visual_column as i64 * 2;
        let feeder: i64 = m.position as i64 * 2;
        if column < i32::MIN as i64 || column + 1 > i32::MAX as i64 || m.visual_row as i64 + 3
            > i32::MAX as i64 || (m.round != rounds && m.position as i64 + 1 > i32::MAX as i64) || (
        m.round > 1 && (feeder < i32::MIN as i64 || feeder + 1 > i32::MAX as i64)) {
            assert(!bracket_drawable(matches@)) by {
                assert(matches@[i as int] == m);
            }
            return false;
        }
        i = i + 1;
    }
    true
}

fn count_rows(rounds: i32) -> (r: i64)
    requires
        0 < rounds < 32,
    ensures
        r == grid_rows(rounds as int),
{
    let mut value: i64 = 1;
    let mut i: i32 = 0;
    proof {
        vstd::arithmetic::power2::lemma2_to64();
    }
    while i < rounds
        invariant
            0 <= i <= rounds < 32,
            value == vstd::arithmetic::power2::pow2(i as nat),
        decreases rounds - i,
    {
        proof {
            vstd::arithmetic::power2::lemma_pow2_unfold((i + 1) as nat);
            vstd::arithmetic::power2::lemma2_to64();
            if i + 1 < 31 {
                vstd::arithmetic::power2::lemma_pow2_strictly_increases((i + 1) as nat, 31);
            }
        }
        value = value * 2;
        i = i + 1;
    }
    value
}

fn columns_text(rounds: i32) -> (r: String)
    requires
        0 <= rounds,
    ensures
        r@ == grid_columns(rounds as nat),
{
    let mut text: String = String::new();
    let mut i: i32 = 0;
    while i < rounds
        invariant
            0 <= i <= rounds,
            text@ == round_columns(i as nat),
        decreases rounds - i,
    {
        text.append("minmax(210px, 1fr) 28px ");
        i = i + 1;
    }
    text.append("minmax(170px, 1fr)");
    text
}

fn headings_of(rounds: i32) -> (r: Vec<RoundHeading>)
    requires
        0 <= rounds < 32,
    ensures
        views(r@) == Seq::new(
            rounds as nat,
            |i: int|
                RoundHeadingView { column: i * 2 + 1, label: round_name(i + 1, rounds as int) },
        ),
{
    let mut headings: Vec<RoundHeading> = Vec::new();
    let mut i: i32 = 0;
    while i < rounds
        invariant
            0 <= i <= rounds < 32,
            headings@.len() == i,
            forall|k: int|
                0 <= k < i ==> (#[trigger] headings@[k])@ == (RoundHeadingView {
                    column: k * 2 + 1,
                    label: round_name(k + 1, rounds as int),
                }),
        decreases rounds - i,
    {
        headings.push(RoundHeading { column: i * 2 + 1, label: round_label(i + 1, rounds) });
        i = i + 1;
    }
    assert(views(headings@) =~= Seq::new(
        rounds as nat,
        |i: int| RoundHeadingView { column: i * 2 + 1, label: round_name(i + 1, rounds as int) },
    ));
    headings
}

fn connect(matches: &[TournamentMatch], m: &TournamentMatch, rounds: i32) -> (r: Option<Connector>)
    requires
        bracket_drawable(matches@),
        rounds == rounds_of(matches@),
        rounds > 0,
        m.round <= rounds,
        m.round > 1 ==> i32::MIN <= m.position * 2 && m.position * 2 + 1 <= i32::MAX,
    ensures
        r == connector_of(matches@, *m),
{
    if m.round <= 1 {
        return None;
    }
    let top: Option<i32> = row_of(matches, m.round - 1, m.position * 2);
    let bottom: Option<i32> = row_of(matches, m.round - 1, m.position * 2 + 1);
    match (top, bottom) {
        (Some(top_row), Some(bottom_row)) => Some(
            Connector { column: m.round * 2 - 2, row: top_row + 2, row_end: bottom_row + 2 },
        ),
        _ => None,
    }
}

fn place_match(
    t: &Tournament,
    matches: &[TournamentMatch],
    i: usize,
    sides: &HashMap<u128, Vec<BracketParticipant>>,
    games: &HashMap<u128, Vec<MatchGame>>,
    rounds: i32,
) -> (r: PlacedMatch)
    requires
        i < matches@.len(),
        bracket_drawable(matches@),
        rounds == rounds_of(matches@),
        rounds > 0,
    ensures
        r@ == (PlacedMatchView {
            card: match_card(
                matches@[i as int],
                group(sides@, matches@[i as int].match_id),
                group(games@, matches@[i as int].match_id),
                t.match_style,
                rounds as int,
            ),
            connector: connector_of(matches@, matches@[i as int]),
        }),
{
    broadcast use vstd::std_specs::hash::group_hash_axioms;

    proof {
        rounds_are_the_highest(matches@);
    }
    let m: &TournamentMatch = &matches[i];
    let no_sides: Vec<BracketParticipant> = Vec::new();
    let no_games: Vec<MatchGame> = Vec::new();
    let found_sides: &Vec<BracketParticipant> = match sides.get(&m.match_id.bits) {
        Some(found) => found,
        None => &no_sides,
    };
    let found_games: &Vec<MatchGame> = match games.get(&m.match_id.bits) {
        Some(found) => found,
        None => &no_games,
    };
    let view = BracketMatchView {
        tournament_match: m,
        participants: found_sides.as_slice(),
        games: found_games.as_slice(),
    };
    PlacedMatch {
        card: bracket_match_card(&view, t.match_style, rounds),
        connector: connect(matches, m, rounds),
    }
}

/// The bracket: rounds as columns on a shared grid, odd columns with matches
/// and even columns with connectors, and a champion slot after the final.
/// Nothing is drawn of a tournament without rounds.
pub fn bracket_section(
    t: &Tournament,
    matches: &[TournamentMatch],
    participants_by_match: &HashMap<u128, Vec<BracketParticipant>>,
    games_by_match: &HashMap<u128, Vec<MatchGame>>,
) -> (r: Option<Bracket>)
    requires
        bracket_drawable(matches@),
    ensures
        match r {
            Some(bracket) => rounds_of(matches@) != 0 && bracket@ == bracket_drawn(
                *t,
                matches@,
                grouped(participants_by_match@),
                grouped(games_by_match@),
            ),
            None => rounds_of(matches@) == 0,
        },
{
    let rounds: i32 = total_rounds(matches);
    if rounds == 0 {
        return None;
    }
    let final_match: Option<TournamentMatch> = find_final(matches, rounds);
    let mut placed: Vec<PlacedMatch> = Vec::new();
    let mut i: usize = 0;
    while i < matches.len()
        invariant
            i <= matches.len(),
            placed@.len() == i,
            bracket_drawable(matches@),
            rounds == rounds_of(matches@),
            rounds > 0,
            forall|k: int|
                0 <= k < i ==> (#[trigger] placed@[k])@ == (PlacedMatchView {
                    card: match_card(
                        matches@[k],
                        group(participants_by_match@, matches@[k].match_id),
                        group(games_by_match@, matches@[k].match_id),
                        t.match_style,
                        rounds as int,
                    ),
                    connector: connector_of(matches@, matches@[k]),
                }),
        decreases matches.len() - i,
    {
        placed.push(
            place_match(t, matches, i, participants_by_match, games_by_match, rounds),
        );
        i = i + 1;
    }
    let champion_slot: Option<ChampionSlot> = match &final_match {
        Some(m) => {
            proof {
                let k = choose|k: int| 0 <= k < matches@.len() && matches@[k] == *m;
                assert(drawable(matches@[k], rounds as int));
            }
            Some(
                ChampionSlot {
                    row: m.visual_row + 1,
                    row_end: m.visual_row + 3,
                    champion: find_champion(t, &final_match, participants_by_match),
                },
            )
        },
        None => None,
    };
    let note: String = count_text(count_in_status(matches, MatchStatus::Completed)).concat(" of ").concat(
        count_text(matches.len()).as_str(),
    ).concat(" matches played · ").concat(decimal_text(rounds as i64).as_str()).concat(
        if rounds == 1 {
            " round"
        } else {
            " rounds"
        },
    );
    let bracket = Bracket {
        note,
        min_width: rounds * 238 + 170,
        columns: columns_text(rounds),
        rows: count_rows(rounds),
        headings: headings_of(rounds),
        champion_line_column: rounds * 2,
        champion_column: rounds * 2 + 1,
        matches: placed,
        champion_slot,
    };
    let ghost drawn = bracket_drawn(
        *t,
        matches@,
        grouped(participants_by_match@),
        grouped(games_by_match@),
    );
    assert(bracket@.matches =~= drawn.matches);
    assert(bracket@.headings =~= drawn.headings);
    Some(bracket)
}

// Laws.

/// Nothing on the grid shares a column with something of another kind:
/// matches stand in odd columns, each under the heading of its round, the
/// lines between rounds in even ones, and the champion behind the last round.
pub proof fn columns_are_kept_apart(
    t: Tournament,
    matches: Seq<TournamentMatch>,
    sides: spec_fn(Id) -> Seq<BracketParticipant>,
    games: spec_fn(Id) -> Seq<MatchGame>,
    i: int,
)
    requires
        bracket_drawable(matches),
        rounds_of(matches) > 0,
        0 <= i < matches.len(),
        matches[i].round >= 1,
        matches[i].visual_column == matches[i].round - 1,
    ensures
        ({
            let bracket = bracket_drawn(t, matches, sides, games);
            let placed = bracket.matches[i];
            &&& placed.card.column % 2 == 1
            &&& placed.card.column == bracket.headings[matches[i].round - 1].column
            &&& placed.card.column < bracket.champion_line_column
            &&& bracket.champion_line_column + 1 == bracket.champion_column
            &&& placed.card.row_end == placed.card.row + 2
            &&& placed.connector matches Some(line) ==> line.column % 2 == 0 && line.column + 1
                == placed.card.column
        }),
{
    rounds_are_the_highest(matches);
}

/// A bracket crowns a champion exactly when its tournament is completed and
/// its final, which is a match of the last round, has a winner.
pub proof fn only_the_final_crowns(
    t: Tournament,
    matches: Seq<TournamentMatch>,
    sides: spec_fn(Id) -> Seq<BracketParticipant>,
    games: spec_fn(Id) -> Seq<MatchGame>,
)
    requires
        rounds_of(matches) > 0,
    ensures
        ({
            let slot = bracket_drawn(t, matches, sides, games).champion_slot;
            let last = final_of(matches, rounds_of(matches));
            &&& slot is Some
            &&& last matches Some(m) && matches.contains(m) && m.round == rounds_of(matches)
            &&& slot->0.champion is Some <==> t.status is Completed && last->0.winner_id is Some
        }),
{
    rounds_are_the_highest(matches);
    final_is_found(matches, rounds_of(matches));
}

proof fn final_is_found(matches: Seq<TournamentMatch>, rounds: int)
    ensures
        final_of(matches, rounds) matches Some(m) ==> exists|i: int|
            0 <= i < matches.len() && #[trigger] matches[i] == m && m.round == rounds,
        final_of(matches, rounds) is None ==> forall|i: int|
            0 <= i < matches.len() ==> (#[trigger] matches[i]).round != rounds,
    decreases matches.len(),
{
    if matches.len() > 0 && matches[0].round != rounds {
        let rest = matches.drop_first();
        final_is_found(rest, rounds);
        match final_of(rest, rounds) {
            Some(m) => {
                let k = choose|k: int|
                    0 <= k < rest.len() && #[trigger] rest[k] == m && m.round == rounds;
                assert(matches[k + 1] == m);
            },
            None => {
                assert forall|i: int| 0 <= i < matches.len() implies (#[trigger] matches[i]).round
                    != rounds by {
                    if i > 0 {
                        assert(rest[i - 1] == matches[i]);
                    }
                }
            },
        }
    }
}

/// Whether the match at a place is the final: none is in a later round, and
/// none before it in the list is in the same one.
pub open spec fn stands_as_final(matches: Seq<TournamentMatch>, f: int) -> bool {
    &&& 0 <= f < matches.len()
    &&& matches[f].round > 0
    &&& forall|i: int| 0 <= i < matches.len() ==> (#[trigger] matches[i]).round <= matches[f].round
    &&& forall|i: int| 0 <= i < f ==> (#[trigger] matches[i]).round < matches[f].round
}

proof fn the_first_of_a_round_is_its_final(matches: Seq<TournamentMatch>, f: int)
    requires
        0 <= f < matches.len(),
        forall|i: int| 0 <= i < f ==> (#[trigger] matches[i]).round < matches[f].round,
    ensures
        final_of(matches, matches[f].round as int) == Some(matches[f]),
    decreases matches.len(),
{
    if f > 0 {
        let rest = matches.drop_first();
        assert(rest[f - 1] == matches[f]);
        assert forall|i: int| 0 <= i < f - 1 implies (#[trigger] rest[i]).round < rest[f - 1].round by {
            assert(rest[i] == matches[i + 1]);
        }
        the_first_of_a_round_is_its_final(rest, f - 1);
    }
}

proof fn finals_are_found(matches: Seq<TournamentMatch>, f: int)
    requires
        stands_as_final(matches, f),
    ensures
        rounds_of(matches) == matches[f].round,
        final_of(matches, rounds_of(matches)) == Some(matches[f]),
{
    rounds_are_the_highest(matches);
    the_first_of_a_round_is_its_final(matches, f);
}

proof fn the_first_side_with_a_snake_is_found(
    sides: Seq<BracketParticipant>,
    battlesnake_id: Id,
    j: int,
)
    requires
        0 <= j < sides.len(),
        sides[j].battlesnake_id == Some(battlesnake_id),
        forall|k: int| 0 <= k < j ==> (#[trigger] sides[k]).battlesnake_id != Some(battlesnake_id),
    ensures
        side_with(sides, battlesnake_id) == Some(sides[j]),
    decreases sides.len(),
{
    if j > 0 {
        let rest = sides.drop_first();
        assert(rest[j - 1] == sides[j]);
        assert forall|k: int| 0 <= k < j - 1 implies (#[trigger] rest[k]).battlesnake_id != Some(
            battlesnake_id,
        ) by {
            assert(rest[k] == sides[k + 1]);
        }
        the_first_side_with_a_snake_is_found(rest, battlesnake_id, j - 1);
    }
}

proof fn a_missing_snake_has_no_side(sides: Seq<BracketParticipant>, battlesnake_id: Id)
    requires
        forall|k: int|
            0 <= k < sides.len() ==> (#[trigger] sides[k]).battlesnake_id != Some(battlesnake_id),
    ensures
        side_with(sides, battlesnake_id) is None,
    decreases sides.len(),
{
    if sides.len() > 0 {
        let rest = sides.drop_first();
        assert(sides[0].battlesnake_id != Some(battlesnake_id));
        assert forall|k: int| 0 <= k < rest.len() implies (#[trigger] rest[k]).battlesnake_id
            != Some(battlesnake_id) by {
            assert(rest[k] == sides[k + 1]);
        }
        a_missing_snake_has_no_side(rest, battlesnake_id);
    }
}

/// The champion is who won the final: the side of the final that has the
/// winning snake gives the name and the color, never a side with another
/// snake. A champion whose snake is on no side any more is shown as deleted.
pub proof fn the_champion_won_the_final(
    t: Tournament,
    matches: Seq<TournamentMatch>,
    sides: spec_fn(Id) -> Seq<BracketParticipant>,
    games: spec_fn(Id) -> Seq<MatchGame>,
    f: int,
    j: int,
)
    requires
        stands_as_final(matches, f),
    ensures
        ({
            let slot = bracket_drawn(t, matches, sides, games).champion_slot;
            let played = sides(matches[f].match_id);
            let winner = matches[f].winner_id;
            &&& slot is Some
            &&& slot->0.row == matches[f].visual_row + 1
            &&& slot->0.row_end == slot->0.row + 2
            &&& !(t.status is Completed) || winner is None ==> slot->0.champion is None
            &&& t.status is Completed && winner is Some ==> {
                let shown = slot->0.champion;
                &&& shown is Some
                &&& 0 <= j < played.len() && played[j].battlesnake_id == winner && (forall|k: int|
                    0 <= k < j ==> (#[trigger] played[k]).battlesnake_id != winner) ==> {
                    &&& played[j].snake_name is Some ==> shown->0.name == played[j].snake_name->0@
                    &&& played[j].snake_name is None ==> shown->0.name == "(deleted snake)"@
                    &&& played[j].snake_color is Some && played[j].snake_color->0@.len() > 0
                        ==> shown->0.color == Some(played[j].snake_color->0@)
                    &&& played[j].snake_color is None || played[j].snake_color->0@.len() == 0
                        ==> shown->0.color is None
                }
                &&& (forall|k: int|
                    0 <= k < played.len() ==> (#[trigger] played[k]).battlesnake_id != winner)
                    ==> shown->0.name == "(deleted snake)"@ && shown->0.color is None
            }
        }),
{
    finals_are_found(matches, f);
    let played = sides(matches[f].match_id);
    let winner = matches[f].winner_id;
    if winner is Some {
        if 0 <= j < played.len() && played[j].battlesnake_id == winner && (forall|k: int|
            0 <= k < j ==> (#[trigger] played[k]).battlesnake_id != winner) {
            the_first_side_with_a_snake_is_found(played, winner->0, j);
        }
        if forall|k: int|
            0 <= k < played.len() ==> (#[trigger] played[k]).battlesnake_id != winner {
            a_missing_snake_has_no_side(played, winner->0);
        }
    }
}

/// Each side of a drawn match is shown as what it is: under its own name and
/// color, as the winner exactly when its snake won the match, as the loser
/// exactly when another one did, and as undecided while it has no snake.
/// Matches of several games show how many of them the snake won.
pub proof fn sides_are_shown_as_they_played(
    t: Tournament,
    matches: Seq<TournamentMatch>,
    sides: spec_fn(Id) -> Seq<BracketParticipant>,
    games: spec_fn(Id) -> Seq<MatchGame>,
    i: int,
    k: int,
)
    requires
        0 <= i < matches.len(),
        0 <= k < sides(matches[i].match_id).len(),
    ensures
        ({
            let m = matches[i];
            let side = sides(m.match_id)[k];
            let played = games(m.match_id);
            let card = bracket_drawn(t, matches, sides, games).matches[i].card;
            let row = card.teams[k];
            let snake = side.battlesnake_id;
            let won_games = played.filter(|g: MatchGame| g.winner_id == snake).len();
            &&& card.teams.len() == sides(m.match_id).len()
            &&& row.name == if side.snake_name is Some {
                side.snake_name->0@
            } else {
                "TBD"@
            }
            &&& row.color == if side.snake_color is Some && side.snake_color->0@.len() > 0 {
                Some(side.snake_color->0@)
            } else {
                None
            }
            &&& row.is_winner <==> snake is Some && m.winner_id == snake
            &&& row.is_loser <==> snake is Some && m.winner_id is Some && m.winner_id != snake
            &&& row.is_tbd <==> snake is None
            &&& snake is None ==> row.score == "—"@
            &&& snake is Some && t.match_style is SingleGame ==> row.score == if m.winner_id
                == snake {
                "✓"@
            } else {
                "—"@
            }
            &&& snake is Some && !(t.match_style is SingleGame) ==> row.score == decimal(
                won_games as int,
            )
        }),
{
    let played = games(matches[i].match_id);
    let snake = sides(matches[i].match_id)[k].battlesnake_id;
    if snake is Some {
        wins_are_games_won(played, snake->0, |g: MatchGame| g.winner_id == snake);
    }
}

proof fn wins_are_games_won(
    games: Seq<MatchGame>,
    battlesnake_id: Id,
    won_by: spec_fn(MatchGame) -> bool,
)
    requires
        forall|g: MatchGame| #[trigger] won_by(g) <==> g.winner_id == Some(battlesnake_id),
    ensures
        wins(winners_of(games), battlesnake_id) == games.filter(won_by).len(),
    decreases games.len(),
{
    reveal(Seq::filter);
    if games.len() > 0 {
        let winners = winners_of(games);
        wins_are_games_won(games.drop_last(), battlesnake_id, won_by);
        assert(winners.drop_last() =~= winners_of(games.drop_last()));
        assert(winners.last() == games.last().winner_id);
        assert(won_by(games.last()) <==> games.last().winner_id == Some(battlesnake_id));
    }
}

/// Each match is drawn at its place and under its name: live while it is being
/// played, with a link to the latest game then, and a bye in the first round
/// where nobody is to be met.
pub proof fn matches_are_drawn_at_their_places(
    t: Tournament,
    matches: Seq<TournamentMatch>,
    sides: spec_fn(Id) -> Seq<BracketParticipant>,
    games: spec_fn(Id) -> Seq<MatchGame>,
    f: int,
    i: int,
)
    requires
        stands_as_final(matches, f),
        0 <= i < matches.len(),
    ensures
        ({
            let m = matches[i];
            let card = bracket_drawn(t, matches, sides, games).matches[i].card;
            let played = games(m.match_id);
            let alone = m.round == 1 && sides(m.match_id).len() == 1;
            let name = if m.round == matches[f].round {
                "Final"@
            } else {
                "R"@ + decimal(m.round as int) + " · M"@ + decimal(m.position + 1)
            };
            &&& bracket_drawn(t, matches, sides, games).matches.len() == matches.len()
            &&& card.live <==> m.status is InProgress
            &&& card.bye <==> alone
            &&& card.column == m.visual_column * 2 + 1
            &&& card.row == m.visual_row + 1
            &&& card.row_end == m.visual_row + 3
            &&& card.theater is Some <==> m.status is InProgress && played.len() > 0
            &&& card.theater is Some ==> card.theater->0 == "/games/"@ + played.last().game_id.text()
            &&& m.status is Completed ==> card.tag == name + " · "@ + "done"@
            &&& m.status is Canceled ==> card.tag == name + " · "@ + "canceled"@
            &&& m.status is Scheduled && alone ==> card.tag == name + " · "@ + "bye"@
            &&& m.status is Scheduled && !alone ==> card.tag == name + " · "@ + "scheduled"@
            &&& m.status is InProgress && played.len() == 0 ==> card.tag == name + " · "@ + "live"@
            &&& m.status is InProgress && played.len() > 0 ==> card.tag == name + " · "@ + "live"@
                + " · game "@ + decimal(played.last().game_number as int)
        }),
{
    finals_are_found(matches, f);
}

/// Every game of a drawn match is linked under its number, and called a tie
/// exactly when nobody won it and it is not being played any more.
pub proof fn games_are_linked_in_order(
    t: Tournament,
    matches: Seq<TournamentMatch>,
    sides: spec_fn(Id) -> Seq<BracketParticipant>,
    games: spec_fn(Id) -> Seq<MatchGame>,
    i: int,
    k: int,
)
    requires
        0 <= i < matches.len(),
        0 <= k < games(matches[i].match_id).len(),
    ensures
        ({
            let played = games(matches[i].match_id);
            let links = bracket_drawn(t, matches, sides, games).matches[i].card.games;
            let name = "Game "@ + decimal(played[k].game_number as int);
            let over = k < played.len() - 1 || matches[i].status is Completed;
            &&& links.len() == played.len()
            &&& links[k].href == "/games/"@ + played[k].game_id.text()
            &&& links[k].text == if played[k].winner_id is None && over {
                name + " (tie)"@
            } else {
                name
            }
        }),
{
}

proof fn the_last_match_at_a_place_counts(
    matches: Seq<TournamentMatch>,
    round: int,
    position: int,
    k: int,
)
    requires
        0 <= k < matches.len(),
        matches[k].round == round && matches[k].position == position,
        forall|j: int|
            k < j < matches.len() ==> !((#[trigger] matches[j]).round == round
                && matches[j].position == position),
    ensures
        row_at(matches, round, position) == Some(matches[k].visual_row as int),
    decreases matches.len(),
{
    if k < matches.len() - 1 {
        let rest = matches.drop_last();
        assert(rest[k] == matches[k]);
        assert(matches[matches.len() - 1] == matches.last());
        assert forall|j: int| k < j < rest.len() implies !((#[trigger] rest[j]).round == round
            && rest[j].position == position) by {
            assert(rest[j] == matches[j]);
        }
        the_last_match_at_a_place_counts(rest, round, position, k);
    }
}

proof fn empty_places_have_no_row(matches: Seq<TournamentMatch>, round: int, position: int)
    requires
        forall|j: int|
            0 <= j < matches.len() ==> !((#[trigger] matches[j]).round == round
                && matches[j].position == position),
    ensures
        row_at(matches, round, position) is None,
    decreases matches.len(),
{
    if matches.len() > 0 {
        let rest = matches.drop_last();
        assert(matches[matches.len() - 1] == matches.last());
        assert forall|j: int| 0 <= j < rest.len() implies !((#[trigger] rest[j]).round == round
            && rest[j].position == position) by {
            assert(rest[j] == matches[j]);
        }
        empty_places_have_no_row(rest, round, position);
    }
}

/// Whether the match at a place of the list is the last one that stands at a
/// place of a round.
pub open spec fn stands_at(
    matches: Seq<TournamentMatch>,
    k: int,
    round: int,
    position: int,
) -> bool {
    &&& 0 <= k < matches.len()
    &&& matches[k].round == round && matches[k].position == position
    &&& forall|j: int|
        k < j < matches.len() ==> !((#[trigger] matches[j]).round == round && matches[j].position
            == position)
}

/// A match is joined to the two that feed it, which stand at twice its place
/// and next to it in the round before: the line runs between the rounds, from
/// the middle of the upper one to the middle of the lower one. Without one of
/// them, and in the first round, there is no line.
pub proof fn lines_join_a_match_to_its_feeders(
    t: Tournament,
    matches: Seq<TournamentMatch>,
    sides: spec_fn(Id) -> Seq<BracketParticipant>,
    games: spec_fn(Id) -> Seq<MatchGame>,
    i: int,
    upper: int,
    lower: int,
)
    requires
        bracket_drawable(matches),
        rounds_of(matches) > 0,
        0 <= i < matches.len(),
    ensures
        ({
            let m = matches[i];
            let drawn = bracket_drawn(t, matches, sides, games).matches;
            let line = drawn[i].connector;
            &&& m.round <= 1 ==> line is None
            &&& m.round > 1 && stands_at(matches, upper, m.round - 1, m.position * 2) && stands_at(
                matches,
                lower,
                m.round - 1,
                m.position * 2 + 1,
            ) ==> {
                &&& line is Some
                &&& line->0.column == (m.round - 1) * 2
                &&& line->0.row == drawn[upper].card.row + 1
                &&& line->0.row_end == drawn[lower].card.row + 1
            }
            &&& (forall|j: int|
                0 <= j < matches.len() ==> !((#[trigger] matches[j]).round == m.round - 1
                    && matches[j].position == m.position * 2)) ==> line is None
            &&& (forall|j: int|
                0 <= j < matches.len() ==> !((#[trigger] matches[j]).round == m.round - 1
                    && matches[j].position == m.position * 2 + 1)) ==> line is None
        }),
{
    let m = matches[i];
    rounds_are_the_highest(matches);
    if m.round > 1 && stands_at(matches, upper, m.round - 1, m.position * 2) && stands_at(
        matches,
        lower,
        m.round - 1,
        m.position * 2 + 1,
    ) {
        the_last_match_at_a_place_counts(matches, m.round - 1, m.position * 2, upper);
        the_last_match_at_a_place_counts(matches, m.round - 1, m.position * 2 + 1, lower);
        assert(drawable(matches[upper], rounds_of(matches)));
        assert(drawable(matches[lower], rounds_of(matches)));
    }
    if forall|j: int|
        0 <= j < matches.len() ==> !((#[trigger] matches[j]).round == m.round - 1
            && matches[j].position == m.position * 2) {
        empty_places_have_no_row(matches, m.round - 1, m.position * 2);
    }
    if forall|j: int|
        0 <= j < matches.len() ==> !((#[trigger] matches[j]).round == m.round - 1
            && matches[j].position == m.position * 2 + 1) {
        empty_places_have_no_row(matches, m.round - 1, m.position * 2 + 1);
    }
}

/// A bracket has a heading for every round, the last of which is the final,
/// twice as many rows as one with a round less, and above it how many of all
/// its matches are over.
pub proof fn a_bracket_has_room_for_its_rounds(
    t: Tournament,
    matches: Seq<TournamentMatch>,
    sides: spec_fn(Id) -> Seq<BracketParticipant>,
    games: spec_fn(Id) -> Seq<MatchGame>,
    f: int,
    r: int,
)
    requires
        stands_as_final(matches, f),
        1 <= r <= matches[f].round,
    ensures
        ({
            let drawn = bracket_drawn(t, matches, sides, games);
            let rounds = matches[f].round as int;
            let over = matches.filter(|m: TournamentMatch| m.status == MatchStatus::Completed).len();
            &&& drawn.headings.len() == rounds
            &&& drawn.headings[r - 1].column == r * 2 - 1
            &&& drawn.headings[r - 1].label == if r == rounds {
                "Final"@
            } else {
                "Round "@ + decimal(r)
            }
            &&& drawn.columns == round_columns(rounds as nat) + "minmax(170px, 1fr)"@
            &&& drawn.rows == vstd::arithmetic::power2::pow2(rounds as nat)
            &&& drawn.champion_line_column == rounds * 2
            &&& drawn.champion_column == rounds * 2 + 1
            &&& drawn.min_width == rounds * 238 + 170
            &&& drawn.note == decimal(over as int) + " of "@ + decimal(matches.len() as int)
                + " matches played · "@ + decimal(rounds) + (if rounds == 1 {
                " round"@
            } else {
                " rounds"@
            })
        }),
{
    finals_are_found(matches, f);
    matches_over_are_counted(
        matches,
        MatchStatus::Completed,
        |m: TournamentMatch| m.status == MatchStatus::Completed,
    );
}

pub(crate) proof fn matches_over_are_counted(
    matches: Seq<TournamentMatch>,
    status: MatchStatus,
    there: spec_fn(TournamentMatch) -> bool,
)
    requires
        forall|m: TournamentMatch| #[trigger] there(m) <==> m.status == status,
    ensures
        in_status(matches, status) == matches.filter(there).len(),
    decreases matches.len(),
{
    reveal(Seq::filter);
    if matches.len() > 0 {
        matches_over_are_counted(matches.drop_last(), status, there);
        assert(there(matches.last()) <==> matches.last().status == status);
    }
}

/// The columns of one more round stand before the champion's.
pub proof fn every_round_adds_its_columns(rounds: nat)
    ensures
        grid_columns(0) == "minmax(170px, 1fr)"@,
        round_columns(rounds + 1) == round_columns(rounds) + "minmax(210px, 1fr) 28px "@,
        grid_columns(rounds) == round_columns(rounds) + "minmax(170px, 1fr)"@,
{
    assert(grid_columns(0) =~= "minmax(170px, 1fr)"@);
}

/// No matches make no rounds.
pub proof fn no_matches_make_no_rounds()
    ensures
        rounds_of(Seq::empty()) == 0,
{
}

/// The sides and the games of a match are those that were stored with it, in
/// the order in which they were read.
pub proof fn sides_and_games_go_to_their_match(
    participants: Seq<BracketParticipant>,
    games: Seq<MatchGame>,
    match_id: Id,
)
    ensures
        sides_of(participants, match_id) == participants.filter(
            |p: BracketParticipant| p.match_id == match_id,
        ),
        games_of(games, match_id) == games.filter(|g: MatchGame| g.match_id == match_id),
{
    belonging_is_told_item_by_item(
        participants,
        match_id,
        |p: BracketParticipant| p.match_id == match_id,
    );
    belonging_is_told_item_by_item(games, match_id, |g: MatchGame| g.match_id == match_id);
}

/// A champion is seen exactly where there is one, with their own name and
/// color.
pub proof fn champions_are_seen_as_they_are(champion: Option<Champion>)
    ensures
        champion_view(champion) is Some <==> champion is Some,
        champion is Some ==> {
            let seen = champion_view(champion)->0;
            &&& seen.name == champion->0.name@
            &&& seen.color is Some <==> champion->0.color is Some
            &&& champion->0.color is Some ==> seen.color->0 == champion->0.color->0@
        },
{
}

} // verus!
