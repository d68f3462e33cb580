//! The list of tournaments and the page of one tournament: what has to be
//! read for it, who gets to see it, and what it shows.

use crate::bracket::{
    bracket_drawable, bracket_drawn, bracket_section, count_in_status, games_of, group_games,
    group_participants, in_status, rounds_of, sides_of, total_rounds, Bracket,
    BracketView,
};
use crate::flow::{detail_path, detail_url};
use crate::ids::{id_text, is_id, Id};
use crate::lists::{grouped, ids_of, views};
use crate::model::{
    Battlesnake, BracketParticipant, Leaderboard, MatchGame, MatchStatus, MatchStyle,
    RegistrationDetails, Tournament, TournamentListing, TournamentMatch, TournamentStatus, User,
};
use crate::rules::{
    can_register, can_view, contains_id, editable, may_register, refreshes,
    registrations_editable, should_refresh_tournament, visible_to, MAX_TOTAL_REGISTRATIONS,
};
use crate::runs::{
    move_seed_accepted, register_accepted, reset_accepted, unregister_accepted, Answers,
};
use crate::text::{count_text, decimal, decimal_text, decimal_two, decimal_two_text, opt_text};
use crate::time::{date_shown, date_text};
use crate::tournament_forms::{choice, Choice, ChoiceView};
use std::collections::HashMap;
use vstd::prelude::*;
use vstd::string::StringExecFns;

verus! {

// Labels.

/// How a status is shown.
#[derive(Debug)]
pub struct Badge {
    pub class: String,
    pub label: String,
}

/// How a status is shown, with its texts as characters.
pub struct BadgeView {
    pub class: Seq<char>,
    pub label: Seq<char>,
}

impl View for Badge {
    type V = BadgeView;

    open spec fn view(&self) -> BadgeView {
        BadgeView { class: self.class@, label: self.label@ }
    }
}

/// How a status is shown.
pub open spec fn badge_of(status: TournamentStatus) -> BadgeView {
    match status {
        TournamentStatus::Created => BadgeView { class: "badge"@, label: "Draft"@ },
        TournamentStatus::Registration => BadgeView {
            class: "badge ok"@,
            label: "Registration open"@,
        },
        TournamentStatus::InProgress => BadgeView { class: "badge live"@, label: "In progress"@ },
        TournamentStatus::Completed => BadgeView { class: "badge"@, label: "Completed"@ },
        TournamentStatus::Canceled => BadgeView { class: "badge"@, label: "Canceled"@ },
    }
}

/// How a status is shown.
pub fn status_badge(status: TournamentStatus) -> (r: Badge)
    ensures
        r@ == badge_of(status),
{
    let (class, label) = match status {
        TournamentStatus::Created => ("badge", "Draft"),
        TournamentStatus::Registration => ("badge ok", "Registration open"),
        TournamentStatus::InProgress => ("badge live", "In progress"),
        TournamentStatus::Completed => ("badge", "Completed"),
        TournamentStatus::Canceled => ("badge", "Canceled"),
    };
    Badge { class: class.to_owned(), label: label.to_owned() }
}

/// What a match style is called.
pub open spec fn style_name(style: MatchStyle) -> Seq<char> {
    match style {
        MatchStyle::SingleGame => "Single game"@,
        MatchStyle::BestOf3 => "Best of 3"@,
        MatchStyle::FirstTo3 => "First to 3"@,
    }
}

/// What a match style is called.
pub fn style_label(style: MatchStyle) -> (r: &'static str)
    ensures
        r@ == style_name(style),
{
    match style {
        MatchStyle::SingleGame => "Single game",
        MatchStyle::BestOf3 => "Best of 3",
        MatchStyle::FirstTo3 => "First to 3",
    }
}

// The list.

/// One tournament in the list.
#[derive(Debug)]
pub struct TournamentRow {
    pub href: String,
    pub name: String,
    pub owner: String,
    pub badge: Badge,
    pub snakes: String,
    pub game: String,
    pub created: String,
}

/// One tournament in the list, with its texts as characters.
pub struct TournamentRowView {
    pub href: Seq<char>,
    pub name: Seq<char>,
    pub owner: Seq<char>,
    pub badge: BadgeView,
    pub snakes: Seq<char>,
    pub game: Seq<char>,
    pub created: Seq<char>,
}

impl View for TournamentRow {
    type V = TournamentRowView;

    open spec fn view(&self) -> TournamentRowView {
        TournamentRowView {
            href: self.href@,
            name: self.name@,
            owner: self.owner@,
            badge: self.badge@,
            snakes: self.snakes@,
            game: self.game@,
            created: self.created@,
        }
    }
}

/// The list of tournaments.
#[derive(Debug)]
pub struct TournamentList {
    /// Whether the viewer is offered to create one.
    pub can_create: bool,
    pub rows: Vec<TournamentRow>,
    /// What is offered in place of an empty list: where it leads, and its
    /// label.
    pub instead: Option<(String, String)>,
}

/// The list of tournaments, with its texts as characters.
pub struct TournamentListView {
    pub can_create: bool,
    pub rows: Seq<TournamentRowView>,
    pub instead: Option<(Seq<char>, Seq<char>)>,
}

impl View for TournamentList {
    type V = TournamentListView;

    open spec fn view(&self) -> TournamentListView {
        TournamentListView {
            can_create: self.can_create,
            rows: views(self.rows@),
            instead: match self.instead {
                Some((href, label)) => Some((href@, label@)),
                None => None,
            },
        }
    }
}

/// One tournament in the list.
pub open spec fn listing_row(t: TournamentListing) -> TournamentRowView {
    TournamentRowView {
        href: detail_path(t.tournament_id),
        name: t.name@,
        owner: "by "@ + t.owner_login@,
        badge: badge_of(t.status),
        snakes: decimal(t.registration_count as int),
        game: t.game_type.text(),
        created: date_shown(t.created_at),
    }
}

/// The list of tournaments, in the order in which they were read. Whoever is
/// signed in can create one; an empty list says where else to go.
pub open spec fn list_of(signed_in: bool, tournaments: Seq<TournamentListing>) -> TournamentListView {
    TournamentListView {
        can_create: signed_in,
        rows: Seq::new(tournaments.len(), |i: int| listing_row(tournaments[i])),
        instead: if tournaments.len() > 0 {
            None
        } else if signed_in {
            Some(("/tournaments/new"@, "Create the First Tournament"@))
        } else {
            Some(("/leaderboards"@, "Watch the Leaderboards"@))
        },
    }
}

/// The list of tournaments that a viewer sees.
pub fn list_tournaments(viewer: Option<Id>, tournaments: &[TournamentListing]) -> (r: TournamentList)
    requires
        forall|i: int| 0 <= i < tournaments@.len() ==> (#[trigger] tournaments@[i]).created_at.valid(),
    ensures
        r@ == list_of(viewer is Some, tournaments@),
{
    let mut rows: Vec<TournamentRow> = Vec::new();
    let mut i: usize = 0;
    while i < tournaments.len()
        invariant
            i <= tournaments.len(),
            rows@.len() == i,
            forall|k: int|
                0 <= k < tournaments@.len() ==> (#[trigger] tournaments@[k]).created_at.valid(),
            forall|k: int| 0 <= k < i ==> (#[trigger] rows@[k])@ == listing_row(tournaments@[k]),
        decreases tournaments.len() - i,
    {
        let t: &TournamentListing = &tournaments[i];
        rows.push(
            TournamentRow {
                href: detail_url(t.tournament_id),
                name: t.name.clone(),
                owner: "by ".to_owned().concat(t.owner_login.as_str()),
                badge: status_badge(t.status),
                snakes: decimal_text(t.registration_count),
                game: t.game_type.as_str().to_owned(),
                created: date_text(t.created_at),
            },
        );
        i = i + 1;
    }
    let instead: Option<(String, String)> = if tournaments.len() > 0 {
        None
    } else if viewer.is_some() {
        Some(("/tournaments/new".to_owned(), "Create the First Tournament".to_owned()))
    } else {
        Some(("/leaderboards".to_owned(), "Watch the Leaderboards".to_owned()))
    };
    let list = TournamentList { can_create: viewer.is_some(), rows, instead };
    assert(list@.rows =~= list_of(viewer is Some, tournaments@).rows);
    list
}

// What the page of a tournament needs.

/// What a request for a tournament's page has read so far. What has not been
/// asked for is `None`.
#[derive(Debug)]
pub struct ShowFacts {
    pub tournament: Option<Option<Tournament>>,
    pub registrations: Option<Vec<RegistrationDetails>>,
    pub owner: Option<Option<User>>,
    pub viewer_snakes: Option<Vec<Battlesnake>>,
    pub leaderboards: Option<Vec<Leaderboard>>,
    pub matches: Option<Vec<TournamentMatch>>,
    pub participants: Option<Vec<BracketParticipant>>,
    pub games: Option<Vec<MatchGame>>,
    pub can_cancel: Option<bool>,
}

/// What a request for a tournament's page does next. A step that names no
/// tournament is about the one that was read.
#[derive(Debug)]
pub enum ShowStep {
    LoadTournament { tournament_id: Id },
    /// Read the registrations with the names of snakes and owners.
    LoadRegistrations,
    LoadOwner { user_id: Id },
    LoadSnakes { user_id: Id },
    LoadLeaderboards,
    LoadMatches,
    LoadParticipants,
    LoadGames,
    /// Ask the lifecycle whether it allows a change of status.
    CheckTransition { from: TournamentStatus, to: TournamentStatus },
    /// There is no such tournament, as far as the viewer is told.
    NotFound { message: String },
    Render,
}

/// What a request for a tournament's page does next, with its texts as
/// characters.
pub enum ShowStepView {
    LoadTournament { tournament_id: Id },
    LoadRegistrations,
    LoadOwner { user_id: Id },
    LoadSnakes { user_id: Id },
    LoadLeaderboards,
    LoadMatches,
    LoadParticipants,
    LoadGames,
    CheckTransition { from: TournamentStatus, to: TournamentStatus },
    NotFound { message: Seq<char> },
    Render,
}

impl View for ShowStep {
    type V = ShowStepView;

    open spec fn view(&self) -> ShowStepView {
        match *self {
            ShowStep::LoadTournament { tournament_id } => ShowStepView::LoadTournament {
                tournament_id,
            },
            ShowStep::LoadRegistrations => ShowStepView::LoadRegistrations,
            ShowStep::LoadOwner { user_id } => ShowStepView::LoadOwner { user_id },
            ShowStep::LoadSnakes { user_id } => ShowStepView::LoadSnakes { user_id },
            ShowStep::LoadLeaderboards => ShowStepView::LoadLeaderboards,
            ShowStep::LoadMatches => ShowStepView::LoadMatches,
            ShowStep::LoadParticipants => ShowStepView::LoadParticipants,
            ShowStep::LoadGames => ShowStepView::LoadGames,
            ShowStep::CheckTransition { from, to } => ShowStepView::CheckTransition { from, to },
            ShowStep::NotFound { message } => ShowStepView::NotFound { message: message@ },
            ShowStep::Render => ShowStepView::Render,
        }
    }
}

/// The owners of the registered snakes.
pub open spec fn participants_of(registrations: Seq<RegistrationDetails>) -> Seq<Id> {
    Seq::new(registrations.len(), |i: int| registrations[i].user_id)
}

/// The registered snakes.
pub open spec fn snakes_of(registrations: Seq<RegistrationDetails>) -> Seq<Id> {
    Seq::new(registrations.len(), |i: int| registrations[i].battlesnake_id)
}

/// How many of the registrations are a user's.
pub open spec fn registrations_of(registrations: Seq<RegistrationDetails>, user_id: Id) -> nat {
    registrations.filter(|r: RegistrationDetails| r.user_id == user_id).len()
}

/// Whether the viewer is offered snakes to register: the rules admit it, and
/// the viewer is under the tournament's limit.
pub open spec fn offers_registration(
    t: Tournament,
    viewer: Option<Id>,
    registrations: Seq<RegistrationDetails>,
) -> bool {
    match viewer {
        Some(user_id) => may_register(t, user_id == t.user_id) && registrations_of(
            registrations,
            user_id,
        ) < t.max_snakes_per_user,
        None => false,
    }
}

/// Whether a tournament in this status has a bracket.
pub open spec fn has_bracket(status: TournamentStatus) -> bool {
    status is InProgress || status is Completed
}

/// The next step of showing a tournament: it and its registrations are read,
/// whoever may not see it is told that there is none, and then the rest is
/// read as far as the page shows it.
pub open spec fn show_next(
    tournament_id: Id,
    viewer: Option<Id>,
    facts: ShowFacts,
) -> ShowStepView {
    match facts.tournament {
        None => ShowStepView::LoadTournament { tournament_id },
        Some(None) => ShowStepView::NotFound { message: "Tournament not found"@ },
        Some(Some(t)) => match facts.registrations {
            None => ShowStepView::LoadRegistrations,
            Some(registrations) => if !visible_to(t, viewer, participants_of(registrations@)) {
                ShowStepView::NotFound { message: "Tournament not found"@ }
            } else if facts.owner is None {
                ShowStepView::LoadOwner { user_id: t.user_id }
            } else if offers_registration(t, viewer, registrations@) && facts.viewer_snakes is None {
                ShowStepView::LoadSnakes { user_id: viewer->0 }
            } else if viewer == Some(t.user_id) && editable(t.status) && facts.leaderboards is None {
                ShowStepView::LoadLeaderboards
            } else if has_bracket(t.status) && facts.matches is None {
                ShowStepView::LoadMatches
            } else if has_bracket(t.status) && facts.participants is None {
                ShowStepView::LoadParticipants
            } else if has_bracket(t.status) && facts.games is None {
                ShowStepView::LoadGames
            } else if viewer == Some(t.user_id) && facts.can_cancel is None {
                ShowStepView::CheckTransition { from: t.status, to: TournamentStatus::Canceled }
            } else {
                ShowStepView::Render
            },
        },
    }
}

fn participant_ids(registrations: &[RegistrationDetails]) -> (r: Vec<Id>)
    ensures
        r@ == participants_of(registrations@),
{
    let id_of = |r: &RegistrationDetails| -> (id: Id)
        ensures
            id == r.user_id,
        { r.user_id };
    let ids: Vec<Id> = ids_of(registrations, id_of);
    assert(ids@ =~= participants_of(registrations@));
    ids
}

fn snake_ids(registrations: &[RegistrationDetails]) -> (r: Vec<Id>)
    ensures
        r@ == snakes_of(registrations@),
{
    let id_of = |r: &RegistrationDetails| -> (id: Id)
        ensures
            id == r.battlesnake_id,
        { r.battlesnake_id };
    let ids: Vec<Id> = ids_of(registrations, id_of);
    assert(ids@ =~= snakes_of(registrations@));
    ids
}

fn count_registrations_of(registrations: &[RegistrationDetails], user_id: Id) -> (r: usize)
    ensures
        r == registrations_of(registrations@, user_id),
{
    let ghost theirs = |r: RegistrationDetails| r.user_id == user_id;
    let mut count: usize = 0;
    let mut i: usize = 0;
    proof {
        reveal(Seq::filter);
        assert(registrations@.take(0) =~= Seq::<RegistrationDetails>::empty());
    }
    while i < registrations.len()
        invariant
            i <= registrations.len(),
            count <= i,
            theirs == (|r: RegistrationDetails| r.user_id == user_id),
            count == registrations@.take(i as int).filter(theirs).len(),
        decreases registrations.len() - i,
    {
        proof {
            reveal(Seq::filter);
            assert(registrations@.take(i + 1).drop_last() =~= registrations@.take(i as int));
        }
        if registrations[i].user_id == user_id {
            count = count + 1;
        }
        i = i + 1;
    }
    assert(registrations@.take(i as int) =~= registrations@);
    count
}

fn offered_registration(
    t: &Tournament,
    viewer: Option<Id>,
    registrations: &[RegistrationDetails],
) -> (r: bool)
    ensures
        r == offers_registration(*t, viewer, registrations@),
{
    match viewer {
        Some(user_id) => {
            if can_register(t, user_id == t.user_id) {
                let count: usize = count_registrations_of(registrations, user_id);
                (count as i128) < t.max_snakes_per_user as i128
            } else {
                false
            }
        },
        None => false,
    }
}

/// The page of a tournament. Tournaments for participants only do not exist
/// for outsiders.
pub fn show_tournament(tournament_id: Id, viewer: Option<Id>, facts: &ShowFacts) -> (r:
    ShowStep)
    ensures
        r@ == show_next(tournament_id, viewer, *facts),
{
    let t: &Tournament = match &facts.tournament {
        None => {
            return ShowStep::LoadTournament { tournament_id };
        },
        Some(None) => {
            return ShowStep::NotFound { message: "Tournament not found".to_owned() };
        },
        Some(Some(t)) => t,
    };
    let registrations: &Vec<RegistrationDetails> = match &facts.registrations {
        None => {
            return ShowStep::LoadRegistrations;
        },
        Some(registrations) => registrations,
    };
    if !can_view(t, viewer, participant_ids(registrations.as_slice()).as_slice()) {
        return ShowStep::NotFound { message: "Tournament not found".to_owned() };
    }
    let is_owner: bool = is_id(viewer, t.user_id);
    let bracket: bool = t.status == TournamentStatus::InProgress || t.status
        == TournamentStatus::Completed;
    if facts.owner.is_none() {
        return ShowStep::LoadOwner { user_id: t.user_id };
    }
    if facts.viewer_snakes.is_none() {
        match viewer {
            Some(user_id) => {
                if offered_registration(t, viewer, registrations.as_slice()) {
                    return ShowStep::LoadSnakes { user_id };
                }
            },
            None => {},
        }
    }
    if is_owner && registrations_editable(t.status) && facts.leaderboards.is_none() {
        ShowStep::LoadLeaderboards
    } else if bracket && facts.matches.is_none() {
        ShowStep::LoadMatches
    } else if bracket && facts.participants.is_none() {
        ShowStep::LoadParticipants
    } else if bracket && facts.games.is_none() {
        ShowStep::LoadGames
    } else if is_owner && facts.can_cancel.is_none() {
        ShowStep::CheckTransition { from: t.status, to: TournamentStatus::Canceled }
    } else {
        ShowStep::Render
    }
}

// The page of a tournament.

/// One number of the band above the page, with what is said beside it.
#[derive(Debug)]
pub struct Stat {
    pub value: String,
    pub live: bool,
    pub note: Option<String>,
}

/// One number of the band above the page, with its texts as characters.
pub struct StatView {
    pub value: Seq<char>,
    pub live: bool,
    pub note: Option<Seq<char>>,
}

impl View for Stat {
    type V = StatView;

    open spec fn view(&self) -> StatView {
        StatView { value: self.value@, live: self.live, note: opt_text(self.note) }
    }
}

/// A registered snake and what the viewer may do about it.
#[derive(Debug)]
pub struct RegistrationRow {
    pub registration_id: String,
    pub seed: i32,
    pub seed_label: String,
    pub color: String,
    pub href: String,
    pub name: String,
    pub owner: String,
    pub can_move: bool,
    pub can_unregister: bool,
}

/// A registered snake, with its texts as characters.
pub struct RegistrationRowView {
    pub registration_id: Seq<char>,
    pub seed: int,
    pub seed_label: Seq<char>,
    pub color: Seq<char>,
    pub href: Seq<char>,
    pub name: Seq<char>,
    pub owner: Seq<char>,
    pub can_move: bool,
    pub can_unregister: bool,
}

impl View for RegistrationRow {
    type V = RegistrationRowView;

    open spec fn view(&self) -> RegistrationRowView {
        RegistrationRowView {
            registration_id: self.registration_id@,
            seed: self.seed as int,
            seed_label: self.seed_label@,
            color: self.color@,
            href: self.href@,
            name: self.name@,
            owner: self.owner@,
            can_move: self.can_move,
            can_unregister: self.can_unregister,
        }
    }
}

/// What the owner is offered.
#[derive(Debug)]
pub struct OwnerControls {
    pub open_registration: bool,
    pub start: bool,
    /// The label of the button that runs a round.
    pub run_round: Option<String>,
    pub reset: bool,
    pub edit: bool,
    pub cancel: bool,
}

/// What the owner is offered, with its texts as characters.
pub struct OwnerControlsView {
    pub open_registration: bool,
    pub start: bool,
    pub run_round: Option<Seq<char>>,
    pub reset: bool,
    pub edit: bool,
    pub cancel: bool,
}

impl View for OwnerControls {
    type V = OwnerControlsView;

    open spec fn view(&self) -> OwnerControlsView {
        OwnerControlsView {
            open_registration: self.open_registration,
            start: self.start,
            run_round: opt_text(self.run_round),
            reset: self.reset,
            edit: self.edit,
            cancel: self.cancel,
        }
    }
}

/// The settings of a tournament as the page lists them.
#[derive(Debug)]
pub struct FormatList {
    pub game: String,
    pub board: String,
    pub series: String,
    pub registration: String,
    pub visibility: String,
    pub max_snakes: String,
    pub required: String,
    pub created: String,
}

/// The settings of a tournament, with their texts as characters.
pub struct FormatListView {
    pub game: Seq<char>,
    pub board: Seq<char>,
    pub series: Seq<char>,
    pub registration: Seq<char>,
    pub visibility: Seq<char>,
    pub max_snakes: Seq<char>,
    pub required: Seq<char>,
    pub created: Seq<char>,
}

impl View for FormatList {
    type V = FormatListView;

    open spec fn view(&self) -> FormatListView {
        FormatListView {
            game: self.game@,
            board: self.board@,
            series: self.series@,
            registration: self.registration@,
            visibility: self.visibility@,
            max_snakes: self.max_snakes@,
            required: self.required@,
            created: self.created@,
        }
    }
}

/// The page of a tournament.
#[derive(Debug)]
pub struct TournamentPage {
    pub title: String,
    pub name: String,
    /// Where the page is; every action on the tournament is below it.
    pub url: String,
    /// What the page compares to tell whether anything happened, while it
    /// reloads itself.
    pub refresh_key: Option<String>,
    pub subtitle: String,
    /// What stands in place of the badge while the tournament runs.
    pub round_pill: Option<String>,
    pub badge: Badge,
    pub description: Option<String>,
    pub registered: Stat,
    pub rounds: Stat,
    pub played: Stat,
    pub format: String,
    pub bracket: Option<Bracket>,
    /// Whether registrations have a column for actions.
    pub show_actions: bool,
    pub max_seed: usize,
    pub rows: Vec<RegistrationRow>,
    pub controls: Option<OwnerControls>,
    pub imports: Vec<Choice>,
    pub registerable: Vec<Choice>,
    pub details: FormatList,
}

/// The page of a tournament, with its texts as characters.
pub struct TournamentPageView {
    pub title: Seq<char>,
    pub name: Seq<char>,
    pub url: Seq<char>,
    pub refresh_key: Option<Seq<char>>,
    pub subtitle: Seq<char>,
    pub round_pill: Option<Seq<char>>,
    pub badge: BadgeView,
    pub description: Option<Seq<char>>,
    pub registered: StatView,
    pub rounds: StatView,
    pub played: StatView,
    pub format: Seq<char>,
    pub bracket: Option<BracketView>,
    pub show_actions: bool,
    pub max_seed: nat,
    pub rows: Seq<RegistrationRowView>,
    pub controls: Option<OwnerControlsView>,
    pub imports: Seq<ChoiceView>,
    pub registerable: Seq<ChoiceView>,
    pub details: FormatListView,
}

impl View for TournamentPage {
    type V = TournamentPageView;

    open spec fn view(&self) -> TournamentPageView {
        TournamentPageView {
            title: self.title@,
            name: self.name@,
            url: self.url@,
            refresh_key: opt_text(self.refresh_key),
            subtitle: self.subtitle@,
            round_pill: opt_text(self.round_pill),
            badge: self.badge@,
            description: opt_text(self.description),
            registered: self.registered@,
            rounds: self.rounds@,
            played: self.played@,
            format: self.format@,
            bracket: match self.bracket {
                Some(bracket) => Some(bracket@),
                None => None,
            },
            show_actions: self.show_actions,
            max_seed: self.max_seed as nat,
            rows: views(self.rows@),
            controls: match self.controls {
                Some(controls) => Some(controls@),
                None => None,
            },
            imports: views(self.imports@),
            registerable: views(self.registerable@),
            details: self.details@,
        }
    }
}

/// What a page that reloads itself compares: the round, and how many matches
/// are scheduled, live, played and canceled.
pub open spec fn state_key(t: Tournament, matches: Seq<TournamentMatch>) -> Seq<char> {
    "tournament:"@ + decimal(t.current_round as int) + ":"@ + decimal(
        in_status(matches, MatchStatus::Scheduled) as int,
    ) + ":"@ + decimal(in_status(matches, MatchStatus::InProgress) as int) + ":"@ + decimal(
        in_status(matches, MatchStatus::Completed) as int,
    ) + ":"@ + decimal(in_status(matches, MatchStatus::Canceled) as int)
}

fn state_key_text(t: &Tournament, matches: &[TournamentMatch]) -> (r: String)
    ensures
        r@ == state_key(*t, matches@),
{
    "tournament:".to_owned().concat(decimal_text(t.current_round as i64).as_str()).concat(
        ":",
    ).concat(count_text(count_in_status(matches, MatchStatus::Scheduled)).as_str()).concat(
        ":",
    ).concat(count_text(count_in_status(matches, MatchStatus::InProgress)).as_str()).concat(
        ":",
    ).concat(count_text(count_in_status(matches, MatchStatus::Completed)).as_str()).concat(
        ":",
    ).concat(count_text(count_in_status(matches, MatchStatus::Canceled)).as_str())
}

/// The page of a snake.
pub open spec fn profile_path(battlesnake_id: Id) -> Seq<char> {
    "/battlesnakes/"@ + battlesnake_id.text() + "/profile"@
}

/// The page of a snake.
pub fn profile_url(battlesnake_id: Id) -> (r: String)
    ensures
        r@ == profile_path(battlesnake_id),
{
    "/battlesnakes/".to_owned().concat(id_text(battlesnake_id).as_str()).concat("/profile")
}

/// A registered snake. Before the start the owner of the tournament may move
/// and remove every snake, and everybody may remove their own.
pub open spec fn registration_row(
    t: Tournament,
    viewer: Option<Id>,
    reg: RegistrationDetails,
) -> RegistrationRowView {
    RegistrationRowView {
        registration_id: reg.registration_id.text(),
        seed: reg.seed as int,
        seed_label: decimal_two(reg.seed as int),
        color: reg.snake_color@,
        href: profile_path(reg.battlesnake_id),
        name: reg.snake_name@,
        owner: "by "@ + reg.owner_login@,
        can_move: editable(t.status) && viewer == Some(t.user_id),
        can_unregister: editable(t.status) && (viewer == Some(t.user_id) || viewer == Some(
            reg.user_id,
        )),
    }
}

fn registration_rows(
    t: &Tournament,
    viewer: Option<Id>,
    registrations: &[RegistrationDetails],
) -> (r: Vec<RegistrationRow>)
    ensures
        views(r@) == Seq::new(
            registrations@.len(),
            |i: int| registration_row(*t, viewer, registrations@[i]),
        ),
{
    let is_owner: bool = is_id(viewer, t.user_id);
    let can_edit: bool = registrations_editable(t.status);
    let mut rows: Vec<RegistrationRow> = Vec::new();
    let mut i: usize = 0;
    while i < registrations.len()
        invariant
            i <= registrations.len(),
            rows@.len() == i,
            is_owner == (viewer == Some(t.user_id)),
            can_edit == editable(t.status),
            forall|k: int|
                0 <= k < i ==> (#[trigger] rows@[k])@ == registration_row(
                    *t,
                    viewer,
                    registrations@[k],
                ),
        decreases registrations.len() - i,
    {
        let reg: &RegistrationDetails = &registrations[i];
        rows.push(
            RegistrationRow {
                registration_id: id_text(reg.registration_id),
                seed: reg.seed,
                seed_label: decimal_two_text(reg.seed as i64),
                color: reg.snake_color.clone(),
                href: profile_url(reg.battlesnake_id),
                name: reg.snake_name.clone(),
                owner: "by ".to_owned().concat(reg.owner_login.as_str()),
                can_move: can_edit && is_owner,
                can_unregister: can_edit && (is_owner || is_id(viewer, reg.user_id)),
            },
        );
        i = i + 1;
    }
    assert(views(rows@) =~= Seq::new(
        registrations@.len(),
        |i: int| registration_row(*t, viewer, registrations@[i]),
    ));
    rows
}

/// The snakes that the viewer may register: their own that are not registered
/// yet.
pub open spec fn unregistered(
    snakes: Seq<Battlesnake>,
    registrations: Seq<RegistrationDetails>,
) -> Seq<Battlesnake> {
    snakes.filter(|s: Battlesnake| !snakes_of(registrations).contains(s.battlesnake_id))
}

/// Snakes as a list to choose from.
pub open spec fn snake_choices(snakes: Seq<Battlesnake>) -> Seq<ChoiceView> {
    Seq::new(
        snakes.len(),
        |i: int| choice(snakes[i].battlesnake_id.text(), snakes[i].name@, false),
    )
}

fn offered_snakes(snakes: &[Battlesnake], registrations: &[RegistrationDetails]) -> (r: Vec<Choice>)
    ensures
        views(r@) == snake_choices(unregistered(snakes@, registrations@)),
{
    let ghost free = |s: Battlesnake|
        !snakes_of(registrations@).contains(s.battlesnake_id);
    let registered: Vec<Id> = snake_ids(registrations);
    let mut choices: Vec<Choice> = Vec::new();
    let mut i: usize = 0;
    proof {
        reveal(Seq::filter);
        assert(snakes@.take(0) =~= Seq::<Battlesnake>::empty());
        assert(views(choices@) =~= snake_choices(snakes@.take(0).filter(free)));
    }
    while i < snakes.len()
        invariant
            i <= snakes.len(),
            registered@ == snakes_of(registrations@),
            free == (|s: Battlesnake| !snakes_of(registrations@).contains(s.battlesnake_id)),
            views(choices@) == snake_choices(snakes@.take(i as int).filter(free)),
        decreases snakes.len() - i,
    {
        let snake: &Battlesnake = &snakes[i];
        let ghost before = choices@;
        proof {
            reveal(Seq::filter);
            assert(snakes@.take(i + 1).drop_last() =~= snakes@.take(i as int));
        }
        if !contains_id(registered.as_slice(), snake.battlesnake_id) {
            choices.push(
                Choice {
                    value: id_text(snake.battlesnake_id),
                    label: snake.name.clone(),
                    selected: false,
                },
            );
            assert(views(choices@) =~= views(before).push(choices@.last()@));
            assert(views(choices@) =~= snake_choices(snakes@.take(i + 1).filter(free)));
        }
        i = i + 1;
    }
    assert(snakes@.take(i as int) =~= snakes@);
    choices
}

/// Leaderboards as a list to choose from.
pub open spec fn leaderboard_choices(leaderboards: Seq<Leaderboard>) -> Seq<ChoiceView> {
    Seq::new(
        leaderboards.len(),
        |i: int| choice(leaderboards[i].leaderboard_id.text(), leaderboards[i].name@, false),
    )
}

fn offered_leaderboards(leaderboards: &[Leaderboard]) -> (r: Vec<Choice>)
    ensures
        views(r@) == leaderboard_choices(leaderboards@),
{
    let mut choices: Vec<Choice> = Vec::new();
    let mut i: usize = 0;
    while i < leaderboards.len()
        invariant
            i <= leaderboards.len(),
            choices@.len() == i,
            forall|k: int|
                0 <= k < i ==> (#[trigger] choices@[k])@ == choice(
                    leaderboards@[k].leaderboard_id.text(),
                    leaderboards@[k].name@,
                    false,
                ),
        decreases leaderboards.len() - i,
    {
        let lb: &Leaderboard = &leaderboards[i];
        choices.push(
            Choice { value: id_text(lb.leaderboard_id), label: lb.name.clone(), selected: false },
        );
        i = i + 1;
    }
    assert(views(choices@) =~= leaderboard_choices(leaderboards@));
    choices
}

/// What the owner of a tournament is offered.
pub open spec fn controls_of(t: Tournament, can_cancel: bool) -> OwnerControlsView {
    OwnerControlsView {
        open_registration: t.status is Created,
        start: t.status is Registration,
        run_round: if t.status is InProgress {
            Some("Run Round "@ + decimal(t.current_round as int))
        } else {
            None
        },
        reset: t.status is InProgress,
        edit: editable(t.status),
        cancel: can_cancel,
    }
}

fn owner_controls(t: &Tournament, can_cancel: bool) -> (r: OwnerControls)
    ensures
        r@ == controls_of(*t, can_cancel),
{
    let running: bool = t.status == TournamentStatus::InProgress;
    let run_round: Option<String> = if running {
        Some("Run Round ".to_owned().concat(decimal_text(t.current_round as i64).as_str()))
    } else {
        None
    };
    OwnerControls {
        open_registration: t.status == TournamentStatus::Created,
        start: t.status == TournamentStatus::Registration,
        run_round,
        reset: running,
        edit: registrations_editable(t.status),
        cancel: can_cancel,
    }
}

/// The settings of a tournament as the page lists them.
pub open spec fn format_of(t: Tournament) -> FormatListView {
    FormatListView {
        game: t.game_type.text(),
        board: t.board_size.text(),
        series: style_name(t.match_style),
        registration: t.registration_status.text(),
        visibility: t.visibility.text(),
        max_snakes: decimal(t.max_snakes_per_user as int),
        required: decimal(t.required_participants as int),
        created: date_shown(t.created_at),
    }
}

fn format_list(t: &Tournament) -> (r: FormatList)
    requires
        t.created_at.valid(),
    ensures
        r@ == format_of(*t),
{
    FormatList {
        game: t.game_type.as_str().to_owned(),
        board: t.board_size.as_str().to_owned(),
        series: style_label(t.match_style).to_owned(),
        registration: t.registration_status.as_str().to_owned(),
        visibility: t.visibility.as_str().to_owned(),
        max_snakes: decimal_text(t.max_snakes_per_user as i64),
        required: decimal_text(t.required_participants as i64),
        created: date_text(t.created_at),
    }
}

/// How many snakes are registered, and before the start how many it takes.
pub open spec fn registered_stat(t: Tournament, registrations: int) -> StatView {
    StatView {
        value: decimal(registrations),
        live: false,
        note: if editable(t.status) {
            Some("of "@ + decimal(t.required_participants as int) + " needed"@)
        } else {
            None
        },
    }
}

/// How many rounds there are.
pub open spec fn rounds_stat(rounds: int) -> StatView {
    StatView {
        value: if rounds > 0 {
            decimal(rounds)
        } else {
            "—"@
        },
        live: false,
        note: None,
    }
}

/// How many matches are played, and of how many.
pub open spec fn played_stat(t: Tournament, matches: Seq<TournamentMatch>) -> StatView {
    if matches.len() > 0 {
        StatView {
            value: decimal(in_status(matches, MatchStatus::Completed) as int),
            live: t.status is InProgress,
            note: Some("of "@ + decimal(matches.len() as int)),
        }
    } else {
        StatView { value: "—"@, live: false, note: None }
    }
}

/// The matches that a page shows: those of a tournament that has a bracket.
pub open spec fn shown_matches(t: Tournament, matches: Option<Vec<TournamentMatch>>) -> Seq<
    TournamentMatch,
> {
    match matches {
        Some(matches) => if has_bracket(t.status) {
            matches@
        } else {
            Seq::empty()
        },
        None => Seq::empty(),
    }
}

/// The bracket that a page shows.
pub open spec fn shown_bracket(
    t: Tournament,
    matches: Option<Vec<TournamentMatch>>,
    participants: Option<Vec<BracketParticipant>>,
    games: Option<Vec<MatchGame>>,
) -> Option<BracketView> {
    if rounds_of(shown_matches(t, matches)) == 0 {
        None
    } else {
        Some(
            bracket_drawn(
                t,
                shown_matches(t, matches),
                |match_id: Id| sides_of(participants->0@, match_id),
                |match_id: Id| games_of(games->0@, match_id),
            ),
        )
    }
}

/// The page of a tournament, from everything that was read for it.
pub open spec fn page_of(
    viewer: Option<Id>,
    watch_round: Option<i32>,
    facts: ShowFacts,
) -> TournamentPageView {
    let t = facts.tournament->0->0;
    let registrations = facts.registrations->0@;
    let matches = shown_matches(t, facts.matches);
    let is_owner = viewer == Some(t.user_id);
    let owner_login = match facts.owner->0 {
        Some(owner) => owner.github_login@,
        None => "Unknown"@,
    };
    TournamentPageView {
        title: "Tournament: "@ + t.name@,
        name: t.name@,
        url: detail_path(t.tournament_id),
        refresh_key: if refreshes(t, matches, watch_round) {
            Some(state_key(t, matches))
        } else {
            None
        },
        subtitle: "by "@ + owner_login + " · "@ + t.game_type.text() + " · "@ + t.board_size.text()
            + " · "@ + style_name(t.match_style),
        round_pill: if t.status is InProgress {
            Some(
                "LIVE · ROUND "@ + decimal(t.current_round as int) + " OF "@ + decimal(
                    rounds_of(matches),
                ),
            )
        } else {
            None
        },
        badge: badge_of(t.status),
        description: opt_text(t.description),
        registered: registered_stat(t, registrations.len() as int),
        rounds: rounds_stat(rounds_of(matches)),
        played: played_stat(t, matches),
        format: style_name(t.match_style) + " · "@ + t.board_size.text() + " "@
            + t.game_type.text(),
        bracket: shown_bracket(t, facts.matches, facts.participants, facts.games),
        show_actions: editable(t.status) && viewer is Some,
        max_seed: registrations.len(),
        rows: Seq::new(
            registrations.len(),
            |i: int| registration_row(t, viewer, registrations[i]),
        ),
        controls: if is_owner {
            Some(controls_of(t, facts.can_cancel->0))
        } else {
            None
        },
        imports: if is_owner && editable(t.status) {
            leaderboard_choices(facts.leaderboards->0@)
        } else {
            Seq::empty()
        },
        registerable: if offers_registration(t, viewer, registrations) {
            snake_choices(unregistered(facts.viewer_snakes->0@, registrations))
        } else {
            Seq::empty()
        },
        details: format_of(t),
    }
}

fn page_bracket(
    t: &Tournament,
    matches: &Option<Vec<TournamentMatch>>,
    participants: Option<Vec<BracketParticipant>>,
    games: Option<Vec<MatchGame>>,
) -> (r: Option<Bracket>)
    requires
        bracket_drawable(shown_matches(*t, *matches)),
        has_bracket(t.status) ==> *matches is Some && participants is Some && games is Some,
    ensures
        match r {
            Some(bracket) => shown_bracket(*t, *matches, participants, games) == Some(bracket@),
            None => shown_bracket(*t, *matches, participants, games) is None,
        },
{
    if t.status != TournamentStatus::InProgress && t.status != TournamentStatus::Completed {
        return None;
    }
    match (matches, participants, games) {
        (Some(matches), Some(participants), Some(games)) => {
            let ghost sides = |match_id: Id| sides_of(participants@, match_id);
            let ghost played = |match_id: Id| games_of(games@, match_id);
            let participants_by_match: HashMap<u128, Vec<BracketParticipant>> = group_participants(
                participants,
            );
            let games_by_match: HashMap<u128, Vec<MatchGame>> = group_games(games);
            assert(grouped(participants_by_match@) =~= sides);
            assert(grouped(games_by_match@) =~= played);
            bracket_section(t, matches.as_slice(), &participants_by_match, &games_by_match)
        },
        _ => None,
    }
}

fn registered_snakes(t: &Tournament, registrations: usize) -> (r: Stat)
    ensures
        r@ == registered_stat(*t, registrations as int),
{
    let note: Option<String> = if registrations_editable(t.status) {
        Some(
            "of ".to_owned().concat(decimal_text(t.required_participants as i64).as_str()).concat(
                " needed",
            ),
        )
    } else {
        None
    };
    Stat { value: count_text(registrations), live: false, note }
}

fn round_count(rounds: i32) -> (r: Stat)
    ensures
        r@ == rounds_stat(rounds as int),
{
    let value: String = if rounds > 0 {
        decimal_text(rounds as i64)
    } else {
        "—".to_owned()
    };
    Stat { value, live: false, note: None }
}

fn matches_played(t: &Tournament, matches: &[TournamentMatch]) -> (r: Stat)
    ensures
        r@ == played_stat(*t, matches@),
{
    if matches.len() > 0 {
        Stat {
            value: count_text(count_in_status(matches, MatchStatus::Completed)),
            live: t.status == TournamentStatus::InProgress,
            note: Some("of ".to_owned().concat(count_text(matches.len()).as_str())),
        }
    } else {
        Stat { value: "—".to_owned(), live: false, note: None }
    }
}

fn running_pill(t: &Tournament, rounds: i32) -> (r: Option<String>)
    ensures
        opt_text(r) == (if t.status is InProgress {
            Some(
                "LIVE · ROUND "@ + decimal(t.current_round as int) + " OF "@ + decimal(
                    rounds as int,
                ),
            )
        } else {
            None
        }),
{
    if t.status == TournamentStatus::InProgress {
        Some(
            "LIVE · ROUND ".to_owned().concat(decimal_text(t.current_round as i64).as_str()).concat(
                " OF ",
            ).concat(decimal_text(rounds as i64).as_str()),
        )
    } else {
        None
    }
}

/// The page of a tournament, once everything it shows was read.
pub fn tournament_page(
    viewer: Option<Id>,
    watch_round: Option<i32>,
    facts: ShowFacts,
) -> (r: TournamentPage)
    requires
        facts.tournament matches Some(Some(t)) && show_next(t.tournament_id, viewer, facts) is Render,
        facts.tournament->0->0.created_at.valid(),
        bracket_drawable(shown_matches(facts.tournament->0->0, facts.matches)),
    ensures
        r@ == page_of(viewer, watch_round, facts),
{
    let ghost given = facts;
    let tournament: Tournament = facts.tournament.unwrap().unwrap();
    let registrations: Vec<RegistrationDetails> = facts.registrations.unwrap();
    let owner: Option<User> = facts.owner.unwrap();
    let t: &Tournament = &tournament;
    let is_owner: bool = is_id(viewer, t.user_id);
    let none: Vec<TournamentMatch> = Vec::new();
    let matches: &[TournamentMatch] = match &facts.matches {
        Some(matches) => if t.status == TournamentStatus::InProgress || t.status
            == TournamentStatus::Completed {
            matches.as_slice()
        } else {
            none.as_slice()
        },
        None => none.as_slice(),
    };
    let ghost shown = shown_matches(*t, given.matches);
    assert(matches@ =~= shown);
    let rounds: i32 = total_rounds(matches);
    let refresh_key: Option<String> = if should_refresh_tournament(t, matches, watch_round) {
        Some(state_key_text(t, matches))
    } else {
        None
    };
    let owner_login: String = match owner {
        Some(user) => user.github_login,
        None => "Unknown".to_owned(),
    };
    let subtitle: String = "by ".to_owned().concat(owner_login.as_str()).concat(" · ").concat(
        t.game_type.as_str(),
    ).concat(" · ").concat(t.board_size.as_str()).concat(" · ").concat(style_label(t.match_style));
    let format: String = style_label(t.match_style).to_owned().concat(" · ").concat(
        t.board_size.as_str(),
    ).concat(" ").concat(t.game_type.as_str());
    let controls: Option<OwnerControls> = if is_owner {
        match facts.can_cancel {
            Some(can_cancel) => Some(owner_controls(t, can_cancel)),
            None => None,
        }
    } else {
        None
    };
    let imports: Vec<Choice> = match &facts.leaderboards {
        Some(leaderboards) => if is_owner && registrations_editable(t.status) {
            offered_leaderboards(leaderboards.as_slice())
        } else {
            Vec::new()
        },
        None => Vec::new(),
    };
    let registerable: Vec<Choice> = match &facts.viewer_snakes {
        Some(snakes) => if offered_registration(t, viewer, registrations.as_slice()) {
            offered_snakes(snakes.as_slice(), registrations.as_slice())
        } else {
            Vec::new()
        },
        None => Vec::new(),
    };
    let description: Option<String> = match &t.description {
        Some(description) => Some(description.clone()),
        None => None,
    };
    let played: Stat = matches_played(t, matches);
    let round_pill: Option<String> = running_pill(t, rounds);
    let bracket: Option<Bracket> = page_bracket(
        t,
        &facts.matches,
        facts.participants,
        facts.games,
    );
    let page = TournamentPage {
        title: "Tournament: ".to_owned().concat(t.name.as_str()),
        name: t.name.clone(),
        url: detail_url(t.tournament_id),
        refresh_key,
        subtitle,
        round_pill,
        badge: status_badge(t.status),
        description,
        registered: registered_snakes(t, registrations.len()),
        rounds: round_count(rounds),
        played,
        format,
        bracket,
        show_actions: registrations_editable(t.status) && viewer.is_some(),
        max_seed: registrations.len(),
        rows: registration_rows(t, viewer, registrations.as_slice()),
        controls,
        imports,
        registerable,
        details: format_list(t),
    };
    let ghost expected = page_of(viewer, watch_round, given);
    assert(page@.imports =~= expected.imports);
    assert(page@.registerable =~= expected.registerable);
    page
}

// Laws.

/// A page is only ever made for who may see the tournament, and everybody
/// else is answered as if there were no such tournament.
pub proof fn hidden_tournaments_have_no_page(
    tournament_id: Id,
    viewer: Option<Id>,
    facts: ShowFacts,
)
    requires
        facts.tournament matches Some(Some(_)),
        facts.registrations is Some,
    ensures
        show_next(tournament_id, viewer, facts) is Render ==> visible_to(
            facts.tournament->0->0,
            viewer,
            participants_of(facts.registrations->0@),
        ),
        !visible_to(
            facts.tournament->0->0,
            viewer,
            participants_of(facts.registrations->0@),
        ) ==> show_next(tournament_id, viewer, facts) == show_next(
            tournament_id,
            viewer,
            (ShowFacts { tournament: Some(None), ..facts }),
        ),
{
}

/// The controls of a page are those that the requests behind them accept: a
/// registration can be removed or moved from the page exactly when the viewer
/// may do so, and a reset is offered exactly when it would be accepted.
pub proof fn offered_controls_are_accepted(
    tournament_id: Id,
    user_id: Id,
    watch_round: Option<i32>,
    facts: ShowFacts,
    i: int,
    a: Answers,
)
    requires
        show_next(tournament_id, Some(user_id), facts) is Render,
        0 <= i < facts.registrations->0@.len(),
        a.tournament == facts.tournament->0,
        a.requester_registrations == registrations_of(facts.registrations->0@, user_id),
        a.registration matches Some(r) && r.user_id == facts.registrations->0@[i].user_id
            && r.tournament_id == a.tournament->0.tournament_id,
        a.seed_moved,
    ensures
        ({
            let page = page_of(Some(user_id), watch_round, facts);
            let t = a.tournament->0;
            &&& page.rows[i].can_unregister <==> unregister_accepted(a, t.tournament_id, user_id)
            &&& page.rows[i].can_move <==> move_seed_accepted(a, user_id)
            &&& (page.controls is Some && page.controls->0.reset) <==> reset_accepted(a, user_id)
        }),
{
    let regs = facts.registrations->0@;
    let t = facts.tournament->0->0;
    let theirs = |r: RegistrationDetails| r.user_id == user_id;
    if participants_of(regs).contains(user_id) {
        let k = choose|k: int| 0 <= k < regs.len() && participants_of(regs)[k] == user_id;
        regs.lemma_filter_contains_rev(theirs, regs[k]);
        assert(regs.filter(theirs).contains(regs[k]));
        assert(regs.filter(theirs).len() > 0);
    }
}

/// Every snake that the page offers to register is accepted as long as the
/// tournament is not full.
pub proof fn offered_snakes_are_accepted(
    tournament_id: Id,
    user_id: Id,
    facts: ShowFacts,
    j: int,
    a: Answers,
)
    requires
        show_next(tournament_id, Some(user_id), facts) is Render,
        offers_registration(facts.tournament->0->0, Some(user_id), facts.registrations->0@),
        0 <= j < unregistered(facts.viewer_snakes->0@, facts.registrations->0@).len(),
        a.tournament == facts.tournament->0,
        a.snake == Some(unregistered(facts.viewer_snakes->0@, facts.registrations->0@)[j]),
        a.snake->0.user_id == user_id,
        a.already_registered == snakes_of(facts.registrations->0@).contains(
            a.snake->0.battlesnake_id,
        ),
        a.requester_registrations == registrations_of(facts.registrations->0@, user_id),
        a.user_registrations == registrations_of(facts.registrations->0@, user_id),
        a.registration_count == facts.registrations->0@.len(),
        a.registration_count < MAX_TOTAL_REGISTRATIONS,
    ensures
        register_accepted(a, user_id),
{
    let regs = facts.registrations->0@;
    let theirs = |r: RegistrationDetails| r.user_id == user_id;
    regs.lemma_filter_len(theirs);
    let snakes = facts.viewer_snakes->0@;
    let free = |s: Battlesnake| !snakes_of(regs).contains(s.battlesnake_id);
    snakes.lemma_filter_pred(free, j);
    if participants_of(regs).contains(user_id) {
        let k = choose|k: int| 0 <= k < regs.len() && participants_of(regs)[k] == user_id;
        regs.lemma_filter_contains_rev(theirs, regs[k]);
        assert(regs.filter(theirs).contains(regs[k]));
        assert(regs.filter(theirs).len() > 0);
    }
}

/// Every tournament of the list is shown under its own name, owner, status,
/// count of snakes, game and date, and leads to its own page, in the order in
/// which it was read.
pub proof fn the_list_shows_each_tournament(
    signed_in: bool,
    tournaments: Seq<TournamentListing>,
    i: int,
)
    requires
        0 <= i < tournaments.len(),
    ensures
        ({
            let list = list_of(signed_in, tournaments);
            let row = list.rows[i];
            let t = tournaments[i];
            &&& list.rows.len() == tournaments.len()
            &&& list.can_create == signed_in
            &&& list.instead is None
            &&& row.href == "/tournaments/"@ + t.tournament_id.text()
            &&& row.name == t.name@
            &&& row.owner == "by "@ + t.owner_login@
            &&& row.snakes == decimal(t.registration_count as int)
            &&& row.game == t.game_type.text()
            &&& row.created == date_shown(t.created_at)
            &&& t.status is Created ==> row.badge.label == "Draft"@
            &&& t.status is Registration ==> row.badge.label == "Registration open"@
            &&& t.status is InProgress ==> row.badge.label == "In progress"@
            &&& t.status is Completed ==> row.badge.label == "Completed"@
            &&& t.status is Canceled ==> row.badge.label == "Canceled"@
        }),
{
}

/// An empty list offers to create a tournament to whoever can, and the
/// leaderboards to everybody else.
pub proof fn an_empty_list_says_where_to_go(signed_in: bool)
    ensures
        list_of(signed_in, Seq::empty()).rows.len() == 0,
        list_of(signed_in, Seq::empty()).can_create == signed_in,
        list_of(true, Seq::empty()).instead == Some(
            ("/tournaments/new"@, "Create the First Tournament"@),
        ),
        list_of(false, Seq::empty()).instead == Some(
            ("/leaderboards"@, "Watch the Leaderboards"@),
        ),
{
}

/// Every registered snake is shown with its own name, owner, color and seed,
/// and what may be done about it: before the start the owner of the tournament
/// may move and remove it, and its own owner may remove it.
pub proof fn registered_snakes_are_shown(
    viewer: Option<Id>,
    watch_round: Option<i32>,
    facts: ShowFacts,
    i: int,
)
    requires
        facts.registrations is Some,
        0 <= i < facts.registrations->0@.len(),
    ensures
        ({
            let page = page_of(viewer, watch_round, facts);
            let t = facts.tournament->0->0;
            let reg = facts.registrations->0@[i];
            let row = page.rows[i];
            let open = t.status is Created || t.status is Registration;
            &&& page.rows.len() == facts.registrations->0@.len()
            &&& page.max_seed == facts.registrations->0@.len()
            &&& row.registration_id == reg.registration_id.text()
            &&& row.seed == reg.seed
            &&& row.seed_label == decimal_two(reg.seed as int)
            &&& row.color == reg.snake_color@
            &&& row.href == "/battlesnakes/"@ + reg.battlesnake_id.text() + "/profile"@
            &&& row.name == reg.snake_name@
            &&& row.owner == "by "@ + reg.owner_login@
            &&& row.can_move <==> open && viewer is Some && viewer->0 == t.user_id
            &&& row.can_unregister <==> open && viewer is Some && (viewer->0 == t.user_id
                || viewer->0 == reg.user_id)
            &&& page.show_actions <==> open && viewer is Some
        }),
{
}

/// The owner, and nobody else, is offered what the status allows: to open
/// registration while the tournament is a draft, to start it while it takes
/// registrations, to run rounds and to reset it while it runs, to edit it and
/// to import snakes before the start, and to cancel where the lifecycle lets
/// them.
pub proof fn the_owner_is_offered_what_the_status_allows(
    viewer: Option<Id>,
    watch_round: Option<i32>,
    facts: ShowFacts,
)
    ensures
        ({
            let page = page_of(viewer, watch_round, facts);
            let t = facts.tournament->0->0;
            let owns = viewer is Some && viewer->0 == t.user_id;
            &&& page.controls is Some <==> owns
            &&& page.controls is Some ==> {
                let c = page.controls->0;
                &&& c.open_registration <==> t.status is Created
                &&& c.start <==> t.status is Registration
                &&& c.run_round is Some <==> t.status is InProgress
                &&& c.run_round is Some ==> c.run_round->0 == "Run Round "@ + decimal(
                    t.current_round as int,
                )
                &&& c.reset <==> t.status is InProgress
                &&& c.edit <==> t.status is Created || t.status is Registration
                &&& c.cancel == facts.can_cancel->0
            }
            &&& !(owns && (t.status is Created || t.status is Registration)) ==> page.imports.len()
                == 0
        }),
{
}

/// The leaderboards that can be imported from are offered by name, in order.
pub proof fn leaderboards_are_offered_by_name(
    viewer: Option<Id>,
    watch_round: Option<i32>,
    facts: ShowFacts,
    i: int,
)
    requires
        viewer == Some(facts.tournament->0->0.user_id),
        facts.tournament->0->0.status is Created || facts.tournament->0->0.status is Registration,
        0 <= i < facts.leaderboards->0@.len(),
    ensures
        ({
            let imports = page_of(viewer, watch_round, facts).imports;
            &&& imports.len() == facts.leaderboards->0@.len()
            &&& imports[i].value == facts.leaderboards->0@[i].leaderboard_id.text()
            &&& imports[i].label == facts.leaderboards->0@[i].name@
            &&& !imports[i].selected
        }),
{
}

/// The viewer is offered to register exactly their snakes that are not
/// registered yet, as long as they may add snakes and hold fewer than allowed.
pub proof fn own_snakes_are_offered(
    viewer: Option<Id>,
    watch_round: Option<i32>,
    facts: ShowFacts,
    i: int,
)
    requires
        facts.registrations is Some,
        facts.viewer_snakes is Some,
        0 <= i < facts.viewer_snakes->0@.len(),
    ensures
        ({
            let page = page_of(viewer, watch_round, facts);
            let t = facts.tournament->0->0;
            let regs = facts.registrations->0@;
            let snake = facts.viewer_snakes->0@[i];
            let held = regs.filter(|r: RegistrationDetails| r.user_id == viewer->0).len();
            let owns = viewer is Some && viewer->0 == t.user_id;
            let may = {
                &&& viewer is Some
                &&& t.status is Created || t.status is Registration
                &&& !(t.registration_status is Closed)
                &&& owns || (t.registration_status is Open && t.visibility is Public)
                &&& held < t.max_snakes_per_user
            };
            let free = forall|k: int|
                0 <= k < regs.len() ==> (#[trigger] regs[k]).battlesnake_id != snake.battlesnake_id;
            &&& !may ==> page.registerable.len() == 0
            &&& may && free ==> exists|k: int|
                0 <= k < page.registerable.len() && (#[trigger] page.registerable[k]).value
                    == snake.battlesnake_id.text() && page.registerable[k].label == snake.name@
            &&& page.registerable.len() <= facts.viewer_snakes->0@.len()
        }),
{
    let t = facts.tournament->0->0;
    let regs = facts.registrations->0@;
    let snakes = facts.viewer_snakes->0@;
    let snake = snakes[i];
    let free_of = |s: Battlesnake| !snakes_of(regs).contains(s.battlesnake_id);
    snakes.lemma_filter_len(free_of);
    if viewer is Some {
        held_are_counted(regs, viewer->0, |r: RegistrationDetails| r.user_id == viewer->0);
    }
    if forall|k: int|
        0 <= k < regs.len() ==> (#[trigger] regs[k]).battlesnake_id != snake.battlesnake_id {
        if snakes_of(regs).contains(snake.battlesnake_id) {
            let k = choose|k: int|
                0 <= k < regs.len() && snakes_of(regs)[k] == snake.battlesnake_id;
            assert(regs[k].battlesnake_id == snake.battlesnake_id);
        }
        assert(free_of(snake));
        snakes.lemma_filter_contains(free_of, i);
        let offered = unregistered(snakes, regs);
        assert(offered.contains(snake));
        let k = choose|k: int| 0 <= k < offered.len() && offered[k] == snake;
        if offers_registration(t, viewer, regs) {
            let page = page_of(viewer, watch_round, facts);
            assert(page.registerable == snake_choices(offered));
            assert(page.registerable[k].value == snake.battlesnake_id.text());
            assert(page.registerable[k].label == snake.name@);
        }
    }
}

proof fn held_are_counted(
    registrations: Seq<RegistrationDetails>,
    user_id: Id,
    theirs: spec_fn(RegistrationDetails) -> bool,
)
    requires
        forall|r: RegistrationDetails| #[trigger] theirs(r) <==> r.user_id == user_id,
    ensures
        registrations_of(registrations, user_id) == registrations.filter(theirs).len(),
    decreases registrations.len(),
{
    reveal(Seq::filter);
    if registrations.len() > 0 {
        held_are_counted(registrations.drop_last(), user_id, theirs);
        assert(theirs(registrations.last()) <==> registrations.last().user_id == user_id);
    }
}

/// No registered snake is offered for registration.
pub proof fn registered_snakes_are_not_offered(
    snakes: Seq<Battlesnake>,
    registrations: Seq<RegistrationDetails>,
    k: int,
    i: int,
)
    requires
        0 <= k < unregistered(snakes, registrations).len(),
        0 <= i < registrations.len(),
    ensures
        unregistered(snakes, registrations)[k].battlesnake_id != registrations[i].battlesnake_id,
        snakes.contains(unregistered(snakes, registrations)[k]),
{
    let free_of = |s: Battlesnake| !snakes_of(registrations).contains(s.battlesnake_id);
    snakes.lemma_filter_pred(free_of, k);
    assert(snakes_of(registrations)[i] == registrations[i].battlesnake_id);
    let offered = snakes.filter(free_of);
    assert(offered.contains(offered[k]));
    snakes.lemma_filter_contains_rev(free_of, offered[k]);
}

/// The page names the tournament, its owner and its settings as they are.
pub proof fn the_page_tells_the_settings(
    viewer: Option<Id>,
    watch_round: Option<i32>,
    facts: ShowFacts,
)
    ensures
        ({
            let page = page_of(viewer, watch_round, facts);
            let t = facts.tournament->0->0;
            let style = match t.match_style {
                MatchStyle::SingleGame => "Single game"@,
                MatchStyle::BestOf3 => "Best of 3"@,
                MatchStyle::FirstTo3 => "First to 3"@,
            };
            let owner = if facts.owner->0 is Some {
                facts.owner->0->0.github_login@
            } else {
                "Unknown"@
            };
            &&& page.title == "Tournament: "@ + t.name@
            &&& page.name == t.name@
            &&& page.url == "/tournaments/"@ + t.tournament_id.text()
            &&& page.subtitle == "by "@ + owner + " · "@ + t.game_type.text() + " · "@
                + t.board_size.text() + " · "@ + style
            &&& page.format == style + " · "@ + t.board_size.text() + " "@ + t.game_type.text()
            &&& page.description is Some <==> t.description is Some
            &&& t.description is Some ==> page.description->0 == t.description->0@
            &&& page.details.game == t.game_type.text()
            &&& page.details.board == t.board_size.text()
            &&& page.details.series == style
            &&& page.details.registration == t.registration_status.text()
            &&& page.details.visibility == t.visibility.text()
            &&& page.details.max_snakes == decimal(t.max_snakes_per_user as int)
            &&& page.details.required == decimal(t.required_participants as int)
            &&& page.details.created == date_shown(t.created_at)
            &&& t.status is Created ==> page.badge.label == "Draft"@
            &&& t.status is Registration ==> page.badge.label == "Registration open"@
            &&& t.status is InProgress ==> page.badge.label == "In progress"@
            &&& t.status is Completed ==> page.badge.label == "Completed"@
            &&& t.status is Canceled ==> page.badge.label == "Canceled"@
        }),
{
}

/// The page counts the registered snakes and, once there is a bracket, the
/// rounds and the matches that are over, of all of them.
pub proof fn the_page_counts_snakes_and_matches(
    viewer: Option<Id>,
    watch_round: Option<i32>,
    facts: ShowFacts,
    i: int,
)
    requires
        facts.registrations is Some,
    ensures
        ({
            let page = page_of(viewer, watch_round, facts);
            let t = facts.tournament->0->0;
            let open = t.status is Created || t.status is Registration;
            let started = t.status is InProgress || t.status is Completed;
            &&& page.registered.value == decimal(facts.registrations->0@.len() as int)
            &&& page.registered.note is Some <==> open
            &&& open ==> page.registered.note->0 == "of "@ + decimal(t.required_participants as int)
                + " needed"@
            &&& !started ==> page.played.value == "—"@ && page.rounds.value == "—"@
                && page.bracket is None
            &&& page.round_pill is Some <==> t.status is InProgress
            &&& started && facts.matches is Some && crate::bracket::stands_as_final(
                facts.matches->0@,
                i,
            ) ==> {
                let matches = facts.matches->0@;
                let over = matches.filter(
                    |m: TournamentMatch| m.status == MatchStatus::Completed,
                ).len();
                &&& page.played.value == decimal(over as int)
                &&& page.played.live <==> t.status is InProgress
                &&& page.played.note is Some && page.played.note->0 == "of "@ + decimal(
                    matches.len() as int,
                )
                &&& page.rounds.value == decimal(matches[i].round as int)
                &&& page.bracket is Some
                &&& t.status is InProgress ==> page.round_pill->0 == "LIVE · ROUND "@ + decimal(
                    t.current_round as int,
                ) + " OF "@ + decimal(matches[i].round as int)
            }
        }),
{
    let t = facts.tournament->0->0;
    if facts.matches is Some {
        let matches = facts.matches->0@;
        crate::bracket::matches_over_are_counted(
            matches,
            MatchStatus::Completed,
            |m: TournamentMatch| m.status == MatchStatus::Completed,
        );
        if crate::bracket::stands_as_final(matches, i) {
            crate::bracket::rounds_are_the_highest(matches);
        }
    }
}

/// A page reloads itself exactly while its tournament runs and either one of
/// its matches is being played or its current round is watched. It compares
/// the round and how many matches stand how.
pub proof fn the_page_reloads_while_something_happens(
    viewer: Option<Id>,
    watch_round: Option<i32>,
    facts: ShowFacts,
)
    requires
        facts.matches is Some,
    ensures
        ({
            let page = page_of(viewer, watch_round, facts);
            let t = facts.tournament->0->0;
            let matches = facts.matches->0@;
            let scheduled = matches.filter(
                |m: TournamentMatch| m.status == MatchStatus::Scheduled,
            ).len();
            let live = matches.filter(|m: TournamentMatch| m.status == MatchStatus::InProgress).len();
            let over = matches.filter(|m: TournamentMatch| m.status == MatchStatus::Completed).len();
            let canceled = matches.filter(
                |m: TournamentMatch| m.status == MatchStatus::Canceled,
            ).len();
            &&& page.refresh_key is Some <==> t.status is InProgress && (watch_round == Some(
                t.current_round,
            ) || exists|k: int|
                0 <= k < matches.len() && (#[trigger] matches[k]).status is InProgress)
            &&& page.refresh_key is Some ==> page.refresh_key->0 == "tournament:"@ + decimal(
                t.current_round as int,
            ) + ":"@ + decimal(scheduled as int) + ":"@ + decimal(live as int) + ":"@ + decimal(
                over as int,
            ) + ":"@ + decimal(canceled as int)
        }),
{
    let matches = facts.matches->0@;
    crate::bracket::matches_over_are_counted(
        matches,
        MatchStatus::Scheduled,
        |m: TournamentMatch| m.status == MatchStatus::Scheduled,
    );
    crate::bracket::matches_over_are_counted(
        matches,
        MatchStatus::InProgress,
        |m: TournamentMatch| m.status == MatchStatus::InProgress,
    );
    crate::bracket::matches_over_are_counted(
        matches,
        MatchStatus::Completed,
        |m: TournamentMatch| m.status == MatchStatus::Completed,
    );
    crate::bracket::matches_over_are_counted(
        matches,
        MatchStatus::Canceled,
        |m: TournamentMatch| m.status == MatchStatus::Canceled,
    );
}

/// The bracket of a page is drawn from the matches that were read, and each
/// match from the sides and the games that were stored with it.
pub proof fn the_page_draws_what_was_read(
    viewer: Option<Id>,
    watch_round: Option<i32>,
    facts: ShowFacts,
    f: int,
)
    requires
        facts.tournament->0->0.status is InProgress || facts.tournament->0->0.status is Completed,
        facts.matches is Some,
        crate::bracket::stands_as_final(facts.matches->0@, f),
    ensures
        page_of(viewer, watch_round, facts).bracket == Some(
            bracket_drawn(
                facts.tournament->0->0,
                facts.matches->0@,
                |match_id: Id| sides_of(facts.participants->0@, match_id),
                |match_id: Id| games_of(facts.games->0@, match_id),
            ),
        ),
{
    crate::bracket::rounds_are_the_highest(facts.matches->0@);
}

/// What is read for a page is read about its own tournament and viewer: the
/// owner that the tournament has, the snakes of the viewer who may register,
/// and the leaderboards only for the owner before the start. A page is made
/// once all of that is there.
pub proof fn pages_are_made_of_what_they_need(
    tournament_id: Id,
    viewer: Option<Id>,
    facts: ShowFacts,
)
    ensures
        ({
            let step = show_next(tournament_id, viewer, facts);
            let t = facts.tournament->0->0;
            let open = t.status is Created || t.status is Registration;
            let started = t.status is InProgress || t.status is Completed;
            &&& facts.tournament is None ==> step == (ShowStepView::LoadTournament {
                tournament_id,
            })
            &&& step is LoadOwner ==> step == (ShowStepView::LoadOwner { user_id: t.user_id })
            &&& step is LoadSnakes ==> viewer is Some && step == (ShowStepView::LoadSnakes {
                user_id: viewer->0,
            }) && open
            &&& step is LoadLeaderboards ==> viewer == Some(t.user_id) && open
            &&& step is LoadMatches || step is LoadParticipants || step is LoadGames ==> started
            &&& step is CheckTransition ==> viewer == Some(t.user_id) && step == (
            ShowStepView::CheckTransition { from: t.status, to: TournamentStatus::Canceled })
            &&& step is Render ==> {
                &&& facts.tournament is Some && facts.tournament->0 is Some
                &&& facts.registrations is Some && facts.owner is Some
                &&& started ==> facts.matches is Some && facts.participants is Some
                    && facts.games is Some
                &&& viewer == Some(t.user_id) ==> facts.can_cancel is Some
                &&& viewer == Some(t.user_id) && open ==> facts.leaderboards is Some
            }
        }),
{
}

} // verus!
