//! What requests send along.

use crate::flow::{Settings, SettingsView};
use crate::ids::Id;
use crate::model::{LeaderboardSort, MatchStyle, RegistrationStatus, TournamentVisibility};
use crate::rules::{
    board_size_of, game_type_of, params_refusal, parse_board_size, parse_game_type,
    validate_tournament_params, MAX_DESCRIPTION_CHARS, MAX_NAME_CHARS, MAX_REQUIRED_PARTICIPANTS,
    MAX_SNAKES_PER_USER_LIMIT,
};
use crate::text::{opt_text, trim_text, trimmed, trimming_is_done_once};
use vstd::prelude::*;

verus! {

/// The page and order of a ranking that is asked for.
#[derive(Debug)]
pub struct PaginationParams {
    pub page: Option<i64>,
    pub sort: LeaderboardSort,
}

/// The snake that is to join a leaderboard.
#[derive(Debug)]
pub struct JoinLeaveForm {
    pub battlesnake_id: Id,
}

/// The membership that is to be paused.
#[derive(Debug)]
pub struct LeaveForm {
    pub leaderboard_entry_id: Id,
}

/// The round that a tournament page is watched for.
#[derive(Debug)]
pub struct TournamentViewParams {
    pub watch_round: Option<String>,
}

/// The settings of a new or an existing tournament. The game type and the
/// board size arrive as they were chosen from a list.
#[derive(Debug)]
pub struct TournamentSettingsForm {
    pub name: String,
    pub description: String,
    pub game_type: String,
    pub board_size: String,
    pub match_style: MatchStyle,
    pub registration_status: RegistrationStatus,
    pub visibility: TournamentVisibility,
    pub max_snakes_per_user: i32,
    pub required_participants: i32,
}

/// The snake that is to be registered.
#[derive(Debug)]
pub struct RegisterForm {
    pub battlesnake_id: Id,
}

/// The registration that is to be removed.
#[derive(Debug)]
pub struct UnregisterForm {
    pub registration_id: Id,
}

/// The registration that is to be moved, and where to.
#[derive(Debug)]
pub struct SeedForm {
    pub registration_id: Id,
    pub new_seed: i32,
}

/// The change of status that is asked for.
#[derive(Debug)]
pub struct StatusForm {
    pub action: String,
}

/// The leaderboard to import from, and how many snakes.
#[derive(Debug)]
pub struct ImportLeaderboardForm {
    pub leaderboard_id: Id,
    pub count: i64,
}

/// A description as it is stored: trimmed, and left out when nothing remains.
pub open spec fn stored_description(description: Seq<char>) -> Option<Seq<char>> {
    if trimmed(description).len() == 0 {
        None
    } else {
        Some(trimmed(description))
    }
}

/// Why a settings form is refused, or `None` when it is fine.
pub open spec fn form_refusal(form: TournamentSettingsForm) -> Option<Seq<char>> {
    match params_refusal(
        form.name@,
        form.description@,
        form.required_participants as int,
        form.max_snakes_per_user as int,
    ) {
        Some(message) => Some(message),
        None => if game_type_of(form.game_type@) is None {
            Some("Invalid game type: "@ + form.game_type@)
        } else if board_size_of(form.board_size@) is None {
            Some("Invalid board size: "@ + form.board_size@)
        } else {
            None
        },
    }
}

/// The settings that an accepted form stands for.
pub open spec fn form_settings(form: TournamentSettingsForm) -> SettingsView {
    SettingsView {
        name: trimmed(form.name@),
        description: stored_description(form.description@),
        game_type: game_type_of(form.game_type@)->0,
        board_size: board_size_of(form.board_size@)->0,
        match_style: form.match_style,
        registration_status: form.registration_status,
        visibility: form.visibility,
        max_snakes_per_user: form.max_snakes_per_user,
        required_participants: form.required_participants,
    }
}

impl TournamentSettingsForm {
    /// The description as it is stored.
    pub fn description_opt(&self) -> (r: Option<String>)
        ensures
            opt_text(r) == stored_description(self.description@),
    {
        let trimmed_description: String = trim_text(self.description.as_str());
        if trimmed_description.as_str().is_empty() {
            None
        } else {
            Some(trimmed_description)
        }
    }

    /// The settings that the form stands for, or why it is refused.
    pub fn settings(&self) -> (r: Result<Settings, String>)
        ensures
            match r {
                Ok(settings) => {
                    &&& form_refusal(*self) is None
                    &&& settings@ == form_settings(*self)
                    &&& settings.visibility == self.visibility
                    &&& settings.match_style == self.match_style
                    &&& settings.registration_status == self.registration_status
                    &&& settings.max_snakes_per_user == self.max_snakes_per_user
                    &&& settings.required_participants == self.required_participants
                },
                Err(message) => form_refusal(*self) == Some(message@),
            },
    {
        match validate_tournament_params(
            self.name.as_str(),
            self.description.as_str(),
            self.required_participants,
            self.max_snakes_per_user,
        ) {
            Err(message) => {
                return Err(message);
            },
            Ok(_) => {},
        }
        let game_type = match parse_game_type(self.game_type.as_str()) {
            Err(message) => {
                return Err(message);
            },
            Ok(game_type) => game_type,
        };
        let board_size = match parse_board_size(self.board_size.as_str()) {
            Err(message) => {
                return Err(message);
            },
            Ok(board_size) => board_size,
        };
        Ok(
            Settings {
                name: trim_text(self.name.as_str()),
                description: self.description_opt(),
                game_type,
                board_size,
                match_style: self.match_style,
                registration_status: self.registration_status,
                visibility: self.visibility,
                max_snakes_per_user: self.max_snakes_per_user,
                required_participants: self.required_participants,
            },
        )
    }
}

/// The settings of an accepted form keep every limit, in the form in which
/// they are stored.
pub proof fn accepted_settings_are_within_limits(form: TournamentSettingsForm)
    requires
        form_refusal(form) is None,
    ensures
        ({
            let settings = form_settings(form);
            &&& 1 <= settings.name.len() <= MAX_NAME_CHARS
            &&& trimmed(settings.name) == settings.name
            &&& settings.description matches Some(description) ==> 1 <= description.len()
                <= MAX_DESCRIPTION_CHARS && trimmed(description) == description
            &&& 2 <= settings.required_participants <= MAX_REQUIRED_PARTICIPANTS
            &&& 1 <= settings.max_snakes_per_user <= MAX_SNAKES_PER_USER_LIMIT
            &&& !(settings.game_type is Solo) && !(settings.game_type is Custom)
            &&& !(settings.board_size is Custom)
        }),
{
    trimming_is_done_once(form.name@);
    trimming_is_done_once(form.description@);
}

/// An accepted form is stored as it was filled in: every setting is the
/// form's own, the game is the one that the form names, and only the blanks
/// around name and description are left out.
pub proof fn settings_are_stored_as_filled_in(form: TournamentSettingsForm)
    ensures
        ({
            let settings = form_settings(form);
            &&& settings.visibility == form.visibility
            &&& settings.match_style == form.match_style
            &&& settings.registration_status == form.registration_status
            &&& settings.max_snakes_per_user == form.max_snakes_per_user
            &&& settings.required_participants == form.required_participants
            &&& settings.name == trimmed(form.name@)
            &&& settings.description is None <==> trimmed(form.description@).len() == 0
            &&& settings.description matches Some(description) ==> description == trimmed(
                form.description@,
            )
            &&& form_refusal(form) is None ==> {
                &&& settings.game_type.text() == form.game_type@
                &&& settings.board_size.text() == form.board_size@
            }
        }),
{
    crate::rules::games_are_read_as_written(form.game_type@);
    crate::rules::games_are_read_as_written(form.board_size@);
}

/// A form is accepted exactly when its parameters are within the limits and
/// it names a game that a tournament can be played with.
pub proof fn forms_are_accepted_within_the_limits(form: TournamentSettingsForm)
    ensures
        form_refusal(form) is None <==> {
            &&& 1 <= trimmed(form.name@).len() <= 128
            &&& form.description@.len() <= 4000
            &&& 2 <= form.required_participants <= 128
            &&& 1 <= form.max_snakes_per_user <= 32
            &&& form.game_type@ == "Standard"@ || form.game_type@ == "Royale"@ || form.game_type@
                == "Constrictor"@ || form.game_type@ == "Snail Mode"@
            &&& form.board_size@ == "7x7"@ || form.board_size@ == "11x11"@ || form.board_size@
                == "19x19"@
        },
{
}

} // verus!
