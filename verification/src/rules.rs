//! The rules of tournaments: who may register, view, edit and start, what
//! settings are accepted, how rounds are named and games are counted.

use crate::ids::Id;
use crate::model::{
    GameBoardSize, GameType, MatchStatus, RegistrationStatus, Tournament,
    TournamentMatch, TournamentStatus, TournamentVisibility,
};
use crate::text::{
    decimal, decimal_text, i32_of, parse_i32, same_text, trim_text, trimmed,
};
use vstd::prelude::*;
use vstd::string::{StrSliceExecFns, StringExecFns};

verus! {

/// The most snakes that one import registers.
pub const MAX_IMPORT_COUNT: i64 = 32;

/// The most snakes that a tournament holds.
pub const MAX_TOTAL_REGISTRATIONS: i64 = 128;

/// The longest tournament name, in characters.
pub const MAX_NAME_CHARS: usize = 128;

/// The longest tournament description, in characters.
pub const MAX_DESCRIPTION_CHARS: usize = 4000;

/// The highest per-user limit that a tournament may set.
pub const MAX_SNAKES_PER_USER_LIMIT: i32 = 32;

/// The highest number of participants that a tournament may require.
pub const MAX_REQUIRED_PARTICIPANTS: i32 = 128;

/// The round that a watched page names, when it names one.
pub fn parse_watch_round(value: Option<&str>) -> (r: Option<i32>)
    ensures
        r == (match value {
            Some(v) => i32_of(v@),
            None => None,
        }),
{
    match value {
        Some(v) => parse_i32(v),
        None => None,
    }
}

/// Whether a tournament has not started yet.
pub open spec fn editable(status: TournamentStatus) -> bool {
    status is Created || status is Registration
}

/// Registrations can only be added, removed or reseeded before the bracket
/// exists.
pub fn registrations_editable(status: TournamentStatus) -> (r: bool)
    ensures
        r == editable(status),
{
    match status {
        TournamentStatus::Created | TournamentStatus::Registration => true,
        _ => false,
    }
}

/// Whether any of these matches is being played.
pub open spec fn some_match_live(matches: Seq<TournamentMatch>) -> bool {
    exists|i: int| 0 <= i < matches.len() && (#[trigger] matches[i]).status is InProgress
}

/// Whether a tournament page reloads itself: only while the tournament runs,
/// and then while a match is live or the watched round is the current one.
pub open spec fn refreshes(
    tournament: Tournament,
    matches: Seq<TournamentMatch>,
    watch_round: Option<i32>,
) -> bool {
    tournament.status is InProgress && (some_match_live(matches) || watch_round == Some(
        tournament.current_round,
    ))
}

/// Whether a tournament page reloads itself.
pub fn should_refresh_tournament(
    tournament: &Tournament,
    matches: &[TournamentMatch],
    watch_round: Option<i32>,
) -> (r: bool)
    ensures
        r == refreshes(*tournament, matches@, watch_round),
{
    if tournament.status != TournamentStatus::InProgress {
        return false;
    }
    let mut i: usize = 0;
    while i < matches.len()
        invariant
            i <= matches.len(),
            forall|k: int| 0 <= k < i ==> !((#[trigger] matches@[k]).status is InProgress),
            tournament.status is InProgress,
        decreases matches.len() - i,
    {
        if matches[i].status == MatchStatus::InProgress {
            return true;
        }
        i = i + 1;
    }
    match watch_round {
        Some(round) => round == tournament.current_round,
        None => false,
    }
}

/// The registration matrix: the tournament has not started, a hidden
/// tournament is its owner's alone, and the policy admits the caller.
pub open spec fn may_register(tournament: Tournament, is_owner: bool) -> bool {
    &&& editable(tournament.status)
    &&& tournament.visibility is ParticipantsOnly ==> is_owner
    &&& match tournament.registration_status {
        RegistrationStatus::Open => true,
        RegistrationStatus::OwnerOnly => is_owner,
        RegistrationStatus::Closed => false,
    }
}

/// Registration permission. For participants-only tournaments only the owner
/// may register snakes: an outsider who registered would become a participant
/// and see what is hidden from outsiders.
pub fn can_register(tournament: &Tournament, is_owner: bool) -> (r: bool)
    ensures
        r == may_register(*tournament, is_owner),
{
    if !registrations_editable(tournament.status) {
        return false;
    }
    if tournament.visibility == TournamentVisibility::ParticipantsOnly && !is_owner {
        return false;
    }
    match tournament.registration_status {
        RegistrationStatus::Open => true,
        RegistrationStatus::OwnerOnly => is_owner,
        RegistrationStatus::Closed => false,
    }
}

/// Whether a viewer sees a tournament: everybody sees a public one, and only
/// the owner and the participants see the others.
pub open spec fn visible_to(
    tournament: Tournament,
    viewer: Option<Id>,
    participants: Seq<Id>,
) -> bool {
    tournament.visibility is Public || (viewer matches Some(id) && (id == tournament.user_id
        || participants.contains(id)))
}

/// Whether a list of identifiers holds the given one.
pub fn contains_id(ids: &[Id], id: Id) -> (r: bool)
    ensures
        r == ids@.contains(id),
{
    let mut i: usize = 0;
    while i < ids.len()
        invariant
            i <= ids.len(),
            forall|k: int| 0 <= k < i ==> ids@[k] != id,
        decreases ids.len() - i,
    {
        if ids[i] == id {
            return true;
        }
        i = i + 1;
    }
    false
}

/// Who can view a tournament page.
pub fn can_view(
    tournament: &Tournament,
    viewer_user_id: Option<Id>,
    participant_user_ids: &[Id],
) -> (r: bool)
    ensures
        r == visible_to(*tournament, viewer_user_id, participant_user_ids@),
{
    match tournament.visibility {
        TournamentVisibility::Public => true,
        TournamentVisibility::ParticipantsOnly => match viewer_user_id {
            Some(id) => id == tournament.user_id || contains_id(participant_user_ids, id),
            None => false,
        },
    }
}

/// Why a set of tournament parameters is refused, or `None` when it is fine.
/// Of several reasons the first one is given.
pub open spec fn params_refusal(
    name: Seq<char>,
    description: Seq<char>,
    required_participants: int,
    max_snakes_per_user: int,
) -> Option<Seq<char>> {
    if trimmed(name).len() == 0 {
        Some("Tournament name cannot be empty"@)
    } else if trimmed(name).len() > MAX_NAME_CHARS {
        Some(
            "Tournament name must be at most "@ + decimal(MAX_NAME_CHARS as int) + " characters"@,
        )
    } else if description.len() > MAX_DESCRIPTION_CHARS {
        Some("Description must be at most "@ + decimal(MAX_DESCRIPTION_CHARS as int)
            + " characters"@)
    } else if !(2 <= required_participants <= MAX_REQUIRED_PARTICIPANTS) {
        Some("Required participants must be between 2 and "@ + decimal(
            MAX_REQUIRED_PARTICIPANTS as int,
        ))
    } else if !(1 <= max_snakes_per_user <= MAX_SNAKES_PER_USER_LIMIT) {
        Some("Max snakes per user must be between 1 and "@ + decimal(
            MAX_SNAKES_PER_USER_LIMIT as int,
        ))
    } else {
        None
    }
}

/// Whether a verdict is success exactly when there is no refusal, and
/// otherwise carries the refusal's text.
pub open spec fn verdict_is<T>(r: Result<T, String>, refusal: Option<Seq<char>>) -> bool {
    match r {
        Ok(_) => refusal is None,
        Err(message) => refusal == Some(message@),
    }
}

/// Shared validation for creating a tournament and changing its settings.
pub fn validate_tournament_params(
    name: &str,
    description: &str,
    required_participants: i32,
    max_snakes_per_user: i32,
) -> (r: Result<(), String>)
    ensures
        verdict_is(
            r,
            params_refusal(
                name@,
                description@,
                required_participants as int,
                max_snakes_per_user as int,
            ),
        ),
        r is Ok <==> {
            &&& 1 <= trimmed(name@).len() <= 128
            &&& description@.len() <= 4000
            &&& 2 <= required_participants <= 128
            &&& 1 <= max_snakes_per_user <= 32
        },
{
    let trimmed_name: String = trim_text(name);
    let name_chars: usize = trimmed_name.as_str().unicode_len();
    if name_chars == 0 {
        return Err("Tournament name cannot be empty".to_owned());
    }
    if name_chars > MAX_NAME_CHARS {
        return Err(
            "Tournament name must be at most ".to_owned().concat(
                decimal_text(MAX_NAME_CHARS as i64).as_str(),
            ).concat(" characters"),
        );
    }
    if description.unicode_len() > MAX_DESCRIPTION_CHARS {
        return Err(
            "Description must be at most ".to_owned().concat(
                decimal_text(MAX_DESCRIPTION_CHARS as i64).as_str(),
            ).concat(" characters"),
        );
    }
    if required_participants < 2 || required_participants > MAX_REQUIRED_PARTICIPANTS {
        return Err(
            "Required participants must be between 2 and ".to_owned().concat(
                decimal_text(MAX_REQUIRED_PARTICIPANTS as i64).as_str(),
            ),
        );
    }
    if max_snakes_per_user < 1 || max_snakes_per_user > MAX_SNAKES_PER_USER_LIMIT {
        return Err(
            "Max snakes per user must be between 1 and ".to_owned().concat(
                decimal_text(MAX_SNAKES_PER_USER_LIMIT as i64).as_str(),
            ),
        );
    }
    Ok(())
}

/// Why a change of settings is refused, or `None` when it is fine: nothing
/// changes after the start, and the game itself not after the first
/// registration.
pub open spec fn settings_refusal(
    tournament: Tournament,
    has_registrations: bool,
    new_game_type: GameType,
    new_board_size: GameBoardSize,
) -> Option<Seq<char>> {
    if !editable(tournament.status) {
        Some("Tournament settings can only be edited before the tournament starts"@)
    } else if has_registrations && (!new_game_type.same(tournament.game_type)
        || !new_board_size.same(tournament.board_size)) {
        Some("Game type and board size cannot be changed after snakes have registered"@)
    } else {
        None
    }
}

/// Settings are only editable before the start, and the game type and board
/// size are frozen once any snake is registered.
pub fn validate_settings_update(
    tournament: &Tournament,
    has_registrations: bool,
    new_game_type: &GameType,
    new_board_size: &GameBoardSize,
) -> (r: Result<(), String>)
    ensures
        verdict_is(
            r,
            settings_refusal(*tournament, has_registrations, *new_game_type, *new_board_size),
        ),
        r is Ok <==> {
            &&& tournament.status is Created || tournament.status is Registration
            &&& has_registrations ==> new_game_type.same(tournament.game_type)
                && new_board_size.same(tournament.board_size)
        },
{
    if !registrations_editable(tournament.status) {
        return Err(
            "Tournament settings can only be edited before the tournament starts".to_owned(),
        );
    }
    if has_registrations && (!(*new_game_type == tournament.game_type) || !(*new_board_size
        == tournament.board_size)) {
        return Err(
            "Game type and board size cannot be changed after snakes have registered".to_owned(),
        );
    }
    Ok(())
}

/// The game types that a tournament can be played with, by their form value.
pub open spec fn game_type_of(s: Seq<char>) -> Option<GameType> {
    if s == "Standard"@ {
        Some(GameType::Standard)
    } else if s == "Royale"@ {
        Some(GameType::Royale)
    } else if s == "Constrictor"@ {
        Some(GameType::Constrictor)
    } else if s == "Snail Mode"@ {
        Some(GameType::SnailMode)
    } else {
        None
    }
}

/// Parse a game type from a form value. Tournaments are played between
/// several snakes, so only the listed modes are accepted.
pub fn parse_game_type(s: &str) -> (r: Result<GameType, String>)
    ensures
        match r {
            Ok(game_type) => game_type_of(s@) == Some(game_type),
            Err(message) => game_type_of(s@) is None && message@ == "Invalid game type: "@ + s@,
        },
{
    if same_text(s, "Standard") {
        Ok(GameType::Standard)
    } else if same_text(s, "Royale") {
        Ok(GameType::Royale)
    } else if same_text(s, "Constrictor") {
        Ok(GameType::Constrictor)
    } else if same_text(s, "Snail Mode") {
        Ok(GameType::SnailMode)
    } else {
        Err("Invalid game type: ".to_owned().concat(s))
    }
}

/// The board sizes that a tournament can be played on, by their form value.
pub open spec fn board_size_of(s: Seq<char>) -> Option<GameBoardSize> {
    if s == "7x7"@ {
        Some(GameBoardSize::Small)
    } else if s == "11x11"@ {
        Some(GameBoardSize::Medium)
    } else if s == "19x19"@ {
        Some(GameBoardSize::Large)
    } else {
        None
    }
}

/// Parse a board size from a form value, rejecting custom sizes.
pub fn parse_board_size(s: &str) -> (r: Result<GameBoardSize, String>)
    ensures
        match r {
            Ok(board_size) => board_size_of(s@) == Some(board_size),
            Err(message) => board_size_of(s@) is None && message@ == "Invalid board size: "@ + s@,
        },
{
    if same_text(s, "7x7") {
        Ok(GameBoardSize::Small)
    } else if same_text(s, "11x11") {
        Ok(GameBoardSize::Medium)
    } else if same_text(s, "19x19") {
        Ok(GameBoardSize::Large)
    } else {
        Err("Invalid board size: ".to_owned().concat(s))
    }
}

/// Why a tournament cannot start, or `None` when it can: it has to be open
/// for registration, and to have two snakes and as many as it requires.
pub open spec fn start_refusal(tournament: Tournament, registration_count: int) -> Option<
    Seq<char>,
> {
    if !(tournament.status is Registration) {
        Some("Tournament cannot start from status '"@ + tournament.status.text() + "'"@)
    } else if registration_count < 2 {
        Some("At least 2 registered snakes are needed to start a tournament"@)
    } else if registration_count < tournament.required_participants {
        Some(
            "Tournament requires "@ + decimal(tournament.required_participants as int)
                + " participants but only "@ + decimal(registration_count) + " are registered"@,
        )
    } else {
        None
    }
}

/// Start rules: the tournament must be in registration, and enough snakes
/// must be registered, never fewer than 2 since a bracket needs two sides.
pub fn validate_start(tournament: &Tournament, registration_count: i64) -> (r: Result<(), String>)
    ensures
        verdict_is(r, start_refusal(*tournament, registration_count as int)),
        r is Ok <==> {
            &&& tournament.status is Registration
            &&& registration_count >= 2
            &&& registration_count >= tournament.required_participants
        },
{
    if tournament.status != TournamentStatus::Registration {
        return Err(
            "Tournament cannot start from status '".to_owned().concat(
                tournament.status.as_str(),
            ).concat("'"),
        );
    }
    if registration_count < 2 {
        return Err("At least 2 registered snakes are needed to start a tournament".to_owned());
    }
    if registration_count < tournament.required_participants as i64 {
        return Err(
            "Tournament requires ".to_owned().concat(
                decimal_text(tournament.required_participants as i64).as_str(),
            ).concat(" participants but only ").concat(
                decimal_text(registration_count).as_str(),
            ).concat(" are registered"),
        );
    }
    Ok(())
}

/// The heading of a bracket round.
pub open spec fn round_name(round: int, total_rounds: int) -> Seq<char> {
    if round == total_rounds {
        "Final"@
    } else {
        "Round "@ + decimal(round)
    }
}

/// Header label for a bracket round: the last round is the Final.
pub fn round_label(round: i32, total_rounds: i32) -> (r: String)
    ensures
        r@ == round_name(round as int, total_rounds as int),
{
    if round == total_rounds {
        "Final".to_owned()
    } else {
        "Round ".to_owned().concat(decimal_text(round as i64).as_str())
    }
}

/// How many of these games a snake won.
pub open spec fn wins(game_winners: Seq<Option<Id>>, battlesnake_id: Id) -> nat {
    game_winners.filter(|w: Option<Id>| w == Some(battlesnake_id)).len()
}

/// Wins for a participant, derived from per-game winners. A game without a
/// winner, tied or still running, counts for nobody.
pub fn win_count(game_winners: &[Option<Id>], battlesnake_id: Id) -> (r: usize)
    ensures
        r == wins(game_winners@, battlesnake_id),
{
    let ghost won = |w: Option<Id>| w == Some(battlesnake_id);
    let mut count: usize = 0;
    let mut i: usize = 0;
    assert(game_winners@.take(0) =~= Seq::<Option<Id>>::empty());
    proof {
        reveal(Seq::filter);
    }
    while i < game_winners.len()
        invariant
            i <= game_winners.len(),
            count <= i,
            won == (|w: Option<Id>| w == Some(battlesnake_id)),
            count == game_winners@.take(i as int).filter(won).len(),
        decreases game_winners.len() - i,
    {
        proof {
            reveal(Seq::filter);
            assert(game_winners@.take(i + 1).drop_last() =~= game_winners@.take(i as int));
            assert(game_winners@.take(i + 1).last() == game_winners@[i as int]);
        }
        if crate::ids::is_id(game_winners[i], battlesnake_id) {
            count = count + 1;
        }
        i = i + 1;
    }
    assert(game_winners@.take(i as int) =~= game_winners@);
    count
}

/// Whether a match game with no recorded winner finished as a tie rather than
/// still being in flight. A later game only exists once this one finished,
/// and a completed match has no games in flight.
pub open spec fn tied(winner_id: Option<Id>, has_later_game: bool, match_status: MatchStatus) -> bool {
    winner_id is None && (has_later_game || match_status is Completed)
}

/// Whether a match game with no recorded winner finished as a tie.
pub fn is_tie_game(
    winner_id: Option<Id>,
    has_later_game: bool,
    match_status: MatchStatus,
) -> (r: bool)
    ensures
        r == tied(winner_id, has_later_game, match_status),
{
    winner_id.is_none() && (has_later_game || match_status == MatchStatus::Completed)
}

// Laws.

/// Only a running tournament refreshes its page.
pub proof fn only_running_tournaments_refresh(
    tournament: Tournament,
    matches: Seq<TournamentMatch>,
    watch_round: Option<i32>,
)
    ensures
        refreshes(tournament, matches, watch_round) ==> tournament.status is InProgress,
{
}

/// The owner sees their tournament whoever takes part in it, and whoever may
/// register a snake in a tournament may see it.
pub proof fn who_may_register_may_view(tournament: Tournament, user_id: Id, participants: Seq<Id>)
    ensures
        visible_to(tournament, Some(tournament.user_id), participants),
        may_register(tournament, user_id == tournament.user_id) ==> visible_to(
            tournament,
            Some(user_id),
            participants,
        ),
{
}

/// No game is won twice: two snakes together win at most as many games as
/// were played.
pub proof fn wins_do_not_overlap(game_winners: Seq<Option<Id>>, a: Id, b: Id)
    requires
        a != b,
    ensures
        wins(game_winners, a) + wins(game_winners, b) <= game_winners.len(),
    decreases game_winners.len(),
{
    reveal(Seq::filter);
    if game_winners.len() > 0 {
        wins_do_not_overlap(game_winners.drop_last(), a, b);
    }
}

/// Wins add up over games that are played one after the other.
pub proof fn wins_add_up(first: Seq<Option<Id>>, second: Seq<Option<Id>>, battlesnake_id: Id)
    ensures
        wins(first + second, battlesnake_id) == wins(first, battlesnake_id) + wins(
            second,
            battlesnake_id,
        ),
{
    Seq::filter_distributes_over_add(first, second, |w: Option<Id>| w == Some(battlesnake_id));
}

/// A game is called a tie only when nobody won it, and no game of a match
/// that is still being played is, unless another one followed it.
pub proof fn ties_have_no_winner(winner_id: Option<Id>, has_later_game: bool, status: MatchStatus)
    ensures
        tied(winner_id, has_later_game, status) ==> winner_id is None,
        tied(winner_id, has_later_game, status) && !has_later_game ==> status is Completed,
{
}

/// Registrations and settings are open to change in a tournament that was
/// created or takes registrations, and closed once it runs, is over or was
/// canceled.
pub proof fn the_start_closes_registrations(status: TournamentStatus)
    ensures
        status is Created ==> editable(status),
        status is Registration ==> editable(status),
        status is InProgress ==> !editable(status),
        status is Completed ==> !editable(status),
        status is Canceled ==> !editable(status),
{
}

/// A running tournament refreshes its page while one of its matches is live,
/// and while its current round is watched, and otherwise not.
pub proof fn what_happens_is_watched(
    tournament: Tournament,
    matches: Seq<TournamentMatch>,
    watch_round: Option<i32>,
    i: int,
)
    requires
        0 <= i < matches.len(),
        tournament.status is InProgress,
    ensures
        matches[i].status is InProgress ==> refreshes(tournament, matches, watch_round),
        refreshes(tournament, matches, Some(tournament.current_round)),
        refreshes(tournament, Seq::empty(), watch_round) ==> watch_round == Some(
            tournament.current_round,
        ),
        refreshes(tournament, matches, watch_round) && watch_round != Some(
            tournament.current_round,
        ) ==> exists|k: int| 0 <= k < matches.len() && (#[trigger] matches[k]).status is InProgress,
{
}

/// Who may register, status by status and policy by policy: nobody after the
/// start or while registration is closed, the owner otherwise, and everybody
/// else only where the tournament is public and open to all.
pub proof fn registration_is_decided_by_status_policy_and_visibility(
    tournament: Tournament,
    is_owner: bool,
)
    ensures
        !(tournament.status is Created) && !(tournament.status is Registration) ==> !may_register(
            tournament,
            is_owner,
        ),
        tournament.registration_status is Closed ==> !may_register(tournament, is_owner),
        ({
            &&& tournament.status is Created || tournament.status is Registration
            &&& !(tournament.registration_status is Closed)
        }) ==> {
            &&& may_register(tournament, true)
            &&& may_register(tournament, false) <==> tournament.registration_status is Open
                && tournament.visibility is Public
        },
{
}

/// A public tournament is seen by everybody, and one for participants only by
/// its owner, by the participants, and by nobody else.
pub proof fn participants_see_what_others_do_not(
    tournament: Tournament,
    viewer: Id,
    participants: Seq<Id>,
    i: int,
)
    ensures
        tournament.visibility is Public ==> visible_to(tournament, None, participants)
            && visible_to(tournament, Some(viewer), participants),
        0 <= i < participants.len() ==> visible_to(tournament, Some(participants[i]), participants),
        tournament.visibility is ParticipantsOnly ==> !visible_to(tournament, None, participants),
        tournament.visibility is ParticipantsOnly && visible_to(
            tournament,
            Some(viewer),
            participants,
        ) ==> viewer == tournament.user_id || exists|k: int|
            0 <= k < participants.len() && participants[k] == viewer,
        visible_to(tournament, Some(tournament.user_id), participants),
{
}

/// Parameters are accepted exactly within the limits: a name of 1 to 128
/// characters, blanks around it not counted, a description of up to 4000, 2 to
/// 128 participants, and 1 to 32 snakes for each user.
pub proof fn parameters_are_accepted_within_the_limits(
    name: Seq<char>,
    description: Seq<char>,
    required_participants: int,
    max_snakes_per_user: int,
)
    ensures
        params_refusal(name, description, required_participants, max_snakes_per_user) is None <==> {
            &&& 1 <= trimmed(name).len() <= 128
            &&& description.len() <= 4000
            &&& 2 <= required_participants <= 128
            &&& 1 <= max_snakes_per_user <= 32
        },
{
}

/// Parameters with one fault are refused for that fault.
pub proof fn one_fault_is_named(
    name: Seq<char>,
    description: Seq<char>,
    required_participants: int,
    max_snakes_per_user: int,
)
    ensures
        ({
            let named = 1 <= trimmed(name).len() <= 128;
            let described = description.len() <= 4000;
            let required = 2 <= required_participants <= 128;
            let limited = 1 <= max_snakes_per_user <= 32;
            let refusal = params_refusal(
                name,
                description,
                required_participants,
                max_snakes_per_user,
            );
            &&& trimmed(name).len() == 0 ==> refusal == Some("Tournament name cannot be empty"@)
            &&& trimmed(name).len() > 128 ==> refusal == Some(
                "Tournament name must be at most "@ + decimal(128) + " characters"@,
            )
            &&& named && !described ==> refusal == Some(
                "Description must be at most "@ + decimal(4000) + " characters"@,
            )
            &&& named && described && !required ==> refusal == Some(
                "Required participants must be between 2 and "@ + decimal(128),
            )
            &&& named && described && required && !limited ==> refusal == Some(
                "Max snakes per user must be between 1 and "@ + decimal(32),
            )
        }),
{
}

proof fn game_types_are_told_apart(a: GameType, b: GameType)
    requires
        !(a is Custom) && !(b is Custom),
        a.text() == b.text(),
    ensures
        a == b,
{
    reveal_strlit("Standard");
    reveal_strlit("Royale");
    reveal_strlit("Constrictor");
    reveal_strlit("Snail Mode");
    reveal_strlit("Solo");
    assert("Standard"@.len() == 8 && "Royale"@.len() == 6 && "Constrictor"@.len() == 11
        && "Snail Mode"@.len() == 10 && "Solo"@.len() == 4);
}

proof fn board_sizes_are_told_apart(a: GameBoardSize, b: GameBoardSize)
    requires
        !(a is Custom) && !(b is Custom),
        a.text() == b.text(),
    ensures
        a == b,
{
    reveal_strlit("7x7");
    reveal_strlit("11x11");
    reveal_strlit("19x19");
    assert("7x7"@.len() == 3 && "11x11"@[1] == '1' && "19x19"@[1] == '9');
}

/// Two games are the same exactly when they are written alike and both or
/// neither are of one's own making.
pub proof fn same_games_are_written_alike(
    a: GameType,
    b: GameType,
    x: GameBoardSize,
    y: GameBoardSize,
)
    ensures
        a.same(b) <==> a.text() == b.text() && (a is Custom <==> b is Custom),
        x.same(y) <==> x.text() == y.text() && (x is Custom <==> y is Custom),
{
    if a.text() == b.text() && !(a is Custom) && !(b is Custom) {
        game_types_are_told_apart(a, b);
    }
    if x.text() == y.text() && !(x is Custom) && !(y is Custom) {
        board_sizes_are_told_apart(x, y);
    }
}

/// A change of settings is accepted exactly before the start, and once a snake
/// is registered only where the game stays as it was.
pub proof fn registrations_freeze_the_game(
    tournament: Tournament,
    has_registrations: bool,
    game_type: GameType,
    board_size: GameBoardSize,
)
    ensures
        settings_refusal(tournament, has_registrations, game_type, board_size) is None <==> {
            &&& tournament.status is Created || tournament.status is Registration
            &&& has_registrations ==> {
                &&& game_type.text() == tournament.game_type.text()
                &&& game_type is Custom <==> tournament.game_type is Custom
                &&& board_size.text() == tournament.board_size.text()
                &&& board_size is Custom <==> tournament.board_size is Custom
            }
        },
{
    same_games_are_written_alike(
        game_type,
        tournament.game_type,
        board_size,
        tournament.board_size,
    );
}

/// What is read from a form as a game type or a board size is what the form
/// says, and never one that a tournament cannot be played with.
pub proof fn games_are_read_as_written(s: Seq<char>)
    ensures
        game_type_of(s) matches Some(game_type) ==> game_type.text() == s && !(game_type is Solo)
            && !(game_type is Custom),
        board_size_of(s) matches Some(board_size) ==> board_size.text() == s && !(
        board_size is Custom),
{
}

/// A tournament can start exactly when it takes registrations and has as many
/// snakes as it requires, and never with fewer than two.
pub proof fn a_start_takes_enough_snakes(tournament: Tournament, registration_count: int)
    ensures
        start_refusal(tournament, registration_count) is None <==> {
            &&& tournament.status is Registration
            &&& registration_count >= 2
            &&& registration_count >= tournament.required_participants
        },
        tournament.status is Registration && 2 <= registration_count
            < tournament.required_participants ==> start_refusal(tournament, registration_count)
            == Some(
            "Tournament requires "@ + decimal(tournament.required_participants as int)
                + " participants but only "@ + decimal(registration_count) + " are registered"@,
        ),
        !(tournament.status is Registration) ==> start_refusal(tournament, registration_count)
            == Some("Tournament cannot start from status '"@ + tournament.status.text() + "'"@),
{
}

/// More snakes never keep a tournament from starting.
pub proof fn more_snakes_do_not_prevent_a_start(tournament: Tournament, fewer: int, more: int)
    requires
        fewer <= more,
    ensures
        start_refusal(tournament, fewer) is None ==> start_refusal(tournament, more) is None,
{
}

/// The last round is called the final, and every other one by its number.
pub proof fn rounds_are_told_by_their_names(round: i32, total_rounds: i32)
    ensures
        round_name(round as int, total_rounds as int) == "Final"@ <==> round == total_rounds,
        round != total_rounds ==> {
            let name = round_name(round as int, total_rounds as int);
            name.take(6) == "Round "@ && i32_of(name.skip(6)) == Some(round)
        },
{
    reveal_strlit("Final");
    reveal_strlit("Round ");
    if round != total_rounds {
        let name = round_name(round as int, total_rounds as int);
        assert(name[0] == 'R' && "Final"@[0] == 'F');
        assert(name.take(6) =~= "Round "@);
        assert(name.skip(6) =~= decimal(round as int));
        crate::text::numbers_are_read_back(round as int);
    }
}

/// A game counts as one win for its winner, and for nobody else; a game
/// without a winner counts for nobody.
pub proof fn a_game_is_won_by_its_winner(winner_id: Option<Id>, battlesnake_id: Id)
    ensures
        wins(seq![winner_id], battlesnake_id) == if winner_id == Some(battlesnake_id) {
            1nat
        } else {
            0nat
        },
        wins(Seq::empty(), battlesnake_id) == 0,
{
    reveal_with_fuel(Seq::filter, 2);
    assert(seq![winner_id].drop_last() =~= Seq::<Option<Id>>::empty());
    assert(seq![winner_id].last() == winner_id);
}

/// A game that nobody won is a tie once another game followed it or its match
/// is over, and is still being played until then.
pub proof fn games_without_a_winner_end_as_ties(status: MatchStatus)
    ensures
        tied(None, true, status),
        tied(None, false, MatchStatus::Completed),
        !(status is Completed) ==> !tied(None, false, status),
{
}

/// A verdict is success exactly when nothing stands against it, and otherwise
/// carries the very reason.
pub proof fn verdicts_follow_the_reasons(verdict: Result<(), String>, refusal: Option<Seq<char>>)
    requires
        verdict_is(verdict, refusal),
    ensures
        verdict is Ok <==> refusal is None,
        verdict matches Err(message) ==> refusal is Some && refusal->0 == message@,
{
}

} // verus!
