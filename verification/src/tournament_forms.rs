//! The form that creates a tournament or changes its settings, as it is
//! filled in before anybody touches it.

use crate::flow::{detail_path, detail_url, SettingsView};
use crate::forms::{form_refusal, form_settings, stored_description, TournamentSettingsForm};
use crate::ids::Id;
use crate::lists::views;
use crate::model::{
    GameBoardSize, GameType, MatchStyle, RegistrationStatus, Tournament, TournamentVisibility,
};
use crate::rules::{
    editable, params_refusal, settings_refusal, MAX_DESCRIPTION_CHARS, MAX_NAME_CHARS,
    MAX_REQUIRED_PARTICIPANTS, MAX_SNAKES_PER_USER_LIMIT,
};
use crate::text::{decimal, decimal_text, opt_text, trimmed, trimming_is_done_once};
use vstd::prelude::*;
use vstd::string::StringExecFns;

verus! {

/// One entry of a list to choose from.
#[derive(Debug)]
pub struct Choice {
    pub value: String,
    pub label: String,
    pub selected: bool,
}

/// One entry of a list to choose from, with its texts as characters.
pub struct ChoiceView {
    pub value: Seq<char>,
    pub label: Seq<char>,
    pub selected: bool,
}

impl View for Choice {
    type V = ChoiceView;

    open spec fn view(&self) -> ChoiceView {
        ChoiceView { value: self.value@, label: self.label@, selected: self.selected }
    }
}

/// An entry of a list.
pub open spec fn choice(value: Seq<char>, label: Seq<char>, selected: bool) -> ChoiceView {
    ChoiceView { value, label, selected }
}

fn make_choice(value: &str, label: &str, selected: bool) -> (r: Choice)
    ensures
        r@ == choice(value@, label@, selected),
{
    Choice { value: value.to_owned(), label: label.to_owned(), selected }
}

/// The limits that the form sets to what is entered.
#[derive(Clone, Copy, Debug, PartialEq, Eq, Structural)]
pub struct FormLimits {
    /// The most characters of the name.
    pub name_chars: usize,
    /// The most characters of the description.
    pub description_chars: usize,
    pub min_snakes_per_user: i32,
    pub max_snakes_per_user: i32,
    pub min_required_participants: i32,
    pub max_required_participants: i32,
}

/// The limits of the form are those that settings are judged by.
pub open spec fn form_limits() -> FormLimits {
    FormLimits {
        name_chars: MAX_NAME_CHARS,
        description_chars: MAX_DESCRIPTION_CHARS,
        min_snakes_per_user: 1,
        max_snakes_per_user: MAX_SNAKES_PER_USER_LIMIT,
        min_required_participants: 2,
        max_required_participants: MAX_REQUIRED_PARTICIPANTS,
    }
}

fn limits_of_form() -> (r: FormLimits)
    ensures
        r == form_limits(),
{
    FormLimits {
        name_chars: MAX_NAME_CHARS,
        description_chars: MAX_DESCRIPTION_CHARS,
        min_snakes_per_user: 1,
        max_snakes_per_user: MAX_SNAKES_PER_USER_LIMIT,
        min_required_participants: 2,
        max_required_participants: MAX_REQUIRED_PARTICIPANTS,
    }
}

/// The fields of the form, with what they hold.
#[derive(Debug)]
pub struct FormFields {
    pub name: String,
    pub description: String,
    pub game_types: Vec<Choice>,
    pub board_sizes: Vec<Choice>,
    pub match_styles: Vec<Choice>,
    pub registration_statuses: Vec<Choice>,
    pub visibilities: Vec<Choice>,
    pub max_snakes_per_user: i32,
    pub required_participants: i32,
    pub limits: FormLimits,
}

/// The fields of the form, with their texts as characters.
pub struct FormFieldsView {
    pub name: Seq<char>,
    pub description: Seq<char>,
    pub game_types: Seq<ChoiceView>,
    pub board_sizes: Seq<ChoiceView>,
    pub match_styles: Seq<ChoiceView>,
    pub registration_statuses: Seq<ChoiceView>,
    pub visibilities: Seq<ChoiceView>,
    pub max_snakes_per_user: int,
    pub required_participants: int,
    pub limits: FormLimits,
}

impl View for FormFields {
    type V = FormFieldsView;

    open spec fn view(&self) -> FormFieldsView {
        FormFieldsView {
            name: self.name@,
            description: self.description@,
            game_types: views(self.game_types@),
            board_sizes: views(self.board_sizes@),
            match_styles: views(self.match_styles@),
            registration_statuses: views(self.registration_statuses@),
            visibilities: views(self.visibilities@),
            max_snakes_per_user: self.max_snakes_per_user as int,
            required_participants: self.required_participants as int,
            limits: self.limits,
        }
    }
}

/// The game types to choose from.
pub open spec fn game_type_choices(current: GameType) -> Seq<ChoiceView> {
    seq![
        choice("Standard"@, "Standard"@, current is Standard),
        choice("Royale"@, "Royale"@, current is Royale),
        choice("Constrictor"@, "Constrictor"@, current is Constrictor),
        choice("Snail Mode"@, "Snail Mode"@, current is SnailMode),
    ]
}

/// The board sizes to choose from.
pub open spec fn board_size_choices(current: GameBoardSize) -> Seq<ChoiceView> {
    seq![
        choice("7x7"@, "7x7 (Small)"@, current is Small),
        choice("11x11"@, "11x11 (Medium)"@, current is Medium),
        choice("19x19"@, "19x19 (Large)"@, current is Large),
    ]
}

/// The written form of a match style.
pub open spec fn match_style_value(style: MatchStyle) -> Seq<char> {
    match style {
        MatchStyle::SingleGame => "single_game"@,
        MatchStyle::BestOf3 => "best_of_3"@,
        MatchStyle::FirstTo3 => "first_to_3"@,
    }
}

/// The match styles to choose from.
pub open spec fn match_style_choices(current: MatchStyle) -> Seq<ChoiceView> {
    seq![
        choice("single_game"@, "Single Game"@, current is SingleGame),
        choice("best_of_3"@, "Best of 3"@, current is BestOf3),
        choice("first_to_3"@, "First to 3"@, current is FirstTo3),
    ]
}

/// The registration policies to choose from.
pub open spec fn registration_choices(current: RegistrationStatus) -> Seq<ChoiceView> {
    seq![
        choice("open"@, "Open (anyone can register)"@, current is Open),
        choice("closed"@, "Closed (no registrations)"@, current is Closed),
        choice("owner_only"@, "Owner Only"@, current is OwnerOnly),
    ]
}

/// The visibilities to choose from.
pub open spec fn visibility_choices(current: TournamentVisibility) -> Seq<ChoiceView> {
    seq![
        choice("public"@, "Public"@, current is Public),
        choice("participants_only"@, "Participants Only"@, current is ParticipantsOnly),
    ]
}

/// The form of a tournament, filled in with its settings.
pub open spec fn fields_of(t: Tournament) -> FormFieldsView {
    FormFieldsView {
        name: t.name@,
        description: match t.description {
            Some(description) => description@,
            None => Seq::empty(),
        },
        game_types: game_type_choices(t.game_type),
        board_sizes: board_size_choices(t.board_size),
        match_styles: match_style_choices(t.match_style),
        registration_statuses: registration_choices(t.registration_status),
        visibilities: visibility_choices(t.visibility),
        max_snakes_per_user: t.max_snakes_per_user as int,
        required_participants: t.required_participants as int,
        limits: form_limits(),
    }
}

/// The form of a tournament that does not exist yet: a public standard game
/// on the medium board, decided by one game, open to everybody with one snake
/// each, and playable by two.
pub open spec fn blank_fields() -> FormFieldsView {
    FormFieldsView {
        name: Seq::empty(),
        description: Seq::empty(),
        game_types: game_type_choices(GameType::Standard),
        board_sizes: board_size_choices(GameBoardSize::Medium),
        match_styles: match_style_choices(MatchStyle::SingleGame),
        registration_statuses: registration_choices(RegistrationStatus::Open),
        visibilities: visibility_choices(TournamentVisibility::Public),
        max_snakes_per_user: 1,
        required_participants: 2,
        limits: form_limits(),
    }
}

fn list_game_types(current: &GameType) -> (r: Vec<Choice>)
    ensures
        views(r@) == game_type_choices(*current),
{
    let r: Vec<Choice> = vec![
        make_choice("Standard", "Standard", *current == GameType::Standard),
        make_choice("Royale", "Royale", *current == GameType::Royale),
        make_choice("Constrictor", "Constrictor", *current == GameType::Constrictor),
        make_choice("Snail Mode", "Snail Mode", *current == GameType::SnailMode),
    ];
    assert(views(r@) =~= game_type_choices(*current));
    r
}

fn list_board_sizes(current: &GameBoardSize) -> (r: Vec<Choice>)
    ensures
        views(r@) == board_size_choices(*current),
{
    let r: Vec<Choice> = vec![
        make_choice("7x7", "7x7 (Small)", *current == GameBoardSize::Small),
        make_choice("11x11", "11x11 (Medium)", *current == GameBoardSize::Medium),
        make_choice("19x19", "19x19 (Large)", *current == GameBoardSize::Large),
    ];
    assert(views(r@) =~= board_size_choices(*current));
    r
}

fn list_match_styles(current: MatchStyle) -> (r: Vec<Choice>)
    ensures
        views(r@) == match_style_choices(current),
{
    let r: Vec<Choice> = vec![
        make_choice("single_game", "Single Game", current == MatchStyle::SingleGame),
        make_choice("best_of_3", "Best of 3", current == MatchStyle::BestOf3),
        make_choice("first_to_3", "First to 3", current == MatchStyle::FirstTo3),
    ];
    assert(views(r@) =~= match_style_choices(current));
    r
}

fn list_registration_statuses(current: RegistrationStatus) -> (r: Vec<Choice>)
    ensures
        views(r@) == registration_choices(current),
{
    let r: Vec<Choice> = vec![
        make_choice("open", "Open (anyone can register)", current == RegistrationStatus::Open),
        make_choice("closed", "Closed (no registrations)", current == RegistrationStatus::Closed),
        make_choice("owner_only", "Owner Only", current == RegistrationStatus::OwnerOnly),
    ];
    assert(views(r@) =~= registration_choices(current));
    r
}

fn list_visibilities(current: TournamentVisibility) -> (r: Vec<Choice>)
    ensures
        views(r@) == visibility_choices(current),
{
    let r: Vec<Choice> = vec![
        make_choice("public", "Public", current == TournamentVisibility::Public),
        make_choice(
            "participants_only",
            "Participants Only",
            current == TournamentVisibility::ParticipantsOnly,
        ),
    ];
    assert(views(r@) =~= visibility_choices(current));
    r
}

/// The fields shared by the create and edit pages, filled in with the
/// settings of the current tournament where there is one. They mirror the
/// limits that the settings are judged by.
pub fn tournament_form_fields(current: Option<&Tournament>) -> (r: FormFields)
    ensures
        r@ == (match current {
            Some(t) => fields_of(*t),
            None => blank_fields(),
        }),
{
    match current {
        Some(t) => {
            let description: String = match &t.description {
                Some(description) => description.clone(),
                None => String::new(),
            };
            FormFields {
                name: t.name.clone(),
                description,
                game_types: list_game_types(&t.game_type),
                board_sizes: list_board_sizes(&t.board_size),
                match_styles: list_match_styles(t.match_style),
                registration_statuses: list_registration_statuses(t.registration_status),
                visibilities: list_visibilities(t.visibility),
                max_snakes_per_user: t.max_snakes_per_user,
                required_participants: t.required_participants,
                limits: limits_of_form(),
            }
        },
        None => FormFields {
            name: String::new(),
            description: String::new(),
            game_types: list_game_types(&GameType::Standard),
            board_sizes: list_board_sizes(&GameBoardSize::Medium),
            match_styles: list_match_styles(MatchStyle::SingleGame),
            registration_statuses: list_registration_statuses(RegistrationStatus::Open),
            visibilities: list_visibilities(TournamentVisibility::Public),
            max_snakes_per_user: 1,
            required_participants: 2,
            limits: limits_of_form(),
        },
    }
}

/// The settings page of a tournament.
#[derive(Debug)]
pub struct EditPage {
    pub title: String,
    pub name: String,
    pub detail_url: String,
    pub action: String,
    /// What is said about snakes that are registered already.
    pub note: Option<String>,
    pub fields: FormFields,
}

/// The settings page of a tournament, with its texts as characters.
pub struct EditPageView {
    pub title: Seq<char>,
    pub name: Seq<char>,
    pub detail_url: Seq<char>,
    pub action: Seq<char>,
    pub note: Option<Seq<char>>,
    pub fields: FormFieldsView,
}

impl View for EditPage {
    type V = EditPageView;

    open spec fn view(&self) -> EditPageView {
        EditPageView {
            title: self.title@,
            name: self.name@,
            detail_url: self.detail_url@,
            action: self.action@,
            note: opt_text(self.note),
            fields: self.fields@,
        }
    }
}

/// The settings page of a tournament with so many registrations.
pub open spec fn edit_page_of(
    tournament_id: Id,
    t: Tournament,
    registration_count: int,
) -> EditPageView {
    EditPageView {
        title: "Edit Tournament: "@ + t.name@,
        name: t.name@,
        detail_url: detail_path(tournament_id),
        action: detail_path(tournament_id) + "/settings"@,
        note: if registration_count > 0 {
            Some(
                decimal(registration_count)
                    + " snake(s) are registered — game type and board size can no longer be changed."@,
            )
        } else {
            None
        },
        fields: fields_of(t),
    }
}

/// The settings page of a tournament with so many registrations.
pub fn edit_page(tournament_id: Id, t: &Tournament, registration_count: i64) -> (r: EditPage)
    ensures
        r@ == edit_page_of(tournament_id, *t, registration_count as int),
{
    let note: Option<String> = if registration_count > 0 {
        Some(
            decimal_text(registration_count).concat(
                " snake(s) are registered — game type and board size can no longer be changed.",
            ),
        )
    } else {
        None
    };
    EditPage {
        title: "Edit Tournament: ".to_owned().concat(t.name.as_str()),
        name: t.name.clone(),
        detail_url: detail_url(tournament_id),
        action: detail_url(tournament_id).concat("/settings"),
        note,
        fields: tournament_form_fields(Some(t)),
    }
}

// What the form gives back.

/// Whether what is entered keeps the limits, the blanks around the name left
/// aside.
pub open spec fn within(
    limits: FormLimits,
    name: Seq<char>,
    description: Seq<char>,
    required_participants: int,
    max_snakes_per_user: int,
) -> bool {
    &&& trimmed(name).len() <= limits.name_chars
    &&& description.len() <= limits.description_chars
    &&& limits.min_required_participants <= required_participants
        <= limits.max_required_participants
    &&& limits.min_snakes_per_user <= max_snakes_per_user <= limits.max_snakes_per_user
}

/// The form mirrors the limits of the settings, on the create and on the edit
/// page: what has a name is accepted exactly when it is within the limits that
/// the form sets.
pub proof fn the_form_mirrors_the_limits(
    t: Tournament,
    name: Seq<char>,
    description: Seq<char>,
    required_participants: int,
    max_snakes_per_user: int,
)
    ensures
        fields_of(t).limits == blank_fields().limits,
        params_refusal(name, description, required_participants, max_snakes_per_user) is None
            <==> trimmed(name).len() > 0 && within(
            fields_of(t).limits,
            name,
            description,
            required_participants,
            max_snakes_per_user,
        ),
{
}

/// The game types and board sizes that a tournament can have are read back
/// from their written form.
pub proof fn choices_are_read_back(game_type: GameType, board_size: GameBoardSize)
    ensures
        !(game_type is Solo) && !(game_type is Custom) ==> crate::rules::game_type_of(
            game_type.text(),
        ) == Some(game_type),
        !(board_size is Custom) ==> crate::rules::board_size_of(board_size.text()) == Some(
            board_size,
        ),
{
    reveal_strlit("Standard");
    reveal_strlit("Royale");
    reveal_strlit("Constrictor");
    reveal_strlit("Snail Mode");
    reveal_strlit("7x7");
    reveal_strlit("11x11");
    reveal_strlit("19x19");
    assert("Standard"@.len() == 8 && "Royale"@.len() == 6 && "Constrictor"@.len() == 11
        && "Snail Mode"@.len() == 10);
    assert("7x7"@.len() == 3 && "11x11"@[1] == '1' && "19x19"@[1] == '9');
}

/// Whether exactly the entry with the given value is selected.
pub open spec fn selects(choices: Seq<ChoiceView>, value: Seq<char>) -> bool {
    &&& exists|i: int| 0 <= i < choices.len() && (#[trigger] choices[i]).value == value
    &&& forall|i: int|
        0 <= i < choices.len() ==> ((#[trigger] choices[i]).selected <==> choices[i].value == value)
}

/// Each list of the form selects the current setting, and nothing else. The
/// game types and board sizes that cannot be chosen are in no list.
pub proof fn the_current_settings_are_selected(t: Tournament)
    ensures
        !(t.game_type is Solo) && !(t.game_type is Custom) ==> selects(
            fields_of(t).game_types,
            t.game_type.text(),
        ),
        !(t.board_size is Custom) ==> selects(fields_of(t).board_sizes, t.board_size.text()),
        selects(fields_of(t).match_styles, match_style_value(t.match_style)),
        selects(fields_of(t).registration_statuses, t.registration_status.text()),
        selects(fields_of(t).visibilities, t.visibility.text()),
{
    reveal_strlit("Standard");
    reveal_strlit("Royale");
    reveal_strlit("Constrictor");
    reveal_strlit("Snail Mode");
    reveal_strlit("7x7");
    reveal_strlit("11x11");
    reveal_strlit("19x19");
    reveal_strlit("single_game");
    reveal_strlit("best_of_3");
    reveal_strlit("first_to_3");
    reveal_strlit("open");
    reveal_strlit("closed");
    reveal_strlit("owner_only");
    reveal_strlit("public");
    reveal_strlit("participants_only");
    let f = fields_of(t);
    assert("11x11"@[1] == '1' && "19x19"@[1] == '9');
    assert(f.game_types[0].value == "Standard"@ && f.game_types[1].value == "Royale"@
        && f.game_types[2].value == "Constrictor"@ && f.game_types[3].value == "Snail Mode"@);
    assert(f.board_sizes[0].value == "7x7"@ && f.board_sizes[1].value == "11x11"@
        && f.board_sizes[2].value == "19x19"@);
    assert(f.match_styles[0].value == "single_game"@ && f.match_styles[1].value == "best_of_3"@
        && f.match_styles[2].value == "first_to_3"@);
    assert(f.registration_statuses[0].value == "open"@ && f.registration_statuses[1].value
        == "closed"@ && f.registration_statuses[2].value == "owner_only"@);
    assert(f.visibilities[0].value == "public"@ && f.visibilities[1].value
        == "participants_only"@);
}

/// Whether a tournament has the given settings.
pub open spec fn has_settings(t: Tournament, settings: SettingsView) -> bool {
    &&& t.name@ == settings.name
    &&& opt_text(t.description) == settings.description
    &&& t.game_type == settings.game_type
    &&& t.board_size == settings.board_size
    &&& t.match_style == settings.match_style
    &&& t.registration_status == settings.registration_status
    &&& t.visibility == settings.visibility
    &&& t.max_snakes_per_user == settings.max_snakes_per_user
    &&& t.required_participants == settings.required_participants
}

/// Whether a form is sent just as it was filled in for a tournament.
pub open spec fn sent_untouched(form: TournamentSettingsForm, t: Tournament) -> bool {
    &&& form.name@ == fields_of(t).name
    &&& form.description@ == fields_of(t).description
    &&& form.game_type@ == t.game_type.text()
    &&& form.board_size@ == t.board_size.text()
    &&& form.match_style == t.match_style
    &&& form.registration_status == t.registration_status
    &&& form.visibility == t.visibility
    &&& form.max_snakes_per_user == t.max_snakes_per_user
    &&& form.required_participants == t.required_participants
}

/// Saving the settings of a tournament as they were filled in changes
/// nothing: settings that were accepted once are accepted again and come out
/// the same, and before the start nothing else stands against it.
pub proof fn saving_unchanged_settings_changes_nothing(
    accepted: TournamentSettingsForm,
    t: Tournament,
    form: TournamentSettingsForm,
    has_registrations: bool,
)
    requires
        form_refusal(accepted) is None,
        has_settings(t, form_settings(accepted)),
        sent_untouched(form, t),
    ensures
        form_refusal(form) is None,
        form_settings(form) == form_settings(accepted),
        editable(t.status) ==> settings_refusal(
            t,
            has_registrations,
            form_settings(form).game_type,
            form_settings(form).board_size,
        ) is None,
{
    trimming_is_done_once(accepted.name@);
    trimming_is_done_once(accepted.description@);
    choices_are_read_back(t.game_type, t.board_size);
    let settings = form_settings(accepted);
    assert(trimmed(Seq::<char>::empty()) =~= Seq::<char>::empty());
    assert(stored_description(form.description@) == settings.description);
}

/// The form of a tournament holds its name, its description and its numbers as
/// they are, and a note once snakes are registered.
pub proof fn the_form_holds_the_current_settings(tournament_id: Id, t: Tournament, count: int)
    ensures
        ({
            let f = fields_of(t);
            let page = edit_page_of(tournament_id, t, count);
            &&& f.name == t.name@
            &&& t.description is Some ==> f.description == t.description->0@
            &&& t.description is None ==> f.description.len() == 0
            &&& f.max_snakes_per_user == t.max_snakes_per_user
            &&& f.required_participants == t.required_participants
            &&& page.fields == f
            &&& page.name == t.name@
            &&& page.title == "Edit Tournament: "@ + t.name@
            &&& page.detail_url == "/tournaments/"@ + tournament_id.text()
            &&& page.action == "/tournaments/"@ + tournament_id.text() + "/settings"@
            &&& page.note is Some <==> count > 0
            &&& count > 0 ==> page.note->0 == decimal(count)
                + " snake(s) are registered — game type and board size can no longer be changed."@
        }),
{
}

/// A new tournament starts from an empty name, one snake for each user, two
/// participants, and a selected entry in each list.
pub proof fn a_new_form_has_something_selected()
    ensures
        blank_fields().name.len() == 0,
        blank_fields().description.len() == 0,
        blank_fields().max_snakes_per_user == 1,
        blank_fields().required_participants == 2,
        selects(blank_fields().game_types, "Standard"@),
        selects(blank_fields().board_sizes, "11x11"@),
        selects(blank_fields().match_styles, "single_game"@),
        selects(blank_fields().registration_statuses, "open"@),
        selects(blank_fields().visibilities, "public"@),
{
    reveal_strlit("Standard");
    reveal_strlit("Royale");
    reveal_strlit("Constrictor");
    reveal_strlit("Snail Mode");
    reveal_strlit("7x7");
    reveal_strlit("11x11");
    reveal_strlit("19x19");
    reveal_strlit("single_game");
    reveal_strlit("best_of_3");
    reveal_strlit("first_to_3");
    reveal_strlit("open");
    reveal_strlit("closed");
    reveal_strlit("owner_only");
    reveal_strlit("public");
    reveal_strlit("participants_only");
    let f = blank_fields();
    assert("11x11"@[1] == '1' && "19x19"@[1] == '9');
    assert(f.game_types[0].value == "Standard"@ && f.board_sizes[1].value == "11x11"@
        && f.match_styles[0].value == "single_game"@ && f.registration_statuses[0].value
        == "open"@ && f.visibilities[0].value == "public"@);
}

/// Match styles are told apart by their written form.
pub proof fn match_styles_are_told_apart(a: MatchStyle, b: MatchStyle)
    ensures
        match_style_value(a) == match_style_value(b) <==> a == b,
        match_style_value(MatchStyle::SingleGame) == "single_game"@,
        match_style_value(MatchStyle::BestOf3) == "best_of_3"@,
        match_style_value(MatchStyle::FirstTo3) == "first_to_3"@,
{
    reveal_strlit("single_game");
    reveal_strlit("best_of_3");
    reveal_strlit("first_to_3");
    assert("single_game"@.len() == 11 && "best_of_3"@.len() == 9 && "first_to_3"@.len() == 10);
}

} // verus!
