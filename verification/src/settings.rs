//! Requests that create a tournament or change its settings. Each function
//! names the next step of its request, from what the request has found out so
//! far.

use crate::flow::{
    apply_one, apply_one_step, check_owner, detail_path, detail_url, edit_path, edit_url, flash,
    flash_step, not_found_step, owner_gate, FlashKind, Progress, Settings, Step, StepView, Write,
    WriteView,
};
use crate::forms::{form_refusal, form_settings, TournamentSettingsForm};
use crate::ids::Id;
use crate::rules::{settings_refusal, validate_settings_update};
use vstd::prelude::*;

verus! {

/// The next step of creating a tournament.
pub open spec fn create_next(user_id: Id, form: TournamentSettingsForm, p: Progress) -> StepView {
    match form_refusal(form) {
        Some(message) => flash(FlashKind::Error, message, "/tournaments/new"@),
        None => match p.created {
            None => apply_one(
                WriteView::CreateTournament { user_id, settings: form_settings(form) },
            ),
            Some(tournament_id) => flash(
                FlashKind::Success,
                "Tournament created successfully!"@,
                detail_path(tournament_id),
            ),
        },
    }
}

/// Create a tournament of the requester's own.
pub fn create_tournament(user_id: Id, form: &TournamentSettingsForm, p: &Progress) -> (r: Step)
    ensures
        r@ == create_next(user_id, *form, *p),
{
    match form.settings() {
        Err(message) => flash_step(FlashKind::Error, message, "/tournaments/new".to_owned()),
        Ok(settings) => match p.created {
            None => apply_one_step(Write::CreateTournament { user_id, settings }),
            Some(tournament_id) => flash_step(
                FlashKind::Success,
                "Tournament created successfully!".to_owned(),
                detail_url(tournament_id),
            ),
        },
    }
}

/// The next step of changing a tournament's settings.
pub open spec fn update_settings_next(
    tournament_id: Id,
    user_id: Id,
    form: TournamentSettingsForm,
    p: Progress,
) -> StepView {
    match owner_gate(
        StepView::LockTournament { tournament_id },
        user_id,
        "You don't have permission to edit this tournament"@,
        p,
    ) {
        Some(step) => step,
        None => {
            let t = p.tournament->0->0;
            match p.registration_count {
                None => StepView::CountRegistrations,
                Some(count) => match form_refusal(form) {
                    Some(message) => flash(FlashKind::Error, message, edit_path(tournament_id)),
                    None => match settings_refusal(
                        t,
                        count > 0,
                        form_settings(form).game_type,
                        form_settings(form).board_size,
                    ) {
                        Some(message) => flash(
                            FlashKind::Error,
                            message,
                            edit_path(tournament_id),
                        ),
                        None => if !p.applied {
                            apply_one(WriteView::UpdateSettings(form_settings(form)))
                        } else if !p.committed {
                            StepView::Commit
                        } else {
                            flash(
                                FlashKind::Success,
                                "Tournament settings updated!"@,
                                detail_path(tournament_id),
                            )
                        },
                    },
                },
            }
        },
    }
}

/// Update a tournament's settings, by the owner only. Ownership, status and
/// the freeze after the first registration are judged against the locked
/// tournament before anything is written.
pub fn update_settings(
    tournament_id: Id,
    user_id: Id,
    form: &TournamentSettingsForm,
    p: &Progress,
) -> (r: Step)
    ensures
        r@ == update_settings_next(tournament_id, user_id, *form, *p),
{
    if let Some(step) = check_owner(
        Step::LockTournament { tournament_id },
        user_id,
        "You don't have permission to edit this tournament",
        p,
    ) {
        return step;
    }
    match &p.tournament {
        Some(Some(t)) => {
            let count: i64 = match p.registration_count {
                None => {
                    return Step::CountRegistrations;
                },
                Some(count) => count,
            };
            let settings: Settings = match form.settings() {
                Err(message) => {
                    return flash_step(FlashKind::Error, message, edit_url(tournament_id));
                },
                Ok(settings) => settings,
            };
            match validate_settings_update(
                t,
                count > 0,
                &settings.game_type,
                &settings.board_size,
            ) {
                Err(message) => {
                    return flash_step(FlashKind::Error, message, edit_url(tournament_id));
                },
                Ok(_) => {},
            }
            if !p.applied {
                return apply_one_step(Write::UpdateSettings(settings));
            }
            if !p.committed {
                return Step::Commit;
            }
            flash_step(
                FlashKind::Success,
                "Tournament settings updated!".to_owned(),
                detail_url(tournament_id),
            )
        },
        _ => not_found_step(),
    }
}

/// The next step of showing the settings page.
pub open spec fn edit_next(tournament_id: Id, user_id: Id, p: Progress) -> StepView {
    match owner_gate(
        StepView::LoadTournament { tournament_id },
        user_id,
        "You don't have permission to edit this tournament"@,
        p,
    ) {
        Some(step) => step,
        None => if p.registration_count is None {
            StepView::CountRegistrations
        } else {
            StepView::Render
        },
    }
}

/// The settings page of a tournament, for its owner only.
pub fn edit_tournament(tournament_id: Id, user_id: Id, p: &Progress) -> (r: Step)
    ensures
        r@ == edit_next(tournament_id, user_id, *p),
{
    if let Some(step) = check_owner(
        Step::LoadTournament { tournament_id },
        user_id,
        "You don't have permission to edit this tournament",
        p,
    ) {
        return step;
    }
    match p.registration_count {
        None => Step::CountRegistrations,
        Some(_) => Step::Render,
    }
}

} // verus!
