//! Requests that put a snake on a leaderboard or pause it there. Each
//! function names the next step of its request, from what the request has
//! found out so far.

use crate::flow::FlashKind;
use crate::forms::{JoinLeaveForm, LeaveForm};
use crate::ids::Id;
use crate::leaderboard_page::{ladder_path, ladder_url};
use crate::model::{Battlesnake, Leaderboard, LeaderboardEntry};
use crate::time::{now, Timestamp};
use vstd::prelude::*;
use vstd::string::StringExecFns;

verus! {

/// What a request has found out and done so far. A fact that has not been
/// asked for is `None`.
#[derive(Debug)]
pub struct MemberFacts {
    pub leaderboard: Option<Option<Leaderboard>>,
    pub entry: Option<Option<LeaderboardEntry>>,
    pub snake: Option<Option<Battlesnake>>,
    /// The membership that a join created or resumed.
    pub joined: Option<Id>,
    pub reactivated: bool,
    pub scoring_initialized: bool,
    pub paused: bool,
}

impl MemberFacts {
    /// A request of which nothing is known yet.
    pub open spec fn fresh() -> MemberFacts {
        MemberFacts {
            leaderboard: None,
            entry: None,
            snake: None,
            joined: None,
            reactivated: false,
            scoring_initialized: false,
            paused: false,
        }
    }

    /// A request of which nothing is known yet.
    pub fn start() -> (r: MemberFacts)
        ensures
            r == MemberFacts::fresh(),
    {
        MemberFacts {
            leaderboard: None,
            entry: None,
            snake: None,
            joined: None,
            reactivated: false,
            scoring_initialized: false,
            paused: false,
        }
    }
}

/// What a request does next.
#[derive(Debug)]
pub enum MemberStep {
    LoadLeaderboard { leaderboard_id: Id },
    LoadEntry { leaderboard_entry_id: Id },
    LoadSnake { battlesnake_id: Id },
    /// Create the snake's membership, or resume it where it is paused.
    Join { leaderboard_id: Id, battlesnake_id: Id },
    /// Forget the failed health checks of the snake, which would otherwise
    /// pause it again at once.
    Reactivate { battlesnake_id: Id },
    /// Give the membership its first score in every scoring.
    InitializeScoring { leaderboard_entry_id: Id },
    /// Pause a membership from this time on.
    Pause { leaderboard_entry_id: Id, at: Timestamp },
    /// Report a failure and send the requester on.
    Fail { message: String, to: String },
    /// Send the requester on with a message.
    Flash { kind: FlashKind, message: String, to: String },
    /// Send the requester on.
    Redirect { to: String },
}

/// What a request does next, with its texts as characters.
pub enum MemberStepView {
    LoadLeaderboard { leaderboard_id: Id },
    LoadEntry { leaderboard_entry_id: Id },
    LoadSnake { battlesnake_id: Id },
    Join { leaderboard_id: Id, battlesnake_id: Id },
    Reactivate { battlesnake_id: Id },
    InitializeScoring { leaderboard_entry_id: Id },
    Pause { leaderboard_entry_id: Id, at: Timestamp },
    Fail { message: Seq<char>, to: Seq<char> },
    Flash { kind: FlashKind, message: Seq<char>, to: Seq<char> },
    Redirect { to: Seq<char> },
}

impl View for MemberStep {
    type V = MemberStepView;

    open spec fn view(&self) -> MemberStepView {
        match *self {
            MemberStep::LoadLeaderboard { leaderboard_id } => MemberStepView::LoadLeaderboard {
                leaderboard_id,
            },
            MemberStep::LoadEntry { leaderboard_entry_id } => MemberStepView::LoadEntry {
                leaderboard_entry_id,
            },
            MemberStep::LoadSnake { battlesnake_id } => MemberStepView::LoadSnake {
                battlesnake_id,
            },
            MemberStep::Join { leaderboard_id, battlesnake_id } => MemberStepView::Join {
                leaderboard_id,
                battlesnake_id,
            },
            MemberStep::Reactivate { battlesnake_id } => MemberStepView::Reactivate {
                battlesnake_id,
            },
            MemberStep::InitializeScoring { leaderboard_entry_id } =>
                MemberStepView::InitializeScoring { leaderboard_entry_id },
            MemberStep::Pause { leaderboard_entry_id, at } => MemberStepView::Pause {
                leaderboard_entry_id,
                at,
            },
            MemberStep::Fail { message, to } => MemberStepView::Fail {
                message: message@,
                to: to@,
            },
            MemberStep::Flash { kind, message, to } => MemberStepView::Flash {
                kind,
                message: message@,
                to: to@,
            },
            MemberStep::Redirect { to } => MemberStepView::Redirect { to: to@ },
        }
    }
}

/// A failure, reported on the page of the leaderboard.
pub open spec fn failed(leaderboard_id: Id, message: Seq<char>) -> MemberStepView {
    MemberStepView::Fail { message, to: ladder_path(leaderboard_id) }
}

fn fail(leaderboard_id: Id, message: &str) -> (r: MemberStep)
    ensures
        r@ == failed(leaderboard_id, message@),
{
    MemberStep::Fail { message: message.to_owned(), to: ladder_url(leaderboard_id) }
}

/// What is said when a snake has joined.
pub open spec fn joined_message(snake: Seq<char>, ladder: Seq<char>) -> Seq<char> {
    snake + " is in the matchmaking rotation on "@ + ladder
        + " — it'll be picked up in upcoming games."@
}

/// The next step of joining: the leaderboard has to be there and active, and
/// the snake to be there and the requester's. Then the snake joins, its failed
/// health checks are forgotten and its scores begin, in this order.
pub open spec fn join_next(
    leaderboard_id: Id,
    user_id: Id,
    form: JoinLeaveForm,
    facts: MemberFacts,
) -> MemberStepView {
    if facts.leaderboard is None {
        MemberStepView::LoadLeaderboard { leaderboard_id }
    } else if facts.leaderboard->0 is None {
        failed(leaderboard_id, "Leaderboard not found"@)
    } else if facts.leaderboard->0->0.disabled_at is Some {
        MemberStepView::Flash {
            kind: FlashKind::Error,
            message: "That leaderboard is no longer active."@,
            to: ladder_path(leaderboard_id),
        }
    } else if facts.snake is None {
        MemberStepView::LoadSnake { battlesnake_id: form.battlesnake_id }
    } else if facts.snake->0 is None {
        failed(leaderboard_id, "Battlesnake not found"@)
    } else if facts.snake->0->0.user_id != user_id {
        failed(leaderboard_id, "You don't own this battlesnake"@)
    } else if facts.joined is None {
        MemberStepView::Join { leaderboard_id, battlesnake_id: form.battlesnake_id }
    } else if !facts.reactivated {
        MemberStepView::Reactivate { battlesnake_id: form.battlesnake_id }
    } else if !facts.scoring_initialized {
        MemberStepView::InitializeScoring { leaderboard_entry_id: facts.joined->0 }
    } else {
        MemberStepView::Flash {
            kind: FlashKind::Success,
            message: joined_message(facts.snake->0->0.name@, facts.leaderboard->0->0.name@),
            to: ladder_path(leaderboard_id),
        }
    }
}

/// Put one of the requester's snakes on a leaderboard, or resume it there.
pub fn join_leaderboard(
    leaderboard_id: Id,
    user_id: Id,
    form: &JoinLeaveForm,
    facts: &MemberFacts,
) -> (r: MemberStep)
    ensures
        r@ == join_next(leaderboard_id, user_id, *form, *facts),
{
    let lb: &Leaderboard = match &facts.leaderboard {
        None => {
            return MemberStep::LoadLeaderboard { leaderboard_id };
        },
        Some(None) => {
            return fail(leaderboard_id, "Leaderboard not found");
        },
        Some(Some(lb)) => lb,
    };
    if lb.disabled_at.is_some() {
        return MemberStep::Flash {
            kind: FlashKind::Error,
            message: "That leaderboard is no longer active.".to_owned(),
            to: ladder_url(leaderboard_id),
        };
    }
    let snake: &Battlesnake = match &facts.snake {
        None => {
            return MemberStep::LoadSnake { battlesnake_id: form.battlesnake_id };
        },
        Some(None) => {
            return fail(leaderboard_id, "Battlesnake not found");
        },
        Some(Some(snake)) => snake,
    };
    if snake.user_id != user_id {
        return fail(leaderboard_id, "You don't own this battlesnake");
    }
    let joined: Id = match facts.joined {
        None => {
            return MemberStep::Join { leaderboard_id, battlesnake_id: form.battlesnake_id };
        },
        Some(joined) => joined,
    };
    if !facts.reactivated {
        return MemberStep::Reactivate { battlesnake_id: form.battlesnake_id };
    }
    if !facts.scoring_initialized {
        return MemberStep::InitializeScoring { leaderboard_entry_id: joined };
    }
    MemberStep::Flash {
        kind: FlashKind::Success,
        message: snake.name.clone().concat(" is in the matchmaking rotation on ").concat(
            lb.name.as_str(),
        ).concat(" — it'll be picked up in upcoming games."),
        to: ladder_url(leaderboard_id),
    }
}

/// The next step of pausing at the time `at`: the membership has to be there
/// and on this leaderboard, and its snake to be there and the requester's.
pub open spec fn leave_next(
    leaderboard_id: Id,
    user_id: Id,
    form: LeaveForm,
    facts: MemberFacts,
    at: Timestamp,
) -> MemberStepView {
    if facts.entry is None {
        MemberStepView::LoadEntry { leaderboard_entry_id: form.leaderboard_entry_id }
    } else if facts.entry->0 is None {
        failed(leaderboard_id, "Leaderboard entry not found"@)
    } else if facts.entry->0->0.leaderboard_id != leaderboard_id {
        failed(leaderboard_id, "Entry does not belong to this leaderboard"@)
    } else if facts.snake is None {
        MemberStepView::LoadSnake { battlesnake_id: facts.entry->0->0.battlesnake_id }
    } else if facts.snake->0 is None {
        failed(leaderboard_id, "Battlesnake not found"@)
    } else if facts.snake->0->0.user_id != user_id {
        failed(leaderboard_id, "You don't own this battlesnake"@)
    } else if !facts.paused {
        MemberStepView::Pause {
            leaderboard_entry_id: facts.entry->0->0.leaderboard_entry_id,
            at,
        }
    } else {
        MemberStepView::Redirect { to: ladder_path(leaderboard_id) }
    }
}

/// Pause one of the requester's snakes on a leaderboard, at the time `at`.
pub fn leave_leaderboard_at(
    leaderboard_id: Id,
    user_id: Id,
    form: &LeaveForm,
    facts: &MemberFacts,
    at: Timestamp,
) -> (r: MemberStep)
    ensures
        r@ == leave_next(leaderboard_id, user_id, *form, *facts, at),
{
    let entry: &LeaderboardEntry = match &facts.entry {
        None => {
            return MemberStep::LoadEntry { leaderboard_entry_id: form.leaderboard_entry_id };
        },
        Some(None) => {
            return fail(leaderboard_id, "Leaderboard entry not found");
        },
        Some(Some(entry)) => entry,
    };
    if entry.leaderboard_id != leaderboard_id {
        return fail(leaderboard_id, "Entry does not belong to this leaderboard");
    }
    let snake: &Battlesnake = match &facts.snake {
        None => {
            return MemberStep::LoadSnake { battlesnake_id: entry.battlesnake_id };
        },
        Some(None) => {
            return fail(leaderboard_id, "Battlesnake not found");
        },
        Some(Some(snake)) => snake,
    };
    if snake.user_id != user_id {
        return fail(leaderboard_id, "You don't own this battlesnake");
    }
    if !facts.paused {
        return MemberStep::Pause { leaderboard_entry_id: entry.leaderboard_entry_id, at };
    }
    MemberStep::Redirect { to: ladder_url(leaderboard_id) }
}

/// Pause one of the requester's snakes on a leaderboard, now.
pub fn leave_leaderboard(
    leaderboard_id: Id,
    user_id: Id,
    form: &LeaveForm,
    facts: &MemberFacts,
) -> (r: MemberStep)
    ensures
        exists|at: Timestamp| #[trigger]
            at.valid() && at.secs >= 0 && r@ == leave_next(
                leaderboard_id,
                user_id,
                *form,
                *facts,
                at,
            ),
{
    let current: Timestamp = now();
    leave_leaderboard_at(leaderboard_id, user_id, form, facts, current)
}

// What whole requests come to.

/// What the stored data answers to everything that a request can ask.
pub struct MemberAnswers {
    pub leaderboard: Option<Leaderboard>,
    pub entry: Option<LeaderboardEntry>,
    pub snake: Option<Battlesnake>,
    pub joined: Id,
}

/// What a request knows after a step, when the step is answered by the stored
/// data.
pub open spec fn member_record(
    a: MemberAnswers,
    step: MemberStepView,
    facts: MemberFacts,
) -> MemberFacts {
    match step {
        MemberStepView::LoadLeaderboard { leaderboard_id: _ } => MemberFacts {
            leaderboard: Some(a.leaderboard),
            ..facts
        },
        MemberStepView::LoadEntry { leaderboard_entry_id: _ } => MemberFacts {
            entry: Some(a.entry),
            ..facts
        },
        MemberStepView::LoadSnake { battlesnake_id: _ } => MemberFacts {
            snake: Some(a.snake),
            ..facts
        },
        MemberStepView::Join { leaderboard_id: _, battlesnake_id: _ } => MemberFacts {
            joined: Some(a.joined),
            ..facts
        },
        MemberStepView::Reactivate { battlesnake_id: _ } => MemberFacts {
            reactivated: true,
            ..facts
        },
        MemberStepView::InitializeScoring { leaderboard_entry_id: _ } => MemberFacts {
            scoring_initialized: true,
            ..facts
        },
        MemberStepView::Pause { leaderboard_entry_id: _, at: _ } => MemberFacts {
            paused: true,
            ..facts
        },
        _ => facts,
    }
}

/// Whether a step changes what is stored.
pub open spec fn changes(step: MemberStepView) -> bool {
    step is Join || step is Reactivate || step is InitializeScoring || step is Pause
}

/// Whether a step ends a request.
pub open spec fn member_ends(step: MemberStepView) -> bool {
    step is Fail || step is Flash || step is Redirect
}

/// Every change that a request makes and how it ends, served for at most
/// `steps` steps.
pub open spec fn member_serve(
    next: spec_fn(MemberFacts) -> MemberStepView,
    a: MemberAnswers,
    facts: MemberFacts,
    steps: nat,
) -> (Seq<MemberStepView>, Option<MemberStepView>)
    decreases steps,
{
    let step = next(facts);
    if member_ends(step) {
        (Seq::empty(), Some(step))
    } else if steps == 0 {
        (Seq::empty(), None)
    } else {
        let (later, end) = member_serve(
            next,
            a,
            member_record(a, step, facts),
            (steps - 1) as nat,
        );
        if changes(step) {
            (seq![step] + later, end)
        } else {
            (later, end)
        }
    }
}

/// When a join is accepted.
pub open spec fn join_accepted(a: MemberAnswers, user_id: Id) -> bool {
    &&& a.leaderboard is Some && a.leaderboard->0.disabled_at is None
    &&& a.snake is Some && a.snake->0.user_id == user_id
}

/// A join is accepted exactly when the leaderboard is active and the snake is
/// the requester's own. The snake then joins, its health is reset and its
/// scores begin; a refused join changes nothing.
pub proof fn join_runs(leaderboard_id: Id, user_id: Id, form: JoinLeaveForm, a: MemberAnswers)
    ensures
        ({
            let next = |facts: MemberFacts| join_next(leaderboard_id, user_id, form, facts);
            let (made, end) = member_serve(next, a, MemberFacts::fresh(), 6);
            &&& end is Some
            &&& join_accepted(a, user_id) ==> {
                &&& made == seq![
                    MemberStepView::Join { leaderboard_id, battlesnake_id: form.battlesnake_id },
                    MemberStepView::Reactivate { battlesnake_id: form.battlesnake_id },
                    MemberStepView::InitializeScoring { leaderboard_entry_id: a.joined },
                ]
                &&& end == Some(
                    MemberStepView::Flash {
                        kind: FlashKind::Success,
                        message: joined_message(a.snake->0.name@, a.leaderboard->0.name@),
                        to: ladder_path(leaderboard_id),
                    },
                )
            }
            &&& !join_accepted(a, user_id) ==> made == Seq::<MemberStepView>::empty() && !(end
                matches Some(MemberStepView::Flash { kind: FlashKind::Success, .. }))
        }),
{
    reveal_with_fuel(member_serve, 7);
    let next = |facts: MemberFacts| join_next(leaderboard_id, user_id, form, facts);
    let (made, end) = member_serve(next, a, MemberFacts::fresh(), 6);
    if join_accepted(a, user_id) {
        assert(made =~= seq![
            MemberStepView::Join { leaderboard_id, battlesnake_id: form.battlesnake_id },
            MemberStepView::Reactivate { battlesnake_id: form.battlesnake_id },
            MemberStepView::InitializeScoring { leaderboard_entry_id: a.joined },
        ]);
    }
}

/// When a pause is accepted.
pub open spec fn leave_accepted(a: MemberAnswers, leaderboard_id: Id, user_id: Id) -> bool {
    &&& a.entry is Some && a.entry->0.leaderboard_id == leaderboard_id
    &&& a.snake is Some && a.snake->0.user_id == user_id
}

/// A pause is accepted exactly when the membership is on this leaderboard and
/// its snake is the requester's own. It then pauses that membership and no
/// other; a refused one changes nothing.
pub proof fn leave_runs(
    leaderboard_id: Id,
    user_id: Id,
    form: LeaveForm,
    a: MemberAnswers,
    at: Timestamp,
)
    ensures
        ({
            let next = |facts: MemberFacts| leave_next(leaderboard_id, user_id, form, facts, at);
            let (made, end) = member_serve(next, a, MemberFacts::fresh(), 6);
            &&& end is Some
            &&& leave_accepted(a, leaderboard_id, user_id) ==> {
                &&& made == seq![
                    MemberStepView::Pause {
                        leaderboard_entry_id: a.entry->0.leaderboard_entry_id,
                        at,
                    },
                ]
                &&& end == Some(MemberStepView::Redirect { to: ladder_path(leaderboard_id) })
            }
            &&& !leave_accepted(a, leaderboard_id, user_id) ==> made == Seq::<
                MemberStepView,
            >::empty() && end->0 is Fail
        }),
{
    reveal_with_fuel(member_serve, 7);
    let next = |facts: MemberFacts| leave_next(leaderboard_id, user_id, form, facts, at);
    let (made, end) = member_serve(next, a, MemberFacts::fresh(), 6);
    if leave_accepted(a, leaderboard_id, user_id) {
        assert(made =~= seq![
            MemberStepView::Pause { leaderboard_entry_id: a.entry->0.leaderboard_entry_id, at },
        ]);
    }
}

/// What is asked for and done is about the snake and the membership that the
/// form names, and the leaderboard that the request is about.
pub proof fn memberships_change_for_the_named_snake(
    leaderboard_id: Id,
    user_id: Id,
    join: JoinLeaveForm,
    leave: LeaveForm,
    facts: MemberFacts,
    at: Timestamp,
)
    ensures
        ({
            let step = join_next(leaderboard_id, user_id, join, facts);
            &&& facts.leaderboard is None ==> step == (MemberStepView::LoadLeaderboard {
                leaderboard_id,
            })
            &&& step is LoadSnake ==> step->LoadSnake_battlesnake_id == join.battlesnake_id
            &&& step is Join ==> step == (MemberStepView::Join {
                leaderboard_id,
                battlesnake_id: join.battlesnake_id,
            }) && facts.snake->0->0.user_id == user_id && facts.leaderboard->0->0.disabled_at is None
            &&& step is Reactivate ==> step->Reactivate_battlesnake_id == join.battlesnake_id
            &&& step is InitializeScoring ==> Some(step->InitializeScoring_leaderboard_entry_id)
                == facts.joined
            &&& !(step is Pause) && !(step is LoadEntry) && !(step is Redirect)
        }),
        ({
            let step = leave_next(leaderboard_id, user_id, leave, facts, at);
            &&& facts.entry is None ==> step == (MemberStepView::LoadEntry {
                leaderboard_entry_id: leave.leaderboard_entry_id,
            })
            &&& step is LoadSnake ==> step->LoadSnake_battlesnake_id
                == facts.entry->0->0.battlesnake_id
            &&& step is Pause ==> step == (MemberStepView::Pause {
                leaderboard_entry_id: facts.entry->0->0.leaderboard_entry_id,
                at,
            }) && facts.snake->0->0.user_id == user_id && facts.entry->0->0.leaderboard_id
                == leaderboard_id
            &&& step is Redirect ==> step->Redirect_to == "/leaderboards/"@ + leaderboard_id.text()
            &&& !(step is Join) && !(step is Reactivate) && !(step is InitializeScoring)
        }),
{
}

/// Whoever has joined is told the names of the snake and of the leaderboard,
/// and whoever cannot join a disabled leaderboard is told so.
pub proof fn joining_is_told_by_name(
    leaderboard_id: Id,
    user_id: Id,
    form: JoinLeaveForm,
    facts: MemberFacts,
)
    ensures
        ({
            let step = join_next(leaderboard_id, user_id, form, facts);
            &&& step is Flash ==> step->Flash_to == "/leaderboards/"@ + leaderboard_id.text()
            &&& step is Flash && step->kind is Success ==> {
                &&& facts.reactivated && facts.scoring_initialized && facts.joined is Some
                &&& step->Flash_message == facts.snake->0->0.name@
                    + " is in the matchmaking rotation on "@ + facts.leaderboard->0->0.name@
                    + " — it'll be picked up in upcoming games."@
            }
            &&& step is Flash && !(step->kind is Success) ==> {
                &&& facts.leaderboard->0->0.disabled_at is Some
                &&& step->Flash_message == "That leaderboard is no longer active."@
            }
            &&& step is Fail ==> step->Fail_to == "/leaderboards/"@ + leaderboard_id.text()
        }),
{
}

} // verus!
