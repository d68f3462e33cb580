//! Which snakes of a leaderboard join a tournament.

use crate::ids::Id;
use crate::model::{RankedEntry, TournamentRegistration};
use crate::rules::MAX_TOTAL_REGISTRATIONS;
use std::collections::HashMap;
use vstd::prelude::*;

verus! {

/// How many of these registrations belong to a user.
pub open spec fn owned(registrations: Seq<TournamentRegistration>, user_id: Id) -> nat {
    registrations.filter(|r: TournamentRegistration| r.user_id == user_id).len()
}

/// How many of these `(snake, owner)` pairs belong to a user.
pub open spec fn chosen_of(chosen: Seq<(Id, Id)>, user_id: Id) -> nat {
    chosen.filter(|c: (Id, Id)| c.1 == user_id).len()
}

/// Whether a snake is registered.
pub open spec fn registered(registrations: Seq<TournamentRegistration>, battlesnake_id: Id) -> bool {
    exists|i: int|
        0 <= i < registrations.len() && (#[trigger] registrations[i]).battlesnake_id
            == battlesnake_id
}

/// Whether a snake is among these `(snake, owner)` pairs.
pub open spec fn chosen(pairs: Seq<(Id, Id)>, battlesnake_id: Id) -> bool {
    exists|i: int| 0 <= i < pairs.len() && (#[trigger] pairs[i]).0 == battlesnake_id
}

/// How many snakes an import may add: what was asked for, as far as there is
/// room.
pub open spec fn import_target(existing_count: int, requested: int) -> int {
    let room = MAX_TOTAL_REGISTRATIONS - existing_count;
    let wanted = if requested < room {
        requested
    } else {
        room
    };
    if wanted < 0 {
        0
    } else {
        wanted
    }
}

/// Whether a ranked snake can still join: it is in neither list yet, and its
/// owner is under the limit.
pub open spec fn eligible(
    entry: RankedEntry,
    existing: Seq<TournamentRegistration>,
    pairs: Seq<(Id, Id)>,
    max_snakes_per_user: int,
) -> bool {
    &&& !registered(existing, entry.battlesnake_id)
    &&& !chosen(pairs, entry.battlesnake_id)
    &&& owned(existing, entry.user_id) + chosen_of(pairs, entry.user_id) < max_snakes_per_user
}

/// The `(snake, owner)` pairs that join when the ranking is walked from the
/// top: each eligible snake, until `target` are found.
pub open spec fn imported(
    ranked: Seq<RankedEntry>,
    existing: Seq<TournamentRegistration>,
    max_snakes_per_user: int,
    target: int,
) -> Seq<(Id, Id)>
    decreases ranked.len(),
{
    if ranked.len() == 0 {
        Seq::empty()
    } else {
        let before = imported(ranked.drop_last(), existing, max_snakes_per_user, target);
        let entry = ranked.last();
        if before.len() < target && eligible(entry, existing, before, max_snakes_per_user) {
            before.push((entry.battlesnake_id, entry.user_id))
        } else {
            before
        }
    }
}

fn is_registered(registrations: &[TournamentRegistration], battlesnake_id: Id) -> (r: bool)
    ensures
        r == registered(registrations@, battlesnake_id),
{
    let mut i: usize = 0;
    while i < registrations.len()
        invariant
            i <= registrations.len(),
            forall|k: int|
                0 <= k < i ==> (#[trigger] registrations@[k]).battlesnake_id != battlesnake_id,
        decreases registrations.len() - i,
    {
        if registrations[i].battlesnake_id == battlesnake_id {
            return true;
        }
        i = i + 1;
    }
    false
}

fn is_chosen(pairs: &Vec<(Id, Id)>, battlesnake_id: Id) -> (r: bool)
    ensures
        r == chosen(pairs@, battlesnake_id),
{
    let mut i: usize = 0;
    while i < pairs.len()
        invariant
            i <= pairs.len(),
            forall|k: int| 0 <= k < i ==> (#[trigger] pairs@[k]).0 != battlesnake_id,
        decreases pairs.len() - i,
    {
        if pairs[i].0 == battlesnake_id {
            return true;
        }
        i = i + 1;
    }
    false
}

/// What a map of counts says of a user.
spec fn counted(counts: Map<u128, u64>, user_id: Id) -> int {
    if counts.contains_key(user_id.bits) {
        counts[user_id.bits] as int
    } else {
        0
    }
}

proof fn owned_step(registrations: Seq<TournamentRegistration>, i: int, user_id: Id)
    requires
        0 <= i < registrations.len(),
    ensures
        owned(registrations.take(i + 1), user_id) == owned(registrations.take(i), user_id) + (
        if registrations[i].user_id == user_id {
            1int
        } else {
            0
        }),
        owned(registrations.take(i), user_id) <= i,
{
    reveal(Seq::filter);
    assert(registrations.take(i + 1).drop_last() =~= registrations.take(i));
    registrations.take(i).lemma_filter_len(|r: TournamentRegistration| r.user_id == user_id);
}

proof fn chosen_of_push(pairs: Seq<(Id, Id)>, pair: (Id, Id), user_id: Id)
    ensures
        chosen_of(pairs.push(pair), user_id) == chosen_of(pairs, user_id) + (if pair.1 == user_id {
            1int
        } else {
            0
        }),
{
    reveal(Seq::filter);
    assert(pairs.push(pair).drop_last() =~= pairs);
}

/// The registrations of each user, counted.
fn count_by_user(existing: &[TournamentRegistration]) -> (counts: HashMap<u128, u64>)
    ensures
        forall|user_id: Id| #[trigger] counted(counts@, user_id) == owned(existing@, user_id),
{
    broadcast use vstd::std_specs::hash::group_hash_axioms;

    let mut counts: HashMap<u128, u64> = HashMap::new();
    let mut i: usize = 0;
    assert forall|user_id: Id| #[trigger] counted(counts@, user_id) == owned(
        existing@.take(0),
        user_id,
    ) by {
        reveal(Seq::filter);
    }
    while i < existing.len()
        invariant
            i <= existing.len(),
            forall|user_id: Id|
                #[trigger] counted(counts@, user_id) == owned(existing@.take(i as int), user_id),
        decreases existing.len() - i,
    {
        let user: Id = existing[i].user_id;
        let ghost before = counts@;
        proof {
            owned_step(existing@, i as int, user);
            assert(counted(counts@, user) == owned(existing@.take(i as int), user));
        }
        let seen: u64 = match counts.get(&user.bits) {
            Some(n) => *n,
            None => 0,
        };
        counts.insert(user.bits, seen + 1);
        assert forall|user_id: Id| #[trigger] counted(counts@, user_id) == owned(
            existing@.take(i + 1),
            user_id,
        ) by {
            owned_step(existing@, i as int, user_id);
            assert(counted(before, user_id) == owned(existing@.take(i as int), user_id));
            assert(user_id == user <==> user_id.bits == user.bits);
        }
        i = i + 1;
    }
    assert(existing@.take(i as int) =~= existing@);
    counts
}

/// Select snakes to import from a leaderboard, walking down the rankings:
/// skip snakes already registered, skip owners at the per-user cap, stop at
/// the requested count, and never push total registrations past
/// `MAX_TOTAL_REGISTRATIONS`. Returns `(battlesnake_id, user_id)` pairs in
/// rank order.
pub fn select_import_candidates(
    ranked: &[RankedEntry],
    existing: &[TournamentRegistration],
    max_snakes_per_user: i32,
    requested: i64,
) -> (r: Vec<(Id, Id)>)
    ensures
        r@ == imported(
            ranked@,
            existing@,
            max_snakes_per_user as int,
            import_target(existing@.len() as int, requested as int),
        ),
{
    broadcast use vstd::std_specs::hash::group_hash_axioms;

    let mut counts: HashMap<u128, u64> = count_by_user(existing);
    let room: i64 = if existing.len() >= 128 {
        0
    } else {
        MAX_TOTAL_REGISTRATIONS - existing.len() as i64
    };
    let wanted: i64 = if requested < room {
        requested
    } else {
        room
    };
    let target: usize = if wanted < 0 {
        0
    } else {
        wanted as usize
    };
    let ghost cap = max_snakes_per_user as int;
    assert(target == import_target(existing@.len() as int, requested as int));
    let mut pairs: Vec<(Id, Id)> = Vec::new();
    let mut i: usize = 0;
    assert forall|user_id: Id| #[trigger] counted(counts@, user_id) == owned(existing@, user_id)
        + chosen_of(pairs@, user_id) by {
        reveal(Seq::filter);
    }
    proof {
        assert(ranked@.take(0) =~= Seq::<RankedEntry>::empty());
    }
    while i < ranked.len()
        invariant
            i <= ranked.len(),
            cap == max_snakes_per_user,
            target <= 128,
            pairs@.len() <= target,
            pairs@ == imported(ranked@.take(i as int), existing@, cap, target as int),
            forall|user_id: Id|
                #[trigger] counted(counts@, user_id) == owned(existing@, user_id) + chosen_of(
                    pairs@,
                    user_id,
                ),
        decreases ranked.len() - i,
    {
        let ghost before = pairs@;
        let ghost counts_before = counts@;
        assert(ranked@.take(i + 1).drop_last() =~= ranked@.take(i as int));
        assert(ranked@.take(i + 1).last() == ranked@[i as int]);
        let snake: Id = ranked[i].battlesnake_id;
        let user: Id = ranked[i].user_id;
        if pairs.len() < target && !is_registered(existing, snake) && !is_chosen(&pairs, snake) {
            assert(counted(counts@, user) == owned(existing@, user) + chosen_of(pairs@, user));
            let held: u64 = match counts.get(&user.bits) {
                Some(n) => *n,
                None => 0,
            };
            if max_snakes_per_user > 0 && held < max_snakes_per_user as u64 {
                counts.insert(user.bits, held + 1);
                pairs.push((snake, user));
                assert forall|user_id: Id| #[trigger] counted(counts@, user_id) == owned(
                    existing@,
                    user_id,
                ) + chosen_of(pairs@, user_id) by {
                    chosen_of_push(before, (snake, user), user_id);
                    assert(counted(counts_before, user_id) == owned(existing@, user_id)
                        + chosen_of(before, user_id));
                    assert(user_id == user <==> user_id.bits == user.bits);
                }
            }
        }
        i = i + 1;
    }
    assert(ranked@.take(i as int) =~= ranked@);
    pairs
}

/// An import never takes a tournament past its total, and never adds more
/// snakes than were asked for.
pub proof fn import_stays_in_bounds(
    ranked: Seq<RankedEntry>,
    existing: Seq<TournamentRegistration>,
    max_snakes_per_user: int,
    requested: int,
)
    ensures
        ({
            let added = imported(
                ranked,
                existing,
                max_snakes_per_user,
                import_target(existing.len() as int, requested),
            );
            &&& added.len() > 0 ==> existing.len() + added.len() <= MAX_TOTAL_REGISTRATIONS
            &&& added.len() > 0 ==> added.len() <= requested
            &&& added.len() <= ranked.len()
        }),
    decreases ranked.len(),
{
    if ranked.len() > 0 {
        import_stays_in_bounds(ranked.drop_last(), existing, max_snakes_per_user, requested);
    }
}

/// An import adds no snake twice and none that is registered already.
pub proof fn import_adds_new_snakes_once(
    ranked: Seq<RankedEntry>,
    existing: Seq<TournamentRegistration>,
    max_snakes_per_user: int,
    target: int,
)
    ensures
        ({
            let added = imported(ranked, existing, max_snakes_per_user, target);
            &&& forall|i: int|
                0 <= i < added.len() ==> !registered(existing, (#[trigger] added[i]).0)
            &&& forall|i: int, j: int|
                0 <= i < j < added.len() ==> (#[trigger] added[i]).0 != (#[trigger] added[j]).0
        }),
    decreases ranked.len(),
{
    if ranked.len() > 0 {
        let before = imported(ranked.drop_last(), existing, max_snakes_per_user, target);
        let added = imported(ranked, existing, max_snakes_per_user, target);
        import_adds_new_snakes_once(ranked.drop_last(), existing, max_snakes_per_user, target);
        assert forall|i: int| 0 <= i < added.len() implies !registered(
            existing,
            (#[trigger] added[i]).0,
        ) by {
            if i < before.len() {
                assert(added[i] == before[i]);
            }
        }
        assert forall|i: int, j: int| 0 <= i < j < added.len() implies (#[trigger] added[i]).0 != (
        #[trigger] added[j]).0 by {
            assert(added[i] == before[i]);
            if j < before.len() {
                assert(added[j] == before[j]);
            }
        }
    }
}

/// After an import no owner of an added snake is over the per-user limit.
pub proof fn import_respects_the_user_limit(
    ranked: Seq<RankedEntry>,
    existing: Seq<TournamentRegistration>,
    max_snakes_per_user: int,
    target: int,
    user_id: Id,
)
    ensures
        ({
            let added = imported(ranked, existing, max_snakes_per_user, target);
            chosen_of(added, user_id) > 0 ==> owned(existing, user_id) + chosen_of(added, user_id)
                <= max_snakes_per_user
        }),
    decreases ranked.len(),
{
    if ranked.len() > 0 {
        let before = imported(ranked.drop_last(), existing, max_snakes_per_user, target);
        let entry = ranked.last();
        import_respects_the_user_limit(
            ranked.drop_last(),
            existing,
            max_snakes_per_user,
            target,
            user_id,
        );
        chosen_of_push(before, (entry.battlesnake_id, entry.user_id), user_id);
    } else {
        reveal(Seq::filter);
    }
}

/// The places in the ranking that the added snakes come from.
pub open spec fn import_places(
    ranked: Seq<RankedEntry>,
    existing: Seq<TournamentRegistration>,
    max_snakes_per_user: int,
    target: int,
) -> Seq<int>
    decreases ranked.len(),
{
    if ranked.len() == 0 {
        Seq::empty()
    } else {
        let before = imported(ranked.drop_last(), existing, max_snakes_per_user, target);
        let places = import_places(ranked.drop_last(), existing, max_snakes_per_user, target);
        if before.len() < target && eligible(
            ranked.last(),
            existing,
            before,
            max_snakes_per_user,
        ) {
            places.push(ranked.len() - 1)
        } else {
            places
        }
    }
}

/// The added snakes come out of the ranking in rank order, each with its
/// owner.
pub proof fn import_keeps_rank_order(
    ranked: Seq<RankedEntry>,
    existing: Seq<TournamentRegistration>,
    max_snakes_per_user: int,
    target: int,
)
    ensures
        ({
            let added = imported(ranked, existing, max_snakes_per_user, target);
            let places = import_places(ranked, existing, max_snakes_per_user, target);
            &&& places.len() == added.len()
            &&& forall|i: int|
                0 <= i < added.len() ==> 0 <= #[trigger] places[i] < ranked.len() && added[i] == (
                    ranked[places[i]].battlesnake_id,
                    ranked[places[i]].user_id,
                )
            &&& forall|i: int, j: int|
                0 <= i < j < added.len() ==> #[trigger] places[i] < #[trigger] places[j]
        }),
    decreases ranked.len(),
{
    if ranked.len() > 0 {
        import_keeps_rank_order(ranked.drop_last(), existing, max_snakes_per_user, target);
    }
}

/// An import that stops short of its target has left nobody out: every
/// ranked snake is registered or added, or its owner is at the limit.
pub proof fn import_leaves_no_eligible_snake(
    ranked: Seq<RankedEntry>,
    existing: Seq<TournamentRegistration>,
    max_snakes_per_user: int,
    target: int,
    place: int,
)
    requires
        0 <= place < ranked.len(),
    ensures
        ({
            let added = imported(ranked, existing, max_snakes_per_user, target);
            added.len() < target ==> !eligible(
                ranked[place],
                existing,
                added,
                max_snakes_per_user,
            )
        }),
    decreases ranked.len(),
{
    let before = imported(ranked.drop_last(), existing, max_snakes_per_user, target);
    let entry = ranked.last();
    let pair = (entry.battlesnake_id, entry.user_id);
    if place == ranked.len() - 1 {
        if before.len() < target && eligible(entry, existing, before, max_snakes_per_user) {
            assert(before.push(pair)[before.len() as int].0 == entry.battlesnake_id);
        }
    } else {
        import_leaves_no_eligible_snake(
            ranked.drop_last(),
            existing,
            max_snakes_per_user,
            target,
            place,
        );
        chosen_of_push(before, pair, ranked[place].user_id);
        if chosen(before, ranked[place].battlesnake_id) {
            let k = choose|k: int|
                0 <= k < before.len() && (#[trigger] before[k]).0 == ranked[place].battlesnake_id;
            assert(before.push(pair)[k] == before[k]);
        }
    }
}

proof fn smaller_targets_come_first(
    ranked: Seq<RankedEntry>,
    existing: Seq<TournamentRegistration>,
    max_snakes_per_user: int,
    smaller: int,
    larger: int,
)
    requires
        0 <= smaller <= larger,
    ensures
        ({
            let all = imported(ranked, existing, max_snakes_per_user, larger);
            imported(ranked, existing, max_snakes_per_user, smaller) == if all.len() <= smaller {
                all
            } else {
                all.take(smaller)
            }
        }),
    decreases ranked.len(),
{
    if ranked.len() > 0 {
        smaller_targets_come_first(
            ranked.drop_last(),
            existing,
            max_snakes_per_user,
            smaller,
            larger,
        );
        let before = imported(ranked.drop_last(), existing, max_snakes_per_user, larger);
        let all = imported(ranked, existing, max_snakes_per_user, larger);
        if before.len() >= smaller {
            assert(all.take(smaller) =~= before.take(smaller));
            assert(before.take(before.len() as int) =~= before);
        }
    }
}

/// Asking for fewer snakes gives the first of those that asking for more
/// gives: as many as were asked for and have room, as far as there are any.
pub proof fn smaller_imports_come_first(
    ranked: Seq<RankedEntry>,
    existing: Seq<TournamentRegistration>,
    max_snakes_per_user: int,
    fewer: int,
    more: int,
)
    requires
        fewer <= more,
    ensures
        ({
            let few = imported(
                ranked,
                existing,
                max_snakes_per_user,
                import_target(existing.len() as int, fewer),
            );
            let many = imported(
                ranked,
                existing,
                max_snakes_per_user,
                import_target(existing.len() as int, more),
            );
            let target = import_target(existing.len() as int, fewer);
            &&& few.len() == if target <= many.len() {
                target
            } else {
                many.len() as int
            }
            &&& few == many.take(few.len() as int)
        }),
{
    let target = import_target(existing.len() as int, more);
    smaller_targets_come_first(
        ranked,
        existing,
        max_snakes_per_user,
        import_target(existing.len() as int, fewer),
        target,
    );
    let many = imported(ranked, existing, max_snakes_per_user, target);
    assert(many.take(many.len() as int) =~= many);
}

pub(crate) proof fn chosen_are_counted(pairs: Seq<(Id, Id)>, user_id: Id, theirs: spec_fn((Id, Id)) -> bool)
    requires
        forall|c: (Id, Id)| #[trigger] theirs(c) <==> c.1 == user_id,
    ensures
        chosen_of(pairs, user_id) == pairs.filter(theirs).len(),
    decreases pairs.len(),
{
    reveal(Seq::filter);
    if pairs.len() > 0 {
        chosen_are_counted(pairs.drop_last(), user_id, theirs);
        assert(theirs(pairs.last()) <==> pairs.last().1 == user_id);
    }
}

/// An import walks down the ranking one snake at a time: the next snake joins
/// exactly when there is room for it, it is neither registered nor chosen
/// yet, and its owner has fewer snakes than allowed; and whatever stands
/// further down changes nothing for those above.
pub proof fn import_walks_down_the_ranking(
    above: Seq<RankedEntry>,
    entry: RankedEntry,
    existing: Seq<TournamentRegistration>,
    max_snakes_per_user: int,
    target: int,
)
    ensures
        imported(Seq::empty(), existing, max_snakes_per_user, target) == Seq::<(Id, Id)>::empty(),
        ({
            let before = imported(above, existing, max_snakes_per_user, target);
            let owner = entry.user_id;
            let held = existing.filter(|r: TournamentRegistration| r.user_id == owner).len()
                + before.filter(|c: (Id, Id)| c.1 == owner).len();
            let joins = {
                &&& before.len() < target
                &&& forall|k: int|
                    0 <= k < existing.len() ==> (#[trigger] existing[k]).battlesnake_id
                        != entry.battlesnake_id
                &&& forall|k: int|
                    0 <= k < before.len() ==> (#[trigger] before[k]).0 != entry.battlesnake_id
                &&& held < max_snakes_per_user
            };
            imported(above.push(entry), existing, max_snakes_per_user, target) == if joins {
                before.push((entry.battlesnake_id, entry.user_id))
            } else {
                before
            }
        }),
{
    let all = above.push(entry);
    let before = imported(above, existing, max_snakes_per_user, target);
    assert(all.drop_last() =~= above);
    assert(all.last() == entry);
    let owner = entry.user_id;
    assert(owned(existing, owner) == existing.filter(
        |r: TournamentRegistration| r.user_id == owner,
    ).len());
    chosen_are_counted(before, owner, |c: (Id, Id)| c.1 == owner);
}

/// An import aims at what was asked for, as far as a total of 128 snakes
/// leaves room.
pub proof fn imports_aim_at_what_was_asked(existing_count: int, requested: int)
    ensures
        ({
            let target = import_target(existing_count, requested);
            &&& target >= 0
            &&& requested >= 0 ==> target <= requested
            &&& existing_count <= 128 ==> existing_count + target <= 128
            &&& 0 <= requested && existing_count + requested <= 128 ==> target == requested
            &&& existing_count <= 128 <= existing_count + requested ==> existing_count + target
                == 128
            &&& existing_count >= 128 ==> target == 0
        }),
{
}

} // verus!
