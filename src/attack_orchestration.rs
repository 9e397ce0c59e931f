//! The decisions of a horde attack on one shared character.
//!
//! Each attacker, once it holds the character exclusively, draws a damage
//! amount and lands one hit. Holding the character exclusively is what the
//! `&mut` parameters here stand for, so a run of attackers is a sequence of
//! hits in some order. The proof functions below say what such a sequence
//! does.
use crate::video_game_case::{
    damage_result, fits_i16_counter, struck, vitals_wf, Character, DamageError, DamageOutcome,
    Vitals,
};
use rand::Rng;
use vstd::prelude::*;
use vstd::seq_lib::{commutative_foldl, lemma_fold_left_permutation};

verus! {

/// Smallest damage an attacker deals.
pub const DAMAGE_LOW: i16 = 400;

/// Damage an attacker deals stays below this.
pub const DAMAGE_HIGH: i16 = 808;

/// The sum of a sequence of damage amounts.
pub open spec fn total(ds: Seq<i16>) -> int {
    ds.fold_left(0int, |acc: int, d: i16| acc + d)
}

/// The state after the hits `ds`, applied in order, on `v`.
pub open spec fn struck_all(v: Vitals, ds: Seq<i16>) -> Vitals {
    ds.fold_left(v, |w: Vitals, d: i16| struck(w, d as int))
}

/// Whether every hit of `ds`, applied in order on `v`, stays in the range of
/// a `Character`'s fields.
pub open spec fn all_fit(v: Vitals, ds: Seq<i16>) -> bool {
    forall|k: int| 0 <= k < ds.len() ==> fits_i16_counter(#[trigger] struck_all(v, ds.take(k)), ds[k] as int)
}

/// Whether `v` is alive before each hit of `ds`: it is alive now, and the
/// hits before the last one leave it some health.
pub open spec fn alive_until_last_hit(v: Vitals, ds: Seq<i16>) -> bool {
    &&& v.alive
    &&& forall|k: int| 1 <= k < ds.len() ==> v.health - #[trigger] total(ds.take(k)) > 0
}

/// Relies on rand::thread_rng and Rng::gen_range: a value drawn from
/// `low..high`; gen_range panics on an empty range.
#[verifier::external_body]
fn draw_in_range(low: i16, high: i16) -> (r: i16)
    requires
        low < high,
    ensures
        low <= r < high,
{
    rand::thread_rng().gen_range(low..high)
}

/// One hit of `damages` on `target`, followed by a redundant check that a
/// character with negative health is marked dead. The check never changes
/// anything: `take_damage` already keeps a living character's health above
/// zero.
pub fn strike(target: &mut Character, damages: i16) -> (r: Result<DamageOutcome, DamageError>)
    requires
        old(target).can_take(damages),
    ensures
        final(target)@ == struck(old(target)@, damages as int),
        final(target).name@ == old(target).name@,
        r == damage_result(old(target)@, damages as int),
        old(target).wf() ==> final(target).wf(),
{
    let r = target.take_damage(damages);
    if target.health < 0 {
        target.alive = false;
    }
    r
}

/// One attacker's turn: draw a damage amount in `DAMAGE_LOW..DAMAGE_HIGH` and
/// strike `target` with it. Returns the amount drawn and how the hit went.
pub fn monster_turn(target: &mut Character) -> (r: (i16, Result<DamageOutcome, DamageError>))
    requires
        old(target).can_take((DAMAGE_HIGH - 1) as i16),
    ensures
        DAMAGE_LOW <= r.0 < DAMAGE_HIGH,
        final(target)@ == struck(old(target)@, r.0 as int),
        final(target).name@ == old(target).name@,
        r.1 == damage_result(old(target)@, r.0 as int),
        old(target).wf() ==> final(target).wf(),
{
    let damages = draw_in_range(DAMAGE_LOW, DAMAGE_HIGH);
    let outcome = strike(target, damages);
    (damages, outcome)
}

/// Lands the hits `damages` on `target` one after another, in order, and
/// reports how each went.
pub fn apply_all(target: &mut Character, damages: &Vec<i16>) -> (r: Vec<Result<DamageOutcome, DamageError>>)
    requires
        all_fit(old(target)@, damages@),
    ensures
        final(target)@ == struck_all(old(target)@, damages@),
        final(target).name@ == old(target).name@,
        r@.len() == damages@.len(),
        forall|i: int|
            0 <= i < damages@.len() ==> #[trigger] r@[i] == damage_result(
                struck_all(old(target)@, damages@.take(i)),
                damages@[i] as int,
            ),
        old(target).attack_taken <= final(target).attack_taken <= old(target).attack_taken
            + damages@.len(),
        old(target).wf() ==> final(target).wf(),
{
    let ghost v0 = target@;
    let mut results: Vec<Result<DamageOutcome, DamageError>> = Vec::new();
    let mut i: usize = 0;
    while i < damages.len()
        invariant
            i <= damages@.len(),
            all_fit(v0, damages@),
            target@ == struck_all(v0, damages@.take(i as int)),
            target.name@ == old(target).name@,
            results@.len() == i,
            forall|j: int|
                0 <= j < i ==> #[trigger] results@[j] == damage_result(
                    struck_all(v0, damages@.take(j)),
                    damages@[j] as int,
                ),
            vitals_wf(v0) && old(target).attack_taken >= 0 ==> target.wf(),
        decreases damages@.len() - i,
    {
        proof {
            assert(fits_i16_counter(struck_all(v0, damages@.take(i as int)), damages@[i as int] as int));
        }
        let d = damages[i];
        let outcome = strike(target, d);
        results.push(outcome);
        proof {
            let next = damages@.take(i + 1);
            assert(next.drop_last() =~= damages@.take(i as int));
            assert(next.last() == d);
        }
        i = i + 1;
    }
    proof {
        assert(damages@.take(i as int) =~= damages@);
        lemma_hits_counted(v0, damages@);
    }
    results
}

/// Hits never lower the hit count, and each raises it by at most one: after
/// the hits `ds` the count has grown by at most `ds.len()`.
pub proof fn lemma_hits_counted(v: Vitals, ds: Seq<i16>)
    ensures
        v.attack_taken <= struck_all(v, ds).attack_taken <= v.attack_taken + ds.len(),
    decreases ds.len(),
{
    if ds.len() > 0 {
        lemma_hits_counted(v, ds.drop_last());
    }
}

/// Once dead, always dead: hits on a dead entity change nothing.
pub proof fn lemma_dead_stays_dead(v: Vitals, ds: Seq<i16>)
    requires
        !v.alive,
    ensures
        struck_all(v, ds) == v,
    decreases ds.len(),
{
    if ds.len() > 0 {
        lemma_dead_stays_dead(v, ds.drop_last());
    }
}

/// When every hit of `ds` lands (the target is alive before each of them),
/// the hit count grows by exactly `ds.len()` and health drops by exactly the
/// sum of the damages; the target ends alive exactly when health stays above
/// zero.
pub proof fn lemma_serialized_total(v: Vitals, ds: Seq<i16>)
    requires
        alive_until_last_hit(v, ds),
    ensures
        struck_all(v, ds).attack_taken == v.attack_taken + ds.len(),
        struck_all(v, ds).health == v.health - total(ds),
        ds.len() > 0 ==> struck_all(v, ds).alive == (v.health - total(ds) > 0),
    decreases ds.len(),
{
    if ds.len() > 0 {
        let rest = ds.drop_last();
        assert forall|k: int| 1 <= k < rest.len() implies v.health - #[trigger] total(rest.take(k)) > 0 by {
            assert(rest.take(k) =~= ds.take(k));
        }
        lemma_serialized_total(v, rest);
        if rest.len() > 0 {
            assert(ds.take(rest.len() as int) =~= rest);
        }
    }
}

/// The order of the hits does not matter: two orders of the same damages in
/// which every hit lands leave the target in the same state.
pub proof fn lemma_order_irrelevant(v: Vitals, ds1: Seq<i16>, ds2: Seq<i16>)
    requires
        ds1.to_multiset() == ds2.to_multiset(),
        alive_until_last_hit(v, ds1),
        alive_until_last_hit(v, ds2),
    ensures
        struck_all(v, ds1) == struck_all(v, ds2),
{
    let f = |acc: int, d: i16| acc + d;
    assert(commutative_foldl(f));
    lemma_fold_left_permutation(ds1, ds2, f, 0int);
    ds1.to_multiset_ensures();
    ds2.to_multiset_ensures();
    lemma_serialized_total(v, ds1);
    lemma_serialized_total(v, ds2);
}

} // verus!
