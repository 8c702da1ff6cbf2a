//! Live food items and their consumption.

use vstd::prelude::*;
use crate::collision::spec_collides;
use crate::collision::collides;
use crate::config::Config;
use crate::geometry::Position;

verus! {

/// A live food item: an identity and a position. Identities are unique among
/// the live items; the spawner hands out fresh ones.
#[derive(Clone, Copy, PartialEq, Eq, Structural, Debug)]
pub struct FoodItem {
    pub id: u64,
    pub pos: Position,
}

/// The food items that survive one eating pass with the head at `head`:
/// those that do not collide with the head, in their original order.
pub open spec fn survivors(cfg: Config, head: Position, food: Seq<FoodItem>) -> Seq<FoodItem>
    decreases food.len(),
{
    if food.len() == 0 {
        Seq::empty()
    } else if spec_collides(cfg, head, food[0].pos) {
        survivors(cfg, head, food.drop_first())
    } else {
        seq![food[0]] + survivors(cfg, head, food.drop_first())
    }
}

/// All identities in the sequence are pairwise distinct.
pub open spec fn distinct_ids(food: Seq<FoodItem>) -> bool {
    forall|i: int, j: int| 0 <= i < j < food.len() ==> food[i].id != food[j].id
}

/// The surviving items are drawn from the original sequence: no longer, each
/// one present in the original, identities still pairwise distinct.
pub proof fn lemma_survivors_within(cfg: Config, head: Position, food: Seq<FoodItem>)
    ensures
        survivors(cfg, head, food).len() <= food.len(),
        forall|k: int| 0 <= k < survivors(cfg, head, food).len()
            ==> food.contains(#[trigger] survivors(cfg, head, food)[k]),
        distinct_ids(food) ==> distinct_ids(survivors(cfg, head, food)),
    decreases food.len(),
{
    if food.len() == 0 {
    } else {
        let rest = food.drop_first();
        lemma_survivors_within(cfg, head, rest);
        let surv_rest = survivors(cfg, head, rest);
        assert forall|k: int| 0 <= k < surv_rest.len()
            implies food.contains(surv_rest[k]) by {
            assert(rest.contains(surv_rest[k]));
            let j = choose|j: int| 0 <= j < rest.len() && rest[j] == surv_rest[k];
            assert(food[j + 1] == surv_rest[k]);
        }
        if spec_collides(cfg, head, food[0].pos) {
        } else {
            let surv = survivors(cfg, head, food);
            assert(surv == seq![food[0]] + surv_rest);
            assert(food.contains(surv[0])) by {
                assert(food[0] == surv[0]);
            }
            if distinct_ids(food) {
                assert(distinct_ids(rest)) by {
                    assert forall|i: int, j: int| 0 <= i < j < rest.len()
                        implies rest[i].id != rest[j].id by {
                        assert(rest[i] == food[i + 1]);
                        assert(rest[j] == food[j + 1]);
                    }
                }
                assert forall|i: int, j: int| 0 <= i < j < surv.len()
                    implies surv[i].id != surv[j].id by {
                    if i == 0 {
                        assert(rest.contains(surv_rest[j - 1]));
                        let m = choose|m: int|
                            0 <= m < rest.len() && rest[m] == surv_rest[j - 1];
                        assert(food[m + 1] == surv_rest[j - 1]);
                        assert(food[0].id != food[m + 1].id);
                    } else {
                        assert(surv[i] == surv_rest[i - 1]);
                        assert(surv[j] == surv_rest[j - 1]);
                    }
                }
            }
        }
    }
}

/// A copy of the items' positions, in item order, for read-only consumers.
pub fn positions_of(food: &Vec<FoodItem>) -> (v: Vec<Position>)
    ensures
        v@ == food@.map_values(|f: FoodItem| f.pos),
{
    let mut v: Vec<Position> = Vec::new();
    let mut i: usize = 0;
    while i < food.len()
        invariant
            i <= food@.len(),
            v@ == food@.take(i as int).map_values(|f: FoodItem| f.pos),
        decreases food@.len() - i,
    {
        v.push(food[i].pos);
        proof {
            assert(v@ =~= food@.take(i + 1 as int).map_values(|f: FoodItem| f.pos));
        }
        i = i + 1;
    }
    proof {
        assert(v@ =~= food@.map_values(|f: FoodItem| f.pos));
    }
    v
}

/// One eating pass: removes every live food item that collides with the head
/// and returns how many were removed. Each removed item stands for one
/// growth request and one point scored; the caller applies both.
pub fn eat_colliding(cfg: &Config, head: Position, food: &mut Vec<FoodItem>) -> (eaten: usize)
    requires
        cfg.in_arena(head),
        forall|i: int| 0 <= i < old(food)@.len() ==> cfg.in_arena(#[trigger] old(food)@[i].pos),
    ensures
        final(food)@ == survivors(*cfg, head, old(food)@),
        eaten as int == old(food)@.len() - final(food)@.len(),
{
    let ghost orig = food@;
    let mut kept: Vec<FoodItem> = Vec::new();
    let mut i: usize = 0;
    proof {
        assert(orig.skip(0) =~= orig);
        assert(kept@ + survivors(*cfg, head, orig) =~= survivors(*cfg, head, orig));
    }
    while i < food.len()
        invariant
            cfg.in_arena(head),
            forall|k: int| 0 <= k < food@.len() ==> cfg.in_arena(#[trigger] food@[k].pos),
            food@ == orig,
            i <= orig.len(),
            kept@.len() <= i,
            survivors(*cfg, head, orig) == kept@ + survivors(*cfg, head, orig.skip(i as int)),
        decreases orig.len() - i,
    {
        let item = food[i];
        proof {
            let tail = orig.skip(i as int);
            assert(tail[0] == orig[i as int]);
            assert(tail.drop_first() =~= orig.skip(i + 1 as int));
            if !spec_collides(*cfg, head, item.pos) {
                assert(kept@ + survivors(*cfg, head, tail)
                    =~= kept@.push(item) + survivors(*cfg, head, orig.skip(i + 1 as int)));
            }
        }
        if !collides(cfg, head, item.pos) {
            kept.push(item);
        }
        i = i + 1;
    }
    proof {
        assert(orig.skip(orig.len() as int) =~= Seq::<FoodItem>::empty());
        assert(survivors(*cfg, head, orig) =~= kept@);
        lemma_survivors_within(*cfg, head, orig);
    }
    let eaten = food.len() - kept.len();
    *food = kept;
    eaten
}

} // verus!
