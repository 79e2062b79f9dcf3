//! Searches up the scene graph. A hit lands on a mesh deep inside a model;
//! what it means depends on the entities above that mesh.
//!
//! A chain lists an entity and then its ancestors: `chain[0]` is the entity
//! itself, `chain[i + 1]` is the parent of `chain[i]`, and the last one has no
//! parent. Each entry tells what role that entity plays.

use vstd::prelude::*;

verus! {

/// What an entity of the scene is, as far as these searches care.
#[derive(Clone, Copy, Debug, PartialEq, Eq, Structural)]
pub enum NodeRole {
    Ground,
    Skull,
    Skeleton,
    Arms,
    Other,
}

pub open spec fn is_enemy(role: NodeRole) -> bool {
    role == NodeRole::Skull || role == NodeRole::Skeleton
}

fn role_is_enemy(role: NodeRole) -> (r: bool)
    ensures
        r == is_enemy(role),
{
    match role {
        NodeRole::Skull => true,
        NodeRole::Skeleton => true,
        _ => false,
    }
}

fn role_is_ground(role: NodeRole) -> (r: bool)
    ensures
        r == (role == NodeRole::Ground),
{
    match role {
        NodeRole::Ground => true,
        _ => false,
    }
}

/// The nearest enemy at or above the entity that was hit: the index in the
/// chain of the first skull or skeleton, if there is one.
pub fn first_enemy(chain: &Vec<NodeRole>) -> (found: Option<usize>)
    ensures
        found matches Some(i) ==> i < chain.len() && is_enemy(chain@[i as int])
            && forall|j: int| 0 <= j < i ==> !is_enemy(#[trigger] chain@[j]),
        found is None ==> forall|j: int| 0 <= j < chain.len() ==> !is_enemy(#[trigger] chain@[j]),
{
    let mut i: usize = 0;
    while i < chain.len()
        invariant
            i <= chain.len(),
            forall|j: int| 0 <= j < i ==> !is_enemy(#[trigger] chain@[j]),
        decreases chain.len() - i,
    {
        if role_is_enemy(chain[i]) {
            return Some(i);
        }
        i = i + 1;
    }
    None
}

pub open spec fn in_ground(chain: Seq<NodeRole>) -> bool {
    exists|j: int| 0 <= j < chain.len() && chain[j] == NodeRole::Ground
}

/// Whether the entity is the ground or lies inside it.
pub fn belongs_to_ground(chain: &Vec<NodeRole>) -> (r: bool)
    ensures
        r == in_ground(chain@),
{
    let mut i: usize = 0;
    while i < chain.len()
        invariant
            i <= chain.len(),
            forall|j: int| 0 <= j < i ==> chain@[j] != NodeRole::Ground,
        decreases chain.len() - i,
    {
        if role_is_ground(chain[i]) {
            return true;
        }
        i = i + 1;
    }
    false
}

/// One hit of the ray cast down from the player, nearest first: the chain
/// above the entity hit, and whether the hit is close enough to stand on
/// (less than 3 units away).
pub struct RayHit {
    pub chain: Vec<NodeRole>,
    pub close: bool,
}

/// The player stands over ground when the nearest hit that belongs to the
/// ground is close enough; with no such hit, not.
pub open spec fn stands_over_ground(hits: Seq<RayHit>) -> bool {
    exists|i: int| {
        &&& 0 <= i < hits.len()
        &&& in_ground(#[trigger] hits[i].chain@)
        &&& hits[i].close
        &&& forall|j: int| 0 <= j < i ==> !in_ground(#[trigger] hits[j].chain@)
    }
}

/// Whether the player stands over ground, from the downward ray's hits.
pub fn over_ground(hits: &Vec<RayHit>) -> (r: bool)
    ensures
        r == stands_over_ground(hits@),
{
    let mut i: usize = 0;
    while i < hits.len()
        invariant
            i <= hits.len(),
            forall|j: int| 0 <= j < i ==> !in_ground(#[trigger] hits@[j].chain@),
        decreases hits.len() - i,
    {
        if belongs_to_ground(&hits[i].chain) {
            return hits[i].close;
        }
        i = i + 1;
    }
    false
}

/// The animation a newly loaded animation player takes on from one of its
/// ancestors.
#[derive(Clone, Copy, Debug, PartialEq, Eq, Structural)]
pub enum AnimBinding {
    /// It animates the player's arms: bind their graph, loop the idle clip.
    Arms,
    /// It animates a skeleton: bind the enemy graph, loop the walk.
    Skeleton,
}

/// The bindings an animation player takes from the ancestors among the first
/// `n` entries of its chain (its own entry aside), from the nearest up, each
/// with the ancestor's index in the chain.
pub open spec fn bindings_upto(chain: Seq<NodeRole>, n: int) -> Seq<(usize, AnimBinding)>
    decreases n,
{
    if n <= 1 {
        seq![]
    } else {
        let before = bindings_upto(chain, n - 1);
        let role = chain[n - 1];
        if role == NodeRole::Arms {
            before.push(((n - 1) as usize, AnimBinding::Arms))
        } else if role == NodeRole::Skeleton {
            before.push(((n - 1) as usize, AnimBinding::Skeleton))
        } else {
            before
        }
    }
}

/// The bindings a newly loaded animation player takes, walking up from its
/// parent to the root: every arms ancestor and every skeleton ancestor, with
/// its index in the chain.
pub fn animation_bindings(chain: &Vec<NodeRole>) -> (b: Vec<(usize, AnimBinding)>)
    ensures
        b@ == bindings_upto(chain@, chain.len() as int),
{
    let mut b: Vec<(usize, AnimBinding)> = Vec::new();
    let mut i: usize = 1;
    if chain.len() == 0 {
        return b;
    }
    while i < chain.len()
        invariant
            1 <= i <= chain.len(),
            b@ == bindings_upto(chain@, i as int),
        decreases chain.len() - i,
    {
        match chain[i] {
            NodeRole::Arms => b.push((i, AnimBinding::Arms)),
            NodeRole::Skeleton => b.push((i, AnimBinding::Skeleton)),
            _ => {},
        }
        i = i + 1;
    }
    b
}

} // verus!
