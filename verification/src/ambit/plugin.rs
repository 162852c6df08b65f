//! Sight: when an entity comes into, or leaves, the sight of another.
//!
//! An entity is told about another while the two are near. To keep a pair
//! from flickering at the border, entering and leaving use two distances.

use vstd::prelude::*;
use crate::ambit::packet::{DespawnEntity, SpawnEntity};
use crate::id::NetworkId;
use crate::path::plugin::{MaybeNextPosition, Position};

verus! {

/// The distance from which on an entity that moves away has left sight.
pub const LEAVE_DISTANCE: u32 = 12;

/// The distance below which an entity that comes closer is in sight.
pub const ENTER_DISTANCE: u32 = 10;

/// Whether two entities came into sight of each other, or left it.
#[derive(Clone, Copy, Debug, PartialEq, Eq, Structural)]
pub enum VisibilityCollisionKind {
    Enter,
    Leave,
}

/// A change of sight between two entities: the one that moved, and the one
/// that it met.
#[derive(Clone, Copy, Debug, PartialEq, Eq)]
pub struct VisibilityCollision {
    pub ids: [NetworkId; 2],
    pub kind: VisibilityCollisionKind,
}

/// What the move of one entity changes for another that stands at `other`.
///
/// The mover stands at `position` and, if it is taking a step, is about to
/// enter `next`. It leaves when it is within the leaving distance and its
/// step takes it to that distance or beyond. It enters when it is at the
/// entering distance or beyond and either stands still or steps to within
/// that distance.
pub open spec fn sight_change(position: Position, next: Option<Position>, other: Position) -> Option<
    VisibilityCollisionKind,
> {
    let now = position.spec_taxi_distance(other);
    if now < LEAVE_DISTANCE && (next matches Some(step) && step.spec_taxi_distance(other)
        >= LEAVE_DISTANCE) {
        Some(VisibilityCollisionKind::Leave)
    } else if now >= ENTER_DISTANCE && (next matches Some(step) ==> step.spec_taxi_distance(other)
        < ENTER_DISTANCE) {
        Some(VisibilityCollisionKind::Enter)
    } else {
        None
    }
}

/// What the move of one entity changes for another: see `sight_change`.
pub fn collision_kind(position: Position, next: Option<MaybeNextPosition>, other: Position) -> (kind:
    Option<VisibilityCollisionKind>)
    requires
        position.spec_taxi_distance(other) <= u32::MAX,
        next matches Some(MaybeNextPosition { next_position: Some(step) })
            ==> step.spec_position().spec_taxi_distance(other) <= u32::MAX,
    ensures
        kind == sight_change(
            position,
            match next {
                Some(MaybeNextPosition { next_position: Some(step) }) => Some(step.spec_position()),
                _ => None,
            },
            other,
        ),
{
    let step = match next {
        Some(maybe) => maybe.position(),
        None => None,
    };
    let now = position.taxi_distance(other);
    let leaves = match step {
        Some(step) => step.taxi_distance(other) >= LEAVE_DISTANCE,
        None => false,
    };
    let enters = match step {
        Some(step) => step.taxi_distance(other) < ENTER_DISTANCE,
        None => true,
    };
    if now < LEAVE_DISTANCE && leaves {
        Some(VisibilityCollisionKind::Leave)
    } else if now >= ENTER_DISTANCE && enters {
        Some(VisibilityCollisionKind::Enter)
    } else {
        None
    }
}

/// The changes of sight that one mover causes among `others`, in their
/// order. The mover itself is passed over.
pub open spec fn sight_changes(
    mover: NetworkId,
    position: Position,
    next: Option<Position>,
    others: Seq<(Position, NetworkId)>,
) -> Seq<VisibilityCollision>
    decreases others.len(),
{
    if others.len() == 0 {
        Seq::empty()
    } else {
        let before = sight_changes(mover, position, next, others.drop_last());
        let (other, id) = others.last();
        if id == mover {
            before
        } else {
            match sight_change(position, next, other) {
                Some(kind) => before.push(VisibilityCollision { ids: [mover, id], kind }),
                None => before,
            }
        }
    }
}

/// Whether every distance that `raise_events_on_collisions` measures fits 32
/// bits.
pub open spec fn measurable(
    position: Position,
    next: Option<Position>,
    others: Seq<(Position, NetworkId)>,
) -> bool {
    forall|i: int|
        0 <= i < others.len() ==> {
            &&& position.spec_taxi_distance((#[trigger] others[i]).0) <= u32::MAX
            &&& next matches Some(step) ==> step.spec_taxi_distance(others[i].0) <= u32::MAX
        }
}

/// The changes of sight that the move of one entity causes.
pub fn raise_events_on_collisions(
    mover: NetworkId,
    position: Position,
    next: Option<MaybeNextPosition>,
    others: &[(Position, NetworkId)],
) -> (collisions: Vec<VisibilityCollision>)
    requires
        measurable(
            position,
            match next {
                Some(MaybeNextPosition { next_position: Some(step) }) => Some(step.spec_position()),
                _ => None,
            },
            others@,
        ),
    ensures
        collisions@ == sight_changes(
            mover,
            position,
            match next {
                Some(MaybeNextPosition { next_position: Some(step) }) => Some(step.spec_position()),
                _ => None,
            },
            others@,
        ),
{
    let ghost step = match next {
        Some(MaybeNextPosition { next_position: Some(step) }) => Some(step.spec_position()),
        _ => None,
    };
    let mut collisions: Vec<VisibilityCollision> = Vec::new();
    let mut i: usize = 0;
    while i < others.len()
        invariant
            i <= others@.len(),
            measurable(position, step, others@),
            step == match next {
                Some(MaybeNextPosition { next_position: Some(step) }) => Some(step.spec_position()),
                _ => None,
            },
            collisions@ == sight_changes(mover, position, step, others@.take(i as int)),
        decreases others@.len() - i,
    {
        proof {
            assert(others@.take(i + 1).drop_last() =~= others@.take(i as int));
        }
        let (other, id) = others[i];
        if id.0 != mover.0 {
            match collision_kind(position, next, other) {
                Some(kind) => {
                    collisions.push(VisibilityCollision { ids: [mover, id], kind });
                },
                None => {},
            }
        }
        i = i + 1;
    }
    proof {
        assert(others@.take(i as int) =~= others@);
    }
    collisions
}

/// What a client is told about a change of sight.
#[derive(Clone, Copy, Debug, PartialEq, Eq, Structural)]
pub enum VisibilityNotice {
    Spawn(SpawnEntity),
    Despawn(DespawnEntity),
}

/// What the entity `told` is told about `seen` after their sight changed, or
/// nothing where the two are one.
pub fn notify_visibility_change_to_clients(
    told: NetworkId,
    seen: NetworkId,
    kind: VisibilityCollisionKind,
) -> (notice: Option<VisibilityNotice>)
    ensures
        notice == if told == seen {
            None
        } else {
            Some(
                match kind {
                    VisibilityCollisionKind::Enter => VisibilityNotice::Spawn(SpawnEntity { id: seen }),
                    VisibilityCollisionKind::Leave => VisibilityNotice::Despawn(
                        DespawnEntity { id: seen },
                    ),
                },
            )
        },
{
    if told.0 == seen.0 {
        None
    } else {
        Some(
            match kind {
                VisibilityCollisionKind::Enter => VisibilityNotice::Spawn(SpawnEntity { id: seen }),
                VisibilityCollisionKind::Leave => VisibilityNotice::Despawn(
                    DespawnEntity { id: seen },
                ),
            },
        )
    }
}

} // verus!
